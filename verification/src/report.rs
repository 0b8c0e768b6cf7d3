//! What is said along with an error when it is reported.
use crate::types::Error;
use vstd::prelude::*;
use vstd::string::*;

verus! {

/// The occasion on which an error is reported.
#[derive(Debug, Clone, Copy, PartialEq, Eq)]
pub enum Report<'a> {
    /// The tasks, or the changes of them, cannot be watched any more.
    WatchTasks,
    /// Pauses and resumptions cannot be watched any more.
    WatchPause,
    /// The watcher met an error and goes on.
    WatchEvent,
    /// The error that stops a task.
    Fatal { err: &'a Error },
    /// The error of a task could not be published.
    UploadError { err: &'a Error },
    /// The router refused a task.
    RegisterRefused { task: &'a String },
    /// The ranges of a task are not known.
    RangesNotFound { task: &'a String },
    /// The data that a range held could not be loaded.
    InitializeRange,
    /// A region could not be scanned. The words end where the region is to be
    /// named.
    InitialScan,
    /// The timestamp oracle gave no timestamp.
    GetTso,
    /// The service safe point could not be moved.
    SafePoint,
    /// The checkpoint of a task could not be moved.
    Flushing { task: &'a String },
}

impl<'a> Report<'a> {
    pub open spec fn spec_text(self) -> Seq<char> {
        match self {
            Report::WatchTasks => "failed to start watch tasks"@,
            Report::WatchPause => "failed to start watch pause"@,
            Report::WatchEvent => "metadata client watch meet error"@,
            Report::Fatal { err } => "fatal for task "@ + err.spec_text(),
            Report::UploadError { err } => "failed to upload error "@ + err.spec_text(),
            Report::RegisterRefused { task } => "failed to register backup stream task "@ + task@,
            Report::RangesNotFound { task } => "failed to register backup stream task "@ + task@
                + " to router: ranges not found"@,
            Report::InitializeRange => "backup stream initialize failed"@,
            Report::InitialScan => "during initial scanning of region "@,
            Report::GetTso => "failed to get tso from pd"@,
            Report::SafePoint => "failed to update service safe point!"@,
            Report::Flushing { task } => "on flushing task "@ + task@,
        }
    }

    /// What is said along with the error.
    pub fn text(&self) -> (text: String)
        ensures
            text@ == self.spec_text(),
    {
        match self {
            Report::WatchTasks => "failed to start watch tasks".to_owned(),
            Report::WatchPause => "failed to start watch pause".to_owned(),
            Report::WatchEvent => "metadata client watch meet error".to_owned(),
            Report::Fatal { err } => {
                let mut text = "fatal for task ".to_owned();
                text.append(err.text().as_str());
                text
            },
            Report::UploadError { err } => {
                let mut text = "failed to upload error ".to_owned();
                text.append(err.text().as_str());
                text
            },
            Report::RegisterRefused { task } => {
                let mut text = "failed to register backup stream task ".to_owned();
                text.append(task.as_str());
                text
            },
            Report::RangesNotFound { task } => {
                let mut text = "failed to register backup stream task ".to_owned();
                text.append(task.as_str());
                text.append(" to router: ranges not found");
                text
            },
            Report::InitializeRange => "backup stream initialize failed".to_owned(),
            Report::InitialScan => "during initial scanning of region ".to_owned(),
            Report::GetTso => "failed to get tso from pd".to_owned(),
            Report::SafePoint => "failed to update service safe point!".to_owned(),
            Report::Flushing { task } => {
                let mut text = "on flushing task ".to_owned();
                text.append(task.as_str());
                text
            },
        }
    }
}

/// What is said on each occasion, whatever task or error it is about.
pub proof fn law_reports_say_what_failed(task: String, err: Error)
    ensures
        Report::WatchTasks.spec_text() == "failed to start watch tasks"@,
        Report::WatchPause.spec_text() == "failed to start watch pause"@,
        Report::WatchEvent.spec_text() == "metadata client watch meet error"@,
        (Report::Fatal { err: &err }).spec_text() == "fatal for task "@ + err.spec_text(),
        (Report::UploadError { err: &err }).spec_text() == "failed to upload error "@
            + err.spec_text(),
        (Report::RegisterRefused { task: &task }).spec_text()
            == "failed to register backup stream task "@ + task@,
        (Report::RangesNotFound { task: &task }).spec_text()
            == "failed to register backup stream task "@ + task@
            + " to router: ranges not found"@,
        Report::InitializeRange.spec_text() == "backup stream initialize failed"@,
        Report::InitialScan.spec_text() == "during initial scanning of region "@,
        Report::GetTso.spec_text() == "failed to get tso from pd"@,
        Report::SafePoint.spec_text() == "failed to update service safe point!"@,
        (Report::Flushing { task: &task }).spec_text() == "on flushing task "@ + task@,
{
}

} // verus!
