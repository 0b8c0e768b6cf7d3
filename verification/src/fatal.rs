//! What is done about an error that stops a task.
use crate::procedure::{is_run, law_run_is_bounded, Bounded, Procedure};
use crate::register::{UnregisterRequest, UnregisterState};
use crate::report::Report;
use crate::task::Task;
use crate::types::Error;
use vstd::prelude::*;

verus! {

/// After how many seconds an error that could not be published is dealt with
/// again.
pub const RETRY_DELAY: u64 = 5;

/// How dealing with a fatal error ended.
#[derive(Debug, Clone, Copy, PartialEq, Eq)]
pub enum FatalOutcome {
    /// The task is paused and its error is published.
    Published,
    /// Either could not be done, and will be tried again.
    Retrying,
}

/// What is left to do about a fatal error.
#[derive(Clone, PartialEq, Eq)]
pub enum FatalState {
    /// The task is taken off this endpoint.
    Unregister(UnregisterState),
    /// The error is reported.
    Report,
    /// The task is to be paused everywhere.
    Pause,
    /// The time is needed.
    Now,
    /// The error is to be published.
    Publish { happen_at: u64 },
    /// The task was not paused, or its error not published.
    ReportUpload { upload_err: Error },
    /// The error is to be dealt with again.
    Reschedule { again: Task },
    Done(FatalOutcome),
}

/// A fatal error that is being dealt with.
#[derive(Clone, PartialEq, Eq)]
pub struct FatalJob {
    pub task: String,
    pub err: Box<Error>,
    pub store_id: u64,
    /// Whether the endpoint has a client of the metadata store.
    pub meta_client: bool,
    pub state: FatalState,
}

/// What is published of an error.
#[derive(Debug, Clone, Copy, PartialEq, Eq)]
pub struct LastError<'a> {
    pub err: &'a Error,
    /// The store on which the error came up.
    pub store_id: u64,
    /// When the error was published, in milliseconds of the physical clock.
    pub happen_at: u64,
}

impl<'a> LastError<'a> {
    /// The code of the error.
    pub fn error_code(&self) -> (r: &'a String)
        ensures
            *r == self.err.code,
    {
        &self.err.code
    }

    /// The error in words.
    pub fn error_message(&self) -> (r: String)
        ensures
            r@ == self.err.spec_text(),
    {
        self.err.text()
    }
}

/// What dealing with a fatal error asks for.
#[derive(Clone, Copy, PartialEq, Eq)]
pub enum FatalRequest<'a> {
    /// A step of taking the task off.
    Unregister(UnregisterRequest<'a>),
    /// Report an error.
    Report { context: Report<'a>, err: &'a Error },
    /// Pause the task in the metadata store.
    Pause { task: &'a String },
    /// Read the physical clock.
    PhysicalNow,
    /// Publish the error of the task in the metadata store.
    ReportLastError { task: &'a String, last_error: LastError<'a> },
    /// Schedule a task, after a while, if the scheduler takes it.
    ScheduleAfter { secs: u64, again: &'a Task },
    /// Nothing: the error is dealt with.
    Nothing,
}

/// A reply to what dealing with a fatal error asked for.
#[derive(Debug, PartialEq, Eq)]
pub enum FatalReply {
    Paused(Result<(), Error>),
    Time(u64),
    Published(Result<(), Error>),
    /// What was asked for is done, or on its way.
    Acknowledged,
}

impl FatalJob {
    /// The state after `reply`.
    pub open spec fn after(self, reply: FatalReply) -> FatalState {
        match (self.state, reply) {
            (FatalState::Unregister(step), _) => match step.spec_next() {
                UnregisterState::Done => FatalState::Report,
                next => FatalState::Unregister(next),
            },
            (FatalState::Report, _) => FatalState::Pause,
            (FatalState::Pause, FatalReply::Paused(Ok(_))) => FatalState::Now,
            (FatalState::Pause, FatalReply::Paused(Err(upload_err))) => FatalState::ReportUpload {
                upload_err,
            },
            (FatalState::Now, FatalReply::Time(happen_at)) => FatalState::Publish { happen_at },
            (FatalState::Publish { .. }, FatalReply::Published(Err(upload_err))) =>
                FatalState::ReportUpload { upload_err },
            (FatalState::ReportUpload { .. }, _) => FatalState::Reschedule {
                again: Task::FatalError(self.task, self.err),
            },
            (FatalState::Reschedule { .. }, _) => FatalState::Done(FatalOutcome::Retrying),
            _ => FatalState::Done(FatalOutcome::Published),
        }
    }

    /// What this step asks for.
    pub open spec fn pending(&self) -> FatalRequest<'_> {
        match &self.state {
            FatalState::Unregister(step) => FatalRequest::Unregister(step.pending(&self.task)),
            FatalState::Report => FatalRequest::Report {
                context: Report::Fatal { err: &*self.err },
                err: &*self.err,
            },
            FatalState::Pause => FatalRequest::Pause { task: &self.task },
            FatalState::Now => FatalRequest::PhysicalNow,
            FatalState::Publish { happen_at } => FatalRequest::ReportLastError {
                task: &self.task,
                last_error: LastError {
                    err: &*self.err,
                    store_id: self.store_id,
                    happen_at: *happen_at,
                },
            },
            FatalState::ReportUpload { upload_err } => FatalRequest::Report {
                context: Report::UploadError { err: upload_err },
                err: upload_err,
            },
            FatalState::Reschedule { again } => FatalRequest::ScheduleAfter {
                secs: RETRY_DELAY,
                again,
            },
            FatalState::Done(_) => FatalRequest::Nothing,
        }
    }

    /// What this step asks for.
    pub fn request(&self) -> (r: FatalRequest<'_>)
        ensures
            r == self.pending(),
    {
        match &self.state {
            FatalState::Unregister(step) => FatalRequest::Unregister(step.request(&self.task)),
            FatalState::Report => FatalRequest::Report {
                context: Report::Fatal { err: &*self.err },
                err: &*self.err,
            },
            FatalState::Pause => FatalRequest::Pause { task: &self.task },
            FatalState::Now => FatalRequest::PhysicalNow,
            FatalState::Publish { happen_at } => FatalRequest::ReportLastError {
                task: &self.task,
                last_error: LastError {
                    err: &*self.err,
                    store_id: self.store_id,
                    happen_at: *happen_at,
                },
            },
            FatalState::ReportUpload { upload_err } => FatalRequest::Report {
                context: Report::UploadError { err: upload_err },
                err: upload_err,
            },
            FatalState::Reschedule { again } => FatalRequest::ScheduleAfter {
                secs: RETRY_DELAY,
                again,
            },
            FatalState::Done(_) => FatalRequest::Nothing,
        }
    }

    /// The first step of dealing with `err`, which stops `task`.
    pub open spec fn first(
        task: String,
        err: Box<Error>,
        store_id: u64,
        meta_client: bool,
    ) -> FatalJob {
        FatalJob {
            task,
            err,
            store_id,
            meta_client,
            state: FatalState::Unregister(UnregisterState::UnregisterTask),
        }
    }

    /// Begins to deal with `err`, which stops `task`.
    pub fn begin(task: String, err: Box<Error>, store_id: u64, meta_client: bool) -> (job:
        FatalJob)
        ensures
            job == FatalJob::first(task, err, store_id, meta_client),
    {
        FatalJob {
            task,
            err,
            store_id,
            meta_client,
            state: FatalState::Unregister(UnregisterState::UnregisterTask),
        }
    }

    /// How it ended, once it is done.
    pub fn outcome(&self) -> (r: Option<FatalOutcome>)
        ensures
            r == match self.state {
                FatalState::Done(outcome) => Some(outcome),
                _ => None,
            },
    {
        match &self.state {
            FatalState::Done(outcome) => Some(*outcome),
            _ => None,
        }
    }
}

impl Procedure for FatalJob {
    type Reply = FatalReply;

    open spec fn answered_by(self, reply: FatalReply) -> bool {
        match self.state {
            FatalState::Unregister(step) => !(step is Done) && reply is Acknowledged,
            FatalState::Report => reply is Acknowledged,
            // Only the metadata store can pause the task everywhere.
            FatalState::Pause => self.meta_client && reply is Paused,
            FatalState::Now => reply is Time,
            FatalState::Publish { .. } => reply is Published,
            FatalState::ReportUpload { .. } => reply is Acknowledged,
            FatalState::Reschedule { .. } => reply is Acknowledged,
            FatalState::Done(_) => false,
        }
    }

    open spec fn leads_to(self, reply: FatalReply, next: FatalJob) -> bool {
        next == (FatalJob {
            task: self.task,
            err: self.err,
            store_id: self.store_id,
            meta_client: self.meta_client,
            state: self.after(reply),
        })
    }

    open spec fn is_done(self) -> bool {
        self.state is Done
    }

    fn accepts(&self, reply: &FatalReply) -> (r: bool) {
        match (&self.state, reply) {
            (FatalState::Unregister(UnregisterState::Done), _) => false,
            (FatalState::Unregister(_), FatalReply::Acknowledged) => true,
            (FatalState::Report, FatalReply::Acknowledged) => true,
            (FatalState::Pause, FatalReply::Paused(_)) => self.meta_client,
            (FatalState::Now, FatalReply::Time(_)) => true,
            (FatalState::Publish { .. }, FatalReply::Published(_)) => true,
            (FatalState::ReportUpload { .. }, FatalReply::Acknowledged) => true,
            (FatalState::Reschedule { .. }, FatalReply::Acknowledged) => true,
            _ => false,
        }
    }

    fn resume(self, reply: FatalReply) -> (next: FatalJob) {
        let task = self.task;
        let err = self.err;
        let store_id = self.store_id;
        let meta_client = self.meta_client;
        let state = match (self.state, reply) {
            (FatalState::Unregister(step), _) => match step.next() {
                UnregisterState::Done => FatalState::Report,
                next => FatalState::Unregister(next),
            },
            (FatalState::Report, _) => FatalState::Pause,
            (FatalState::Pause, FatalReply::Paused(result)) => match result {
                Ok(_) => FatalState::Now,
                Err(upload_err) => FatalState::ReportUpload { upload_err },
            },
            (FatalState::Now, FatalReply::Time(happen_at)) => FatalState::Publish { happen_at },
            (FatalState::Publish { .. }, FatalReply::Published(result)) => match result {
                Ok(_) => FatalState::Done(FatalOutcome::Published),
                Err(upload_err) => FatalState::ReportUpload { upload_err },
            },
            (FatalState::ReportUpload { .. }, _) => {
                let again = Task::FatalError(task.clone(), Box::new((*err).clone()));
                FatalState::Reschedule { again }
            },
            (FatalState::Reschedule { .. }, _) => FatalState::Done(FatalOutcome::Retrying),
            _ => FatalState::Done(FatalOutcome::Published),
        };
        FatalJob { task, err, store_id, meta_client, state }
    }

    fn done(&self) -> (r: bool) {
        match &self.state {
            FatalState::Done(_) => true,
            _ => false,
        }
    }
}

impl Bounded for FatalJob {
    open spec fn remaining(self) -> nat {
        match self.state {
            FatalState::Unregister(UnregisterState::UnregisterTask) => 9,
            FatalState::Unregister(UnregisterState::ClearSubscriptions) => 8,
            FatalState::Unregister(_) => 7,
            FatalState::Report => 6,
            FatalState::Pause => 5,
            FatalState::Now => 4,
            FatalState::Publish { .. } => 3,
            FatalState::ReportUpload { .. } => 2,
            FatalState::Reschedule { .. } => 1,
            FatalState::Done(_) => 0,
        }
    }

    proof fn lemma_remaining_decreases(self, reply: FatalReply, next: FatalJob) {
    }
}

/// The first four replies about a fatal error lead through the removal of the
/// task and the report of the error to the pause of the task.
proof fn lemma_head(
    task: String,
    err: Box<Error>,
    store_id: u64,
    meta_client: bool,
    steps: Seq<FatalJob>,
    replies: Seq<FatalReply>,
)
    requires
        is_run(steps, replies),
        steps[0] == FatalJob::first(task, err, store_id, meta_client),
    ensures
        replies.len() >= 1 ==> steps[1] == (FatalJob {
            state: FatalState::Unregister(UnregisterState::ClearSubscriptions),
            ..steps[0]
        }),
        replies.len() >= 2 ==> steps[2] == (FatalJob {
            state: FatalState::Unregister(UnregisterState::ClearRanges),
            ..steps[0]
        }),
        replies.len() >= 3 ==> steps[3] == (FatalJob { state: FatalState::Report, ..steps[0] }),
        replies.len() >= 4 ==> steps[4] == (FatalJob { state: FatalState::Pause, ..steps[0] }),
{
    if replies.len() >= 1 {
        assert(steps[0].leads_to(replies[0], steps[1]));
    }
    if replies.len() >= 2 {
        assert(steps[1].leads_to(replies[1], steps[2]));
    }
    if replies.len() >= 3 {
        assert(steps[2].leads_to(replies[2], steps[3]));
    }
    if replies.len() >= 4 {
        assert(steps[3].leads_to(replies[3], steps[4]));
    }
}

/// A task that is stopped by an error is first taken off this endpoint. Only
/// then is the error reported, and only then is the task paused everywhere.
pub proof fn law_stopped_task_is_taken_off_first(
    task: String,
    err: Box<Error>,
    store_id: u64,
    meta_client: bool,
    steps: Seq<FatalJob>,
    replies: Seq<FatalReply>,
)
    requires
        is_run(steps, replies),
        steps[0] == FatalJob::first(task, err, store_id, meta_client),
        replies.len() >= 4,
    ensures
        steps[0].pending() == FatalRequest::Unregister(
            UnregisterRequest::UnregisterTask { task: &task },
        ),
        steps[1].pending() == FatalRequest::Unregister(UnregisterRequest::ClearSubscriptions),
        steps[2].pending() == FatalRequest::Unregister(UnregisterRequest::ClearRanges),
        steps[3].pending() == (FatalRequest::Report {
            context: Report::Fatal { err: &*err },
            err: &*err,
        }),
        steps[4].pending() == (FatalRequest::Pause { task: &task }),
{
    lemma_head(task, err, store_id, meta_client, steps, replies);
}

/// What is published is the error that stopped the task, with the store on
/// which it came up, and only once the task is paused.
pub proof fn law_error_is_published_once_paused(
    task: String,
    err: Box<Error>,
    store_id: u64,
    meta_client: bool,
    steps: Seq<FatalJob>,
    replies: Seq<FatalReply>,
    i: int,
)
    requires
        is_run(steps, replies),
        steps[0] == FatalJob::first(task, err, store_id, meta_client),
        0 <= i < steps.len(),
        steps[i].pending() is ReportLastError,
    ensures
        i == 6,
        replies[4] matches FatalReply::Paused(Ok(_)),
        replies[5] matches FatalReply::Time(happen_at) && steps[i].pending() == (
        FatalRequest::ReportLastError {
            task: &task,
            last_error: LastError { err: &*err, store_id, happen_at },
        }),
{
    lemma_head(task, err, store_id, meta_client, steps, replies);
    law_run_is_bounded(steps, replies);
    assert(i >= 4);
    if i > 4 {
        assert(steps[4].leads_to(replies[4], steps[5]) && steps[4].answered_by(replies[4]));
    }
    if i > 5 {
        assert(steps[5].leads_to(replies[5], steps[6]) && steps[5].answered_by(replies[5]));
    }
    if i > 6 {
        assert(steps[6].leads_to(replies[6], steps[7]) && steps[6].answered_by(replies[6]));
    }
    if i > 7 {
        assert(steps[7].leads_to(replies[7], steps[8]) && steps[7].answered_by(replies[7]));
    }
    if i > 8 {
        assert(steps[8].leads_to(replies[8], steps[9]) && steps[8].answered_by(replies[8]));
    }
}

/// Where the task cannot be paused or its error not be published, that failure
/// is reported, and after a while the same error of the same task is dealt
/// with again.
pub proof fn law_unpublished_error_is_dealt_with_again(
    task: String,
    err: Box<Error>,
    store_id: u64,
    meta_client: bool,
    steps: Seq<FatalJob>,
    replies: Seq<FatalReply>,
    i: int,
    upload_err: Error,
)
    requires
        is_run(steps, replies),
        steps[0] == FatalJob::first(task, err, store_id, meta_client),
        0 <= i < replies.len(),
        replies[i] == FatalReply::Paused(Err(upload_err)) || replies[i] == FatalReply::Published(
            Err(upload_err),
        ),
    ensures
        steps[i + 1].pending() == (FatalRequest::Report {
            context: Report::UploadError { err: &upload_err },
            err: &upload_err,
        }),
        i + 1 < replies.len() ==> steps[i + 2].pending() == (FatalRequest::ScheduleAfter {
            secs: 5,
            again: &Task::FatalError(task, err),
        }),
{
    law_fatal_error_keeps_to_its_task(task, err, store_id, meta_client, steps, replies, i);
    assert(steps[i].leads_to(replies[i], steps[i + 1]) && steps[i].answered_by(replies[i]));
    if i + 1 < replies.len() {
        assert(steps[i + 1].leads_to(replies[i + 1], steps[i + 2]));
    }
}

/// Dealing with a fatal error keeps to its task, its error and its store, up to
/// the task that deals with it again.
pub proof fn law_fatal_error_keeps_to_its_task(
    task: String,
    err: Box<Error>,
    store_id: u64,
    meta_client: bool,
    steps: Seq<FatalJob>,
    replies: Seq<FatalReply>,
    i: int,
)
    requires
        is_run(steps, replies),
        steps[0] == FatalJob::first(task, err, store_id, meta_client),
        0 <= i < steps.len(),
    ensures
        steps[i].task == task,
        steps[i].err == err,
        steps[i].store_id == store_id,
        steps[i].meta_client == meta_client,
        steps[i].state matches FatalState::Reschedule { again } ==> again == Task::FatalError(
            task,
            err,
        ),
    decreases i,
{
    if i > 0 {
        law_fatal_error_keeps_to_its_task(task, err, store_id, meta_client, steps, replies, i - 1);
        assert(steps[i - 1].leads_to(replies[i - 1], steps[i]));
    }
}

/// Dealing with a fatal error takes at most nine replies, and ends with the
/// error published or with another try on its way.
pub proof fn law_fatal_error_is_dealt_with(
    task: String,
    err: Box<Error>,
    store_id: u64,
    meta_client: bool,
    steps: Seq<FatalJob>,
    replies: Seq<FatalReply>,
)
    requires
        is_run(steps, replies),
        steps[0] == FatalJob::first(task, err, store_id, meta_client),
        steps.last().is_done(),
    ensures
        replies.len() <= 9,
        ({
            let last = replies.len() - 1;
            ||| steps.last().state == FatalState::Done(FatalOutcome::Published)
                && replies[last] matches FatalReply::Published(Ok(_))
            ||| steps.last().state == FatalState::Done(FatalOutcome::Retrying)
                && steps[last].pending() is ScheduleAfter
        }),
{
    law_run_is_bounded(steps, replies);
    let last = replies.len() - 1;
    assert(last >= 0);
    assert(steps[last].leads_to(replies[last], steps[last + 1]));
    assert(steps[last].answered_by(replies[last]));
}

/// Without a client of the metadata store, the task is taken off this endpoint
/// and the error is reported, and there it ends.
pub proof fn law_without_client_the_task_is_only_taken_off(
    task: String,
    err: Box<Error>,
    store_id: u64,
    steps: Seq<FatalJob>,
    replies: Seq<FatalReply>,
)
    requires
        is_run(steps, replies),
        steps[0] == FatalJob::first(task, err, store_id, false),
    ensures
        replies.len() <= 4,
{
    lemma_head(task, err, store_id, false, steps, replies);
    if replies.len() > 4 {
        assert(steps[4].answered_by(replies[4]));
    }
}

/// Which replies dealing with a fatal error takes: those that answer what it
/// asks for, whatever they hold. Without a client of the metadata store nothing
/// answers the request to pause the task.
pub proof fn law_fatal_error_takes_any_answer(
    task: String,
    err: Box<Error>,
    store_id: u64,
    meta_client: bool,
    steps: Seq<FatalJob>,
    replies: Seq<FatalReply>,
    i: int,
    reply: FatalReply,
)
    requires
        is_run(steps, replies),
        steps[0] == FatalJob::first(task, err, store_id, meta_client),
        0 <= i < steps.len(),
    ensures
        steps[0].pending() == FatalRequest::Unregister(
            UnregisterRequest::UnregisterTask { task: &task },
        ),
        steps[i].is_done() <==> steps[i].pending() is Nothing,
        steps[i].answered_by(reply) == match steps[i].pending() {
            FatalRequest::Unregister(_) => reply is Acknowledged,
            FatalRequest::Report { .. } => reply is Acknowledged,
            FatalRequest::Pause { .. } => meta_client && reply is Paused,
            FatalRequest::PhysicalNow => reply is Time,
            FatalRequest::ReportLastError { .. } => reply is Published,
            FatalRequest::ScheduleAfter { .. } => reply is Acknowledged,
            FatalRequest::Nothing => false,
        },
{
    law_fatal_error_keeps_to_its_task(task, err, store_id, meta_client, steps, replies, i);
    if i > 0 {
        assert(steps[i - 1].leads_to(replies[i - 1], steps[i]));
    }
}

/// What dealing with a fatal error asks for after each reply. It is dealt with
/// once it is published, and dealt with again, after five seconds, where the
/// task could not be paused or the error not be published.
pub proof fn law_fatal_error_goes_on(
    task: String,
    err: Box<Error>,
    store_id: u64,
    meta_client: bool,
    steps: Seq<FatalJob>,
    replies: Seq<FatalReply>,
    i: int,
)
    requires
        is_run(steps, replies),
        steps[0] == FatalJob::first(task, err, store_id, meta_client),
        0 <= i < replies.len(),
    ensures
        match (steps[i].pending(), replies[i]) {
            (
                FatalRequest::Unregister(UnregisterRequest::UnregisterTask { .. }),
                FatalReply::Acknowledged,
            ) => steps[i + 1].pending() == FatalRequest::Unregister(
                UnregisterRequest::ClearSubscriptions,
            ),
            (
                FatalRequest::Unregister(UnregisterRequest::ClearSubscriptions),
                FatalReply::Acknowledged,
            ) => steps[i + 1].pending() == FatalRequest::Unregister(UnregisterRequest::ClearRanges),
            (
                FatalRequest::Unregister(UnregisterRequest::ClearRanges),
                FatalReply::Acknowledged,
            ) => steps[i + 1].pending() == (FatalRequest::Report {
                context: Report::Fatal { err: &*err },
                err: &*err,
            }),
            (
                FatalRequest::Report { context: Report::Fatal { .. }, .. },
                FatalReply::Acknowledged,
            ) => steps[i + 1].pending() == (FatalRequest::Pause { task: &task }),
            (FatalRequest::Pause { .. }, FatalReply::Paused(Ok(_))) => steps[i + 1].pending()
                == FatalRequest::PhysicalNow,
            (FatalRequest::Pause { .. }, FatalReply::Paused(Err(upload_err))) =>
                steps[i + 1].pending() == (FatalRequest::Report {
                    context: Report::UploadError { err: &upload_err },
                    err: &upload_err,
                }),
            (FatalRequest::PhysicalNow, FatalReply::Time(happen_at)) => steps[i + 1].pending() == (
            FatalRequest::ReportLastError {
                task: &task,
                last_error: LastError { err: &*err, store_id, happen_at },
            }),
            (FatalRequest::ReportLastError { .. }, FatalReply::Published(Ok(_))) => {
                &&& steps[i + 1].state == FatalState::Done(FatalOutcome::Published)
                &&& steps[i + 1].pending() == FatalRequest::Nothing
            },
            (FatalRequest::ReportLastError { .. }, FatalReply::Published(Err(upload_err))) =>
                steps[i + 1].pending() == (FatalRequest::Report {
                    context: Report::UploadError { err: &upload_err },
                    err: &upload_err,
                }),
            (
                FatalRequest::Report { context: Report::UploadError { .. }, .. },
                FatalReply::Acknowledged,
            ) => steps[i + 1].pending() == (FatalRequest::ScheduleAfter {
                secs: 5,
                again: &Task::FatalError(task, err),
            }),
            (FatalRequest::ScheduleAfter { .. }, FatalReply::Acknowledged) => steps[i + 1].state
                == FatalState::Done(FatalOutcome::Retrying),
            _ => false,
        },
{
    law_fatal_error_keeps_to_its_task(task, err, store_id, meta_client, steps, replies, i);
    law_fatal_error_keeps_to_its_task(task, err, store_id, meta_client, steps, replies, i + 1);
    assert(steps[i].leads_to(replies[i], steps[i + 1]) && steps[i].answered_by(replies[i]));
}

/// An error is dealt with again only where the task could not be paused, or the
/// error not be published.
pub proof fn law_only_unpublished_errors_are_dealt_with_again(
    task: String,
    err: Box<Error>,
    store_id: u64,
    meta_client: bool,
    steps: Seq<FatalJob>,
    replies: Seq<FatalReply>,
    i: int,
)
    requires
        is_run(steps, replies),
        steps[0] == FatalJob::first(task, err, store_id, meta_client),
        0 <= i < steps.len(),
        steps[i].pending() is ScheduleAfter,
    ensures
        i > 1,
        replies[i - 2] matches FatalReply::Paused(Err(_)) || replies[i - 2] matches
            FatalReply::Published(Err(_)),
{
    assert(i > 0);
    assert(steps[i - 1].leads_to(replies[i - 1], steps[i]));
    assert(steps[i - 1].answered_by(replies[i - 1]));
    assert(i > 1);
    assert(steps[i - 2].leads_to(replies[i - 2], steps[i - 1]));
    assert(steps[i - 2].answered_by(replies[i - 2]));
}

} // verus!
