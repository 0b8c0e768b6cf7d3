//! The tasks that are scheduled on the endpoint.
use crate::text::{decimal, push_decimal};
use crate::types::{CmdBatch, ConfigChange, Error, ObserveHandle, Region, StreamTask};
use vstd::prelude::*;
use vstd::string::*;

verus! {

/// Work for the endpoint.
#[derive(Clone, PartialEq, Eq)]
pub enum Task {
    WatchTask(TaskOp),
    BatchEvent(Vec<CmdBatch>),
    ChangeConfig(ConfigChange),
    /// Flush the task with name.
    Flush(String),
    /// Change the observe status of some region.
    ModifyObserve(ObserveOp),
    /// Convert status of some task into `flushing` and do flush then.
    ForceFlush(String),
    /// FatalError pauses the task and set the error.
    FatalError(String, Box<Error>),
}

/// A change of the tasks.
#[derive(Debug, Clone, PartialEq, Eq)]
pub enum TaskOp {
    AddTask(StreamTask),
    RemoveTask(String),
    PauseTask(String),
    ResumeTask(StreamTask),
}

/// A change of the observe status of some region.
#[derive(Debug, Clone, PartialEq, Eq)]
pub enum ObserveOp {
    Start {
        region: Region,
        /// If `true`, would scan and sink change from the global checkpoint ts.
        needs_initial_scanning: bool,
    },
    Stop { region: Region },
    CheckEpochAndStop { region: Region },
    RefreshResolver { region: Region },
    NotifyFailToStartObserve { region: Region, handle: ObserveHandle, err: Box<Error> },
}

impl ObserveOp {
    /// The region whose status changes.
    pub open spec fn spec_region(self) -> Region {
        match self {
            ObserveOp::Start { region, .. } => region,
            ObserveOp::Stop { region } => region,
            ObserveOp::CheckEpochAndStop { region } => region,
            ObserveOp::RefreshResolver { region } => region,
            ObserveOp::NotifyFailToStartObserve { region, .. } => region,
        }
    }
}

/// A field that is shown when a task is printed.
pub enum DebugField<'a> {
    Watch(&'a TaskOp),
    /// Stands for the batches, of which only the number is shown.
    Batches(String),
    Config(&'a ConfigChange),
    Name(&'a String),
    Observe(&'a ObserveOp),
    Failure(&'a Error),
}

/// How a task is printed: the name of its variant, then its fields.
pub struct TaskDebug<'a> {
    pub name: &'static str,
    pub fields: Vec<DebugField<'a>>,
}

/// What is shown of `n` batches.
pub open spec fn batches_text(n: nat) -> Seq<char> {
    "["@ + decimal(n) + " events...]"@
}

impl Task {
    /// The name of the task's variant.
    pub open spec fn variant(self) -> Seq<char> {
        match self {
            Task::WatchTask(_) => "WatchTask"@,
            Task::BatchEvent(_) => "BatchEvent"@,
            Task::ChangeConfig(_) => "ChangeConfig"@,
            Task::Flush(_) => "Flush"@,
            Task::ModifyObserve(_) => "ModifyObserve"@,
            Task::ForceFlush(_) => "ForceFlush"@,
            Task::FatalError(_, _) => "FatalError"@,
        }
    }

    /// Whether `fields` are what is shown of the task.
    pub open spec fn shown_as(self, fields: Seq<DebugField>) -> bool {
        match self {
            Task::WatchTask(op) => fields =~= seq![DebugField::Watch(&op)],
            Task::BatchEvent(events) => {
                &&& fields.len() == 1
                &&& fields[0] matches DebugField::Batches(text)
                &&& text@ == batches_text(events@.len())
            },
            Task::ChangeConfig(change) => fields =~= seq![DebugField::Config(&change)],
            Task::Flush(name) => fields =~= seq![DebugField::Name(&name)],
            Task::ModifyObserve(op) => fields =~= seq![DebugField::Observe(&op)],
            Task::ForceFlush(name) => fields =~= seq![DebugField::Name(&name)],
            Task::FatalError(name, err) => fields =~= seq![
                DebugField::Name(&name),
                DebugField::Failure(&*err),
            ],
        }
    }

    /// How the task is printed. Of the batches of an event only their number
    /// is shown.
    pub fn fmt(&self) -> (r: TaskDebug<'_>)
        ensures
            r.name@ == self.variant(),
            self.shown_as(r.fields@),
    {
        let mut fields: Vec<DebugField<'_>> = Vec::new();
        let name = match self {
            Task::WatchTask(op) => {
                fields.push(DebugField::Watch(op));
                "WatchTask"
            },
            Task::BatchEvent(events) => {
                let mut text = "[".to_owned();
                push_decimal(&mut text, events.len() as u64);
                text.append(" events...]");
                fields.push(DebugField::Batches(text));
                "BatchEvent"
            },
            Task::ChangeConfig(change) => {
                fields.push(DebugField::Config(change));
                "ChangeConfig"
            },
            Task::Flush(task) => {
                fields.push(DebugField::Name(task));
                "Flush"
            },
            Task::ModifyObserve(op) => {
                fields.push(DebugField::Observe(op));
                "ModifyObserve"
            },
            Task::ForceFlush(task) => {
                fields.push(DebugField::Name(task));
                "ForceFlush"
            },
            Task::FatalError(task, err) => {
                fields.push(DebugField::Name(task));
                fields.push(DebugField::Failure(err));
                "FatalError"
            },
        };
        TaskDebug { name, fields }
    }
}

/// A task is shown by its name and all that it holds, but for batches, of which
/// only the number is shown.
pub proof fn law_task_is_shown(task: Task, fields: Seq<DebugField>)
    requires
        task.shown_as(fields),
    ensures
        match task {
            Task::WatchTask(op) => task.variant() == "WatchTask"@ && fields == seq![
                DebugField::Watch(&op),
            ],
            Task::BatchEvent(events) => {
                &&& task.variant() == "BatchEvent"@
                &&& fields.len() == 1
                &&& fields[0] matches DebugField::Batches(text)
                &&& text@ == "["@ + decimal(events@.len()) + " events...]"@
            },
            Task::ChangeConfig(change) => task.variant() == "ChangeConfig"@ && fields == seq![
                DebugField::Config(&change),
            ],
            Task::Flush(name) => task.variant() == "Flush"@ && fields == seq![
                DebugField::Name(&name),
            ],
            Task::ModifyObserve(op) => task.variant() == "ModifyObserve"@ && fields == seq![
                DebugField::Observe(&op),
            ],
            Task::ForceFlush(name) => task.variant() == "ForceFlush"@ && fields == seq![
                DebugField::Name(&name),
            ],
            Task::FatalError(name, err) => task.variant() == "FatalError"@ && fields == seq![
                DebugField::Name(&name),
                DebugField::Failure(&*err),
            ],
        },
{
}

} // verus!
