//! Watching the tasks in the metadata store.
use crate::procedure::Procedure;
use crate::report::Report;
use crate::task::{Task, TaskOp};
use crate::types::{Error, StreamTask};
use vstd::prelude::*;

verus! {

/// The tasks that the metadata store holds, and the revision at which it was
/// read.
#[derive(Debug, PartialEq, Eq)]
pub struct StreamTasks {
    pub inner: Vec<StreamTask>,
    pub revision: i64,
}

/// What happened in the metadata store.
#[derive(Debug, Clone, PartialEq, Eq)]
pub enum MetadataEvent {
    AddTask(StreamTask),
    RemoveTask(String),
    PauseTask(String),
    ResumeTask(String),
    Error(Error),
}

/// The tasks that are to be scheduled for `tasks`: one for each task that is
/// not paused, in order.
pub open spec fn add_tasks(tasks: Seq<StreamTask>) -> Seq<Task> {
    tasks.filter(|task: StreamTask| !task.is_paused).map_values(
        |task: StreamTask| Task::WatchTask(TaskOp::AddTask(task)),
    )
}

/// What is left to do before the tasks are watched.
#[derive(Clone, PartialEq, Eq)]
pub enum StartWatchState {
    /// The tasks are needed.
    GetTasks,
    /// The task at `sent` is to be scheduled.
    Schedule { queue: Vec<Task>, sent: usize, revision: i64 },
    /// Changes of the tasks are to be watched.
    SpawnWatchTask { revision: i64 },
    /// Pauses and resumptions are to be watched.
    SpawnWatchPause { revision: i64 },
    /// The tasks cannot be watched.
    Report { err: Error },
    /// Whether the tasks are watched.
    Done { watched: bool },
}

/// The beginning of the watch.
#[derive(Clone, PartialEq, Eq)]
pub struct StartWatchJob {
    pub state: StartWatchState,
}

/// What the beginning of the watch asks for.
#[derive(Clone, Copy, PartialEq, Eq)]
pub enum StartWatchRequest<'a> {
    /// Get the tasks from the metadata store.
    GetTasks,
    /// Schedule a task.
    Schedule { task: &'a Task },
    /// Watch changes of the tasks, in the background.
    SpawnWatchTask { revision: i64 },
    /// Watch pauses and resumptions, in the background.
    SpawnWatchPause { revision: i64 },
    /// Report an error.
    Report { context: Report<'a>, err: &'a Error },
    /// Nothing: it is done.
    Nothing,
}

impl<'a> StartWatchRequest<'a> {
    /// The watcher that this request begins, if it begins one.
    pub open spec fn begun(self) -> Option<WatchJob> {
        match self {
            StartWatchRequest::SpawnWatchTask { revision } => Some(
                WatchJob { kind: WatchKind::Tasks, state: WatchState::Subscribe { revision } },
            ),
            StartWatchRequest::SpawnWatchPause { revision } => Some(
                WatchJob { kind: WatchKind::Pause, state: WatchState::Subscribe { revision } },
            ),
            _ => None,
        }
    }

    /// The watcher that this request begins, if it begins one.
    pub fn watcher(&self) -> (r: Option<WatchJob>)
        ensures
            r == self.begun(),
    {
        match self {
            StartWatchRequest::SpawnWatchTask { revision } => Some(
                WatchJob::starts_watch_task(*revision),
            ),
            StartWatchRequest::SpawnWatchPause { revision } => Some(
                WatchJob::starts_watch_pause(*revision),
            ),
            _ => None,
        }
    }
}

/// A reply to what the beginning of the watch asked for.
#[derive(Debug, PartialEq, Eq)]
pub enum StartWatchReply {
    Tasks(Result<StreamTasks, Error>),
    Scheduled(Result<(), Error>),
    /// What was asked for is done, or on its way.
    Acknowledged,
}

impl StartWatchState {
    /// Whether `self` is the step at which the tasks from `sent` on are still
    /// to be scheduled.
    pub open spec fn schedules_on(self, queue: Seq<Task>, sent: int, revision: i64) -> bool {
        if sent < queue.len() {
            &&& self matches StartWatchState::Schedule { queue: q, sent: s, revision: r }
            &&& q@ == queue
            &&& s == sent
            &&& r == revision
        } else {
            self == (StartWatchState::SpawnWatchTask { revision })
        }
    }
}

fn schedule_on(queue: Vec<Task>, sent: usize, revision: i64) -> (state: StartWatchState)
    ensures
        state.schedules_on(queue@, sent as int, revision),
{
    if sent < queue.len() {
        StartWatchState::Schedule { queue, sent, revision }
    } else {
        StartWatchState::SpawnWatchTask { revision }
    }
}

/// The tasks that are to be scheduled for `tasks`.
pub fn tasks_to_add(tasks: Vec<StreamTask>) -> (queue: Vec<Task>)
    ensures
        queue@ == add_tasks(tasks@),
{
    let ghost active = |task: StreamTask| !task.is_paused;
    let ghost all = tasks@;
    let mut queue: Vec<Task> = Vec::new();
    let mut rest: Vec<StreamTask> = tasks;
    proof {
        reveal(Seq::filter);
        assert(all.take(0) =~= seq![]);
        assert(add_tasks(all.take(0)) =~= seq![]);
        assert(all.skip(0) =~= all);
    }
    let ghost mut done: int = 0;
    while rest.len() > 0
        invariant
            0 <= done <= all.len(),
            rest@ == all.skip(done),
            queue@ == add_tasks(all.take(done)),
            active == (|task: StreamTask| !task.is_paused),
        decreases rest.len(),
    {
        let task = rest.remove(0);
        proof {
            reveal(Seq::filter);
            assert(task == all[done]);
            assert(all.take(done + 1).drop_last() =~= all.take(done));
            assert(all.take(done + 1).last() == task);
            assert(rest@ =~= all.skip(done + 1));
            if active(task) {
                assert(add_tasks(all.take(done + 1)) =~= add_tasks(all.take(done)).push(
                    Task::WatchTask(TaskOp::AddTask(task)),
                ));
            } else {
                assert(add_tasks(all.take(done + 1)) =~= add_tasks(all.take(done)));
            }
            done = done + 1;
        }
        if !task.is_paused {
            queue.push(Task::WatchTask(TaskOp::AddTask(task)));
        }
    }
    assert(all.take(done) =~= all);
    queue
}

impl StartWatchJob {
    /// What this step asks for.
    pub open spec fn pending(&self) -> StartWatchRequest<'_> {
        match &self.state {
            StartWatchState::GetTasks => StartWatchRequest::GetTasks,
            StartWatchState::Schedule { queue, sent, .. } => if *sent < queue@.len() {
                StartWatchRequest::Schedule { task: &queue@[*sent as int] }
            } else {
                StartWatchRequest::Nothing
            },
            StartWatchState::SpawnWatchTask { revision } => StartWatchRequest::SpawnWatchTask {
                revision: *revision,
            },
            StartWatchState::SpawnWatchPause { revision } => StartWatchRequest::SpawnWatchPause {
                revision: *revision,
            },
            StartWatchState::Report { err } => StartWatchRequest::Report {
                context: Report::WatchTasks,
                err,
            },
            StartWatchState::Done { .. } => StartWatchRequest::Nothing,
        }
    }

    /// What this step asks for.
    pub fn request(&self) -> (r: StartWatchRequest<'_>)
        ensures
            r == self.pending(),
    {
        match &self.state {
            StartWatchState::GetTasks => StartWatchRequest::GetTasks,
            StartWatchState::Schedule { queue, sent, .. } => if *sent < queue.len() {
                StartWatchRequest::Schedule { task: &queue[*sent] }
            } else {
                StartWatchRequest::Nothing
            },
            StartWatchState::SpawnWatchTask { revision } => StartWatchRequest::SpawnWatchTask {
                revision: *revision,
            },
            StartWatchState::SpawnWatchPause { revision } => StartWatchRequest::SpawnWatchPause {
                revision: *revision,
            },
            StartWatchState::Report { err } => StartWatchRequest::Report {
                context: Report::WatchTasks,
                err,
            },
            StartWatchState::Done { .. } => StartWatchRequest::Nothing,
        }
    }

    /// Begins to watch the tasks.
    pub fn start_and_watch_tasks() -> (job: StartWatchJob)
        ensures
            job == (StartWatchJob { state: StartWatchState::GetTasks }),
    {
        StartWatchJob { state: StartWatchState::GetTasks }
    }
}

impl Procedure for StartWatchJob {
    type Reply = StartWatchReply;

    open spec fn answered_by(self, reply: StartWatchReply) -> bool {
        match self.state {
            StartWatchState::GetTasks => reply is Tasks,
            StartWatchState::Schedule { queue, sent, .. } => sent < queue@.len()
                && reply is Scheduled,
            StartWatchState::SpawnWatchTask { .. } => reply is Acknowledged,
            StartWatchState::SpawnWatchPause { .. } => reply is Acknowledged,
            StartWatchState::Report { .. } => reply is Acknowledged,
            StartWatchState::Done { .. } => false,
        }
    }

    open spec fn leads_to(self, reply: StartWatchReply, next: StartWatchJob) -> bool {
        match (self.state, reply) {
            (StartWatchState::GetTasks, StartWatchReply::Tasks(Ok(tasks))) =>
                next.state.schedules_on(add_tasks(tasks.inner@), 0, tasks.revision),
            (StartWatchState::GetTasks, StartWatchReply::Tasks(Err(err))) => next.state == (
            StartWatchState::Report { err }),
            (
                StartWatchState::Schedule { queue, sent, revision },
                StartWatchReply::Scheduled(Ok(_)),
            ) => next.state.schedules_on(queue@, sent + 1, revision),
            (StartWatchState::Schedule { .. }, StartWatchReply::Scheduled(Err(err))) => next.state
                == (StartWatchState::Report { err }),
            (StartWatchState::SpawnWatchTask { revision }, _) => next.state == (
            StartWatchState::SpawnWatchPause { revision }),
            (StartWatchState::SpawnWatchPause { .. }, _) => next.state == (StartWatchState::Done {
                watched: true,
            }),
            (StartWatchState::Report { .. }, _) => next.state == (StartWatchState::Done {
                watched: false,
            }),
            _ => false,
        }
    }

    open spec fn is_done(self) -> bool {
        self.state is Done
    }

    fn accepts(&self, reply: &StartWatchReply) -> (r: bool) {
        match (&self.state, reply) {
            (StartWatchState::GetTasks, StartWatchReply::Tasks(_)) => true,
            (
                StartWatchState::Schedule { queue, sent, .. },
                StartWatchReply::Scheduled(_),
            ) => *sent < queue.len(),
            (StartWatchState::SpawnWatchTask { .. }, StartWatchReply::Acknowledged) => true,
            (StartWatchState::SpawnWatchPause { .. }, StartWatchReply::Acknowledged) => true,
            (StartWatchState::Report { .. }, StartWatchReply::Acknowledged) => true,
            _ => false,
        }
    }

    fn resume(self, reply: StartWatchReply) -> (next: StartWatchJob) {
        let state = match (self.state, reply) {
            (StartWatchState::GetTasks, StartWatchReply::Tasks(result)) => match result {
                Ok(tasks) => schedule_on(tasks_to_add(tasks.inner), 0, tasks.revision),
                Err(err) => StartWatchState::Report { err },
            },
            (
                StartWatchState::Schedule { queue, sent, revision },
                StartWatchReply::Scheduled(result),
            ) => match result {
                Ok(_) => {
                    assert(sent < queue.len());
                    schedule_on(queue, sent + 1, revision)
                },
                Err(err) => StartWatchState::Report { err },
            },
            (StartWatchState::SpawnWatchTask { revision }, _) => StartWatchState::SpawnWatchPause {
                revision,
            },
            (StartWatchState::SpawnWatchPause { .. }, _) => StartWatchState::Done { watched: true },
            (StartWatchState::Report { .. }, _) => StartWatchState::Done { watched: false },
            (state, _) => state,
        };
        StartWatchJob { state }
    }

    fn done(&self) -> (r: bool) {
        match &self.state {
            StartWatchState::Done { .. } => true,
            _ => false,
        }
    }
}

/// What a watcher looks for.
#[derive(Debug, Clone, Copy, PartialEq, Eq)]
pub enum WatchKind {
    /// Tasks that are added and removed.
    Tasks,
    /// Tasks that are paused and resumed.
    Pause,
}

impl WatchKind {
    /// Whether the stream of this watcher carries `event`.
    pub open spec fn sees(self, event: MetadataEvent) -> bool {
        match self {
            WatchKind::Tasks => event is AddTask || event is RemoveTask || event is Error,
            WatchKind::Pause => event is PauseTask || event is ResumeTask || event is Error,
        }
    }

    /// On what occasion the end of the watch is reported.
    pub open spec fn spec_report(self) -> Report<'static> {
        match self {
            WatchKind::Tasks => Report::WatchTasks,
            WatchKind::Pause => Report::WatchPause,
        }
    }

    /// On what occasion the end of the watch is reported.
    pub fn report(self) -> (r: Report<'static>)
        ensures
            r == self.spec_report(),
    {
        match self {
            WatchKind::Tasks => Report::WatchTasks,
            WatchKind::Pause => Report::WatchPause,
        }
    }
}

/// What a watcher does next.
#[derive(Clone, PartialEq, Eq)]
pub enum WatchState {
    /// To look from this revision on.
    Subscribe { revision: i64 },
    /// To wait for the next event.
    Next,
    /// To get the task that was resumed.
    GetTask { name: String },
    /// To schedule a task.
    Schedule { task: Task },
    /// To report the error that came with an event.
    ReportEvent { err: Error },
    /// To report what ends the watch.
    ReportEnd { err: Error },
    Done,
}

/// A watcher.
#[derive(Clone, PartialEq, Eq)]
pub struct WatchJob {
    pub kind: WatchKind,
    pub state: WatchState,
}

/// What a watcher asks for.
#[derive(Clone, Copy, PartialEq, Eq)]
pub enum WatchRequest<'a> {
    /// Open the stream of events from this revision on.
    EventsFrom { kind: WatchKind, revision: i64 },
    /// Wait for the next event.
    NextEvent,
    /// Get a task from the metadata store.
    GetTask { name: &'a String },
    /// Schedule a task.
    Schedule { task: &'a Task },
    /// Report an error.
    Report { context: Report<'a>, err: &'a Error },
    /// Nothing: the watch is over.
    Nothing,
}

/// A reply to what a watcher asked for.
#[derive(Debug, PartialEq, Eq)]
pub enum WatchReply {
    Subscribed(Result<(), Error>),
    Event(Option<MetadataEvent>),
    Task(Result<StreamTask, Error>),
    Scheduled(Result<(), Error>),
    /// What was asked for is done.
    Acknowledged,
}

impl WatchState {
    /// The step after an event.
    pub open spec fn on_event(event: MetadataEvent) -> WatchState {
        match event {
            MetadataEvent::AddTask(task) => WatchState::Schedule {
                task: Task::WatchTask(TaskOp::AddTask(task)),
            },
            MetadataEvent::RemoveTask(name) => WatchState::Schedule {
                task: Task::WatchTask(TaskOp::RemoveTask(name)),
            },
            MetadataEvent::PauseTask(name) => WatchState::Schedule {
                task: Task::WatchTask(TaskOp::PauseTask(name)),
            },
            MetadataEvent::ResumeTask(name) => WatchState::GetTask { name },
            MetadataEvent::Error(err) => WatchState::ReportEvent { err },
        }
    }

    /// The step after `reply`.
    pub open spec fn after(self, reply: WatchReply) -> WatchState {
        match (self, reply) {
            (WatchState::Subscribe { .. }, WatchReply::Subscribed(Err(err))) =>
                WatchState::ReportEnd { err },
            (WatchState::Next, WatchReply::Event(Some(event))) => WatchState::on_event(event),
            (WatchState::GetTask { .. }, WatchReply::Task(Ok(task))) => WatchState::Schedule {
                task: Task::WatchTask(TaskOp::ResumeTask(task)),
            },
            (WatchState::GetTask { .. }, WatchReply::Task(Err(err))) => WatchState::ReportEnd {
                err,
            },
            (WatchState::Schedule { .. }, WatchReply::Scheduled(Err(err))) =>
                WatchState::ReportEnd { err },
            (WatchState::ReportEnd { .. }, _) => WatchState::Done,
            _ => WatchState::Next,
        }
    }
}

impl WatchJob {
    /// What this step asks for.
    pub open spec fn pending(&self) -> WatchRequest<'_> {
        match &self.state {
            WatchState::Subscribe { revision } => WatchRequest::EventsFrom {
                kind: self.kind,
                revision: *revision,
            },
            WatchState::Next => WatchRequest::NextEvent,
            WatchState::GetTask { name } => WatchRequest::GetTask { name },
            WatchState::Schedule { task } => WatchRequest::Schedule { task },
            WatchState::ReportEvent { err } => WatchRequest::Report {
                context: Report::WatchEvent,
                err,
            },
            WatchState::ReportEnd { err } => WatchRequest::Report {
                context: self.kind.spec_report(),
                err,
            },
            WatchState::Done => WatchRequest::Nothing,
        }
    }

    /// What this step asks for.
    pub fn request(&self) -> (r: WatchRequest<'_>)
        ensures
            r == self.pending(),
    {
        match &self.state {
            WatchState::Subscribe { revision } => WatchRequest::EventsFrom {
                kind: self.kind,
                revision: *revision,
            },
            WatchState::Next => WatchRequest::NextEvent,
            WatchState::GetTask { name } => WatchRequest::GetTask { name },
            WatchState::Schedule { task } => WatchRequest::Schedule { task },
            WatchState::ReportEvent { err } => WatchRequest::Report {
                context: Report::WatchEvent,
                err,
            },
            WatchState::ReportEnd { err } => WatchRequest::Report {
                context: self.kind.report(),
                err,
            },
            WatchState::Done => WatchRequest::Nothing,
        }
    }

    /// Begins to look for tasks that are added and removed.
    pub fn starts_watch_task(revision: i64) -> (job: WatchJob)
        ensures
            job == (WatchJob { kind: WatchKind::Tasks, state: WatchState::Subscribe { revision } }),
    {
        WatchJob { kind: WatchKind::Tasks, state: WatchState::Subscribe { revision } }
    }

    /// Begins to look for tasks that are paused and resumed.
    pub fn starts_watch_pause(revision: i64) -> (job: WatchJob)
        ensures
            job == (WatchJob { kind: WatchKind::Pause, state: WatchState::Subscribe { revision } }),
    {
        WatchJob { kind: WatchKind::Pause, state: WatchState::Subscribe { revision } }
    }
}

impl Procedure for WatchJob {
    type Reply = WatchReply;

    open spec fn answered_by(self, reply: WatchReply) -> bool {
        match self.state {
            WatchState::Subscribe { .. } => reply is Subscribed,
            WatchState::Next => {
                &&& reply matches WatchReply::Event(event)
                &&& event matches Some(event) ==> self.kind.sees(event)
            },
            WatchState::GetTask { .. } => reply is Task,
            WatchState::Schedule { .. } => reply is Scheduled,
            WatchState::ReportEvent { .. } => reply is Acknowledged,
            WatchState::ReportEnd { .. } => reply is Acknowledged,
            WatchState::Done => false,
        }
    }

    open spec fn leads_to(self, reply: WatchReply, next: WatchJob) -> bool {
        next == (WatchJob { kind: self.kind, state: self.state.after(reply) })
    }

    open spec fn is_done(self) -> bool {
        self.state is Done
    }

    fn accepts(&self, reply: &WatchReply) -> (r: bool) {
        match (&self.state, reply) {
            (WatchState::Subscribe { .. }, WatchReply::Subscribed(_)) => true,
            (WatchState::Next, WatchReply::Event(None)) => true,
            (WatchState::Next, WatchReply::Event(Some(event))) => match (self.kind, event) {
                (WatchKind::Tasks, MetadataEvent::AddTask(_)) => true,
                (WatchKind::Tasks, MetadataEvent::RemoveTask(_)) => true,
                (WatchKind::Pause, MetadataEvent::PauseTask(_)) => true,
                (WatchKind::Pause, MetadataEvent::ResumeTask(_)) => true,
                (_, MetadataEvent::Error(_)) => true,
                _ => false,
            },
            (WatchState::GetTask { .. }, WatchReply::Task(_)) => true,
            (WatchState::Schedule { .. }, WatchReply::Scheduled(_)) => true,
            (WatchState::ReportEvent { .. }, WatchReply::Acknowledged) => true,
            (WatchState::ReportEnd { .. }, WatchReply::Acknowledged) => true,
            _ => false,
        }
    }

    fn resume(self, reply: WatchReply) -> (next: WatchJob) {
        let kind = self.kind;
        let state = match (self.state, reply) {
            (WatchState::Subscribe { .. }, WatchReply::Subscribed(result)) => match result {
                Ok(_) => WatchState::Next,
                Err(err) => WatchState::ReportEnd { err },
            },
            (WatchState::Next, WatchReply::Event(Some(event))) => match event {
                MetadataEvent::AddTask(task) => WatchState::Schedule {
                    task: Task::WatchTask(TaskOp::AddTask(task)),
                },
                MetadataEvent::RemoveTask(name) => WatchState::Schedule {
                    task: Task::WatchTask(TaskOp::RemoveTask(name)),
                },
                MetadataEvent::PauseTask(name) => WatchState::Schedule {
                    task: Task::WatchTask(TaskOp::PauseTask(name)),
                },
                MetadataEvent::ResumeTask(name) => WatchState::GetTask { name },
                MetadataEvent::Error(err) => WatchState::ReportEvent { err },
            },
            (WatchState::GetTask { .. }, WatchReply::Task(result)) => match result {
                Ok(task) => WatchState::Schedule {
                    task: Task::WatchTask(TaskOp::ResumeTask(task)),
                },
                Err(err) => WatchState::ReportEnd { err },
            },
            (WatchState::Schedule { .. }, WatchReply::Scheduled(result)) => match result {
                Ok(_) => WatchState::Next,
                Err(err) => WatchState::ReportEnd { err },
            },
            (WatchState::ReportEnd { .. }, _) => WatchState::Done,
            _ => WatchState::Next,
        };
        WatchJob { kind, state }
    }

    fn done(&self) -> (r: bool) {
        match &self.state {
            WatchState::Done => true,
            _ => false,
        }
    }
}

} // verus!
