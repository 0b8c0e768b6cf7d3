//! The endpoint: which work each task is.
use crate::backup::BackupJob;
use crate::fatal::FatalJob;
use crate::flush::{FlushJob, FlushState};
use crate::observe::{ObserveJob, ObserveState};
use crate::register::{
    RegisterJob, RegisterOutcome, RegisterState, UnregisterJob, UnregisterState,
};
use crate::start::{ClientSource, StartJob, StartState};
use crate::task::{ObserveOp, Task, TaskOp};
use crate::types::{BackupStreamConfig, CmdBatch, Error, StreamTask};
use vstd::prelude::*;
use vstd::string::*;

verus! {

/// A backup stream endpoint.
#[derive(Debug, Clone, Copy, PartialEq, Eq)]
pub struct Endpoint {
    pub store_id: u64,
    /// Whether there is a client of the metadata store.
    pub meta_client: bool,
}

/// Work that a task begins.
#[derive(Clone, PartialEq, Eq)]
pub enum Job {
    Register(RegisterJob),
    Unregister(UnregisterJob),
    Backup(BackupJob),
    Flush(FlushJob),
    Observe(ObserveJob),
    Fatal(FatalJob),
    /// There is nothing to do.
    Nothing,
}

impl Job {
    /// Whether the endpoint goes on to the next task while the work is done.
    pub fn in_background(&self) -> (r: bool)
        ensures
            r == (self is Flush),
    {
        match self {
            Job::Flush(_) => true,
            _ => false,
        }
    }
}

impl Endpoint {
    /// Brings up an endpoint that has a client of the metadata store.
    pub fn with_client(store_id: u64, config: BackupStreamConfig) -> (job: StartJob)
        requires
            config.num_threads > 0,
        ensures
            job == StartJob::first_with_client(store_id, config),
    {
        StartJob {
            store_id,
            source: ClientSource::Given,
            config,
            state: StartState::CreateRuntime,
        }
    }

    /// Brings up an endpoint that finds the metadata store at `endpoints`.
    pub fn new(store_id: u64, endpoints: Vec<String>, config: BackupStreamConfig) -> (job: StartJob)
        requires
            config.num_threads > 0,
        ensures
            job == StartJob::first_new(store_id, endpoints, config),
    {
        StartJob {
            store_id,
            source: ClientSource::Etcd { endpoints },
            config,
            state: StartState::CountEnabled,
        }
    }

    /// The work of registering `task`.
    pub open spec fn registration(self, task: StreamTask) -> RegisterJob {
        RegisterJob {
            task,
            state: if self.meta_client {
                RegisterState::LoadRanges
            } else {
                RegisterState::Done(RegisterOutcome::NoClient)
            },
        }
    }

    /// Whether `job` is the work of taking `task` off.
    pub open spec fn is_removal(self, task: Seq<char>, job: UnregisterJob) -> bool {
        &&& job.task@ == task
        &&& job.state == UnregisterState::UnregisterTask
    }

    /// Whether `job` is the work of a change of the tasks.
    pub open spec fn watch_task_is(self, op: TaskOp, job: Job) -> bool {
        match op {
            TaskOp::AddTask(task) => job == Job::Register(self.registration(task)),
            TaskOp::RemoveTask(name) => job matches Job::Unregister(removal) && self.is_removal(
                name@,
                removal,
            ),
            TaskOp::PauseTask(name) => job matches Job::Unregister(removal) && self.is_removal(
                name@,
                removal,
            ),
            TaskOp::ResumeTask(task) => job == Job::Register(self.registration(task)),
        }
    }

    /// Whether `task` can be done: some can only with a client of the metadata
    /// store.
    pub open spec fn can_run(self, task: Task) -> bool {
        task is Flush || task is ForceFlush ==> self.meta_client
    }

    /// Whether `task` can be done.
    pub fn able(&self, task: &Task) -> (r: bool)
        ensures
            r == self.can_run(*task),
    {
        match task {
            Task::Flush(_) => self.meta_client,
            Task::ForceFlush(_) => self.meta_client,
            _ => true,
        }
    }

    /// Whether `job` is the work of `task`.
    pub open spec fn task_is(self, task: Task, job: Job) -> bool {
        match task {
            Task::WatchTask(op) => self.watch_task_is(op, job),
            Task::BatchEvent(events) => job == Job::Backup(BackupJob::first(events)),
            Task::Flush(name) => job == Job::Flush(
                FlushJob { task: name, store_id: self.store_id, state: FlushState::GetTso },
            ),
            Task::ModifyObserve(op) => job == Job::Observe(
                ObserveJob { meta_client: self.meta_client, state: ObserveState::first(op) },
            ),
            Task::ForceFlush(name) => job == Job::Flush(
                FlushJob { task: name, store_id: self.store_id, state: FlushState::GetTaskInfo },
            ),
            Task::FatalError(name, err) => job == Job::Fatal(
                FatalJob::first(name, err, self.store_id, self.meta_client),
            ),
            Task::ChangeConfig(_) => job == Job::Nothing,
        }
    }

    /// Begins to deal with `err`, which stops `task`.
    pub fn on_fatal_error(&self, task: String, err: Box<Error>) -> (job: FatalJob)
        ensures
            job == FatalJob::first(task, err, self.store_id, self.meta_client),
    {
        FatalJob::begin(task, err, self.store_id, self.meta_client)
    }

    /// Begins the work of a change of the tasks.
    pub fn handle_watch_task(&self, op: TaskOp) -> (job: Job)
        ensures
            self.watch_task_is(op, job),
    {
        match op {
            TaskOp::AddTask(task) => Job::Register(self.on_register(task)),
            TaskOp::RemoveTask(task_name) => Job::Unregister(self.on_unregister(&task_name)),
            TaskOp::PauseTask(task_name) => Job::Unregister(self.on_unregister(&task_name)),
            TaskOp::ResumeTask(task) => Job::Register(self.on_register(task)),
        }
    }

    /// Begins to register the ranges of `task`.
    pub fn on_register(&self, task: StreamTask) -> (job: RegisterJob)
        ensures
            job == self.registration(task),
    {
        RegisterJob::begin(self.meta_client, task)
    }

    /// Begins to take `task` off.
    pub fn on_unregister(&self, task: &str) -> (job: UnregisterJob)
        ensures
            self.is_removal(task@, job),
    {
        UnregisterJob::begin(task.to_owned())
    }

    /// Begins to flush `task`, which is marked as being flushed first.
    pub fn on_force_flush(&self, task: String, store_id: u64) -> (job: FlushJob)
        requires
            self.meta_client,
        ensures
            job == (FlushJob { task, store_id, state: FlushState::GetTaskInfo }),
    {
        FlushJob::force_flush(task, store_id)
    }

    /// Begins to flush `task`.
    pub fn on_flush(&self, task: String, store_id: u64) -> (job: FlushJob)
        requires
            self.meta_client,
        ensures
            job == (FlushJob { task, store_id, state: FlushState::GetTso }),
    {
        FlushJob::flush(task, store_id)
    }

    /// Begins to modify observe over some region.
    pub fn on_modify_observe(&self, op: ObserveOp) -> (job: ObserveJob)
        ensures
            job == (ObserveJob { meta_client: self.meta_client, state: ObserveState::first(op) }),
    {
        ObserveJob::begin(self.meta_client, op)
    }

    /// Begins the work of `task`.
    pub fn run_task(&self, task: Task) -> (job: Job)
        requires
            self.can_run(task),
        ensures
            self.task_is(task, job),
    {
        match task {
            Task::WatchTask(op) => self.handle_watch_task(op),
            Task::BatchEvent(events) => Job::Backup(self.do_backup(events)),
            Task::Flush(task) => Job::Flush(self.on_flush(task, self.store_id)),
            Task::ModifyObserve(op) => Job::Observe(self.on_modify_observe(op)),
            Task::ForceFlush(task) => Job::Flush(self.on_force_flush(task, self.store_id)),
            Task::FatalError(task, err) => Job::Fatal(self.on_fatal_error(task, err)),
            // Change config online isn't supported for now.
            Task::ChangeConfig(_) => Job::Nothing,
        }
    }

    /// Begins to back up batches of commands.
    pub fn do_backup(&self, events: Vec<CmdBatch>) -> (job: BackupJob)
        ensures
            job == BackupJob::first(events),
    {
        BackupJob::begin(events)
    }
}

} // verus!
