//! What holds of the work that the endpoint makes of its tasks, and of how one
//! piece of work leads to another.
use crate::backup::BackupRequest;
use crate::endpoint::{Endpoint, Job};
use crate::fatal::{
    law_fatal_error_keeps_to_its_task, law_stopped_task_is_taken_off_first, FatalJob, FatalReply,
    FatalRequest, RETRY_DELAY,
};
use crate::flush::{FlushRequest, FlushState};
use crate::observe::{
    start_failure, ObserveJob, ObserveReply, ObserveRequest, ObserveState,
};
use crate::observe_laws::{is_run_of, law_only_the_task_of_the_region_is_stopped};
use crate::procedure::{is_run, Procedure};
use crate::register::{
    RegisterOutcome, RegisterRequest, RegisterState, UnregisterJob, UnregisterRequest,
    UnregisterState,
};
use crate::task::{ObserveOp, Task, TaskOp};
use crate::types::{Error, ObserveHandle, Region, StreamTask};
use crate::watch::{WatchJob, WatchReply, WatchRequest, WatchState};
use vstd::prelude::*;

verus! {

/// To pause a task is to remove it, and to resume one is to add it, as far as
/// the endpoint is concerned.
pub proof fn law_pause_is_removal(endpoint: Endpoint, name: String, task: StreamTask, job: Job)
    ensures
        endpoint.watch_task_is(TaskOp::PauseTask(name), job) == endpoint.watch_task_is(
            TaskOp::RemoveTask(name),
            job,
        ),
        endpoint.watch_task_is(TaskOp::ResumeTask(task), job) == endpoint.watch_task_is(
            TaskOp::AddTask(task),
            job,
        ),
{
}

/// Without a client of the metadata store, the registration of a task is done
/// as soon as it begins.
pub proof fn law_nothing_is_registered_without_client(endpoint: Endpoint, task: StreamTask)
    requires
        !endpoint.meta_client,
    ensures
        endpoint.registration(task).is_done(),
        endpoint.registration(task).state == RegisterState::Done(RegisterOutcome::NoClient),
{
}

/// A task leaves no choice of the work that it is.
pub proof fn law_work_is_determined(endpoint: Endpoint, task: Task, first: Job, second: Job)
    requires
        endpoint.task_is(task, first),
        endpoint.task_is(task, second),
    ensures
        first == second || (first matches Job::Unregister(a) && second matches Job::Unregister(b)
            && a.task@ == b.task@ && a.state == b.state),
{
}

/// A start that failed, once its task is run, is looked at again under the very
/// handle that failed, and the error goes with it.
pub proof fn law_failed_start_is_retried(
    endpoint: Endpoint,
    region: Region,
    handle: ObserveHandle,
    err: Error,
    job: Job,
)
    requires
        endpoint.task_is(start_failure(region, handle, err), job),
    ensures
        job matches Job::Observe(retry) && {
            &&& retry.state == (ObserveState::LookUp { region, handle, origin: Box::new(err) })
            &&& retry.pending() == (ObserveRequest::LookUp { region_id: region.id })
        },
{
}

/// An error that could not be published begins, once its task is run on the
/// same endpoint, the very work that failed.
pub proof fn law_unpublished_error_begins_anew(
    endpoint: Endpoint,
    task: String,
    err: Box<Error>,
    steps: Seq<FatalJob>,
    replies: Seq<FatalReply>,
    i: int,
    secs: u64,
    again: Task,
)
    requires
        is_run(steps, replies),
        steps[0] == FatalJob::first(task, err, endpoint.store_id, endpoint.meta_client),
        0 <= i < steps.len(),
        steps[i].pending() == (FatalRequest::ScheduleAfter { secs, again: &again }),
    ensures
        secs == RETRY_DELAY,
        endpoint.can_run(again),
        endpoint.task_is(again, Job::Fatal(steps[0])),
{
    law_fatal_error_keeps_to_its_task(
        task,
        err,
        endpoint.store_id,
        endpoint.meta_client,
        steps,
        replies,
        i,
    );
}

/// A retry that fails for want of an answer, once what it schedules is run,
/// pauses the task that the router names for the keys of the region, where it
/// names one, and no other task.
pub proof fn law_failed_retry_pauses_its_task(
    endpoint: Endpoint,
    op: ObserveOp,
    steps: Seq<ObserveJob>,
    replies: Seq<ObserveReply>,
    i: int,
    name: String,
    err: Box<Error>,
    job: Job,
    fatal_steps: Seq<FatalJob>,
    fatal_replies: Seq<FatalReply>,
    j: int,
)
    requires
        is_run_of(op, steps, replies),
        0 <= i < steps.len(),
        steps[i].pending() == (ObserveRequest::Schedule { task: &Task::FatalError(name, err) }),
        endpoint.task_is(Task::FatalError(name, err), job),
        is_run(fatal_steps, fatal_replies),
        job == Job::Fatal(fatal_steps[0]),
        0 <= j < fatal_steps.len(),
    ensures
        i == 2,
        steps[1].pending() == (ObserveRequest::FindTask {
            start_key: &op.spec_region().start_key,
            end_key: &op.spec_region().end_key,
        }),
        replies[1] matches ObserveReply::TaskName(Some(task_name)) ==> task_name == name,
        j == 4 ==> fatal_steps[j].pending() == (FatalRequest::Pause { task: &name }),
        fatal_steps[j].pending() matches FatalRequest::Pause { task } ==> *task == name,
        fatal_steps[j].pending() matches FatalRequest::ReportLastError { task, last_error }
            ==> *task == name && *last_error.err == *err && last_error.store_id
            == endpoint.store_id,
{
    law_only_the_task_of_the_region_is_stopped(op, steps, replies, i, name, err);
    law_fatal_error_keeps_to_its_task(
        name,
        err,
        endpoint.store_id,
        endpoint.meta_client,
        fatal_steps,
        fatal_replies,
        j,
    );
    if j == 4 {
        law_stopped_task_is_taken_off_first(
            name,
            err,
            endpoint.store_id,
            endpoint.meta_client,
            fatal_steps,
            fatal_replies,
        );
    }
}

/// What a watcher schedules is a change of the tasks, which every endpoint can
/// deal with.
pub proof fn law_watched_change_can_be_run(
    endpoint: Endpoint,
    steps: Seq<WatchJob>,
    replies: Seq<WatchReply>,
    i: int,
    task: Task,
)
    requires
        is_run(steps, replies),
        steps[0].state is Subscribe,
        0 <= i < steps.len(),
        steps[i].pending() == (WatchRequest::Schedule { task: &task }),
    ensures
        task is WatchTask,
        endpoint.can_run(task),
{
    assert(i > 0);
    assert(steps[i - 1].leads_to(replies[i - 1], steps[i]));
    assert(steps[i].state == (WatchState::Schedule { task }));
}

/// Which tasks an endpoint can do: all of them with a client of the metadata
/// store, and without one all but the flushes.
pub proof fn law_only_flushes_need_a_client(endpoint: Endpoint, task: Task)
    ensures
        endpoint.can_run(task) <==> (endpoint.meta_client || !(task is Flush || task is ForceFlush)),
{
}

/// Which work each task is, and what it asks for first: of the very task,
/// region, batches or error that the task names, on the store of the endpoint,
/// and with its client if it has one.
pub proof fn law_task_begins_its_work(endpoint: Endpoint, task: Task, job: Job)
    requires
        endpoint.task_is(task, job),
    ensures
        match task {
            Task::WatchTask(TaskOp::AddTask(added)) => is_registration(endpoint, added, job),
            Task::WatchTask(TaskOp::ResumeTask(resumed)) => is_registration(
                endpoint,
                resumed,
                job,
            ),
            Task::WatchTask(TaskOp::RemoveTask(name)) => is_removal_of(name@, job),
            Task::WatchTask(TaskOp::PauseTask(name)) => is_removal_of(name@, job),
            Task::BatchEvent(events) => {
                &&& job matches Job::Backup(backup)
                &&& backup.batches == events
                &&& backup.index == 0
                &&& backup.pending() == if events@.len() > 0 {
                    BackupRequest::FindSubscription { region_id: events@[0].region_id }
                } else {
                    BackupRequest::Nothing
                }
            },
            Task::ChangeConfig(_) => job is Nothing,
            Task::Flush(name) => {
                &&& job matches Job::Flush(flush)
                &&& flush.task == name
                &&& flush.store_id == endpoint.store_id
                &&& flush.state == FlushState::GetTso
                &&& flush.pending() == FlushRequest::GetTso
            },
            Task::ForceFlush(name) => {
                &&& job matches Job::Flush(flush)
                &&& flush.task == name
                &&& flush.store_id == endpoint.store_id
                &&& flush.state == FlushState::GetTaskInfo
                &&& flush.pending() == (FlushRequest::GetTaskInfo { task: &name })
            },
            Task::ModifyObserve(op) => {
                &&& job matches Job::Observe(observe)
                &&& observe.meta_client == endpoint.meta_client
                &&& observe.state == ObserveState::first(op)
            },
            Task::FatalError(name, err) => {
                &&& job matches Job::Fatal(fatal)
                &&& fatal.task == name
                &&& fatal.err == err
                &&& fatal.store_id == endpoint.store_id
                &&& fatal.meta_client == endpoint.meta_client
                &&& fatal.pending() == FatalRequest::Unregister(
                    UnregisterRequest::UnregisterTask { task: &name },
                )
            },
        },
{
}

/// Whether `job` registers `task`, which it begins by asking for its ranges, or
/// has nothing to do for want of a client.
pub open spec fn is_registration(endpoint: Endpoint, task: StreamTask, job: Job) -> bool {
    &&& job matches Job::Register(registration)
    &&& registration.task == task
    &&& if endpoint.meta_client {
        &&& registration.state == RegisterState::LoadRanges
        &&& registration.pending() == (RegisterRequest::RangesOfTask {
            task_name: &task.info.name,
        })
    } else {
        &&& registration.state == RegisterState::Done(RegisterOutcome::NoClient)
        &&& registration.pending() == RegisterRequest::Nothing
    }
}

/// Whether `job` takes off the task of that name, which it begins by having the
/// router drop it.
pub open spec fn is_removal_of(name: Seq<char>, job: Job) -> bool {
    &&& job matches Job::Unregister(removal)
    &&& removal.state == UnregisterState::UnregisterTask
    &&& removal.pending() matches UnregisterRequest::UnregisterTask { task }
    &&& task@ == name
}

/// A handler begins the same work that the task for it is.
pub proof fn law_handlers_do_what_tasks_do(
    endpoint: Endpoint,
    task: StreamTask,
    name: String,
    removal: UnregisterJob,
)
    ensures
        is_registration(endpoint, task, Job::Register(endpoint.registration(task))),
        endpoint.is_removal(name@, removal) <==> is_removal_of(name@, Job::Unregister(removal)),
{
}

} // verus!
