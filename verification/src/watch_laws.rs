//! What holds of every watch of the tasks, whatever the collaborators reply.
use crate::procedure::{is_run, Procedure};
use crate::report::Report;
use crate::task::{Task, TaskOp};
use crate::types::{Error, StreamTask};
use crate::watch::{
    add_tasks, MetadataEvent, StartWatchJob, StartWatchReply, StartWatchRequest, StartWatchState,
    StreamTasks, WatchJob, WatchKind, WatchReply, WatchRequest, WatchState,
};
use vstd::prelude::*;

verus! {

proof fn lemma_filter_takes_from<A>(s: Seq<A>, pred: spec_fn(A) -> bool, k: int)
    requires
        0 <= k < s.filter(pred).len(),
    ensures
        s.contains(s.filter(pred)[k]),
    decreases s.len(),
{
    reveal(Seq::filter);
    let before = s.drop_last();
    if k < before.filter(pred).len() {
        lemma_filter_takes_from(before, pred, k);
        let i = choose|i: int| 0 <= i < before.len() && before[i] == before.filter(pred)[k];
        assert(s[i] == s.filter(pred)[k]);
    } else {
        assert(s[s.len() - 1] == s.filter(pred)[k]);
    }
}

/// Every task that is scheduled at the beginning adds a task of the metadata
/// store that is not paused.
pub proof fn law_no_paused_task_is_added(tasks: Seq<StreamTask>, k: int)
    requires
        0 <= k < add_tasks(tasks).len(),
    ensures
        ({
            &&& add_tasks(tasks)[k] matches Task::WatchTask(TaskOp::AddTask(task))
            &&& !task.is_paused
            &&& tasks.contains(task)
        }),
{
    let active = |task: StreamTask| !task.is_paused;
    tasks.lemma_filter_pred(active, k);
    lemma_filter_takes_from(tasks, active, k);
    assert(active(tasks.filter(active)[k]));
}

/// Every task of the metadata store that is not paused is added.
pub proof fn law_every_active_task_is_added(tasks: Seq<StreamTask>, i: int)
    requires
        0 <= i < tasks.len(),
        !tasks[i].is_paused,
    ensures
        add_tasks(tasks).contains(Task::WatchTask(TaskOp::AddTask(tasks[i]))),
{
    let active = |task: StreamTask| !task.is_paused;
    tasks.lemma_filter_contains(active, i);
    assert(tasks.filter(active).contains(tasks[i]));
    let k = choose|k: int|
        0 <= k < tasks.filter(active).len() && tasks.filter(active)[k] == tasks[i];
    assert(add_tasks(tasks)[k] == Task::WatchTask(TaskOp::AddTask(tasks[i])));
}

/// Whether `steps` are those of the beginning of a watch, on these replies.
pub open spec fn is_start(steps: Seq<StartWatchJob>, replies: Seq<StartWatchReply>) -> bool {
    &&& is_run(steps, replies)
    &&& steps[0].state == StartWatchState::GetTasks
}

proof fn lemma_scheduling(
    steps: Seq<StartWatchJob>,
    replies: Seq<StartWatchReply>,
    tasks: StreamTasks,
    k: int,
)
    requires
        is_start(steps, replies),
        replies.len() > 0,
        replies[0] == StartWatchReply::Tasks(Ok(tasks)),
        0 <= k <= add_tasks(tasks.inner@).len(),
        k < replies.len(),
        forall|j: int|
            1 <= j <= k ==> (#[trigger] replies[j]) matches StartWatchReply::Scheduled(Ok(_)),
    ensures
        steps[1 + k].state.schedules_on(add_tasks(tasks.inner@), k, tasks.revision),
    decreases k,
{
    assert(steps[0].leads_to(replies[0], steps[1]) && steps[0].answered_by(replies[0]));
    if k > 0 {
        lemma_scheduling(steps, replies, tasks, k - 1);
        assert(steps[k].leads_to(replies[k], steps[k + 1]) && steps[k].answered_by(replies[k]));
    }
}

/// As long as the scheduler takes them, the tasks that are not paused are
/// scheduled one by one, in the order of the metadata store. Then, and from the
/// revision at which the tasks were read, so that nothing is missed, changes of
/// the tasks are watched, and pauses and resumptions too.
pub proof fn law_tasks_are_added_then_watched(
    steps: Seq<StartWatchJob>,
    replies: Seq<StartWatchReply>,
    tasks: StreamTasks,
    k: int,
)
    requires
        is_start(steps, replies),
        replies.len() > 0,
        replies[0] == StartWatchReply::Tasks(Ok(tasks)),
        0 <= k <= add_tasks(tasks.inner@).len(),
        k < replies.len(),
        forall|j: int|
            1 <= j <= k ==> (#[trigger] replies[j]) matches StartWatchReply::Scheduled(Ok(_)),
    ensures
        k < add_tasks(tasks.inner@).len() ==> steps[1 + k].pending() == (
        StartWatchRequest::Schedule { task: &add_tasks(tasks.inner@)[k] }),
        k == add_tasks(tasks.inner@).len() ==> {
            &&& steps[1 + k].pending() == (StartWatchRequest::SpawnWatchTask {
                revision: tasks.revision,
            })
            &&& 1 + k < replies.len() ==> steps[2 + k].pending() == (
            StartWatchRequest::SpawnWatchPause { revision: tasks.revision })
            &&& 2 + k < replies.len() ==> steps[3 + k].state == (StartWatchState::Done {
                watched: true,
            })
            &&& replies.len() <= 3 + k
        },
{
    lemma_scheduling(steps, replies, tasks, k);
    if k == add_tasks(tasks.inner@).len() {
        if 1 + k < replies.len() {
            assert(steps[1 + k].leads_to(replies[1 + k], steps[2 + k]));
        }
        if 2 + k < replies.len() {
            assert(steps[2 + k].leads_to(replies[2 + k], steps[3 + k]));
        }
        if 3 + k < replies.len() {
            assert(steps[3 + k].answered_by(replies[3 + k]));
        }
    }
}

proof fn lemma_keeps_its_revision(
    steps: Seq<StartWatchJob>,
    replies: Seq<StartWatchReply>,
    tasks: StreamTasks,
    i: int,
)
    requires
        is_start(steps, replies),
        replies.len() > 0,
        replies[0] == StartWatchReply::Tasks(Ok(tasks)),
        1 <= i < steps.len(),
    ensures
        match steps[i].state {
            StartWatchState::GetTasks => false,
            StartWatchState::Schedule { revision, .. } => revision == tasks.revision,
            StartWatchState::SpawnWatchTask { revision } => revision == tasks.revision,
            StartWatchState::SpawnWatchPause { revision } => revision == tasks.revision,
            _ => true,
        },
    decreases i,
{
    assert(steps[i - 1].leads_to(replies[i - 1], steps[i]));
    assert(steps[i - 1].answered_by(replies[i - 1]));
    if i > 1 {
        lemma_keeps_its_revision(steps, replies, tasks, i - 1);
    }
}

/// A watcher that is begun opens its stream at the revision at which the tasks
/// were read.
pub proof fn law_watchers_begin_where_tasks_were_read(
    steps: Seq<StartWatchJob>,
    replies: Seq<StartWatchReply>,
    i: int,
    watcher: WatchJob,
)
    requires
        is_start(steps, replies),
        0 <= i < steps.len(),
        steps[i].pending().begun() == Some(watcher),
    ensures
        i > 0,
        replies[0] matches StartWatchReply::Tasks(Ok(tasks)) && watcher.pending() == (
        WatchRequest::EventsFrom { kind: watcher.kind, revision: tasks.revision }),
{
    assert(i > 0);
    assert(steps[0].leads_to(replies[0], steps[1]) && steps[0].answered_by(replies[0]));
    if let StartWatchReply::Tasks(Ok(tasks)) = replies[0] {
        lemma_keeps_its_revision(steps, replies, tasks, i);
    } else {
        assert(steps[1].state is Report);
        if i > 1 {
            assert(steps[1].leads_to(replies[1], steps[2]) && steps[1].answered_by(replies[1]));
        }
        if i > 2 {
            assert(steps[2].answered_by(replies[2]));
        }
    }
}

/// Where the tasks cannot be read, or the scheduler does not take one, that is
/// reported, and nothing is watched.
pub proof fn law_nothing_is_watched_after_a_failure(
    steps: Seq<StartWatchJob>,
    replies: Seq<StartWatchReply>,
    i: int,
    err: Error,
)
    requires
        is_start(steps, replies),
        0 <= i < replies.len(),
        replies[i] == StartWatchReply::Tasks(Err(err)) || replies[i]
            == StartWatchReply::Scheduled(Err(err)),
    ensures
        steps[i + 1].pending() == (StartWatchRequest::Report {
            context: Report::WatchTasks,
            err: &err,
        }),
        replies.len() <= i + 2,
        i + 1 < replies.len() ==> steps[i + 2].state == (StartWatchState::Done { watched: false }),
{
    assert(steps[i].leads_to(replies[i], steps[i + 1]) && steps[i].answered_by(replies[i]));
    if i + 1 < replies.len() {
        assert(steps[i + 1].leads_to(replies[i + 1], steps[i + 2]));
    }
    if i + 2 < replies.len() {
        assert(steps[i + 2].answered_by(replies[i + 2]));
    }
}

/// The task that an event schedules at once.
pub open spec fn event_task(event: MetadataEvent) -> Option<Task> {
    match event {
        MetadataEvent::AddTask(task) => Some(Task::WatchTask(TaskOp::AddTask(task))),
        MetadataEvent::RemoveTask(name) => Some(Task::WatchTask(TaskOp::RemoveTask(name))),
        MetadataEvent::PauseTask(name) => Some(Task::WatchTask(TaskOp::PauseTask(name))),
        _ => None,
    }
}

/// An event that adds, removes or pauses a task schedules just that. Once it
/// is scheduled, the watcher waits for the next event.
pub proof fn law_events_are_passed_on(
    steps: Seq<WatchJob>,
    replies: Seq<WatchReply>,
    i: int,
    event: MetadataEvent,
)
    requires
        is_run(steps, replies),
        0 <= i < replies.len(),
        replies[i] == WatchReply::Event(Some(event)),
        event_task(event) is Some,
    ensures
        steps[i + 1].pending() == (WatchRequest::Schedule { task: &event_task(event)->0 }),
        i + 1 < replies.len() ==> (replies[i + 1] matches WatchReply::Scheduled(Ok(_))
            ==> steps[i + 2].pending() == WatchRequest::NextEvent),
{
    assert(steps[i].leads_to(replies[i], steps[i + 1]) && steps[i].answered_by(replies[i]));
    if i + 1 < replies.len() {
        assert(steps[i + 1].leads_to(replies[i + 1], steps[i + 2]));
    }
}

/// A task that is resumed is read anew from the metadata store, and what was
/// read is scheduled.
pub proof fn law_resumed_task_is_read_anew(
    steps: Seq<WatchJob>,
    replies: Seq<WatchReply>,
    i: int,
    name: String,
)
    requires
        is_run(steps, replies),
        0 <= i < replies.len(),
        replies[i] == WatchReply::Event(Some(MetadataEvent::ResumeTask(name))),
    ensures
        steps[i].kind == WatchKind::Pause,
        steps[i + 1].pending() == (WatchRequest::GetTask { name: &name }),
        i + 1 < replies.len() ==> (replies[i + 1] matches WatchReply::Task(Ok(task))
            ==> steps[i + 2].pending() == (WatchRequest::Schedule {
            task: &Task::WatchTask(TaskOp::ResumeTask(task)),
        })),
{
    assert(steps[i].leads_to(replies[i], steps[i + 1]) && steps[i].answered_by(replies[i]));
    if i + 1 < replies.len() {
        assert(steps[i + 1].leads_to(replies[i + 1], steps[i + 2]));
    }
}

/// An error among the events is reported, and neither it nor a stream without
/// an event ends the watch.
pub proof fn law_watch_survives_errors_among_events(
    steps: Seq<WatchJob>,
    replies: Seq<WatchReply>,
    i: int,
)
    requires
        is_run(steps, replies),
        0 <= i < replies.len(),
    ensures
        replies[i] matches WatchReply::Event(Some(MetadataEvent::Error(err))) ==> {
            &&& steps[i + 1].pending() == (WatchRequest::Report {
                context: Report::WatchEvent,
                err: &err,
            })
            &&& i + 1 < replies.len() ==> steps[i + 2].pending() == WatchRequest::NextEvent
        },
        replies[i] == WatchReply::Event(None) ==> steps[i + 1].pending()
            == WatchRequest::NextEvent,
{
    assert(steps[i].leads_to(replies[i], steps[i + 1]) && steps[i].answered_by(replies[i]));
    if i + 1 < replies.len() {
        assert(steps[i + 1].leads_to(replies[i + 1], steps[i + 2]));
    }
}

/// The error with which a reply ends a watch.
pub open spec fn end_of_watch(reply: WatchReply) -> Option<Error> {
    match reply {
        WatchReply::Subscribed(Err(err)) => Some(err),
        WatchReply::Task(Err(err)) => Some(err),
        WatchReply::Scheduled(Err(err)) => Some(err),
        _ => None,
    }
}

/// A watch ends where its stream cannot be opened, a resumed task cannot be
/// read or the scheduler does not take a task, and that is reported. It ends
/// nowhere else.
pub proof fn law_watch_ends_on_failures_only(
    revision: i64,
    steps: Seq<WatchJob>,
    replies: Seq<WatchReply>,
    i: int,
)
    requires
        is_run(steps, replies),
        steps[0].state == (WatchState::Subscribe { revision }),
        0 <= i < steps.len(),
    ensures
        i < replies.len() && end_of_watch(replies[i]) is Some ==> {
            &&& steps[i + 1].pending() == (WatchRequest::Report {
                context: steps[i].kind.spec_report(),
                err: &end_of_watch(replies[i])->0,
            })
            &&& i + 1 < replies.len() ==> steps[i + 2].is_done()
        },
        steps[i].is_done() ==> i >= 2 && end_of_watch(replies[i - 2]) is Some,
{
    if i < replies.len() {
        assert(steps[i].leads_to(replies[i], steps[i + 1]) && steps[i].answered_by(replies[i]));
        if i + 1 < replies.len() {
            assert(steps[i + 1].leads_to(replies[i + 1], steps[i + 2]));
        }
    }
    if steps[i].is_done() {
        assert(i > 0);
        assert(steps[i - 1].leads_to(replies[i - 1], steps[i]) && steps[i - 1].answered_by(
            replies[i - 1],
        ));
        assert(steps[i - 1].state is ReportEnd);
        assert(i > 1);
        assert(steps[i - 2].leads_to(replies[i - 2], steps[i - 1]) && steps[i - 2].answered_by(
            replies[i - 2],
        ));
    }
}

/// A watcher looks for one kind of event as long as it runs.
pub proof fn law_watcher_keeps_its_kind(steps: Seq<WatchJob>, replies: Seq<WatchReply>, i: int)
    requires
        is_run(steps, replies),
        0 <= i < steps.len(),
    ensures
        steps[i].kind == steps[0].kind,
    decreases i,
{
    if i > 0 {
        law_watcher_keeps_its_kind(steps, replies, i - 1);
        assert(steps[i - 1].leads_to(replies[i - 1], steps[i]));
    }
}

/// What a watcher asks for first.
pub proof fn law_watch_begins(kind: WatchKind, revision: i64)
    ensures
        (WatchJob { kind, state: WatchState::Subscribe { revision } }).pending() == (
        WatchRequest::EventsFrom { kind, revision }),
{
}

/// Which replies a watcher takes: those that answer what it asks for, whatever
/// they hold, and of the events those of its kind and errors.
pub proof fn law_watch_takes_any_answer(job: WatchJob, reply: WatchReply)
    ensures
        job.is_done() <==> job.pending() is Nothing,
        job.answered_by(reply) == match job.pending() {
            WatchRequest::EventsFrom { .. } => reply is Subscribed,
            WatchRequest::NextEvent => reply matches WatchReply::Event(event) && match event {
                None => true,
                Some(MetadataEvent::AddTask(_)) => job.kind == WatchKind::Tasks,
                Some(MetadataEvent::RemoveTask(_)) => job.kind == WatchKind::Tasks,
                Some(MetadataEvent::PauseTask(_)) => job.kind == WatchKind::Pause,
                Some(MetadataEvent::ResumeTask(_)) => job.kind == WatchKind::Pause,
                Some(MetadataEvent::Error(_)) => true,
            },
            WatchRequest::GetTask { .. } => reply is Task,
            WatchRequest::Schedule { .. } => reply is Scheduled,
            WatchRequest::Report { .. } => reply is Acknowledged,
            WatchRequest::Nothing => false,
        },
{
}

/// What a watcher asks for after each reply. Every event is passed on once, and
/// once what came of it is scheduled or reported, the watcher waits for the next
/// one. It ends only where its stream cannot be opened, a task not be read or a
/// task not be scheduled.
pub proof fn law_watch_goes_on(job: WatchJob, reply: WatchReply, next: WatchJob)
    requires
        job.answered_by(reply),
        job.leads_to(reply, next),
    ensures
        next.kind == job.kind,
        match (job.pending(), reply) {
            (WatchRequest::EventsFrom { .. }, WatchReply::Subscribed(Ok(_))) => next.pending()
                == WatchRequest::NextEvent,
            (WatchRequest::EventsFrom { .. }, WatchReply::Subscribed(Err(err))) => next.pending()
                == (WatchRequest::Report { context: end_report(job.kind), err: &err }),
            (WatchRequest::NextEvent, WatchReply::Event(None)) => next.pending()
                == WatchRequest::NextEvent,
            (WatchRequest::NextEvent, WatchReply::Event(Some(event))) => match event {
                MetadataEvent::AddTask(task) => next.pending() == (WatchRequest::Schedule {
                    task: &Task::WatchTask(TaskOp::AddTask(task)),
                }),
                MetadataEvent::RemoveTask(name) => next.pending() == (WatchRequest::Schedule {
                    task: &Task::WatchTask(TaskOp::RemoveTask(name)),
                }),
                MetadataEvent::PauseTask(name) => next.pending() == (WatchRequest::Schedule {
                    task: &Task::WatchTask(TaskOp::PauseTask(name)),
                }),
                MetadataEvent::ResumeTask(name) => next.pending() == (WatchRequest::GetTask {
                    name: &name,
                }),
                MetadataEvent::Error(err) => next.pending() == (WatchRequest::Report {
                    context: Report::WatchEvent,
                    err: &err,
                }),
            },
            (WatchRequest::GetTask { .. }, WatchReply::Task(Ok(task))) => next.pending() == (
            WatchRequest::Schedule { task: &Task::WatchTask(TaskOp::ResumeTask(task)) }),
            (WatchRequest::GetTask { .. }, WatchReply::Task(Err(err))) => next.pending() == (
            WatchRequest::Report { context: end_report(job.kind), err: &err }),
            (WatchRequest::Schedule { .. }, WatchReply::Scheduled(Ok(_))) => next.pending()
                == WatchRequest::NextEvent,
            (WatchRequest::Schedule { .. }, WatchReply::Scheduled(Err(err))) => next.pending() == (
            WatchRequest::Report { context: end_report(job.kind), err: &err }),
            (
                WatchRequest::Report { context: Report::WatchEvent, .. },
                WatchReply::Acknowledged,
            ) => next.pending() == WatchRequest::NextEvent,
            (WatchRequest::Report { context, .. }, WatchReply::Acknowledged) => {
                &&& context == end_report(job.kind)
                &&& next.pending() == WatchRequest::Nothing
                &&& next.is_done()
            },
            _ => false,
        },
{
}

/// On what occasion the end of a watch is reported.
pub open spec fn end_report(kind: WatchKind) -> Report<'static> {
    match kind {
        WatchKind::Tasks => Report::WatchTasks,
        WatchKind::Pause => Report::WatchPause,
    }
}

/// The tasks are scheduled one by one: one more task at the end brings one more
/// at the end, or none if it is paused.
pub proof fn law_tasks_are_added_one_by_one(tasks: Seq<StreamTask>, task: StreamTask)
    ensures
        add_tasks(Seq::empty()).len() == 0,
        add_tasks(tasks.push(task)) == if task.is_paused {
            add_tasks(tasks)
        } else {
            add_tasks(tasks).push(Task::WatchTask(TaskOp::AddTask(task)))
        },
{
    reveal(Seq::filter);
    assert(tasks.push(task).drop_last() =~= tasks);
    assert(add_tasks(tasks.push(task)) =~= if task.is_paused {
        add_tasks(tasks)
    } else {
        add_tasks(tasks).push(Task::WatchTask(TaskOp::AddTask(task)))
    });
}

/// Which replies the beginning of a watch takes: those that answer what it asks
/// for, whatever they hold.
pub proof fn law_start_takes_any_answer(
    steps: Seq<StartWatchJob>,
    replies: Seq<StartWatchReply>,
    i: int,
    reply: StartWatchReply,
)
    requires
        is_start(steps, replies),
        0 <= i < steps.len(),
    ensures
        steps[i].is_done() <==> steps[i].pending() is Nothing,
        steps[i].answered_by(reply) == match steps[i].pending() {
            StartWatchRequest::GetTasks => reply is Tasks,
            StartWatchRequest::Schedule { .. } => reply is Scheduled,
            StartWatchRequest::SpawnWatchTask { .. } => reply is Acknowledged,
            StartWatchRequest::SpawnWatchPause { .. } => reply is Acknowledged,
            StartWatchRequest::Report { .. } => reply is Acknowledged,
            StartWatchRequest::Nothing => false,
        },
{
    if i > 0 {
        assert(steps[i - 1].leads_to(replies[i - 1], steps[i]));
    }
}

/// What the beginning of a watch asks for after each reply: the tasks are
/// scheduled in their order, then both watchers are begun at the revision at
/// which the tasks were read, and whatever fails is reported and ends it.
pub proof fn law_start_goes_on(
    steps: Seq<StartWatchJob>,
    replies: Seq<StartWatchReply>,
    i: int,
)
    requires
        is_start(steps, replies),
        0 <= i < replies.len(),
    ensures
        steps[0].pending() == StartWatchRequest::GetTasks,
        match (steps[i].pending(), replies[i]) {
            (StartWatchRequest::GetTasks, StartWatchReply::Tasks(Ok(tasks))) => {
                let queue = add_tasks(tasks.inner@);
                i == 0 && steps[1].pending() == if queue.len() > 0 {
                    StartWatchRequest::Schedule { task: &queue[0] }
                } else {
                    StartWatchRequest::SpawnWatchTask { revision: tasks.revision }
                }
            },
            (StartWatchRequest::GetTasks, StartWatchReply::Tasks(Err(err))) => steps[i + 1].pending()
                == (StartWatchRequest::Report { context: Report::WatchTasks, err: &err }),
            (StartWatchRequest::Schedule { .. }, StartWatchReply::Scheduled(Ok(_))) => {
                &&& replies[0] matches StartWatchReply::Tasks(Ok(tasks))
                &&& 1 <= i <= add_tasks(tasks.inner@).len()
                &&& steps[i + 1].pending() == if i < add_tasks(tasks.inner@).len() {
                    StartWatchRequest::Schedule { task: &add_tasks(tasks.inner@)[i] }
                } else {
                    StartWatchRequest::SpawnWatchTask { revision: tasks.revision }
                }
            },
            (StartWatchRequest::Schedule { .. }, StartWatchReply::Scheduled(Err(err))) =>
                steps[i + 1].pending() == (StartWatchRequest::Report {
                    context: Report::WatchTasks,
                    err: &err,
                }),
            (StartWatchRequest::SpawnWatchTask { revision }, StartWatchReply::Acknowledged) =>
                steps[i + 1].pending() == (StartWatchRequest::SpawnWatchPause { revision }),
            (StartWatchRequest::SpawnWatchPause { .. }, StartWatchReply::Acknowledged) =>
                steps[i + 1].state == (StartWatchState::Done { watched: true }),
            (StartWatchRequest::Report { .. }, StartWatchReply::Acknowledged) => steps[i + 1].state
                == (StartWatchState::Done { watched: false }),
            _ => false,
        },
{
    assert(steps[i].leads_to(replies[i], steps[i + 1]) && steps[i].answered_by(replies[i]));
    if steps[i].state is Schedule {
        lemma_schedule_position(steps, replies, i);
    }
    if steps[i].state is GetTasks {
        lemma_tasks_are_read_once(steps, replies, i);
    }
}

proof fn lemma_schedule_position(
    steps: Seq<StartWatchJob>,
    replies: Seq<StartWatchReply>,
    i: int,
)
    requires
        is_start(steps, replies),
        0 <= i < steps.len(),
        steps[i].state is Schedule,
    ensures
        i > 0,
        replies[0] matches StartWatchReply::Tasks(Ok(tasks)) && steps[i].state.schedules_on(
            add_tasks(tasks.inner@),
            i - 1,
            tasks.revision,
        ),
        steps[i].state->Schedule_sent == i - 1,
    decreases i,
{
    assert(i > 0);
    assert(steps[i - 1].leads_to(replies[i - 1], steps[i]));
    assert(steps[i - 1].answered_by(replies[i - 1]));
    if i > 1 {
        assert(steps[i - 1].state is Schedule) by {
            assert(steps[0].leads_to(replies[0], steps[1]));
            if steps[i - 1].state is GetTasks {
                lemma_tasks_are_read_once(steps, replies, i - 1);
            }
        }
        lemma_schedule_position(steps, replies, i - 1);
    }
}

proof fn lemma_tasks_are_read_once(
    steps: Seq<StartWatchJob>,
    replies: Seq<StartWatchReply>,
    i: int,
)
    requires
        is_start(steps, replies),
        0 <= i < steps.len(),
        steps[i].state is GetTasks,
    ensures
        i == 0,
{
    if i > 0 {
        assert(steps[i - 1].leads_to(replies[i - 1], steps[i]));
        assert(steps[i - 1].answered_by(replies[i - 1]));
    }
}

/// Each request for a watcher begins one of its kind, at its revision, and no
/// other request begins one.
pub proof fn law_watcher_is_begun(request: StartWatchRequest)
    ensures
        match request {
            StartWatchRequest::SpawnWatchTask { revision } => request.begun() matches Some(watcher)
                && watcher.kind == WatchKind::Tasks && watcher.pending() == (
            WatchRequest::EventsFrom { kind: WatchKind::Tasks, revision }),
            StartWatchRequest::SpawnWatchPause { revision } => request.begun() matches Some(
                watcher,
            ) && watcher.kind == WatchKind::Pause && watcher.pending() == (
            WatchRequest::EventsFrom { kind: WatchKind::Pause, revision }),
            _ => request.begun() is None,
        },
{
}

} // verus!
