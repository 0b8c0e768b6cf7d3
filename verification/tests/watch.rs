use backup_stream::procedure::Procedure;
use backup_stream::report::Report;
use backup_stream::task::{Task, TaskOp};
use backup_stream::types::{Error, StreamBackupTaskInfo, StreamTask};
use backup_stream::watch::{
    tasks_to_add, MetadataEvent, StartWatchJob, StartWatchReply, StartWatchRequest,
    StartWatchState, StreamTasks, WatchJob, WatchKind, WatchReply, WatchRequest,
};

fn error(message: &str) -> Error {
    Error { code: "KV:Unknown".to_string(), message: message.to_string(), context: None }
}

fn task(name: &str, is_paused: bool) -> StreamTask {
    StreamTask {
        info: StreamBackupTaskInfo { name: name.to_string(), details: vec![] },
        is_paused,
    }
}

fn add(name: &str) -> Task {
    Task::WatchTask(TaskOp::AddTask(task(name, false)))
}

fn go_on(job: StartWatchJob, reply: StartWatchReply) -> StartWatchJob {
    assert!(job.accepts(&reply));
    assert!(!job.done());
    job.resume(reply)
}

fn answer(job: WatchJob, reply: WatchReply) -> WatchJob {
    assert!(job.accepts(&reply));
    assert!(!job.done());
    job.resume(reply)
}

fn tasks() -> StreamTasks {
    StreamTasks {
        inner: vec![task("a", false), task("b", true), task("c", false)],
        revision: 12,
    }
}

fn opened(job: WatchJob) -> WatchJob {
    let job = answer(job, WatchReply::Subscribed(Ok(())));
    assert!(job.request() == WatchRequest::NextEvent);
    job
}

fn ends(job: WatchJob, context: Report<'_>, err: Error) {
    assert!(job.request() == WatchRequest::Report { context, err: &err });
    let job = answer(job, WatchReply::Acknowledged);
    assert!(job.done());
    assert!(job.request() == WatchRequest::Nothing);
    assert!(!job.accepts(&WatchReply::Acknowledged));
}

fn schedules(job: WatchJob, expected: Task) -> WatchJob {
    assert!(job.request() == WatchRequest::Schedule { task: &expected });
    let job = answer(job, WatchReply::Scheduled(Ok(())));
    assert!(job.request() == WatchRequest::NextEvent);
    job
}

#[test]
fn paused_tasks_are_left_out() {
    assert!(tasks_to_add(tasks().inner) == vec![add("a"), add("c")]);
    assert!(tasks_to_add(vec![task("b", true)]).is_empty());
    assert!(tasks_to_add(vec![]).is_empty());
}

#[test]
fn tasks_are_added_then_watched() {
    let job = StartWatchJob::start_and_watch_tasks();
    assert!(job.request() == StartWatchRequest::GetTasks);
    assert!(job.request().watcher().is_none());
    let mut job = go_on(job, StartWatchReply::Tasks(Ok(tasks())));
    for name in ["a", "c"] {
        assert!(job.request() == StartWatchRequest::Schedule { task: &add(name) });
        job = go_on(job, StartWatchReply::Scheduled(Ok(())));
    }
    assert!(job.request() == StartWatchRequest::SpawnWatchTask { revision: 12 });
    assert!(job.request().watcher() == Some(WatchJob::starts_watch_task(12)));
    let job = go_on(job, StartWatchReply::Acknowledged);
    assert!(job.request() == StartWatchRequest::SpawnWatchPause { revision: 12 });
    assert!(job.request().watcher() == Some(WatchJob::starts_watch_pause(12)));
    let job = go_on(job, StartWatchReply::Acknowledged);
    assert!(job.done());
    assert!(job.state == StartWatchState::Done { watched: true });
    assert!(job.request() == StartWatchRequest::Nothing);
}

#[test]
fn no_tasks_are_watched_all_the_same() {
    let job = StartWatchJob::start_and_watch_tasks();
    let job = go_on(
        job,
        StartWatchReply::Tasks(Ok(StreamTasks { inner: vec![], revision: -1 })),
    );
    assert!(job.request() == StartWatchRequest::SpawnWatchTask { revision: -1 });
}

#[test]
fn tasks_that_cannot_be_read_are_not_watched() {
    let job = StartWatchJob::start_and_watch_tasks();
    let job = go_on(job, StartWatchReply::Tasks(Err(error("etcd"))));
    assert!(
        job.request()
            == StartWatchRequest::Report { context: Report::WatchTasks, err: &error("etcd") }
    );
    let job = go_on(job, StartWatchReply::Acknowledged);
    assert!(job.state == StartWatchState::Done { watched: false });
}

#[test]
fn tasks_that_cannot_be_scheduled_are_not_watched() {
    let job = StartWatchJob::start_and_watch_tasks();
    let job = go_on(job, StartWatchReply::Tasks(Ok(tasks())));
    let job = go_on(job, StartWatchReply::Scheduled(Ok(())));
    let job = go_on(job, StartWatchReply::Scheduled(Err(error("stopped"))));
    assert!(
        job.request()
            == StartWatchRequest::Report { context: Report::WatchTasks, err: &error("stopped") }
    );
    let job = go_on(job, StartWatchReply::Acknowledged);
    assert!(job.state == StartWatchState::Done { watched: false });
}

#[test]
fn added_and_removed_tasks_are_scheduled() {
    let job = WatchJob::starts_watch_task(12);
    assert!(
        job.request() == WatchRequest::EventsFrom { kind: WatchKind::Tasks, revision: 12 }
    );
    let job = opened(job);
    let job = answer(job, WatchReply::Event(Some(MetadataEvent::AddTask(task("a", false)))));
    let job = schedules(job, add("a"));
    let job = answer(job, WatchReply::Event(Some(MetadataEvent::RemoveTask("a".to_string()))));
    schedules(job, Task::WatchTask(TaskOp::RemoveTask("a".to_string())));
}

#[test]
fn added_task_is_scheduled_even_if_paused() {
    let job = opened(WatchJob::starts_watch_task(12));
    let job = answer(job, WatchReply::Event(Some(MetadataEvent::AddTask(task("b", true)))));
    schedules(job, Task::WatchTask(TaskOp::AddTask(task("b", true))));
}

#[test]
fn paused_and_resumed_tasks_are_scheduled() {
    let job = WatchJob::starts_watch_pause(12);
    assert!(
        job.request() == WatchRequest::EventsFrom { kind: WatchKind::Pause, revision: 12 }
    );
    let job = opened(job);
    let job = answer(job, WatchReply::Event(Some(MetadataEvent::PauseTask("a".to_string()))));
    let job = schedules(job, Task::WatchTask(TaskOp::PauseTask("a".to_string())));
    let job = answer(job, WatchReply::Event(Some(MetadataEvent::ResumeTask("a".to_string()))));
    assert!(job.request() == WatchRequest::GetTask { name: &"a".to_string() });
    let job = answer(job, WatchReply::Task(Ok(task("a", false))));
    schedules(job, Task::WatchTask(TaskOp::ResumeTask(task("a", false))));
}

#[test]
fn watch_goes_on_after_errors_among_events() {
    let job = opened(WatchJob::starts_watch_task(12));
    let job = answer(job, WatchReply::Event(None));
    assert!(job.request() == WatchRequest::NextEvent);
    let job = answer(job, WatchReply::Event(Some(MetadataEvent::Error(error("lagging")))));
    assert!(
        job.request()
            == WatchRequest::Report { context: Report::WatchEvent, err: &error("lagging") }
    );
    let job = answer(job, WatchReply::Acknowledged);
    assert!(job.request() == WatchRequest::NextEvent);
}

#[test]
fn watch_ends_on_failures() {
    let job = answer(
        WatchJob::starts_watch_task(12),
        WatchReply::Subscribed(Err(error("etcd"))),
    );
    ends(job, Report::WatchTasks, error("etcd"));

    let job = opened(WatchJob::starts_watch_task(12));
    let job = answer(job, WatchReply::Event(Some(MetadataEvent::RemoveTask("a".to_string()))));
    let job = answer(job, WatchReply::Scheduled(Err(error("stopped"))));
    ends(job, Report::WatchTasks, error("stopped"));

    let job = opened(WatchJob::starts_watch_pause(12));
    let job = answer(job, WatchReply::Event(Some(MetadataEvent::ResumeTask("a".to_string()))));
    let job = answer(job, WatchReply::Task(Err(error("gone"))));
    ends(job, Report::WatchPause, error("gone"));
}

#[test]
fn watchers_keep_to_their_kind() {
    let pause = WatchReply::Event(Some(MetadataEvent::PauseTask("a".to_string())));
    let resume = WatchReply::Event(Some(MetadataEvent::ResumeTask("a".to_string())));
    let remove = WatchReply::Event(Some(MetadataEvent::RemoveTask("a".to_string())));
    let added = WatchReply::Event(Some(MetadataEvent::AddTask(task("a", false))));
    let tasks = opened(WatchJob::starts_watch_task(1));
    assert!(tasks.accepts(&added) && tasks.accepts(&remove));
    assert!(!tasks.accepts(&pause) && !tasks.accepts(&resume));
    let pauses = opened(WatchJob::starts_watch_pause(1));
    assert!(pauses.accepts(&pause) && pauses.accepts(&resume));
    assert!(!pauses.accepts(&added) && !pauses.accepts(&remove));
}
