use backup_stream::backup::BackupJob;
use backup_stream::endpoint::{Endpoint, Job};
use backup_stream::fatal::{FatalJob, FatalReply, FatalRequest};
use backup_stream::flush::FlushJob;
use backup_stream::observe::{ObserveJob, ObserveReply, ObserveRequest, RegionLookup};
use backup_stream::procedure::Procedure;
use backup_stream::register::{RegisterJob, RegisterOutcome, UnregisterJob};
use backup_stream::task::{DebugField, ObserveOp, Task, TaskOp};
use backup_stream::types::{
    CmdBatch, ConfigChange, Error, ObserveHandle, Region, RegionEpoch, SnapshotId,
    StreamBackupTaskInfo, StreamTask,
};
use backup_stream::watch::{MetadataEvent, WatchJob, WatchReply, WatchRequest};

fn connected() -> Endpoint {
    Endpoint { store_id: 4, meta_client: true }
}

fn alone() -> Endpoint {
    Endpoint { store_id: 4, meta_client: false }
}

fn error(message: &str) -> Error {
    Error { code: "KV:Unknown".to_string(), message: message.to_string(), context: None }
}

fn name() -> String {
    "pitr".to_string()
}

fn task() -> StreamTask {
    StreamTask {
        info: StreamBackupTaskInfo { name: name(), details: vec![] },
        is_paused: false,
    }
}

fn region() -> Region {
    Region {
        id: 17,
        start_key: vec![1],
        end_key: vec![2],
        region_epoch: RegionEpoch { conf_ver: 1, version: 2 },
        peers: vec![],
    }
}

fn batches() -> Vec<CmdBatch> {
    vec![CmdBatch { region_id: 17, cmds: vec![] }, CmdBatch { region_id: 18, cmds: vec![] }]
}

fn change() -> ConfigChange {
    ConfigChange { entries: vec![("num-threads".to_string(), "8".to_string())] }
}

#[test]
fn tasks_are_routed() {
    let endpoint = connected();
    let added = endpoint.run_task(Task::WatchTask(TaskOp::AddTask(task())));
    assert!(added == Job::Register(RegisterJob::begin(true, task())));
    let removed = endpoint.run_task(Task::WatchTask(TaskOp::RemoveTask(name())));
    assert!(removed == Job::Unregister(UnregisterJob::begin(name())));
    let backup = endpoint.run_task(Task::BatchEvent(batches()));
    assert!(backup == Job::Backup(BackupJob::begin(batches())));
    let flush = endpoint.run_task(Task::Flush(name()));
    assert!(flush == Job::Flush(FlushJob::flush(name(), 4)));
    let forced = endpoint.run_task(Task::ForceFlush(name()));
    assert!(forced == Job::Flush(FlushJob::force_flush(name(), 4)));
    let observe = endpoint.run_task(Task::ModifyObserve(ObserveOp::Stop { region: region() }));
    assert!(
        observe == Job::Observe(ObserveJob::begin(true, ObserveOp::Stop { region: region() }))
    );
    let fatal = endpoint.run_task(Task::FatalError(name(), Box::new(error("no space"))));
    assert!(fatal == Job::Fatal(FatalJob::begin(name(), Box::new(error("no space")), 4, true)));
    assert!(endpoint.run_task(Task::ChangeConfig(change())) == Job::Nothing);
}

#[test]
fn pause_is_removal_and_resumption_is_addition() {
    for endpoint in [connected(), alone()] {
        assert!(
            endpoint.handle_watch_task(TaskOp::PauseTask(name()))
                == endpoint.handle_watch_task(TaskOp::RemoveTask(name()))
        );
        assert!(
            endpoint.handle_watch_task(TaskOp::ResumeTask(task()))
                == endpoint.handle_watch_task(TaskOp::AddTask(task()))
        );
    }
}

#[test]
fn handlers_begin_their_work() {
    let endpoint = connected();
    assert!(endpoint.on_register(task()) == RegisterJob::begin(true, task()));
    assert_eq!(endpoint.on_unregister("pitr"), UnregisterJob::begin(name()));
    assert!(endpoint.on_flush(name(), 9) == FlushJob::flush(name(), 9));
    assert!(endpoint.on_force_flush(name(), 9) == FlushJob::force_flush(name(), 9));
    assert!(endpoint.do_backup(batches()) == BackupJob::begin(batches()));
    let op = ObserveOp::RefreshResolver { region: region() };
    assert!(endpoint.on_modify_observe(op.clone()) == ObserveJob::begin(true, op));
    assert!(
        endpoint.on_fatal_error(name(), Box::new(error("no space")))
            == FatalJob::begin(name(), Box::new(error("no space")), 4, true)
    );
}

#[test]
fn endpoint_without_client_registers_nothing() {
    let job = alone().on_register(task());
    assert!(job.done());
    assert_eq!(job.outcome(), Some(RegisterOutcome::NoClient));
}

#[test]
fn some_tasks_need_a_client() {
    let needy = [
        Task::Flush(name()),
        Task::ForceFlush(name()),
    ];
    for task in needy {
        assert!(connected().able(&task));
        assert!(!alone().able(&task));
    }
    let others = [
        Task::WatchTask(TaskOp::AddTask(task())),
        Task::BatchEvent(batches()),
        Task::ModifyObserve(ObserveOp::Stop { region: region() }),
        Task::ChangeConfig(change()),
        Task::FatalError(name(), Box::new(error("no space"))),
    ];
    for task in others {
        assert!(connected().able(&task));
        assert!(alone().able(&task));
    }
}

#[test]
fn fatal_error_takes_the_task_off_even_without_client() {
    let job = alone().run_task(Task::FatalError(name(), Box::new(error("no space"))));
    let begun = FatalJob::begin(name(), Box::new(error("no space")), 4, false);
    assert!(job == Job::Fatal(begun));
}

#[test]
fn flushes_go_on_in_the_background() {
    let endpoint = connected();
    assert!(endpoint.run_task(Task::Flush(name())).in_background());
    assert!(endpoint.run_task(Task::ForceFlush(name())).in_background());
    assert!(!endpoint.run_task(Task::BatchEvent(batches())).in_background());
    assert!(!endpoint.run_task(Task::ChangeConfig(change())).in_background());
}

#[test]
fn failed_start_comes_back_as_a_retry() {
    let endpoint = connected();
    let op = ObserveOp::Start { region: region(), needs_initial_scanning: false };
    let job = endpoint.on_modify_observe(op);
    let job = job.resume(ObserveReply::Handle(ObserveHandle { id: 3 }));
    let job = job.resume(ObserveReply::Registered);
    let job = job.resume(ObserveReply::Observed(Err(error("busy"))));
    let scheduled = match job.request() {
        ObserveRequest::Schedule { task } => task.clone(),
        _ => panic!("a failed start is handed back"),
    };
    match endpoint.run_task(scheduled) {
        Job::Observe(retry) => {
            assert!(retry.request() == ObserveRequest::LookUp { region_id: 17 })
        }
        _ => panic!("a failed start is retried"),
    }
    let job = job.resume(ObserveReply::Scheduled);
    assert!(!job.accepts(&ObserveReply::Observed(Ok(SnapshotId(1)))));
}

#[test]
fn unpublished_error_begins_anew() {
    let endpoint = connected();
    let first = endpoint.on_fatal_error(name(), Box::new(error("no space")));
    let mut job = first.clone();
    for _ in 0..4 {
        job = job.resume(FatalReply::Acknowledged);
    }
    let job = job.resume(FatalReply::Paused(Err(error("etcd"))));
    let job = job.resume(FatalReply::Acknowledged);
    match job.request() {
        FatalRequest::ScheduleAfter { secs, again } => {
            assert_eq!(secs, 5);
            assert!(endpoint.able(again));
            assert!(endpoint.run_task(again.clone()) == Job::Fatal(first));
        }
        _ => panic!("an error that is not published is dealt with again"),
    }
}

#[test]
fn failed_retry_pauses_the_task_of_its_region() {
    let endpoint = connected();
    let job = endpoint.on_modify_observe(ObserveOp::NotifyFailToStartObserve {
        region: region(),
        handle: ObserveHandle { id: 3 },
        err: Box::new(error("first")),
    });
    let lookup = RegionLookup::NotSent(error("full"));
    let job = job.resume(ObserveReply::LookedUp(lookup));
    let job = job.resume(ObserveReply::TaskName(Some(name())));
    let scheduled = match job.request() {
        ObserveRequest::Schedule { task } => task.clone(),
        _ => panic!("a failed retry stops the task of its region"),
    };
    let mut job = match endpoint.run_task(scheduled) {
        Job::Fatal(job) => job,
        _ => panic!("a failed retry is fatal"),
    };
    for _ in 0..4 {
        job = job.resume(FatalReply::Acknowledged);
    }
    assert!(job.request() == FatalRequest::Pause { task: &name() });
    let job = job.resume(FatalReply::Paused(Ok(()))).resume(FatalReply::Time(7));
    match job.request() {
        FatalRequest::ReportLastError { task, last_error } => {
            assert_eq!(task, "pitr");
            assert_eq!(
                last_error.error_message(),
                "failed to send request to region info accessor, server maybe too too too busy. (region id = 17): full"
            );
        }
        _ => panic!("the error of a paused task is published"),
    }
}

#[test]
fn watched_change_can_be_run() {
    let job = WatchJob::starts_watch_pause(1).resume(WatchReply::Subscribed(Ok(())));
    let job = job.resume(WatchReply::Event(Some(MetadataEvent::PauseTask(name()))));
    match job.request() {
        WatchRequest::Schedule { task } => {
            assert!(alone().able(task));
            let removal = alone().run_task(task.clone());
            assert!(removal == Job::Unregister(UnregisterJob::begin(name())));
        }
        _ => panic!("a pause is scheduled"),
    }
}

#[test]
fn tasks_are_printed() {
    let printed = |task: &Task| task.fmt().name.to_string();
    assert_eq!(printed(&Task::WatchTask(TaskOp::RemoveTask(name()))), "WatchTask");
    assert_eq!(printed(&Task::ChangeConfig(change())), "ChangeConfig");
    assert_eq!(
        printed(&Task::ModifyObserve(ObserveOp::Stop { region: region() })),
        "ModifyObserve"
    );

    let task = Task::BatchEvent(batches());
    let shown = task.fmt();
    assert_eq!(shown.name, "BatchEvent");
    assert!(matches!(&shown.fields[..], [DebugField::Batches(text)] if text == "[2 events...]"));

    let task = Task::Flush(name());
    let shown = task.fmt();
    assert_eq!(shown.name, "Flush");
    assert!(matches!(&shown.fields[..], [DebugField::Name(text)] if *text == "pitr"));

    let task = Task::ForceFlush(name());
    assert_eq!(task.fmt().name, "ForceFlush");

    let task = Task::FatalError(name(), Box::new(error("no space")));
    let shown = task.fmt();
    assert_eq!(shown.name, "FatalError");
    assert_eq!(shown.fields.len(), 2);
    assert!(matches!(&shown.fields[0], DebugField::Name(text) if *text == "pitr"));
    assert!(matches!(&shown.fields[1], DebugField::Failure(err) if **err == error("no space")));
}
