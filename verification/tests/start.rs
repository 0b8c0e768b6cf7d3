use backup_stream::endpoint::Endpoint;
use backup_stream::flush::FlushTicks;
use backup_stream::procedure::Procedure;
use backup_stream::start::{
    create_tokio_runtime, RuntimeSpec, StartJob, StartReply, StartRequest,
};
use backup_stream::types::{BackupStreamConfig, Error};
use backup_stream::watch::StartWatchJob;

fn config() -> BackupStreamConfig {
    BackupStreamConfig {
        num_threads: 4,
        temp_path: "/tmp/stream".to_string(),
        temp_file_size_limit_per_task: 1024,
    }
}

fn error(message: &str) -> Error {
    Error { code: "KV:Unknown".to_string(), message: message.to_string(), context: None }
}

fn answer(job: StartJob, reply: StartReply) -> StartJob {
    assert!(job.accepts(&reply));
    assert!(!job.done());
    assert!(job.endpoint().is_none());
    job.resume(reply)
}

fn up_to_router(job: StartJob) -> StartJob {
    assert_eq!(
        job.request(),
        StartRequest::CreateRouter {
            temp_path: &"/tmp/stream".to_string(),
            temp_file_size_limit_per_task: 1024,
        }
    );
    answer(job, StartReply::Acknowledged)
}

fn watches(job: StartJob) {
    assert_eq!(job.request(), StartRequest::SpawnWatch);
    assert!(job.request().watch() == Some(StartWatchJob::start_and_watch_tasks()));
    assert!(job.request().ticks().is_none());
    let job = answer(job, StartReply::Acknowledged);
    assert_eq!(job.request(), StartRequest::SpawnFlushTicks);
    assert_eq!(job.request().ticks(), Some(FlushTicks::starts_flush_ticks()));
    assert!(job.request().watch().is_none());
    let job = answer(job, StartReply::Acknowledged);
    assert!(job.done());
    assert_eq!(job.endpoint(), Some(Endpoint { store_id: 4, meta_client: true }));
    assert_eq!(job.request(), StartRequest::Nothing);
    assert!(!job.accepts(&StartReply::Acknowledged));
}

fn connecting() -> StartJob {
    let endpoints = vec!["http://127.0.0.1:2379".to_string()];
    let job = Endpoint::new(4, endpoints.clone(), config());
    assert_eq!(job.request(), StartRequest::CountEnabled);
    let job = answer(job, StartReply::Acknowledged);
    assert_eq!(job.request(), StartRequest::CreateRuntime);
    assert_eq!(job.runtime().thread_name, "backup-stream");
    let job = answer(job, StartReply::RuntimeCreated(Ok(())));
    assert_eq!(job.request(), StartRequest::Connect { endpoints: &endpoints, store_id: 4 });
    job
}

#[test]
fn endpoint_with_a_client() {
    let job = Endpoint::with_client(4, config());
    assert_eq!(job.request(), StartRequest::CreateRuntime);
    assert_eq!(
        job.runtime(),
        RuntimeSpec {
            thread_name: "br-stream",
            max_blocking_threads: 4,
            worker_threads: 4,
            enable_io: true,
            enable_time: true,
            thread_memory_accessor: true,
        }
    );
    let job = answer(job, StartReply::RuntimeCreated(Ok(())));
    watches(up_to_router(job));
}

#[test]
fn endpoint_that_connects() {
    let job = answer(connecting(), StartReply::Connected(Ok(())));
    watches(up_to_router(job));
}

#[test]
fn endpoint_that_does_not_connect() {
    let job = answer(connecting(), StartReply::Connected(Err(error("refused"))));
    let job = up_to_router(job);
    assert!(job.done());
    assert_eq!(job.endpoint(), Some(Endpoint { store_id: 4, meta_client: false }));
}

#[test]
fn there_is_no_endpoint_without_a_runtime() {
    let job = Endpoint::with_client(4, config());
    assert!(!job.accepts(&StartReply::RuntimeCreated(Err(error("no threads")))));
    assert!(!job.accepts(&StartReply::Acknowledged));
    assert!(!job.accepts(&StartReply::Connected(Ok(()))));
}

#[test]
fn standard_runtimes() {
    let spec = create_tokio_runtime(1, "test");
    assert_eq!(spec.thread_name, "test");
    assert_eq!(spec.worker_threads, 1);
    assert_eq!(spec.max_blocking_threads, 1);
    assert!(spec.enable_io && spec.enable_time && spec.thread_memory_accessor);
}
