use backup_stream::fatal::{
    FatalJob, FatalOutcome, FatalReply, FatalRequest, LastError, RETRY_DELAY,
};
use backup_stream::procedure::Procedure;
use backup_stream::register::UnregisterRequest;
use backup_stream::report::Report;
use backup_stream::task::Task;
use backup_stream::types::{Error, ErrorContext};

fn error(message: &str) -> Error {
    Error { code: "KV:Unknown".to_string(), message: message.to_string(), context: None }
}

fn task() -> String {
    "pitr".to_string()
}

fn answer(job: FatalJob, reply: FatalReply) -> FatalJob {
    assert!(job.accepts(&reply));
    assert!(!job.done());
    assert!(job.outcome().is_none());
    job.resume(reply)
}

fn up_to_pause() -> FatalJob {
    let task = task();
    up_to_pause_on(FatalJob::begin(task, Box::new(error("no space")), 4, true))
}

fn up_to_pause_on(job: FatalJob) -> FatalJob {
    let task = task();
    assert!(
        job.request()
            == FatalRequest::Unregister(UnregisterRequest::UnregisterTask { task: &task })
    );
    let job = answer(job, FatalReply::Acknowledged);
    assert!(job.request() == FatalRequest::Unregister(UnregisterRequest::ClearSubscriptions));
    let job = answer(job, FatalReply::Acknowledged);
    assert!(job.request() == FatalRequest::Unregister(UnregisterRequest::ClearRanges));
    let job = answer(job, FatalReply::Acknowledged);
    let err = error("no space");
    assert!(
        job.request() == FatalRequest::Report { context: Report::Fatal { err: &err }, err: &err }
    );
    let job = answer(job, FatalReply::Acknowledged);
    assert!(job.request() == FatalRequest::Pause { task: &task });
    job
}

fn up_to_publish() -> FatalJob {
    let job = answer(up_to_pause(), FatalReply::Paused(Ok(())));
    assert!(job.request() == FatalRequest::PhysicalNow);
    let job = answer(job, FatalReply::Time(1234));
    let err = error("no space");
    assert!(
        job.request()
            == FatalRequest::ReportLastError {
                task: &task(),
                last_error: LastError { err: &err, store_id: 4, happen_at: 1234 },
            }
    );
    job
}

fn tries_again(job: FatalJob, upload_err: Error) {
    assert!(
        job.request()
            == FatalRequest::Report {
                context: Report::UploadError { err: &upload_err },
                err: &upload_err,
            }
    );
    let job = answer(job, FatalReply::Acknowledged);
    let again = Task::FatalError(task(), Box::new(error("no space")));
    assert!(job.request() == FatalRequest::ScheduleAfter { secs: 5, again: &again });
    let job = answer(job, FatalReply::Acknowledged);
    assert_eq!(job.outcome(), Some(FatalOutcome::Retrying));
    assert!(job.request() == FatalRequest::Nothing);
}

#[test]
fn fatal_error_is_published() {
    let job = answer(up_to_publish(), FatalReply::Published(Ok(())));
    assert!(job.done());
    assert_eq!(job.outcome(), Some(FatalOutcome::Published));
    assert!(!job.accepts(&FatalReply::Acknowledged));
}

#[test]
fn task_that_cannot_be_paused_is_tried_again() {
    let job = answer(up_to_pause(), FatalReply::Paused(Err(error("etcd"))));
    tries_again(job, error("etcd"));
}

#[test]
fn error_that_cannot_be_published_is_tried_again() {
    let job = answer(up_to_publish(), FatalReply::Published(Err(error("etcd"))));
    tries_again(job, error("etcd"));
    assert_eq!(RETRY_DELAY, 5);
}

#[test]
fn without_client_the_task_is_only_taken_off() {
    let job = FatalJob::begin(task(), Box::new(error("no space")), 4, false);
    let job = up_to_pause_on(job);
    assert!(!job.done());
    assert!(!job.accepts(&FatalReply::Paused(Ok(()))));
    assert!(!job.accepts(&FatalReply::Paused(Err(error("etcd")))));
    assert!(!job.accepts(&FatalReply::Acknowledged));
}

#[test]
fn what_is_published_of_an_error() {
    let err = error("disconnected").annotate(ErrorContext::MessageDropped);
    let last = LastError { err: &err, store_id: 1, happen_at: 2 };
    assert_eq!(last.error_code(), "KV:Unknown");
    assert_eq!(
        last.error_message(),
        "BUG?: unexpected channel message dropped.: disconnected"
    );
}
