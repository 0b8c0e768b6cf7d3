use backup_stream::procedure::Procedure;
use backup_stream::register::{
    RegisterFailure, RegisterJob, RegisterOutcome, RegisterReply, RegisterRequest, UnregisterJob,
    UnregisterRequest, UnregisterState,
};
use backup_stream::report::Report;
use backup_stream::scan::InitializeJob;
use backup_stream::types::{Error, KeyRange, StreamBackupTaskInfo, StreamTask};

fn error(message: &str) -> Error {
    Error { code: "KV:Unknown".to_string(), message: message.to_string(), context: None }
}

fn task() -> StreamTask {
    StreamTask {
        info: StreamBackupTaskInfo { name: "pitr".to_string(), details: vec![7] },
        is_paused: false,
    }
}

fn range(start: &[u8], end: &[u8]) -> KeyRange {
    KeyRange { start_key: start.to_vec(), end_key: end.to_vec() }
}

fn answer(job: RegisterJob, reply: RegisterReply) -> RegisterJob {
    assert!(job.accepts(&reply));
    assert!(!job.done());
    assert!(job.outcome().is_none());
    job.resume(reply)
}

/// The form in which these tests have keys stored.
fn wrap(key: &[u8]) -> Vec<u8> {
    let mut wrapped = vec![b'z'];
    wrapped.extend_from_slice(key);
    wrapped
}

fn begin() -> RegisterJob {
    let job = RegisterJob::begin(true, task());
    assert!(job.request() == RegisterRequest::RangesOfTask { task_name: &"pitr".to_string() });
    job
}

fn up_to_router() -> RegisterJob {
    let mut job = answer(
        begin(),
        RegisterReply::Ranges(Ok(vec![range(&[1], &[2]), range(&[3], &[])])),
    );
    for key in [vec![1u8], vec![2], vec![3], vec![]] {
        assert!(job.request() == RegisterRequest::WrapKey { key: &key });
        job = answer(job, RegisterReply::Key(wrap(&key)));
    }
    assert!(
        job.request()
            == RegisterRequest::RegisterTask {
                task: &task(),
                ranges: &vec![range(b"z\x01", b"z\x02"), range(b"z\x03", b"z")],
            }
    );
    job
}

#[test]
fn registration_observes_every_range() {
    let mut job = answer(up_to_router(), RegisterReply::Registered(Ok(())));
    for (observed, added) in
        [(range(b"z\x01", b"z\x02"), false), (range(b"z\x03", b"z"), true)]
    {
        assert!(job.request() == RegisterRequest::AddRange { range: &observed });
        job = answer(job, RegisterReply::Added(added));
        assert!(job.request() == RegisterRequest::SpawnInitialize { range: &observed });
        let begun = InitializeJob::begin(observed.clone());
        assert_eq!(job.request().initialization(), Some(begun));
        job = answer(job, RegisterReply::Acknowledged);
    }
    assert!(job.done());
    assert_eq!(job.outcome(), Some(RegisterOutcome::Registered));
    assert!(job.request() == RegisterRequest::Nothing);
    assert!(job.request().initialization().is_none());
    assert!(!job.accepts(&RegisterReply::Acknowledged));
}

#[test]
fn registration_without_ranges() {
    let job = answer(begin(), RegisterReply::Ranges(Ok(vec![])));
    assert!(job.request() == RegisterRequest::RegisterTask { task: &task(), ranges: &vec![] });
    let job = answer(job, RegisterReply::Registered(Ok(())));
    assert_eq!(job.outcome(), Some(RegisterOutcome::Registered));
}

#[test]
fn refused_task_is_reported() {
    let job = answer(up_to_router(), RegisterReply::Registered(Err(error("refused"))));
    assert!(
        job.request()
            == RegisterRequest::Report {
                context: Report::RegisterRefused { task: &"pitr".to_string() },
                err: &error("refused"),
            }
    );
    let job = answer(job, RegisterReply::Acknowledged);
    assert_eq!(job.outcome(), Some(RegisterOutcome::Failed(RegisterFailure::Refused)));
}

#[test]
fn unknown_ranges_are_reported() {
    let job = answer(begin(), RegisterReply::Ranges(Err(error("etcd"))));
    assert!(
        job.request()
            == RegisterRequest::Report {
                context: Report::RangesNotFound { task: &"pitr".to_string() },
                err: &error("etcd"),
            }
    );
    let job = answer(job, RegisterReply::Acknowledged);
    assert_eq!(job.outcome(), Some(RegisterOutcome::Failed(RegisterFailure::RangesNotFound)));
}

#[test]
fn nothing_to_register_without_client() {
    let job = RegisterJob::begin(false, task());
    assert!(job.done());
    assert_eq!(job.outcome(), Some(RegisterOutcome::NoClient));
}

#[test]
fn removal_clears_everything() {
    let job = UnregisterJob::begin("pitr".to_string());
    assert_eq!(job.request(), UnregisterRequest::UnregisterTask { task: &"pitr".to_string() });
    assert!(job.accepts(&()));
    let job = job.resume(());
    assert_eq!(job.request(), UnregisterRequest::ClearSubscriptions);
    let job = job.resume(());
    assert_eq!(job.request(), UnregisterRequest::ClearRanges);
    assert!(!job.done());
    let job = job.resume(());
    assert_eq!(job.request(), UnregisterRequest::Nothing);
    assert!(job.done());
    assert!(!job.accepts(&()));
    assert_eq!(UnregisterState::Done.next(), UnregisterState::Done);
}
