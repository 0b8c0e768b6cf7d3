use backup_stream::flush::{
    resolve_tso, FlushJob, FlushOutcome, FlushReply, FlushRequest, FlushTicks, SafePointId,
    TickRequest, FLUSH_STORAGE_INTERVAL, SAFE_POINT_TTL,
};
use backup_stream::procedure::Procedure;
use backup_stream::report::Report;
use backup_stream::types::{Error, TimeStamp};

fn error(message: &str) -> Error {
    Error { code: "KV:Unknown".to_string(), message: message.to_string(), context: None }
}

fn answer(job: FlushJob, reply: FlushReply) -> FlushJob {
    assert!(job.accepts(&reply));
    assert!(!job.done());
    assert!(job.outcome().is_none());
    job.resume(reply)
}

fn task() -> String {
    "pitr".to_string()
}

/// Goes on from the request for the locks to the one to flush.
fn up_to_flush(job: FlushJob, min_lock: Option<u64>, bound: u64) -> FlushJob {
    assert!(job.request() == FlushRequest::GlobalMinLockTs);
    let job = answer(job, FlushReply::MinLockTs(min_lock.map(TimeStamp::new)));
    assert!(job.request() == FlushRequest::ResolveWith { tso: TimeStamp::new(bound) });
    let job = answer(job, FlushReply::Resolved(TimeStamp::new(30)));
    assert!(job.request() == FlushRequest::WarnIfGapTooHuge { ts: TimeStamp::new(30) });
    let job = answer(job, FlushReply::Acknowledged);
    assert!(
        job.request()
            == FlushRequest::DoFlush {
                task: &task(),
                store_id: 4,
                resolved_ts: TimeStamp::new(30),
            }
    );
    job
}

fn flush() -> FlushJob {
    let job = FlushJob::flush(task(), 4);
    assert!(job.request() == FlushRequest::GetTso);
    let job = answer(job, FlushReply::Tso(Ok(TimeStamp::new(50))));
    up_to_flush(job, Some(40), 40)
}

/// Goes on from the request to flush to the one to move the safe point.
fn up_to_safe_point(job: FlushJob, rts: u64) -> FlushJob {
    let job = answer(job, FlushReply::Flushed(Some(rts)));
    assert!(job.request() == FlushRequest::UpdateMaxTs { ts: TimeStamp::new(rts) });
    let job = answer(job, FlushReply::Acknowledged);
    assert!(
        job.request()
            == FlushRequest::UpdateServiceSafePoint {
                id: SafePointId { task: &task(), store_id: 4 },
                ts: TimeStamp::new(rts),
                ttl_secs: 600,
            }
    );
    job
}

fn steps(job: FlushJob, rts: u64) {
    assert!(job.request() == FlushRequest::StepTask { task: &task(), rts });
    let job = answer(job, FlushReply::Stepped(Ok(())));
    assert!(job.request() == FlushRequest::ShowCheckpoint { task: &task(), rts });
    let job = answer(job, FlushReply::Acknowledged);
    assert_eq!(job.outcome(), Some(FlushOutcome::Advanced(rts)));
    assert!(job.done());
    assert!(job.request() == FlushRequest::Nothing);
    assert!(!job.accepts(&FlushReply::Acknowledged));
}

#[test]
fn flush_moves_the_checkpoint() {
    let job = up_to_safe_point(flush(), 29);
    steps(answer(job, FlushReply::SafePoint(Ok(()))), 29);
}

#[test]
fn failed_safe_point_is_reported_only() {
    let job = up_to_safe_point(flush(), 29);
    let job = answer(job, FlushReply::SafePoint(Err(error("pd"))));
    assert!(
        job.request() == FlushRequest::Report { context: Report::SafePoint, err: &error("pd") }
    );
    steps(answer(job, FlushReply::Acknowledged), 29);
}

#[test]
fn failed_step_ends_the_flush() {
    let job = answer(up_to_safe_point(flush(), 29), FlushReply::SafePoint(Ok(())));
    let job = answer(job, FlushReply::Stepped(Err(error("etcd"))));
    assert!(
        job.request()
            == FlushRequest::Report {
                context: Report::Flushing { task: &task() },
                err: &error("etcd"),
            }
    );
    let job = answer(job, FlushReply::Acknowledged);
    assert_eq!(job.outcome(), Some(FlushOutcome::StepFailed));
}

#[test]
fn nothing_flushed() {
    let job = answer(flush(), FlushReply::Flushed(None));
    assert_eq!(job.outcome(), Some(FlushOutcome::NotFlushed));
}

#[test]
fn checkpoint_zero_is_not_moved_to() {
    let job = answer(flush(), FlushReply::Flushed(Some(0)));
    assert_eq!(job.outcome(), Some(FlushOutcome::CannotAdvance));
}

#[test]
fn without_tso_nothing_new_is_resolved() {
    let job = FlushJob::flush(task(), 4);
    let job = answer(job, FlushReply::Tso(Err(error("pd"))));
    assert!(job.request() == FlushRequest::Report { context: Report::GetTso, err: &error("pd") });
    let job = answer(job, FlushReply::Acknowledged);
    up_to_flush(job, Some(40), 0);
}

#[test]
fn without_locks_the_tso_counts() {
    let job = FlushJob::flush(task(), 4);
    let job = answer(job, FlushReply::Tso(Ok(TimeStamp::new(50))));
    up_to_flush(job, None, 50);
}

#[test]
fn earlier_timestamp_is_resolved() {
    assert_eq!(resolve_tso(TimeStamp(5), Some(TimeStamp(3))), TimeStamp(3));
    assert_eq!(resolve_tso(TimeStamp(3), Some(TimeStamp(5))), TimeStamp(3));
    assert_eq!(resolve_tso(TimeStamp(3), Some(TimeStamp(3))), TimeStamp(3));
    assert_eq!(resolve_tso(TimeStamp(7), None), TimeStamp(7));
    assert_eq!(resolve_tso(TimeStamp::max(), None), TimeStamp(u64::MAX));
    assert_eq!(resolve_tso(TimeStamp::zero(), Some(TimeStamp(1))), TimeStamp(0));
}

#[test]
fn forced_flush_marks_the_task() {
    for swapped in [true, false] {
        let job = FlushJob::force_flush(task(), 4);
        assert!(job.request() == FlushRequest::GetTaskInfo { task: &task() });
        let job = answer(job, FlushReply::TaskInfo(Ok(())));
        assert!(
            job.request()
                == FlushRequest::SetFlushing { task: &task(), from: false, to: true }
        );
        let job = answer(job, FlushReply::Swapped(swapped));
        assert!(job == FlushJob::flush(task(), 4));
    }
}

#[test]
fn forced_flush_is_for_known_tasks() {
    let job = FlushJob::force_flush(task(), 4);
    assert!(!job.accepts(&FlushReply::TaskInfo(Err(error("no such task")))));
}

#[test]
fn safe_point_lasts_two_flush_intervals() {
    assert_eq!(FLUSH_STORAGE_INTERVAL, 300);
    assert_eq!(SAFE_POINT_TTL, 2 * FLUSH_STORAGE_INTERVAL);
}

#[test]
fn one_tick_every_fifteen_seconds() {
    let mut ticks = FlushTicks::starts_flush_ticks();
    for _ in 0..3 {
        assert!(!ticks.done());
        assert_eq!(ticks.request(), TickRequest::Sleep { secs: 15 });
        assert!(ticks.accepts(&()));
        ticks = ticks.resume(());
        assert_eq!(ticks.request(), TickRequest::Tick);
        ticks = ticks.resume(());
    }
}
