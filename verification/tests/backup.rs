use backup_stream::backup::{
    took_long, BackupJob, BackupReply, BackupRequest, SinkJob, SinkReply, SinkRequest,
};
use backup_stream::procedure::Procedure;
use backup_stream::types::{ApplyEvents, CmdBatch, OnEventResult};

fn batch(region_id: u64) -> CmdBatch {
    CmdBatch { region_id, cmds: vec![vec![1], vec![2]] }
}

fn events(len: usize) -> ApplyEvents {
    ApplyEvents { id: 3, len, size: 100 * len }
}

fn answer(job: BackupJob, reply: BackupReply) -> BackupJob {
    assert!(job.accepts(&reply));
    assert!(!job.done());
    job.resume(reply)
}

fn go_on(job: SinkJob, reply: SinkReply) -> SinkJob {
    assert!(job.accepts(&reply));
    assert!(!job.done());
    job.resume(reply)
}

#[test]
fn batches_are_backed_up_in_order() {
    let job = BackupJob::begin(vec![batch(1), batch(2), batch(3), batch(4)]);
    // A region that is not subscribed.
    assert!(job.request() == BackupRequest::FindSubscription { region_id: 1 });
    let job = answer(job, BackupReply::Subscribed(false));
    assert!(job.request().sink().is_none());
    // A batch without events.
    assert!(job.request() == BackupRequest::FindSubscription { region_id: 2 });
    let job = answer(job, BackupReply::Subscribed(true));
    assert!(job.request() == BackupRequest::FromCmdBatch { batch: &batch(2) });
    let job = answer(job, BackupReply::Events(events(0)));
    // A batch with events.
    assert!(job.request() == BackupRequest::FindSubscription { region_id: 3 });
    let job = answer(job, BackupReply::Subscribed(true));
    assert!(job.request() == BackupRequest::FromCmdBatch { batch: &batch(3) });
    let job = answer(job, BackupReply::Events(events(5)));
    assert!(
        job.request() == BackupRequest::SpawnSink { region_id: 3, events: events(5) }
    );
    assert_eq!(job.request().sink(), Some(SinkJob::begin(3, events(5))));
    let job = answer(job, BackupReply::Acknowledged);
    assert!(job.request() == BackupRequest::FindSubscription { region_id: 4 });
    let job = answer(job, BackupReply::Subscribed(false));
    assert!(job.done());
    assert!(job.request() == BackupRequest::Nothing);
    assert!(!job.accepts(&BackupReply::Acknowledged));
}

/// What a backup asks for, in words, where regions with odd numbers are
/// subscribed and each of their batches holds as many events as its region's
/// number says.
fn asked(batches: Vec<CmdBatch>) -> Vec<String> {
    let mut job = BackupJob::begin(batches);
    let mut asked = Vec::new();
    while !job.done() {
        let (words, reply) = match job.request() {
            BackupRequest::FindSubscription { region_id } => {
                (format!("find {}", region_id), BackupReply::Subscribed(region_id % 2 == 1))
            }
            BackupRequest::FromCmdBatch { batch } => (
                format!("convert {}", batch.region_id),
                BackupReply::Events(events(batch.region_id as usize - 1)),
            ),
            BackupRequest::SpawnSink { region_id, events } => {
                (format!("sink {} {}", region_id, events.len), BackupReply::Acknowledged)
            }
            BackupRequest::Nothing => unreachable!(),
        };
        asked.push(words);
        job = answer(job, reply);
    }
    asked
}

#[test]
fn backup_goes_batch_by_batch() {
    let all = vec![batch(1), batch(2), batch(3), batch(5)];
    let whole = asked(all.clone());
    let expected = [
        "find 1", "convert 1", "find 2", "find 3", "convert 3", "sink 3 2", "find 5", "convert 5",
        "sink 5 4",
    ];
    assert_eq!(whole, expected);
    for n in 0..=all.len() {
        let mut parts = asked(all[..n].to_vec());
        parts.extend(asked(all[n..].to_vec()));
        assert_eq!(parts, whole);
    }
}

#[test]
fn no_batches() {
    let job = BackupJob::begin(vec![]);
    assert!(job.done());
    assert!(job.request() == BackupRequest::Nothing);
}

#[test]
fn last_batch_may_have_events() {
    let job = BackupJob::begin(vec![batch(9)]);
    let job = answer(job, BackupReply::Subscribed(true));
    let job = answer(job, BackupReply::Events(events(1)));
    let job = answer(job, BackupReply::Acknowledged);
    assert!(job.done());
}

fn up_to_time() -> SinkJob {
    let job = SinkJob::begin(9, events(5));
    assert_eq!(job.request(), SinkRequest::AddMemory { bytes: 500 });
    let job = go_on(job, SinkReply::Acknowledged);
    assert_eq!(job.request(), SinkRequest::OnEvents { events: events(5) });
    assert!(!job.accepts(&SinkReply::Acknowledged));
    let job = go_on(job, SinkReply::Taken(OnEventResult(8)));
    let handed = SinkRequest::HandleOnEventResult { result: OnEventResult(8) };
    assert_eq!(job.request(), handed);
    assert!(!job.accepts(&SinkReply::Taken(OnEventResult(8))));
    let job = go_on(job, SinkReply::Acknowledged);
    assert_eq!(job.request(), SinkRequest::ReleaseMemory { bytes: 500 });
    let job = go_on(job, SinkReply::Acknowledged);
    assert_eq!(job.request(), SinkRequest::CountEvents { count: 5 });
    let job = go_on(job, SinkReply::Acknowledged);
    assert_eq!(job.request(), SinkRequest::TakeTime);
    job
}

#[test]
fn events_are_written() {
    let job = go_on(up_to_time(), SinkReply::Elapsed { secs: 120, nanos: 0 });
    assert!(job.done());
    assert_eq!(job.request(), SinkRequest::Nothing);
    assert!(!job.accepts(&SinkReply::Acknowledged));
}

#[test]
fn slow_events_are_warned_of() {
    let job = go_on(up_to_time(), SinkReply::Elapsed { secs: 120, nanos: 1 });
    assert_eq!(job.request(), SinkRequest::WarnSlow { region_id: 9, count: 5 });
    let job = go_on(job, SinkReply::Acknowledged);
    assert!(job.done());
}

#[test]
fn slow_is_longer_than_two_minutes() {
    assert!(!took_long(0, 0));
    assert!(!took_long(119, 999_999_999));
    assert!(!took_long(120, 0));
    assert!(took_long(120, 1));
    assert!(took_long(121, 0));
    assert!(took_long(u64::MAX, 0));
}

#[test]
fn times_have_less_than_a_second_of_nanoseconds() {
    let job = up_to_time();
    assert!(!job.accepts(&SinkReply::Elapsed { secs: 0, nanos: 1_000_000_000 }));
    assert!(!job.accepts(&SinkReply::Acknowledged));
    assert!(!SinkJob::begin(9, events(5)).accepts(&SinkReply::Elapsed { secs: 0, nanos: 0 }));
}
