use backup_stream::procedure::Procedure;
use backup_stream::report::Report;
use backup_stream::scan::{
    Cf, InitializeJob, InitializeReply, InitializeRequest, InitializeState, ScanJob, ScanReply,
    ScanRequest, ScanState,
};
use backup_stream::types::{
    CfStatistics, Error, KeyRange, Region, RegionEpoch, SnapshotId, Statistics, TimeStamp,
};

fn error(message: &str) -> Error {
    Error { code: "KV:Unknown".to_string(), message: message.to_string(), context: None }
}

fn region() -> Region {
    Region {
        id: 17,
        start_key: vec![1],
        end_key: vec![2],
        region_epoch: RegionEpoch { conf_ver: 1, version: 2 },
        peers: vec![],
    }
}

fn counted(n: u64) -> CfStatistics {
    CfStatistics { details: vec![("next".to_string(), n)] }
}

fn scan() -> ScanJob {
    let job = ScanJob::begin(region(), TimeStamp::new(421), SnapshotId(5));
    assert_eq!(
        job.request(),
        ScanRequest::DoInitialScan {
            region: &region(),
            from: TimeStamp(421),
            snapshot: SnapshotId(5),
        }
    );
    job
}

#[test]
fn range_is_loaded() {
    let range = KeyRange { start_key: vec![1], end_key: vec![2] };
    let job = InitializeJob::begin(range.clone());
    assert_eq!(job.request(), InitializeRequest::InitializeRange { range: &range });
    let reply = InitializeReply::Initialized(Ok(()));
    assert!(job.accepts(&reply));
    let job = job.resume(reply);
    assert!(job.done());
    assert_eq!(job.state, InitializeState::Done { loaded: true });
    assert!(!job.accepts(&InitializeReply::Acknowledged));
}

#[test]
fn range_that_cannot_be_loaded_is_reported() {
    let range = KeyRange { start_key: vec![1], end_key: vec![2] };
    let job = InitializeJob::begin(range);
    assert!(!job.accepts(&InitializeReply::Acknowledged));
    let job = job.resume(InitializeReply::Initialized(Err(error("io"))));
    assert_eq!(
        job.request(),
        InitializeRequest::Report { context: Report::InitializeRange, err: &error("io") }
    );
    assert!(!job.done());
    let job = job.resume(InitializeReply::Acknowledged);
    assert_eq!(job.state, InitializeState::Done { loaded: false });
    assert_eq!(job.request(), InitializeRequest::Nothing);
}

#[test]
fn scan_is_recorded() {
    let stat = Statistics { lock: counted(1), write: counted(2), data: counted(3) };
    let reply = ScanReply::Scanned(Ok(stat));
    let job = scan();
    assert!(job.accepts(&reply));
    let mut job = job.resume(reply);
    for (cf, n) in [(Cf::Lock, 1), (Cf::Write, 2), (Cf::Default, 3)] {
        assert_eq!(job.request(), ScanRequest::RecordCfStat { cf, stat: &counted(n) });
        assert!(job.accepts(&ScanReply::Acknowledged));
        job = job.resume(ScanReply::Acknowledged);
    }
    assert!(job.done());
    assert_eq!(job.state, ScanState::Done { scanned: true });
    assert_eq!(job.request(), ScanRequest::Nothing);
}

#[test]
fn failed_scan_is_reported() {
    let job = scan().resume(ScanReply::Scanned(Err(error("io"))));
    assert_eq!(
        job.request(),
        ScanRequest::Report {
            context: Report::InitialScan,
            region: &region(),
            err: &error("io"),
        }
    );
    let job = job.resume(ScanReply::Acknowledged);
    assert_eq!(job.state, ScanState::Done { scanned: false });
    assert!(!job.accepts(&ScanReply::Acknowledged));
}
