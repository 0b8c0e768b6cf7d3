use backup_stream::observe::{
    ObserveJob, ObserveOutcome, ObserveReply, ObserveRequest, ObserveState, RegionLookup,
    SkipReason, StopCondition,
};
use backup_stream::procedure::Procedure;
use backup_stream::scan::ScanJob;
use backup_stream::task::{ObserveOp, Task};
use backup_stream::types::{
    Error, ErrorContext, ObserveHandle, Peer, Region, RegionEpoch, RegionInfo, SnapshotId,
    StateRole, TimeStamp,
};

fn region() -> Region {
    Region {
        id: 17,
        start_key: vec![1, 2],
        end_key: vec![3],
        region_epoch: RegionEpoch { conf_ver: 1, version: 2 },
        peers: vec![Peer { id: 4, store_id: 1 }],
    }
}

fn error(message: &str) -> Error {
    Error { code: "KV:Unknown".to_string(), message: message.to_string(), context: None }
}

fn handle(id: u64) -> ObserveHandle {
    ObserveHandle { id }
}

fn answer(job: ObserveJob, reply: ObserveReply) -> ObserveJob {
    assert!(job.accepts(&reply));
    assert!(!job.done());
    assert!(job.outcome().is_none());
    job.resume(reply)
}

fn start(needs_initial_scanning: bool) -> ObserveJob {
    ObserveJob::begin(true, ObserveOp::Start { region: region(), needs_initial_scanning })
}

/// Goes on from the request for a task to the one to observe the region.
fn up_to_observe(job: ObserveJob, id: u64) -> ObserveJob {
    let region = region();
    assert!(
        job.request()
            == ObserveRequest::FindTask { start_key: &vec![1, 2], end_key: &vec![3] }
    );
    let job = answer(job, ObserveReply::TaskName(Some("pitr".to_string())));
    assert!(job.request() == ObserveRequest::LoadCheckpoint { task_name: &"pitr".to_string() });
    let job = answer(job, ObserveReply::Checkpoint(Ok(421)));
    assert!(
        job.request()
            == ObserveRequest::Register {
                region: &region,
                handle: handle(id),
                start_ts: Some(TimeStamp::new(421)),
            }
    );
    let job = answer(job, ObserveReply::Registered);
    assert!(job.request() == ObserveRequest::Observe { region: &region, handle: handle(id) });
    job
}

fn scans(job: ObserveJob) {
    let region = region();
    let job = answer(job, ObserveReply::Observed(Ok(SnapshotId(5))));
    assert!(
        job.request()
            == ObserveRequest::SpawnScan {
                region: &region,
                from: TimeStamp::new(421),
                snapshot: SnapshotId(5),
            }
    );
    let scan = ScanJob::begin(region.clone(), TimeStamp::new(421), SnapshotId(5));
    assert_eq!(job.request().scan(), Some(scan));
    let job = answer(job, ObserveReply::ScanSpawned);
    assert!(job.done());
    assert!(job.request().scan().is_none());
    assert_eq!(job.outcome(), Some(ObserveOutcome::Started));
    assert!(job.request() == ObserveRequest::Nothing);
}

fn hands_back(job: ObserveJob, id: u64, err: Error) {
    let expected = Task::ModifyObserve(ObserveOp::NotifyFailToStartObserve {
        region: region(),
        handle: handle(id),
        err: Box::new(err),
    });
    assert!(job.request() == ObserveRequest::Schedule { task: &expected });
    let job = answer(job, ObserveReply::Scheduled);
    assert_eq!(job.outcome(), Some(ObserveOutcome::Failed));
}

/// Goes on from the request for the task of a failed retry.
fn is_fatal(job: ObserveJob, err: Error) {
    let asked = ObserveRequest::FindTask { start_key: &vec![1, 2], end_key: &vec![3] };
    assert!(job.request() == asked);
    let text = "While retring to observe region, origin error is first";
    for (found, name) in [(Some("pitr".to_string()), "pitr"), (None, text)] {
        let job = answer(job.clone(), ObserveReply::TaskName(found));
        let expected = Task::FatalError(name.to_string(), Box::new(err.clone()));
        assert!(job.request() == ObserveRequest::Schedule { task: &expected });
        let job = answer(job, ObserveReply::Scheduled);
        assert_eq!(job.outcome(), Some(ObserveOutcome::Failed));
        assert!(job.request() == ObserveRequest::Nothing);
    }
}

#[test]
fn start_without_scan() {
    let region = region();
    let job = start(false);
    assert!(job.request() == ObserveRequest::NewHandle);
    let job = answer(job, ObserveReply::Handle(handle(9)));
    assert!(
        job.request()
            == ObserveRequest::Register { region: &region, handle: handle(9), start_ts: None }
    );
    let job = answer(job, ObserveReply::Registered);
    assert!(job.request() == ObserveRequest::Observe { region: &region, handle: handle(9) });
    let job = answer(job, ObserveReply::Observed(Ok(SnapshotId(1))));
    assert_eq!(job.outcome(), Some(ObserveOutcome::Started));
}

#[test]
fn start_without_scan_needs_no_client() {
    let op = ObserveOp::Start { region: region(), needs_initial_scanning: false };
    let job = ObserveJob::begin(false, op);
    let job = answer(job, ObserveReply::Handle(handle(9)));
    let job = answer(job, ObserveReply::Registered);
    let job = answer(job, ObserveReply::Observed(Ok(SnapshotId(1))));
    assert_eq!(job.outcome(), Some(ObserveOutcome::Started));
}

#[test]
fn start_with_scan() {
    let job = answer(start(true), ObserveReply::Handle(handle(9)));
    scans(up_to_observe(job, 9));
}

#[test]
fn start_with_scan_needs_a_client_and_a_task() {
    let job = answer(start(true), ObserveReply::Handle(handle(9)));
    assert!(!job.accepts(&ObserveReply::TaskName(None)));
    let op = ObserveOp::Start { region: region(), needs_initial_scanning: true };
    let job = answer(ObserveJob::begin(false, op), ObserveReply::Handle(handle(9)));
    assert!(!job.accepts(&ObserveReply::TaskName(Some("pitr".to_string()))));
}

#[test]
fn failed_starts_are_handed_back() {
    let job = answer(start(false), ObserveReply::Handle(handle(9)));
    let job = answer(job, ObserveReply::Registered);
    let job = answer(job, ObserveReply::Observed(Err(error("not leader"))));
    hands_back(job, 9, error("not leader"));

    let job = answer(start(true), ObserveReply::Handle(handle(8)));
    let job = answer(up_to_observe(job, 8), ObserveReply::Observed(Err(error("busy"))));
    hands_back(job, 8, error("busy"));

    let job = answer(start(true), ObserveReply::Handle(handle(7)));
    let job = answer(job, ObserveReply::TaskName(Some("pitr".to_string())));
    let job = answer(job, ObserveReply::Checkpoint(Err(error("etcd"))));
    hands_back(job, 7, error("etcd"));
}

#[test]
fn stop_drops_whatever_there_is() {
    for removed in [true, false] {
        let region = region();
        let job = ObserveJob::begin(true, ObserveOp::Stop { region: region.clone() });
        assert!(
            job.request()
                == ObserveRequest::Deregister { region: &region, condition: StopCondition::Always }
        );
        let job = answer(job, ObserveReply::Deregistered(removed));
        assert_eq!(job.outcome(), Some(ObserveOutcome::Stopped { removed }));
    }
}

#[test]
fn check_epoch_and_stop() {
    let region = region();
    let condition = StopCondition::EpochCheck {
        check_conf_ver: true,
        check_ver: true,
        include_region: false,
    };
    let job = ObserveJob::begin(true, ObserveOp::CheckEpochAndStop { region: region.clone() });
    assert!(job.request() == ObserveRequest::Deregister { region: &region, condition });
    let job = answer(job, ObserveReply::Deregistered(false));
    assert_eq!(job.outcome(), Some(ObserveOutcome::Stopped { removed: false }));
}

#[test]
fn stop_conditions() {
    let check = StopCondition::EpochCheck {
        check_conf_ver: true,
        check_ver: true,
        include_region: false,
    };
    assert!(StopCondition::Always.holds(handle(1), false));
    assert!(check.holds(handle(1), true));
    assert!(!check.holds(handle(1), false));
    assert!(StopCondition::SameHandle(handle(1)).holds(handle(1), false));
    assert!(!StopCondition::SameHandle(handle(1)).holds(handle(2), true));
}

#[test]
fn refresh_in_place() {
    let region = region();
    let job = ObserveJob::begin(true, ObserveOp::RefreshResolver { region: region.clone() });
    assert!(job.request() == ObserveRequest::TryUpdate { region: &region });
    let job = answer(job, ObserveReply::Updated(true));
    assert_eq!(job.outcome(), Some(ObserveOutcome::UpToDate));
}

#[test]
fn refresh_of_what_is_not_observed() {
    let region = region();
    let job = ObserveJob::begin(true, ObserveOp::RefreshResolver { region: region.clone() });
    let job = answer(job, ObserveReply::Updated(false));
    assert!(
        job.request()
            == ObserveRequest::Deregister { region: &region, condition: StopCondition::Always }
    );
    let job = answer(job, ObserveReply::Deregistered(false));
    assert!(job.request() == ObserveRequest::NewHandle);
    let job = answer(job, ObserveReply::Handle(handle(3)));
    assert_eq!(job.outcome(), Some(ObserveOutcome::NotObserved));
}

#[test]
fn refresh_that_renews() {
    let job = ObserveJob::begin(true, ObserveOp::RefreshResolver { region: region() });
    let job = answer(job, ObserveReply::Updated(false));
    let job = answer(job, ObserveReply::Deregistered(true));
    let job = answer(job, ObserveReply::Handle(handle(3)));
    scans(up_to_observe(job.clone(), 3));
    let job = answer(up_to_observe(job, 3), ObserveReply::Observed(Err(error("gone"))));
    hands_back(job, 3, error("gone"));
}

fn retry() -> ObserveJob {
    let op = ObserveOp::NotifyFailToStartObserve {
        region: region(),
        handle: handle(6),
        err: Box::new(error("first")),
    };
    let job = ObserveJob::begin(true, op);
    assert!(job.request() == ObserveRequest::LookUp { region_id: 17 });
    job
}

fn found(role: StateRole) -> ObserveReply {
    ObserveReply::LookedUp(RegionLookup::Answered(Some(RegionInfo { role })))
}

#[test]
fn retry_of_an_absent_region_is_skipped() {
    let job = answer(retry(), ObserveReply::LookedUp(RegionLookup::Answered(None)));
    assert_eq!(job.outcome(), Some(ObserveOutcome::Skipped(SkipReason::RegionAbsent)));
}

#[test]
fn retry_elsewhere_than_on_the_leader_is_skipped() {
    for role in [StateRole::Follower, StateRole::Candidate, StateRole::PreCandidate] {
        let job = answer(retry(), found(role));
        assert_eq!(job.outcome(), Some(ObserveOutcome::Skipped(SkipReason::NotLeader)));
    }
}

#[test]
fn stale_retry_is_skipped() {
    let region = region();
    let job = answer(retry(), found(StateRole::Leader));
    assert!(
        job.request()
            == ObserveRequest::Deregister {
                region: &region,
                condition: StopCondition::SameHandle(handle(6)),
            }
    );
    let job = answer(job, ObserveReply::Deregistered(false));
    assert_eq!(job.outcome(), Some(ObserveOutcome::Skipped(SkipReason::StaleCommand)));
}

#[test]
fn retry_starts_with_a_scan() {
    let job = answer(retry(), found(StateRole::Leader));
    let job = answer(job, ObserveReply::Deregistered(true));
    assert!(job.request() == ObserveRequest::NewHandle);
    let job = answer(job, ObserveReply::Handle(handle(10)));
    scans(up_to_observe(job, 10));
}

#[test]
fn retry_that_fails_again_is_handed_back() {
    let job = answer(retry(), found(StateRole::Leader));
    let job = answer(job, ObserveReply::Deregistered(true));
    let job = answer(job, ObserveReply::Handle(handle(10)));
    let job = answer(up_to_observe(job, 10), ObserveReply::Observed(Err(error("second"))));
    hands_back(job, 10, error("second"));
}

#[test]
fn unanswered_retries_are_fatal() {
    let job = answer(
        retry(),
        ObserveReply::LookedUp(RegionLookup::NotSent(error("full"))),
    );
    is_fatal(
        job,
        error("full").annotate(ErrorContext::RegionInfoBusy { region_id: 17 }),
    );
    let job = answer(
        retry(),
        ObserveReply::LookedUp(RegionLookup::Dropped(error("disconnected"))),
    );
    is_fatal(
        job,
        error("disconnected").annotate(ErrorContext::MessageDropped),
    );
}

#[test]
fn failed_retry_needs_no_client() {
    let op = ObserveOp::NotifyFailToStartObserve {
        region: region(),
        handle: handle(6),
        err: Box::new(error("first")),
    };
    let job = ObserveJob::begin(false, op);
    let lookup = RegionLookup::Dropped(error("disconnected"));
    let job = answer(job, ObserveReply::LookedUp(lookup));
    is_fatal(job, error("disconnected").annotate(ErrorContext::MessageDropped));
}

#[test]
fn one_handle_restarts_once() {
    // The subscription that is there, if any, by the handle of its observation.
    let mut subscribed = Some(handle(6));
    let mut restarts = 0;
    for fresh in [handle(10), handle(11)] {
        let job = answer(retry(), found(StateRole::Leader));
        let dropped = match job.request() {
            ObserveRequest::Deregister { condition, .. } => {
                subscribed.map_or(false, |old| condition.holds(old, false))
            }
            _ => panic!("the subscription of the failed start is to be dropped"),
        };
        let job = answer(job, ObserveReply::Deregistered(dropped));
        if dropped {
            let job = answer(job, ObserveReply::Handle(fresh));
            scans(up_to_observe(job, fresh.id));
            subscribed = Some(fresh);
            restarts += 1;
        } else {
            let stale = ObserveOutcome::Skipped(SkipReason::StaleCommand);
            assert_eq!(job.outcome(), Some(stale));
        }
    }
    assert_eq!(restarts, 1);
    assert_eq!(subscribed, Some(handle(10)));
}

#[test]
fn replies_to_other_requests_are_not_accepted() {
    let job = start(true);
    assert!(!job.accepts(&ObserveReply::Registered));
    assert!(!job.accepts(&ObserveReply::Scheduled));
    assert!(!retry().accepts(&ObserveReply::Handle(handle(1))));
    let done = ObserveJob {
        meta_client: true,
        state: ObserveState::Done(ObserveOutcome::Started),
    };
    assert!(!done.accepts(&ObserveReply::Scheduled));
}
