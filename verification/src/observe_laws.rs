//! What holds of every change of the observe status of a region, whatever the
//! collaborators reply.
use crate::observe::{
    is_retry_failure, retry_failure_text, start_failure, ObserveJob, ObserveOutcome, ObserveReply, ObserveRequest,
    ObserveState, RegionLookup, SkipReason, StopCondition,
};
use crate::procedure::{is_run, law_run_is_bounded, Bounded, Procedure};
use crate::scan::{ScanJob, ScanRequest};
use crate::task::{ObserveOp, Task};
use crate::types::{
    Error, ErrorContext, ObserveHandle, Region, RegionInfo, SnapshotId, StateRole, TimeStamp,
};
use vstd::prelude::*;

verus! {

/// Whether `steps` are those of `op`, on these replies.
pub open spec fn is_run_of(
    op: ObserveOp,
    steps: Seq<ObserveJob>,
    replies: Seq<ObserveReply>,
) -> bool {
    &&& is_run(steps, replies)
    &&& steps[0].state == ObserveState::first(op)
}

/// The handle under which a start is made, once it has one.
pub open spec fn start_handle(state: ObserveState) -> Option<ObserveHandle> {
    match state {
        ObserveState::FindTask { handle, .. } => Some(handle),
        ObserveState::LoadCheckpoint { handle, .. } => Some(handle),
        ObserveState::Register { handle, .. } => Some(handle),
        ObserveState::Observe { handle, .. } => Some(handle),
        _ => None,
    }
}

/// Whether a step deals with `region` and with no other one.
pub open spec fn concerns(state: ObserveState, region: Region) -> bool {
    match state {
        ObserveState::NewHandle { region: r, .. } => r == region,
        ObserveState::FindTask { region: r, .. } => r == region,
        ObserveState::LoadCheckpoint { region: r, .. } => r == region,
        ObserveState::Register { region: r, .. } => r == region,
        ObserveState::Observe { region: r, .. } => r == region,
        ObserveState::SpawnScan { region: r, .. } => r == region,
        ObserveState::Stop { region: r, .. } => r == region,
        ObserveState::TryUpdate { region: r } => r == region,
        ObserveState::Cancel { region: r } => r == region,
        ObserveState::RefreshHandle { region: r, .. } => r == region,
        ObserveState::LookUp { region: r, .. } => r == region,
        ObserveState::DropFailed { region: r, .. } => r == region,
        ObserveState::FindFailedTask { region: r, .. } => r == region,
        ObserveState::ScheduleFatal { region: r, .. } => r == region,
        ObserveState::Schedule { task } => match task {
            Task::ModifyObserve(op) => op.spec_region() == region,
            _ => false,
        },
        ObserveState::Done(_) => true,
    }
}

/// Every step of an operation, up to the task that it schedules, deals with
/// the region of the operation.
pub proof fn law_operation_keeps_to_its_region(
    op: ObserveOp,
    steps: Seq<ObserveJob>,
    replies: Seq<ObserveReply>,
    i: int,
)
    requires
        is_run_of(op, steps, replies),
        0 <= i < steps.len(),
    ensures
        concerns(steps[i].state, op.spec_region()),
    decreases i,
{
    if i > 0 {
        law_operation_keeps_to_its_region(op, steps, replies, i - 1);
        assert(steps[i - 1].leads_to(replies[i - 1], steps[i]));
    }
}

/// A start is made under a handle that was made for it.
pub proof fn law_start_uses_its_own_handle(
    op: ObserveOp,
    steps: Seq<ObserveJob>,
    replies: Seq<ObserveReply>,
    i: int,
)
    requires
        is_run_of(op, steps, replies),
        0 <= i < steps.len(),
        start_handle(steps[i].state) is Some,
    ensures
        exists|j: int|
            0 <= j < i && #[trigger] replies[j] == ObserveReply::Handle(
                start_handle(steps[i].state)->0,
            ) && steps[j].pending() == ObserveRequest::NewHandle,
    decreases i,
{
    if i > 0 {
        let before = steps[i - 1];
        assert(before.leads_to(replies[i - 1], steps[i]));
        assert(before.answered_by(replies[i - 1]));
        if start_handle(before.state) is Some {
            assert(start_handle(before.state) == start_handle(steps[i].state));
            law_start_uses_its_own_handle(op, steps, replies, i - 1);
        } else {
            assert(replies[i - 1] == ObserveReply::Handle(start_handle(steps[i].state)->0));
        }
    }
}

/// The raft store is asked to send the changes of a region only once the
/// region is registered, under the same handle.
pub proof fn law_observed_only_once_registered(
    op: ObserveOp,
    steps: Seq<ObserveJob>,
    replies: Seq<ObserveReply>,
    i: int,
    region: Region,
    handle: ObserveHandle,
)
    requires
        is_run_of(op, steps, replies),
        0 <= i < steps.len(),
        steps[i].pending() == (ObserveRequest::Observe { region: &region, handle }),
    ensures
        i > 0,
        steps[i - 1].pending() matches ObserveRequest::Register { region: r, handle: h, .. } && *r
            == region && h == handle,
        replies[i - 1] == ObserveReply::Registered,
{
    let start_ts = steps[i].state->Observe_start_ts;
    assert(steps[i].state == (ObserveState::Observe { region, handle, start_ts }));
    assert(i > 0);
    assert(steps[i - 1].leads_to(replies[i - 1], steps[i]));
    assert(steps[i - 1].answered_by(replies[i - 1]));
    assert(steps[i - 1].state == (ObserveState::Register { region, handle, start_ts }));
    assert(steps[i - 1].pending() == (ObserveRequest::Register {
        region: &region,
        handle,
        start_ts,
    }));
}

/// A region is scanned from the checkpoint on with which it was registered,
/// which is the one that the metadata store gave, and on the snapshot that was
/// taken when the raft store began to send its changes.
pub proof fn law_scan_begins_where_registered(
    op: ObserveOp,
    steps: Seq<ObserveJob>,
    replies: Seq<ObserveReply>,
    i: int,
    region: Region,
    from: TimeStamp,
    snapshot: SnapshotId,
)
    requires
        is_run_of(op, steps, replies),
        0 <= i < steps.len(),
        steps[i].pending() == (ObserveRequest::SpawnScan { region: &region, from, snapshot }),
    ensures
        i >= 3,
        replies[i - 1] == ObserveReply::Observed(Ok(snapshot)),
        steps[i - 2].pending() matches ObserveRequest::Register { region: r, start_ts, .. } && *r
            == region && start_ts == Some(from),
        replies[i - 3] == ObserveReply::Checkpoint(Ok(from.0)),
{
    assert(steps[i].state == (ObserveState::SpawnScan { region, from, snapshot }));
    assert(i > 0);
    assert(steps[i - 1].leads_to(replies[i - 1], steps[i]));
    assert(steps[i - 1].answered_by(replies[i - 1]));
    let handle = steps[i - 1].state->Observe_handle;
    assert(steps[i - 1].state == (ObserveState::Observe {
        region,
        handle,
        start_ts: Some(from),
    }));
    assert(i > 1);
    assert(steps[i - 2].leads_to(replies[i - 2], steps[i - 1]));
    assert(steps[i - 2].answered_by(replies[i - 2]));
    assert(steps[i - 2].state == (ObserveState::Register {
        region,
        handle,
        start_ts: Some(from),
    }));
    assert(steps[i - 2].pending() == (ObserveRequest::Register {
        region: &region,
        handle,
        start_ts: Some(from),
    }));
    assert(i > 2);
    assert(steps[i - 3].leads_to(replies[i - 3], steps[i - 2]));
    assert(steps[i - 3].answered_by(replies[i - 3]));
}

/// The scan that a start begins runs over the region as it was registered, from
/// the checkpoint that the metadata store gave and with which the region was
/// registered, and on the snapshot that was taken when the raft store began to
/// send its changes.
pub proof fn law_scan_runs_from_the_checkpoint(
    op: ObserveOp,
    steps: Seq<ObserveJob>,
    replies: Seq<ObserveReply>,
    i: int,
    scan: ScanJob,
)
    requires
        is_run_of(op, steps, replies),
        0 <= i < steps.len(),
        steps[i].pending().begins(scan),
    ensures
        i >= 3,
        ({
            &&& scan.pending() matches ScanRequest::DoInitialScan { region, from, snapshot }
            &&& region.same_as(op.spec_region())
            &&& replies[i - 3] == ObserveReply::Checkpoint(Ok(from.0))
            &&& replies[i - 1] == ObserveReply::Observed(Ok(snapshot))
            &&& steps[i - 2].pending() matches ObserveRequest::Register { start_ts, .. }
            &&& start_ts == Some(from)
        }),
{
    let region = *steps[i].pending()->SpawnScan_region;
    law_operation_keeps_to_its_region(op, steps, replies, i);
    law_scan_begins_where_registered(op, steps, replies, i, region, scan.from, scan.snapshot);
}

/// The error that a reply carries to a start.
pub open spec fn start_error(reply: ObserveReply) -> Option<Error> {
    match reply {
        ObserveReply::Checkpoint(Err(err)) => Some(err),
        ObserveReply::Observed(Err(err)) => Some(err),
        _ => None,
    }
}

/// A start that fails is handed back: what is scheduled names the region of
/// the operation, the handle under which the start was made, and the error.
/// That task is all that is left to do.
pub proof fn law_failed_start_is_handed_back(
    op: ObserveOp,
    steps: Seq<ObserveJob>,
    replies: Seq<ObserveReply>,
    i: int,
)
    requires
        is_run_of(op, steps, replies),
        0 <= i < replies.len(),
        start_error(replies[i]) is Some,
    ensures
        start_handle(steps[i].state) is Some,
        steps[i + 1].pending() == (ObserveRequest::Schedule {
            task: &start_failure(
                op.spec_region(),
                start_handle(steps[i].state)->0,
                start_error(replies[i])->0,
            ),
        }),
        steps[i + 1].remaining() == 1,
{
    law_operation_keeps_to_its_region(op, steps, replies, i);
    assert(steps[i].leads_to(replies[i], steps[i + 1]));
    assert(steps[i].answered_by(replies[i]));
}

/// A start is handed back only where it failed.
pub proof fn law_only_failures_are_handed_back(
    op: ObserveOp,
    steps: Seq<ObserveJob>,
    replies: Seq<ObserveReply>,
    i: int,
    next: ObserveOp,
)
    requires
        is_run_of(op, steps, replies),
        0 <= i < steps.len(),
        steps[i].pending() == (ObserveRequest::Schedule { task: &Task::ModifyObserve(next) }),
    ensures
        i > 0,
        start_error(replies[i - 1]) is Some,
        start_handle(steps[i - 1].state) is Some,
        Task::ModifyObserve(next) == start_failure(
            op.spec_region(),
            start_handle(steps[i - 1].state)->0,
            start_error(replies[i - 1])->0,
        ),
{
    assert(steps[i].state == (ObserveState::Schedule { task: Task::ModifyObserve(next) }));
    assert(i > 0);
    assert(steps[i - 1].leads_to(replies[i - 1], steps[i]));
    assert(steps[i - 1].answered_by(replies[i - 1]));
    law_failed_start_is_handed_back(op, steps, replies, i - 1);
}

/// Whether an operation has failed, and only what follows from that is left.
pub open spec fn has_failed(state: ObserveState) -> bool {
    match state {
        ObserveState::FindFailedTask { .. } => true,
        ObserveState::ScheduleFatal { .. } => true,
        ObserveState::Schedule { .. } => true,
        ObserveState::Done(outcome) => outcome == ObserveOutcome::Failed,
        _ => false,
    }
}

/// An operation that has failed never succeeds.
pub proof fn law_failure_is_final(
    steps: Seq<ObserveJob>,
    replies: Seq<ObserveReply>,
    i: int,
    j: int,
)
    requires
        is_run(steps, replies),
        0 <= i <= j < steps.len(),
        has_failed(steps[i].state),
    ensures
        has_failed(steps[j].state),
    decreases j - i,
{
    if i < j {
        assert(steps[i].leads_to(replies[i], steps[i + 1]) && steps[i].answered_by(replies[i]));
        law_failure_is_final(steps, replies, i + 1, j);
    }
}

/// Once a region is said to be observed, its operation has scheduled nothing.
pub proof fn law_success_schedules_nothing(
    op: ObserveOp,
    steps: Seq<ObserveJob>,
    replies: Seq<ObserveReply>,
    i: int,
)
    requires
        is_run_of(op, steps, replies),
        0 <= i < steps.len(),
        steps.last().state == ObserveState::Done(ObserveOutcome::Started),
    ensures
        !(steps[i].pending() is Schedule),
{
    if steps[i].pending() is Schedule {
        law_failure_is_final(steps, replies, i, steps.len() - 1);
    }
}

/// A retry goes as far as to register the region only where this store leads
/// the region and the subscription of the failed start was still there to be
/// dropped. It then scans the region.
pub proof fn law_retry_is_guarded(
    region: Region,
    handle: ObserveHandle,
    err: Box<Error>,
    steps: Seq<ObserveJob>,
    replies: Seq<ObserveReply>,
    i: int,
)
    requires
        is_run_of(
            ObserveOp::NotifyFailToStartObserve { region, handle, err },
            steps,
            replies,
        ),
        0 <= i < steps.len(),
        steps[i].pending() is Register,
    ensures
        i > 2,
        replies[0] == ObserveReply::LookedUp(
            RegionLookup::Answered(Some(RegionInfo { role: StateRole::Leader })),
        ),
        steps[1].pending() == (ObserveRequest::Deregister {
            region: &region,
            condition: StopCondition::SameHandle(handle),
        }),
        replies[1] == ObserveReply::Deregistered(true),
        steps[i].pending()->Register_start_ts is Some,
{
    assert(i > 0);
    assert(steps[0].leads_to(replies[0], steps[1]) && steps[0].answered_by(replies[0]));
    if !(steps[1].state is DropFailed) {
        if has_failed(steps[1].state) {
            law_failure_is_final(steps, replies, 1, i);
        } else if i > 1 {
            assert(steps[1].answered_by(replies[1]));
        }
    }
    assert(i > 1);
    assert(steps[1].leads_to(replies[1], steps[2]) && steps[1].answered_by(replies[1]));
    if !(steps[2].state is NewHandle) {
        if i > 2 {
            assert(steps[2].answered_by(replies[2]));
        }
    }
    assert(i > 2);
    assert(steps[2].leads_to(replies[2], steps[3]) && steps[2].answered_by(replies[2]));
    if i > 3 {
        assert(steps[3].leads_to(replies[3], steps[4]) && steps[3].answered_by(replies[3]));
        assert(steps[4].state is LoadCheckpoint);
        if i > 4 {
            assert(steps[4].leads_to(replies[4], steps[5]) && steps[4].answered_by(replies[4]));
            if i > 5 {
                assert(steps[5].leads_to(replies[5], steps[6]) && steps[5].answered_by(
                    replies[5],
                ));
                if i > 6 {
                    assert(steps[6].leads_to(replies[6], steps[7]) && steps[6].answered_by(
                        replies[6],
                    ));
                    law_run_is_bounded(steps, replies);
                    if i > 7 {
                        assert(steps[7].leads_to(replies[7], steps[8]) && steps[7].answered_by(
                            replies[7],
                        ));
                    }
                }
            }
        }
    }
}

/// A retry for a region that is gone or led elsewhere, and one whose handle is
/// no longer that of the subscription, ends without another request.
pub proof fn law_needless_retry_ends(
    region: Region,
    handle: ObserveHandle,
    err: Box<Error>,
    steps: Seq<ObserveJob>,
    replies: Seq<ObserveReply>,
)
    requires
        is_run_of(
            ObserveOp::NotifyFailToStartObserve { region, handle, err },
            steps,
            replies,
        ),
        replies.len() > 0,
    ensures
        replies[0] == ObserveReply::LookedUp(RegionLookup::Answered(None)) ==> steps[1].state
            == ObserveState::Done(ObserveOutcome::Skipped(SkipReason::RegionAbsent)),
        replies[0] matches ObserveReply::LookedUp(RegionLookup::Answered(Some(info))) && info.role
            != StateRole::Leader ==> steps[1].state == ObserveState::Done(
            ObserveOutcome::Skipped(SkipReason::NotLeader),
        ),
        replies.len() > 1 && replies[1] == ObserveReply::Deregistered(false) ==> steps[2].state
            == ObserveState::Done(ObserveOutcome::Skipped(SkipReason::StaleCommand)),
{
    assert(steps[0].leads_to(replies[0], steps[1]) && steps[0].answered_by(replies[0]));
    if replies.len() > 1 {
        assert(steps[1].leads_to(replies[1], steps[2]) && steps[1].answered_by(replies[1]));
    }
}

/// What a retry of `region` fails with where the region info accessor gives no
/// answer: the error that came, with a note of what failed.
pub open spec fn retry_error(region: Region, lookup: RegionLookup) -> Option<Error> {
    match lookup {
        RegionLookup::NotSent(err) => Some(
            Error {
                context: Some(ErrorContext::RegionInfoBusy { region_id: region.id }),
                ..err
            },
        ),
        RegionLookup::Dropped(err) => Some(
            Error { context: Some(ErrorContext::MessageDropped), ..err },
        ),
        RegionLookup::Answered(_) => None,
    }
}

/// A retry for which the region info accessor gives no answer is fatal to the
/// task of the region: the router is asked which task that is, and the error is
/// scheduled under the name that it gives. It is scheduled all the same where
/// the region belongs to no task. Nothing more is done.
pub proof fn law_unanswered_retry_is_fatal(
    region: Region,
    handle: ObserveHandle,
    origin: Box<Error>,
    steps: Seq<ObserveJob>,
    replies: Seq<ObserveReply>,
    lookup: RegionLookup,
    err: Error,
)
    requires
        is_run_of(
            ObserveOp::NotifyFailToStartObserve { region, handle, err: origin },
            steps,
            replies,
        ),
        replies.len() > 0,
        replies[0] == ObserveReply::LookedUp(lookup),
        retry_error(region, lookup) == Some(err),
    ensures
        steps[1].pending() == (ObserveRequest::FindTask {
            start_key: &region.start_key,
            end_key: &region.end_key,
        }),
        replies.len() > 1 ==> (replies[1] matches ObserveReply::TaskName(found) && {
            &&& steps[2].pending() matches ObserveRequest::Schedule { task }
            &&& is_retry_failure(*task, found, *origin, err)
            &&& found matches Some(name) ==> steps[2].pending() == (ObserveRequest::Schedule {
                task: &Task::FatalError(name, Box::new(err)),
            })
        }),
        replies.len() > 2 ==> steps[3].state == ObserveState::Done(ObserveOutcome::Failed),
        replies.len() <= 3,
{
    assert(steps[0].leads_to(replies[0], steps[1]) && steps[0].answered_by(replies[0]));
    if replies.len() > 1 {
        assert(steps[1].leads_to(replies[1], steps[2]) && steps[1].answered_by(replies[1]));
    }
    if replies.len() > 2 {
        assert(steps[2].leads_to(replies[2], steps[3]) && steps[2].answered_by(replies[2]));
    }
    if replies.len() > 3 {
        assert(steps[3].answered_by(replies[3]));
    }
}

/// An operation stops no task but the one that the router names for the keys of
/// its region. Only a retry stops one. Where the router names none, what takes
/// the place of the name tells of the retry.
pub proof fn law_only_the_task_of_the_region_is_stopped(
    op: ObserveOp,
    steps: Seq<ObserveJob>,
    replies: Seq<ObserveReply>,
    i: int,
    name: String,
    err: Box<Error>,
)
    requires
        is_run_of(op, steps, replies),
        0 <= i < steps.len(),
        steps[i].pending() == (ObserveRequest::Schedule { task: &Task::FatalError(name, err) }),
    ensures
        i == 2,
        op is NotifyFailToStartObserve,
        steps[1].pending() == (ObserveRequest::FindTask {
            start_key: &op.spec_region().start_key,
            end_key: &op.spec_region().end_key,
        }),
        replies[1] matches ObserveReply::TaskName(found) && match found {
            Some(task_name) => name == task_name,
            None => name@ == retry_failure_text(*op->NotifyFailToStartObserve_err),
        },
{
    law_operation_keeps_to_its_region(op, steps, replies, i);
    assert(steps[i].state is ScheduleFatal);
    assert(i > 0);
    law_operation_keeps_to_its_region(op, steps, replies, i - 1);
    assert(steps[i - 1].leads_to(replies[i - 1], steps[i]));
    assert(steps[i - 1].answered_by(replies[i - 1]));
    assert(steps[i - 1].state is FindFailedTask);
    assert(i > 1);
    assert(steps[i - 2].leads_to(replies[i - 2], steps[i - 1]));
    assert(steps[i - 2].answered_by(replies[i - 2]));
    assert(steps[i - 2].state is LookUp);
    if i > 2 {
        assert(steps[i - 3].leads_to(replies[i - 3], steps[i - 2]));
        assert(steps[i - 3].answered_by(replies[i - 3]));
    }
}

/// Whether a subscription is dropped under `condition`, where `found` is the
/// handle of the one that is there, if one is.
pub open spec fn drops(
    condition: StopCondition,
    found: Option<ObserveHandle>,
    epoch_ok: bool,
) -> bool {
    match found {
        Some(old) => condition.holds_for(old, epoch_ok),
        None => false,
    }
}

/// One handle leads to at most one restart. Where a retry has restarted the
/// observation under a fresh handle, a second retry for the handle that failed
/// finds the subscription of the fresh one, or none, drops nothing, and is
/// skipped as stale.
pub proof fn law_one_handle_restarts_once(
    region: Region,
    handle: ObserveHandle,
    fresh: ObserveHandle,
    first_err: Box<Error>,
    first_steps: Seq<ObserveJob>,
    first_replies: Seq<ObserveReply>,
    i: int,
    second_err: Box<Error>,
    second_steps: Seq<ObserveJob>,
    second_replies: Seq<ObserveReply>,
    found: Option<ObserveHandle>,
    epoch_ok: bool,
)
    requires
        is_run_of(
            ObserveOp::NotifyFailToStartObserve { region, handle, err: first_err },
            first_steps,
            first_replies,
        ),
        0 <= i < first_steps.len(),
        first_steps[i].pending() matches ObserveRequest::Register { handle: h, .. } && h == fresh,
        fresh.id != handle.id,
        is_run_of(
            ObserveOp::NotifyFailToStartObserve { region, handle, err: second_err },
            second_steps,
            second_replies,
        ),
        second_replies.len() > 1,
        second_replies[0] == ObserveReply::LookedUp(
            RegionLookup::Answered(Some(RegionInfo { role: StateRole::Leader })),
        ),
        found == Some(fresh) || found is None,
        second_steps[1].pending() matches ObserveRequest::Deregister { condition, .. }
            && second_replies[1] == ObserveReply::Deregistered(drops(condition, found, epoch_ok)),
    ensures
        first_replies[1] == ObserveReply::Deregistered(true),
        first_replies[2] == ObserveReply::Handle(fresh),
        second_steps[1].pending() == (ObserveRequest::Deregister {
            region: &region,
            condition: StopCondition::SameHandle(handle),
        }),
        second_replies.len() == 2,
        second_steps[2].state == ObserveState::Done(
            ObserveOutcome::Skipped(SkipReason::StaleCommand),
        ),
{
    law_retry_is_guarded(region, handle, first_err, first_steps, first_replies, i);
    lemma_restart_keeps_its_handle(region, handle, first_err, first_steps, first_replies, i);
    assert(second_steps[0].leads_to(second_replies[0], second_steps[1]));
    assert(second_steps[1].leads_to(second_replies[1], second_steps[2]));
    if second_replies.len() > 2 {
        assert(second_steps[2].answered_by(second_replies[2]));
    }
}

/// A retry that restarts the observation does so under the handle that was made
/// once the subscription of the failed start was dropped.
proof fn lemma_restart_keeps_its_handle(
    region: Region,
    handle: ObserveHandle,
    err: Box<Error>,
    steps: Seq<ObserveJob>,
    replies: Seq<ObserveReply>,
    i: int,
)
    requires
        is_run_of(ObserveOp::NotifyFailToStartObserve { region, handle, err }, steps, replies),
        0 <= i < steps.len(),
        start_handle(steps[i].state) is Some,
    ensures
        i > 2,
        replies[2] == ObserveReply::Handle(start_handle(steps[i].state)->0),
    decreases i,
{
    assert(i > 0);
    assert(steps[i - 1].leads_to(replies[i - 1], steps[i]));
    assert(steps[i - 1].answered_by(replies[i - 1]));
    if start_handle(steps[i - 1].state) is Some {
        lemma_restart_keeps_its_handle(region, handle, err, steps, replies, i - 1);
    } else {
        assert(steps[i - 1].state is NewHandle || steps[i - 1].state is RefreshHandle);
        lemma_retry_makes_one_handle(region, handle, err, steps, replies, i - 1);
    }
}

/// A retry asks for a handle at its third step only.
proof fn lemma_retry_makes_one_handle(
    region: Region,
    handle: ObserveHandle,
    err: Box<Error>,
    steps: Seq<ObserveJob>,
    replies: Seq<ObserveReply>,
    i: int,
)
    requires
        is_run_of(ObserveOp::NotifyFailToStartObserve { region, handle, err }, steps, replies),
        0 <= i < steps.len(),
        steps[i].state is NewHandle || steps[i].state is RefreshHandle,
    ensures
        i == 2,
{
    assert(i > 0);
    assert(steps[0].leads_to(replies[0], steps[1]) && steps[0].answered_by(replies[0]));
    assert(steps[i - 1].leads_to(replies[i - 1], steps[i]));
    assert(steps[i - 1].answered_by(replies[i - 1]));
    assert(i > 1);
    assert(steps[i - 2].leads_to(replies[i - 2], steps[i - 1]));
    assert(steps[i - 2].answered_by(replies[i - 2]));
    if i > 2 {
        assert(steps[i - 3].leads_to(replies[i - 3], steps[i - 2]));
    }
}

/// A subscription that took over the new region is left alone, and a region
/// without a subscription is not observed anew.
pub proof fn law_refresh_renews_only_what_it_dropped(
    region: Region,
    steps: Seq<ObserveJob>,
    replies: Seq<ObserveReply>,
    i: int,
)
    requires
        is_run_of(ObserveOp::RefreshResolver { region }, steps, replies),
        0 <= i < steps.len(),
        steps[i].pending() is Register,
    ensures
        i > 2,
        replies[0] == ObserveReply::Updated(false),
        steps[1].pending() == (ObserveRequest::Deregister {
            region: &region,
            condition: StopCondition::Always,
        }),
        replies[1] == ObserveReply::Deregistered(true),
{
    assert(i > 0);
    assert(steps[0].leads_to(replies[0], steps[1]) && steps[0].answered_by(replies[0]));
    if i > 1 {
        assert(steps[1].answered_by(replies[1]));
        assert(steps[1].leads_to(replies[1], steps[2]));
    }
    if i > 2 {
        assert(steps[2].answered_by(replies[2]));
        assert(steps[2].leads_to(replies[2], steps[3]));
    }
    if i > 3 {
        assert(steps[3].answered_by(replies[3]));
    }
}

/// To stop is to ask once that the subscription be dropped, and no more. Where
/// epochs count, both of their versions do.
pub proof fn law_stop_asks_once(
    op: ObserveOp,
    steps: Seq<ObserveJob>,
    replies: Seq<ObserveReply>,
    i: int,
)
    requires
        is_run_of(op, steps, replies),
        op is Stop || op is CheckEpochAndStop,
        0 <= i < steps.len(),
    ensures
        i == 0 ==> steps[i].pending() == (ObserveRequest::Deregister {
            region: &op.spec_region(),
            condition: if op is Stop {
                StopCondition::Always
            } else {
                StopCondition::EpochCheck {
                    check_conf_ver: true,
                    check_ver: true,
                    include_region: false,
                }
            },
        }),
        i > 0 ==> steps[i].is_done(),
        i <= 1,
{
    law_run_is_bounded(steps, replies);
    if i > 0 {
        assert(steps[0].leads_to(replies[0], steps[1]) && steps[0].answered_by(replies[0]));
    }
}

/// An operation takes at most eight replies.
pub proof fn law_operation_ends(
    op: ObserveOp,
    steps: Seq<ObserveJob>,
    replies: Seq<ObserveReply>,
)
    requires
        is_run_of(op, steps, replies),
    ensures
        replies.len() <= 8,
{
    law_run_is_bounded(steps, replies);
}

/// On an endpoint with a client of the metadata store, an operation that is
/// not done can go on.
pub proof fn law_operation_is_never_stuck(job: ObserveJob, handle: ObserveHandle, name: String)
    requires
        job.meta_client,
        !job.is_done(),
    ensures
        exists|reply: ObserveReply| job.answered_by(reply),
{
    let reply = match job.state {
        ObserveState::NewHandle { .. } => ObserveReply::Handle(handle),
        ObserveState::FindTask { .. } => ObserveReply::TaskName(Some(name)),
        ObserveState::LoadCheckpoint { .. } => ObserveReply::Checkpoint(Ok(0)),
        ObserveState::Register { .. } => ObserveReply::Registered,
        ObserveState::Observe { .. } => ObserveReply::Observed(Ok(SnapshotId(0))),
        ObserveState::SpawnScan { .. } => ObserveReply::ScanSpawned,
        ObserveState::Stop { .. } => ObserveReply::Deregistered(true),
        ObserveState::TryUpdate { .. } => ObserveReply::Updated(true),
        ObserveState::Cancel { .. } => ObserveReply::Deregistered(true),
        ObserveState::RefreshHandle { .. } => ObserveReply::Handle(handle),
        ObserveState::LookUp { .. } => ObserveReply::LookedUp(RegionLookup::Answered(None)),
        ObserveState::DropFailed { .. } => ObserveReply::Deregistered(true),
        ObserveState::FindFailedTask { .. } => ObserveReply::TaskName(None),
        ObserveState::ScheduleFatal { .. } => ObserveReply::Scheduled,
        ObserveState::Schedule { .. } => ObserveReply::Scheduled,
        ObserveState::Done(_) => ObserveReply::Scheduled,
    };
    assert(job.answered_by(reply));
}

/// What an operation asks for first.
pub proof fn law_operation_begins(job: ObserveJob, op: ObserveOp)
    requires
        job.state == ObserveState::first(op),
    ensures
        match op {
            ObserveOp::Start { .. } => job.pending() == ObserveRequest::NewHandle,
            ObserveOp::Stop { region } => job.pending() == (ObserveRequest::Deregister {
                region: &region,
                condition: StopCondition::Always,
            }),
            ObserveOp::CheckEpochAndStop { region } => job.pending() == (
            ObserveRequest::Deregister {
                region: &region,
                condition: StopCondition::EpochCheck {
                    check_conf_ver: true,
                    check_ver: true,
                    include_region: false,
                },
            }),
            ObserveOp::RefreshResolver { region } => job.pending() == (ObserveRequest::TryUpdate {
                region: &region,
            }),
            ObserveOp::NotifyFailToStartObserve { region, .. } => job.pending() == (
            ObserveRequest::LookUp { region_id: region.id }),
        },
{
}

/// Which replies an operation takes: those that answer what it asks for,
/// whatever they hold. A region that is to be scanned belongs to a task, and
/// that needs a client of the metadata store; a retry that failed may be one of
/// a region that belongs to none.
pub proof fn law_operation_takes_any_answer(
    op: ObserveOp,
    steps: Seq<ObserveJob>,
    replies: Seq<ObserveReply>,
    i: int,
    reply: ObserveReply,
)
    requires
        is_run_of(op, steps, replies),
        0 <= i < steps.len(),
    ensures
        steps[i].meta_client == steps[0].meta_client,
        steps[i].is_done() <==> steps[i].pending() is Nothing,
        steps[i].answered_by(reply) == match steps[i].pending() {
            ObserveRequest::NewHandle => reply is Handle,
            ObserveRequest::FindTask { .. } => if op is NotifyFailToStartObserve && i == 1 {
                reply is TaskName
            } else {
                steps[0].meta_client && reply matches ObserveReply::TaskName(Some(_))
            },
            ObserveRequest::LoadCheckpoint { .. } => reply is Checkpoint,
            ObserveRequest::Register { .. } => reply is Registered,
            ObserveRequest::Observe { .. } => reply is Observed,
            ObserveRequest::SpawnScan { .. } => reply is ScanSpawned,
            ObserveRequest::TryUpdate { .. } => reply is Updated,
            ObserveRequest::Deregister { .. } => reply is Deregistered,
            ObserveRequest::LookUp { .. } => reply is LookedUp,
            ObserveRequest::Schedule { .. } => reply is Scheduled,
            ObserveRequest::Nothing => false,
        },
    decreases i,
{
    lemma_where_in_operation(op, steps, replies, i);
    if i > 0 {
        law_operation_takes_any_answer(op, steps, replies, i - 1, reply);
        assert(steps[i - 1].leads_to(replies[i - 1], steps[i]));
    }
}

/// Where in an operation each step can come, and what it holds.
proof fn lemma_where_in_operation(
    op: ObserveOp,
    steps: Seq<ObserveJob>,
    replies: Seq<ObserveReply>,
    i: int,
)
    requires
        is_run_of(op, steps, replies),
        0 <= i < steps.len(),
    ensures
        match steps[i].state {
            ObserveState::NewHandle { needs_initial_scanning, .. } => {
                ||| op matches ObserveOp::Start { needs_initial_scanning: asked, .. } && i == 0
                    && needs_initial_scanning == asked
                ||| op is NotifyFailToStartObserve && i == 2 && needs_initial_scanning
            },
            ObserveState::FindTask { handle, .. } => i > 0 && replies[i - 1]
                == ObserveReply::Handle(handle) && !(op is NotifyFailToStartObserve && i == 1),
            ObserveState::LoadCheckpoint { handle, .. } => i > 1 && replies[i - 2]
                == ObserveReply::Handle(handle),
            ObserveState::Register { handle, start_ts, .. } => match start_ts {
                None => i > 0 && replies[i - 1] == ObserveReply::Handle(handle),
                Some(ts) => i > 2 && replies[i - 3] == ObserveReply::Handle(handle) && replies[i
                    - 1] == ObserveReply::Checkpoint(Ok(ts.0)),
            },
            ObserveState::Observe { region, handle, start_ts } => i > 0 && steps[i - 1].state == (
            ObserveState::Register { region, handle, start_ts }),
            ObserveState::SpawnScan { .. } => true,
            ObserveState::Stop { .. } => i == 0 && (op is Stop || op is CheckEpochAndStop),
            ObserveState::TryUpdate { .. } => i == 0 && op is RefreshResolver,
            ObserveState::Cancel { .. } => i == 1 && op is RefreshResolver,
            ObserveState::RefreshHandle { canceled, .. } => i == 2 && op is RefreshResolver
                && replies[1] == ObserveReply::Deregistered(canceled),
            ObserveState::LookUp { handle, origin, .. } => {
                &&& i == 0
                &&& op matches ObserveOp::NotifyFailToStartObserve { handle: h, err, .. }
                &&& h == handle
                &&& err == origin
            },
            ObserveState::DropFailed { handle, .. } => {
                &&& i == 1
                &&& op matches ObserveOp::NotifyFailToStartObserve { handle: h, .. }
                &&& h == handle
            },
            ObserveState::FindFailedTask { region, origin, err } => {
                &&& i == 1
                &&& op matches ObserveOp::NotifyFailToStartObserve { err: first, .. }
                &&& first == origin
                &&& replies[0] matches ObserveReply::LookedUp(lookup)
                &&& retry_error(region, lookup) == Some(err)
            },
            ObserveState::ScheduleFatal { .. } => i == 2 && op is NotifyFailToStartObserve,
            ObserveState::Schedule { .. } => true,
            ObserveState::Done(_) => true,
        },
    decreases i,
{
    if i > 0 {
        lemma_where_in_operation(op, steps, replies, i - 1);
        assert(steps[i - 1].leads_to(replies[i - 1], steps[i]));
        assert(steps[i - 1].answered_by(replies[i - 1]));
    }
}

/// What an operation asks for after each reply, for every region, handle and
/// error. A start scans where it is asked to, and a restart always does; a scan
/// begins at the checkpoint of the task of the region, with which the region is
/// registered. A start that fails is handed back with its region, its handle and
/// its error, and a retry that gets no answer stops the task of the region.
pub proof fn law_operation_goes_on(
    op: ObserveOp,
    steps: Seq<ObserveJob>,
    replies: Seq<ObserveReply>,
    i: int,
)
    requires
        is_run_of(op, steps, replies),
        0 <= i < replies.len(),
    ensures
        ({
            let region = op.spec_region();
            let next = steps[i + 1];
            let find_task = ObserveRequest::FindTask {
                start_key: &region.start_key,
                end_key: &region.end_key,
            };
            match (steps[i].pending(), replies[i]) {
                (ObserveRequest::NewHandle, ObserveReply::Handle(handle)) => match op {
                    ObserveOp::Start { needs_initial_scanning, .. } => i == 0 && next.pending()
                        == if needs_initial_scanning {
                        find_task
                    } else {
                        ObserveRequest::Register { region: &region, handle, start_ts: None }
                    },
                    ObserveOp::RefreshResolver { .. } => i == 2 && if replies[1]
                        == ObserveReply::Deregistered(true) {
                        next.pending() == find_task
                    } else {
                        next.state == ObserveState::Done(ObserveOutcome::NotObserved)
                    },
                    ObserveOp::NotifyFailToStartObserve { .. } => i == 2 && next.pending()
                        == find_task,
                    _ => false,
                },
                (ObserveRequest::FindTask { .. }, ObserveReply::TaskName(found)) => if op
                    is NotifyFailToStartObserve && i == 1 {
                    &&& op matches ObserveOp::NotifyFailToStartObserve { err: origin, .. }
                    &&& next.pending() matches ObserveRequest::Schedule { task }
                    &&& *task matches Task::FatalError(name, err)
                    &&& match found {
                        Some(task_name) => name == task_name,
                        None => name@ == "While retring to observe region, origin error is "@
                            + origin.spec_text(),
                    }
                    &&& replies[0] matches ObserveReply::LookedUp(lookup)
                    &&& match lookup {
                        RegionLookup::NotSent(cause) => err.code == cause.code && err.message
                            == cause.message && err.context == Some(
                            ErrorContext::RegionInfoBusy { region_id: region.id },
                        ),
                        RegionLookup::Dropped(cause) => err.code == cause.code && err.message
                            == cause.message && err.context == Some(ErrorContext::MessageDropped),
                        RegionLookup::Answered(_) => false,
                    }
                } else {
                    found matches Some(task_name) && next.pending() == (
                    ObserveRequest::LoadCheckpoint { task_name: &task_name })
                },
                (ObserveRequest::LoadCheckpoint { .. }, ObserveReply::Checkpoint(Ok(ts))) => {
                    &&& i > 1
                    &&& replies[i - 2] matches ObserveReply::Handle(handle)
                    &&& next.pending() == (ObserveRequest::Register {
                        region: &region,
                        handle,
                        start_ts: Some(TimeStamp(ts)),
                    })
                },
                (ObserveRequest::LoadCheckpoint { .. }, ObserveReply::Checkpoint(Err(err))) => {
                    &&& i > 1
                    &&& replies[i - 2] matches ObserveReply::Handle(handle)
                    &&& next.pending() == (ObserveRequest::Schedule {
                        task: &Task::ModifyObserve(
                            ObserveOp::NotifyFailToStartObserve {
                                region,
                                handle,
                                err: Box::new(err),
                            },
                        ),
                    })
                },
                (ObserveRequest::Register { handle, .. }, ObserveReply::Registered) =>
                    next.pending() == (ObserveRequest::Observe { region: &region, handle }),
                (ObserveRequest::Observe { .. }, ObserveReply::Observed(Ok(snapshot))) => {
                    &&& i > 0
                    &&& steps[i - 1].pending() matches ObserveRequest::Register { start_ts, .. }
                    &&& match start_ts {
                        Some(from) => next.pending() == (ObserveRequest::SpawnScan {
                            region: &region,
                            from,
                            snapshot,
                        }),
                        None => next.state == ObserveState::Done(ObserveOutcome::Started),
                    }
                },
                (ObserveRequest::Observe { handle, .. }, ObserveReply::Observed(Err(err))) =>
                    next.pending() == (ObserveRequest::Schedule {
                        task: &Task::ModifyObserve(
                            ObserveOp::NotifyFailToStartObserve {
                                region,
                                handle,
                                err: Box::new(err),
                            },
                        ),
                    }),
                (ObserveRequest::SpawnScan { .. }, ObserveReply::ScanSpawned) => next.state
                    == ObserveState::Done(ObserveOutcome::Started),
                (ObserveRequest::TryUpdate { .. }, ObserveReply::Updated(updated)) => if updated {
                    next.state == ObserveState::Done(ObserveOutcome::UpToDate)
                } else {
                    next.pending() == (ObserveRequest::Deregister {
                        region: &region,
                        condition: StopCondition::Always,
                    })
                },
                (ObserveRequest::Deregister { .. }, ObserveReply::Deregistered(removed)) => match op {
                    ObserveOp::RefreshResolver { .. } => next.pending()
                        == ObserveRequest::NewHandle,
                    ObserveOp::NotifyFailToStartObserve { .. } => if removed {
                        next.pending() == ObserveRequest::NewHandle
                    } else {
                        next.state == ObserveState::Done(
                            ObserveOutcome::Skipped(SkipReason::StaleCommand),
                        )
                    },
                    _ => next.state == ObserveState::Done(ObserveOutcome::Stopped { removed }),
                },
                (ObserveRequest::LookUp { .. }, ObserveReply::LookedUp(lookup)) => match lookup {
                    RegionLookup::NotSent(_) => next.pending() == find_task,
                    RegionLookup::Dropped(_) => next.pending() == find_task,
                    RegionLookup::Answered(None) => next.state == ObserveState::Done(
                        ObserveOutcome::Skipped(SkipReason::RegionAbsent),
                    ),
                    RegionLookup::Answered(Some(info)) => if info.role == StateRole::Leader {
                        &&& op matches ObserveOp::NotifyFailToStartObserve { handle, .. }
                        &&& next.pending() == (ObserveRequest::Deregister {
                            region: &region,
                            condition: StopCondition::SameHandle(handle),
                        })
                    } else {
                        next.state == ObserveState::Done(
                            ObserveOutcome::Skipped(SkipReason::NotLeader),
                        )
                    },
                },
                (ObserveRequest::Schedule { .. }, ObserveReply::Scheduled) => next.state
                    == ObserveState::Done(ObserveOutcome::Failed),
                _ => false,
            }
        }),
{
    lemma_where_in_operation(op, steps, replies, i);
    lemma_where_in_operation(op, steps, replies, i + 1);
    law_operation_keeps_to_its_region(op, steps, replies, i);
    law_operation_keeps_to_its_region(op, steps, replies, i + 1);
    assert(steps[i].leads_to(replies[i], steps[i + 1]) && steps[i].answered_by(replies[i]));
}

/// A start that is asked to scan its region, and every restart of a region whose
/// start failed or whose subscription was dropped, scans it: once the region is
/// observed, a scan was begun. A start that is not asked to begins none.
pub proof fn law_observed_region_was_scanned_if_asked(
    op: ObserveOp,
    steps: Seq<ObserveJob>,
    replies: Seq<ObserveReply>,
)
    requires
        is_run_of(op, steps, replies),
        steps.last().state == ObserveState::Done(ObserveOutcome::Started),
    ensures
        replies.len() > 0,
        steps[replies.len() - 1].pending() is SpawnScan <==> !(op matches ObserveOp::Start {
            needs_initial_scanning: false,
            ..
        }),
{
    let last = replies.len() - 1;
    assert(last >= 0);
    assert(steps[last].leads_to(replies[last], steps[last + 1]));
    assert(steps[last].answered_by(replies[last]));
    lemma_scan_is_kept_in_mind(op, steps, replies, last);
}

/// Whether an operation is still to scan its region is fixed from its handle on.
proof fn lemma_scan_is_kept_in_mind(
    op: ObserveOp,
    steps: Seq<ObserveJob>,
    replies: Seq<ObserveReply>,
    i: int,
)
    requires
        is_run_of(op, steps, replies),
        0 <= i < steps.len(),
    ensures
        ({
            let plain = op matches ObserveOp::Start { needs_initial_scanning: false, .. };
            match steps[i].state {
                ObserveState::FindTask { .. } => !plain,
                ObserveState::LoadCheckpoint { .. } => !plain,
                ObserveState::Register { start_ts, .. } => start_ts is Some <==> !plain,
                ObserveState::Observe { start_ts, .. } => start_ts is Some <==> !plain,
                ObserveState::SpawnScan { .. } => !plain,
                _ => true,
            }
        }),
    decreases i,
{
    if i > 0 {
        lemma_scan_is_kept_in_mind(op, steps, replies, i - 1);
        lemma_where_in_operation(op, steps, replies, i - 1);
        assert(steps[i - 1].leads_to(replies[i - 1], steps[i]));
        assert(steps[i - 1].answered_by(replies[i - 1]));
    }
}

/// When a subscription is dropped: always, if its epoch passes, or if its handle
/// is the one in question.
pub proof fn law_stop_conditions(
    old: ObserveHandle,
    handle: ObserveHandle,
    epoch_ok: bool,
    check_conf_ver: bool,
    check_ver: bool,
    include_region: bool,
)
    ensures
        StopCondition::Always.holds_for(old, epoch_ok),
        (StopCondition::EpochCheck { check_conf_ver, check_ver, include_region }).holds_for(
            old,
            epoch_ok,
        ) <==> epoch_ok,
        StopCondition::SameHandle(handle).holds_for(old, epoch_ok) <==> old.id == handle.id,
{
}

/// Skipped retries are counted by their reason.
pub proof fn law_skip_labels()
    ensures
        SkipReason::RegionAbsent.spec_label() == "region-absent"@,
        SkipReason::NotLeader.spec_label() == "not-leader"@,
        SkipReason::StaleCommand.spec_label() == "stale-command"@,
{
}

/// The request for a scan begins one of just that region, from that timestamp
/// and on that snapshot, and no other request begins any.
pub proof fn law_scan_is_begun(request: ObserveRequest, job: ScanJob)
    ensures
        request.begins(job) <==> {
            &&& request matches ObserveRequest::SpawnScan { region, from, snapshot }
            &&& job.pending() matches ScanRequest::DoInitialScan {
                region: scanned,
                from: since,
                snapshot: taken,
            }
            &&& since == from && taken == snapshot
            &&& scanned.id == region.id && scanned.region_epoch == region.region_epoch
            &&& scanned.start_key@ == region.start_key@ && scanned.end_key@ == region.end_key@
            &&& scanned.peers@ == region.peers@
        },
{
}

} // verus!
