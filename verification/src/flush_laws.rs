//! What holds of every flush, whatever the collaborators reply.
use crate::flush::{
    resolve_bound, FlushJob, FlushOutcome, FlushReply, FlushRequest, FlushState, FlushTicks,
    SafePointId, TickRequest, FLUSH_STORAGE_INTERVAL, SAFE_POINT_TTL,
};
use crate::procedure::{is_run, law_run_is_bounded, Procedure};
use crate::report::Report;
use crate::types::{Error, TimeStamp};
use vstd::prelude::*;

verus! {

/// Whether `steps` are those of a flush of `task`, forced or not, on these
/// replies.
pub open spec fn is_flush_of(
    task: String,
    store_id: u64,
    steps: Seq<FlushJob>,
    replies: Seq<FlushReply>,
) -> bool {
    &&& is_run(steps, replies)
    &&& steps[0].task == task
    &&& steps[0].store_id == store_id
    &&& steps[0].state is GetTso || steps[0].state is GetTaskInfo
}

/// The checkpoint that a step pushes on, once there is one.
pub open spec fn checkpoint(state: FlushState) -> Option<u64> {
    match state {
        FlushState::UpdateMaxTs { rts } => Some(rts),
        FlushState::SafePoint { rts } => Some(rts),
        FlushState::ReportSafePoint { rts, .. } => Some(rts),
        FlushState::StepTask { rts } => Some(rts),
        FlushState::ShowCheckpoint { rts } => Some(rts),
        FlushState::Done(FlushOutcome::Advanced(rts)) => Some(rts),
        _ => None,
    }
}

/// The subscriptions are asked to resolve up to the earlier one of what the
/// timestamp oracle says and the first lock in memory.
pub proof fn law_resolve_bound_is_the_earliest(pd_tso: TimeStamp, min_lock: Option<TimeStamp>)
    ensures
        resolve_bound(pd_tso, min_lock).0 <= pd_tso.0,
        min_lock matches Some(lock) ==> resolve_bound(pd_tso, min_lock).0 <= lock.0,
        resolve_bound(pd_tso, min_lock) == pd_tso || Some(resolve_bound(pd_tso, min_lock))
            == min_lock,
{
}

/// A flush keeps to its task and its store.
pub proof fn law_flush_keeps_to_its_task(
    task: String,
    store_id: u64,
    steps: Seq<FlushJob>,
    replies: Seq<FlushReply>,
    i: int,
)
    requires
        is_flush_of(task, store_id, steps, replies),
        0 <= i < steps.len(),
    ensures
        steps[i].task == task,
        steps[i].store_id == store_id,
    decreases i,
{
    if i > 0 {
        law_flush_keeps_to_its_task(task, store_id, steps, replies, i - 1);
        assert(steps[i - 1].leads_to(replies[i - 1], steps[i]));
    }
}

/// The checkpoint that is pushed on is the one that the router flushed up to,
/// and is never zero.
pub proof fn law_checkpoint_is_what_was_flushed(
    task: String,
    store_id: u64,
    steps: Seq<FlushJob>,
    replies: Seq<FlushReply>,
    i: int,
)
    requires
        is_flush_of(task, store_id, steps, replies),
        0 <= i < steps.len(),
        checkpoint(steps[i].state) is Some,
    ensures
        checkpoint(steps[i].state)->0 != 0,
        exists|j: int|
            0 <= j < i && #[trigger] replies[j] == FlushReply::Flushed(
                Some(checkpoint(steps[i].state)->0),
            ),
    decreases i,
{
    assert(i > 0);
    let before = steps[i - 1];
    assert(before.leads_to(replies[i - 1], steps[i]));
    assert(before.answered_by(replies[i - 1]));
    if checkpoint(before.state) is Some {
        assert(checkpoint(before.state) == checkpoint(steps[i].state));
        law_checkpoint_is_what_was_flushed(task, store_id, steps, replies, i - 1);
    } else {
        assert(replies[i - 1] == FlushReply::Flushed(Some(checkpoint(steps[i].state)->0)));
    }
}

/// Before the checkpoint is moved in the metadata store, later commits are
/// kept out and the safe point is asked for, both at that very timestamp.
pub proof fn law_step_comes_after_safe_point(
    task: String,
    store_id: u64,
    steps: Seq<FlushJob>,
    replies: Seq<FlushReply>,
    i: int,
    ts: u64,
)
    requires
        is_flush_of(task, store_id, steps, replies),
        0 <= i < steps.len(),
        steps[i].pending() == (FlushRequest::StepTask { task: &task, rts: ts }),
    ensures
        exists|j: int|
            1 <= j < i && (#[trigger] steps[j]).pending() == (
            FlushRequest::UpdateServiceSafePoint {
                id: SafePointId { task: &task, store_id },
                ts: TimeStamp(ts),
                ttl_secs: SAFE_POINT_TTL,
            }) && steps[j - 1].pending() == (FlushRequest::UpdateMaxTs { ts: TimeStamp(ts) }),
{
    assert(steps[i].state == (FlushState::StepTask { rts: ts }));
    assert(i > 0);
    assert(steps[i - 1].leads_to(replies[i - 1], steps[i]));
    assert(steps[i - 1].answered_by(replies[i - 1]));
    let j = if steps[i - 1].state is SafePoint {
        i - 1
    } else {
        i - 2
    };
    if j == i - 2 {
        assert(i > 1);
        assert(steps[i - 2].leads_to(replies[i - 2], steps[i - 1]));
        assert(steps[i - 2].answered_by(replies[i - 2]));
    }
    assert(steps[j].state == (FlushState::SafePoint { rts: ts }));
    law_flush_keeps_to_its_task(task, store_id, steps, replies, j);
    assert(j > 0);
    assert(steps[j - 1].leads_to(replies[j - 1], steps[j]));
    assert(steps[j - 1].answered_by(replies[j - 1]));
    assert(steps[j - 1].state == (FlushState::UpdateMaxTs { rts: ts }));
}

/// The checkpoint is shown only once the metadata store took it.
pub proof fn law_checkpoint_is_shown_once_stored(
    task: String,
    store_id: u64,
    steps: Seq<FlushJob>,
    replies: Seq<FlushReply>,
    i: int,
    ts: u64,
)
    requires
        is_flush_of(task, store_id, steps, replies),
        0 <= i < steps.len(),
        steps[i].pending() == (FlushRequest::ShowCheckpoint { task: &task, rts: ts }),
    ensures
        i > 0,
        steps[i - 1].pending() == (FlushRequest::StepTask { task: &task, rts: ts }),
        replies[i - 1] matches FlushReply::Stepped(Ok(_)),
{
    assert(steps[i].state == (FlushState::ShowCheckpoint { rts: ts }));
    assert(i > 0);
    assert(steps[i - 1].leads_to(replies[i - 1], steps[i]));
    assert(steps[i - 1].answered_by(replies[i - 1]));
}

/// A safe point that could not be moved is reported, and the checkpoint is
/// moved all the same.
pub proof fn law_failed_safe_point_does_not_stop_the_flush(
    task: String,
    store_id: u64,
    steps: Seq<FlushJob>,
    replies: Seq<FlushReply>,
    i: int,
    err: Error,
)
    requires
        is_flush_of(task, store_id, steps, replies),
        0 <= i < replies.len(),
        replies[i] == FlushReply::SafePoint(Err(err)),
    ensures
        steps[i + 1].pending() == (FlushRequest::Report { context: Report::SafePoint, err: &err }),
        i + 1 < replies.len() ==> checkpoint(steps[i].state) is Some && steps[i + 2].pending() == (
        FlushRequest::StepTask { task: &task, rts: checkpoint(steps[i].state)->0 }),
{
    law_flush_keeps_to_its_task(task, store_id, steps, replies, i);
    assert(steps[i].leads_to(replies[i], steps[i + 1]));
    assert(steps[i].answered_by(replies[i]));
    if i + 1 < replies.len() {
        assert(steps[i + 1].leads_to(replies[i + 1], steps[i + 2]));
        assert(steps[i + 1].answered_by(replies[i + 1]));
    }
}

/// Without a timestamp of the oracle, which is reported, the subscriptions
/// resolve nothing new: they are asked for timestamp zero.
pub proof fn law_without_tso_nothing_is_resolved(
    task: String,
    store_id: u64,
    steps: Seq<FlushJob>,
    replies: Seq<FlushReply>,
    i: int,
    err: Error,
)
    requires
        is_flush_of(task, store_id, steps, replies),
        0 <= i,
        i + 2 < replies.len(),
        replies[i] == FlushReply::Tso(Err(err)),
    ensures
        steps[i + 1].pending() == (FlushRequest::Report { context: Report::GetTso, err: &err }),
        steps[i + 3].pending() == (FlushRequest::ResolveWith { tso: TimeStamp(0) }),
{
    assert(steps[i].leads_to(replies[i], steps[i + 1]));
    assert(steps[i].answered_by(replies[i]));
    assert(steps[i + 1].leads_to(replies[i + 1], steps[i + 2]));
    assert(steps[i + 1].answered_by(replies[i + 1]));
    assert(steps[i + 2].leads_to(replies[i + 2], steps[i + 3]));
    assert(steps[i + 2].answered_by(replies[i + 2]));
}

/// The router is told to flush at the timestamp that the subscriptions
/// resolved to.
pub proof fn law_flushed_at_the_resolved_timestamp(
    task: String,
    store_id: u64,
    steps: Seq<FlushJob>,
    replies: Seq<FlushReply>,
    i: int,
    resolved_ts: TimeStamp,
)
    requires
        is_flush_of(task, store_id, steps, replies),
        0 <= i < steps.len(),
        steps[i].pending() == (FlushRequest::DoFlush { task: &task, store_id, resolved_ts }),
    ensures
        i > 1,
        steps[i - 1].pending() == (FlushRequest::WarnIfGapTooHuge { ts: resolved_ts }),
        steps[i - 2].pending() is ResolveWith,
        replies[i - 2] == FlushReply::Resolved(resolved_ts),
{
    assert(steps[i].state == (FlushState::DoFlush { new_rts: resolved_ts }));
    assert(i > 0);
    assert(steps[i - 1].leads_to(replies[i - 1], steps[i]));
    assert(steps[i - 1].answered_by(replies[i - 1]));
    assert(i > 1);
    assert(steps[i - 2].leads_to(replies[i - 2], steps[i - 1]));
    assert(steps[i - 2].answered_by(replies[i - 2]));
}

/// Where the router flushed nothing, or nothing that moves the checkpoint, the
/// flush ends there.
pub proof fn law_without_progress_nothing_is_moved(
    task: String,
    store_id: u64,
    steps: Seq<FlushJob>,
    replies: Seq<FlushReply>,
    i: int,
)
    requires
        is_flush_of(task, store_id, steps, replies),
        0 <= i < replies.len(),
        replies[i] == FlushReply::Flushed(None) || replies[i] == FlushReply::Flushed(Some(0)),
    ensures
        steps[i + 1].is_done(),
        replies.len() == i + 1,
        steps[i + 1].state == FlushState::Done(
            if replies[i] == FlushReply::Flushed(None) {
                FlushOutcome::NotFlushed
            } else {
                FlushOutcome::CannotAdvance
            },
        ),
{
    assert(steps[i].leads_to(replies[i], steps[i + 1]));
    assert(steps[i].answered_by(replies[i]));
    if i + 1 < replies.len() {
        assert(steps[i + 1].answered_by(replies[i + 1]));
    }
}

/// A checkpoint that the metadata store does not take is reported, and the
/// flush ends without showing it.
pub proof fn law_failed_step_ends_the_flush(
    task: String,
    store_id: u64,
    steps: Seq<FlushJob>,
    replies: Seq<FlushReply>,
    i: int,
    err: Error,
)
    requires
        is_flush_of(task, store_id, steps, replies),
        0 <= i < replies.len(),
        replies[i] == FlushReply::Stepped(Err(err)),
    ensures
        steps[i + 1].pending() == (FlushRequest::Report {
            context: Report::Flushing { task: &task },
            err: &err,
        }),
        i + 1 < replies.len() ==> steps[i + 2].state == FlushState::Done(FlushOutcome::StepFailed),
{
    law_flush_keeps_to_its_task(task, store_id, steps, replies, i);
    assert(steps[i].leads_to(replies[i], steps[i + 1]));
    assert(steps[i].answered_by(replies[i]));
    if i + 1 < replies.len() {
        assert(steps[i + 1].leads_to(replies[i + 1], steps[i + 2]));
        assert(steps[i + 1].answered_by(replies[i + 1]));
    }
}

/// To force a flush is to mark the task as being flushed, whatever its mark
/// was, and to flush it.
pub proof fn law_forced_flush_marks_then_flushes(
    task: String,
    store_id: u64,
    steps: Seq<FlushJob>,
    replies: Seq<FlushReply>,
)
    requires
        is_flush_of(task, store_id, steps, replies),
        steps[0].state is GetTaskInfo,
        replies.len() >= 2,
    ensures
        steps[1].pending() == (FlushRequest::SetFlushing { task: &task, from: false, to: true }),
        steps[2] == (FlushJob { task, store_id, state: FlushState::GetTso }),
{
    assert(steps[0].leads_to(replies[0], steps[1]));
    assert(steps[0].answered_by(replies[0]));
    assert(steps[1].leads_to(replies[1], steps[2]));
    assert(steps[1].answered_by(replies[1]));
}

/// A flush takes at most thirteen replies.
pub proof fn law_flush_ends(
    task: String,
    store_id: u64,
    steps: Seq<FlushJob>,
    replies: Seq<FlushReply>,
)
    requires
        is_flush_of(task, store_id, steps, replies),
    ensures
        replies.len() <= 13,
{
    law_run_is_bounded(steps, replies);
}

/// A service safe point lasts two flush intervals, so that it does not lapse
/// between a flush and the next.
pub proof fn law_safe_point_lasts_two_intervals()
    ensures
        SAFE_POINT_TTL == 2 * FLUSH_STORAGE_INTERVAL,
{
}

/// The beat never ends, and before every tick there is a full wait.
pub proof fn law_ticks_go_on(steps: Seq<FlushTicks>, replies: Seq<()>, i: int)
    requires
        is_run(steps, replies),
        steps[0] == FlushTicks::Sleep,
        0 <= i < steps.len(),
    ensures
        steps[i].pending() == if i % 2 == 0 {
            TickRequest::Sleep { secs: 15 }
        } else {
            TickRequest::Tick
        },
    decreases i,
{
    if i > 0 {
        law_ticks_go_on(steps, replies, i - 1);
        assert(steps[i - 1].leads_to(replies[i - 1], steps[i]));
    }
}

/// What a flush asks for first.
pub proof fn law_flush_begins(task: String, store_id: u64)
    ensures
        (FlushJob { task, store_id, state: FlushState::GetTso }).pending() == FlushRequest::GetTso,
        (FlushJob { task, store_id, state: FlushState::GetTaskInfo }).pending() == (
        FlushRequest::GetTaskInfo { task: &task }),
{
}

/// Which replies a flush takes: those that answer what it asks for, whatever
/// they hold. A flush can only be forced of a task that the router knows.
pub proof fn law_flush_takes_any_answer(job: FlushJob, reply: FlushReply)
    ensures
        job.is_done() <==> job.pending() is Nothing,
        job.answered_by(reply) == match job.pending() {
            FlushRequest::GetTaskInfo { .. } => reply matches FlushReply::TaskInfo(Ok(_)),
            FlushRequest::SetFlushing { .. } => reply is Swapped,
            FlushRequest::GetTso => reply is Tso,
            FlushRequest::GlobalMinLockTs => reply is MinLockTs,
            FlushRequest::ResolveWith { .. } => reply is Resolved,
            FlushRequest::WarnIfGapTooHuge { .. } => reply is Acknowledged,
            FlushRequest::DoFlush { .. } => reply is Flushed,
            FlushRequest::UpdateMaxTs { .. } => reply is Acknowledged,
            FlushRequest::UpdateServiceSafePoint { .. } => reply is SafePoint,
            FlushRequest::StepTask { .. } => reply is Stepped,
            FlushRequest::ShowCheckpoint { .. } => reply is Acknowledged,
            FlushRequest::Report { .. } => reply is Acknowledged,
            FlushRequest::Nothing => false,
        },
{
}

/// What a flush asks for after each reply. The subscriptions resolve up to the
/// earlier one of what the timestamp oracle said and the first lock in memory,
/// or nothing new where the oracle said nothing. The router flushes at what they
/// resolved. What it flushed up to is what later commits are kept out of, what
/// the safe point is set to for ten minutes, what the metadata store is told
/// and, once it took it, what is shown.
pub proof fn law_flush_goes_on(
    task: String,
    store_id: u64,
    steps: Seq<FlushJob>,
    replies: Seq<FlushReply>,
    i: int,
)
    requires
        is_run(steps, replies),
        steps[0].task == task,
        steps[0].store_id == store_id,
        steps[0].state == FlushState::GetTso || steps[0].state == FlushState::GetTaskInfo,
        0 <= i < replies.len(),
    ensures
        match (steps[i].pending(), replies[i]) {
            (FlushRequest::GetTaskInfo { .. }, FlushReply::TaskInfo(Ok(_))) =>
                steps[i + 1].pending() == (FlushRequest::SetFlushing {
                    task: &task,
                    from: false,
                    to: true,
                }),
            (FlushRequest::SetFlushing { .. }, FlushReply::Swapped(_)) => steps[i + 1].pending()
                == FlushRequest::GetTso,
            (FlushRequest::GetTso, FlushReply::Tso(Ok(_))) => steps[i + 1].pending()
                == FlushRequest::GlobalMinLockTs,
            (FlushRequest::GetTso, FlushReply::Tso(Err(err))) => steps[i + 1].pending() == (
            FlushRequest::Report { context: Report::GetTso, err: &err }),
            (
                FlushRequest::Report { context: Report::GetTso, .. },
                FlushReply::Acknowledged,
            ) => steps[i + 1].pending() == FlushRequest::GlobalMinLockTs,
            (FlushRequest::GlobalMinLockTs, FlushReply::MinLockTs(lock)) => {
                &&& i > 0
                &&& steps[i + 1].pending() matches FlushRequest::ResolveWith { tso }
                &&& match replies[i - 1] {
                    FlushReply::Tso(Ok(pd_tso)) => match lock {
                        Some(min_ts) => {
                            &&& tso.0 <= pd_tso.0
                            &&& tso.0 <= min_ts.0
                            &&& tso == pd_tso || tso == min_ts
                        },
                        None => tso == pd_tso,
                    },
                    _ => tso.0 == 0,
                }
            },
            (FlushRequest::ResolveWith { .. }, FlushReply::Resolved(ts)) => steps[i + 1].pending()
                == (FlushRequest::WarnIfGapTooHuge { ts }),
            (FlushRequest::WarnIfGapTooHuge { ts }, FlushReply::Acknowledged) =>
                steps[i + 1].pending() == (FlushRequest::DoFlush {
                    task: &task,
                    store_id,
                    resolved_ts: ts,
                }),
            (FlushRequest::DoFlush { .. }, FlushReply::Flushed(None)) => steps[i + 1].state
                == FlushState::Done(FlushOutcome::NotFlushed),
            (FlushRequest::DoFlush { .. }, FlushReply::Flushed(Some(rts))) => if rts == 0 {
                steps[i + 1].state == FlushState::Done(FlushOutcome::CannotAdvance)
            } else {
                steps[i + 1].pending() == (FlushRequest::UpdateMaxTs { ts: TimeStamp(rts) })
            },
            (FlushRequest::UpdateMaxTs { ts }, FlushReply::Acknowledged) => steps[i + 1].pending()
                == (FlushRequest::UpdateServiceSafePoint {
                id: SafePointId { task: &task, store_id },
                ts,
                ttl_secs: 600,
            }),
            (
                FlushRequest::UpdateServiceSafePoint { ts, .. },
                FlushReply::SafePoint(Ok(_)),
            ) => steps[i + 1].pending() == (FlushRequest::StepTask { task: &task, rts: ts.0 }),
            (FlushRequest::UpdateServiceSafePoint { .. }, FlushReply::SafePoint(Err(err))) =>
                steps[i + 1].pending() == (FlushRequest::Report {
                    context: Report::SafePoint,
                    err: &err,
                }),
            (
                FlushRequest::Report { context: Report::SafePoint, .. },
                FlushReply::Acknowledged,
            ) => {
                &&& i > 0
                &&& steps[i - 1].pending() matches FlushRequest::UpdateServiceSafePoint { ts, .. }
                &&& steps[i + 1].pending() == (FlushRequest::StepTask { task: &task, rts: ts.0 })
            },
            (FlushRequest::StepTask { rts, .. }, FlushReply::Stepped(Ok(_))) =>
                steps[i + 1].pending() == (FlushRequest::ShowCheckpoint { task: &task, rts }),
            (FlushRequest::StepTask { .. }, FlushReply::Stepped(Err(err))) =>
                steps[i + 1].pending() == (FlushRequest::Report {
                    context: Report::Flushing { task: &task },
                    err: &err,
                }),
            (
                FlushRequest::Report { context: Report::Flushing { .. }, .. },
                FlushReply::Acknowledged,
            ) => steps[i + 1].state == FlushState::Done(FlushOutcome::StepFailed),
            (FlushRequest::ShowCheckpoint { rts, .. }, FlushReply::Acknowledged) =>
                steps[i + 1].state == FlushState::Done(FlushOutcome::Advanced(rts)),
            _ => false,
        },
{
    law_flush_keeps_to_its_task(task, store_id, steps, replies, i);
    assert(steps[i].leads_to(replies[i], steps[i + 1]) && steps[i].answered_by(replies[i]));
    if i > 0 {
        assert(steps[i - 1].leads_to(replies[i - 1], steps[i]) && steps[i - 1].answered_by(
            replies[i - 1],
        ));
    }
}

/// The beat goes on after any wait and any tick, from the first wait on: one
/// tick, then fifteen seconds.
pub proof fn law_beat_is_steady(ticks: FlushTicks, reply: (), next: FlushTicks)
    requires
        ticks.leads_to(reply, next),
    ensures
        FlushTicks::Sleep.pending() == (TickRequest::Sleep { secs: 15 }),
        ticks.answered_by(reply),
        !ticks.is_done(),
        match ticks.pending() {
            TickRequest::Sleep { secs } => secs == 15 && next.pending() == TickRequest::Tick,
            TickRequest::Tick => next.pending() == (TickRequest::Sleep { secs: 15 }),
        },
{
}

} // verus!
