//! Flushing a task and moving its checkpoint.
use crate::procedure::{Bounded, Procedure};
use crate::report::Report;
use crate::text::{safe_point_name, service_safe_point_id};
use crate::types::{Error, TimeStamp};
use vstd::prelude::*;

verus! {

/// How often a task is flushed, in seconds, where nothing else asks for it.
pub const FLUSH_STORAGE_INTERVAL: u64 = 300;

/// How long a service safe point lasts, in seconds: two flush intervals.
pub const SAFE_POINT_TTL: u64 = 600;

/// How a flush ended.
#[derive(Debug, Clone, Copy, PartialEq, Eq)]
pub enum FlushOutcome {
    /// The router did not flush the task.
    NotFlushed,
    /// The task was flushed, but its checkpoint cannot be moved for now.
    CannotAdvance,
    /// The metadata store did not take the new checkpoint.
    StepFailed,
    /// The checkpoint was moved to this timestamp.
    Advanced(u64),
}

/// What is left to do of a flush.
#[derive(Clone, PartialEq, Eq)]
pub enum FlushState {
    /// To force a flush: the task is looked up.
    GetTaskInfo,
    /// To force a flush: the task is marked as being flushed.
    SetFlushing,
    /// The timestamp oracle is asked.
    GetTso,
    /// The timestamp oracle failed.
    ReportTso { err: Error },
    /// The locks in memory are asked for.
    MinLock { pd_tso: TimeStamp },
    /// The subscriptions are to resolve this timestamp.
    Resolve { tso: TimeStamp },
    /// The subscriptions are to warn if the resolved timestamp is old.
    WarnGap { new_rts: TimeStamp },
    /// The router is to flush.
    DoFlush { new_rts: TimeStamp },
    /// No transaction may commit at or before the checkpoint.
    UpdateMaxTs { rts: u64 },
    /// What the checkpoint needs is to be kept.
    SafePoint { rts: u64 },
    /// The safe point could not be moved.
    ReportSafePoint { rts: u64, err: Error },
    /// The checkpoint is to be moved.
    StepTask { rts: u64 },
    /// The checkpoint could not be moved.
    ReportStep { err: Error },
    /// The checkpoint is to be shown.
    ShowCheckpoint { rts: u64 },
    Done(FlushOutcome),
}

/// A flush that is under way.
#[derive(Clone, PartialEq, Eq)]
pub struct FlushJob {
    pub task: String,
    pub store_id: u64,
    pub state: FlushState,
}

/// Says which service safe point is meant: that of a task on a store.
#[derive(Debug, Clone, Copy, PartialEq, Eq)]
pub struct SafePointId<'a> {
    pub task: &'a String,
    pub store_id: u64,
}

impl<'a> SafePointId<'a> {
    /// The name of the service safe point.
    pub fn text(&self) -> (text: String)
        ensures
            text@ == safe_point_name(self.task@, self.store_id as nat),
    {
        service_safe_point_id(self.task.as_str(), self.store_id)
    }
}

/// What a flush asks for.
#[derive(Clone, Copy, PartialEq, Eq)]
pub enum FlushRequest<'a> {
    /// Look the task up in the router.
    GetTaskInfo { task: &'a String },
    /// Set the mark of the task to `to` if it is `from`.
    SetFlushing { task: &'a String, from: bool, to: bool },
    /// Ask the timestamp oracle.
    GetTso,
    /// Get the smallest timestamp of the locks in memory.
    GlobalMinLockTs,
    /// Have the subscriptions resolve up to a timestamp.
    ResolveWith { tso: TimeStamp },
    /// Have the subscriptions warn if the timestamp is old.
    WarnIfGapTooHuge { ts: TimeStamp },
    /// Have the router flush the task.
    DoFlush { task: &'a String, store_id: u64, resolved_ts: TimeStamp },
    /// Raise the greatest timestamp that was read at.
    UpdateMaxTs { ts: TimeStamp },
    /// Set the service safe point of the task and the store.
    UpdateServiceSafePoint { id: SafePointId<'a>, ts: TimeStamp, ttl_secs: u64 },
    /// Move the checkpoint of the task in the metadata store.
    StepTask { task: &'a String, rts: u64 },
    /// Show the checkpoint of the store.
    ShowCheckpoint { task: &'a String, rts: u64 },
    /// Report an error.
    Report { context: Report<'a>, err: &'a Error },
    /// Nothing: the flush is done.
    Nothing,
}

/// A reply to what a flush asked for.
#[derive(Debug, PartialEq, Eq)]
pub enum FlushReply {
    /// The task is known to the router.
    TaskInfo(Result<(), Error>),
    /// Whether the mark was changed.
    Swapped(bool),
    Tso(Result<TimeStamp, Error>),
    MinLockTs(Option<TimeStamp>),
    Resolved(TimeStamp),
    Flushed(Option<u64>),
    SafePoint(Result<(), Error>),
    Stepped(Result<(), Error>),
    /// What was asked for is done.
    Acknowledged,
}

/// The timestamp up to which the subscriptions may resolve, given the one of
/// the timestamp oracle and the locks in memory.
pub open spec fn resolve_bound(pd_tso: TimeStamp, min_lock: Option<TimeStamp>) -> TimeStamp {
    match min_lock {
        Some(min_ts) => pd_tso.earlier_of(min_ts),
        None => pd_tso,
    }
}

/// The timestamp up to which the subscriptions may resolve, given the one of
/// the timestamp oracle and the locks in memory.
pub fn resolve_tso(pd_tso: TimeStamp, min_lock: Option<TimeStamp>) -> (tso: TimeStamp)
    ensures
        tso == resolve_bound(pd_tso, min_lock),
{
    let min_ts = match min_lock {
        Some(ts) => ts,
        None => TimeStamp::max(),
    };
    pd_tso.earlier(min_ts)
}

impl FlushState {
    /// The step after `reply`.
    pub open spec fn after(self, reply: FlushReply) -> FlushState {
        match (self, reply) {
            (FlushState::GetTaskInfo, FlushReply::TaskInfo(_)) => FlushState::SetFlushing,
            (FlushState::SetFlushing, FlushReply::Swapped(_)) => FlushState::GetTso,
            (FlushState::GetTso, FlushReply::Tso(Ok(pd_tso))) => FlushState::MinLock { pd_tso },
            (FlushState::GetTso, FlushReply::Tso(Err(err))) => FlushState::ReportTso { err },
            (FlushState::ReportTso { .. }, _) => FlushState::MinLock { pd_tso: TimeStamp(0) },
            (FlushState::MinLock { pd_tso }, FlushReply::MinLockTs(min_lock)) =>
                FlushState::Resolve { tso: resolve_bound(pd_tso, min_lock) },
            (FlushState::Resolve { .. }, FlushReply::Resolved(new_rts)) => FlushState::WarnGap {
                new_rts,
            },
            (FlushState::WarnGap { new_rts }, _) => FlushState::DoFlush { new_rts },
            (FlushState::DoFlush { .. }, FlushReply::Flushed(Some(rts))) => if rts == 0 {
                FlushState::Done(FlushOutcome::CannotAdvance)
            } else {
                FlushState::UpdateMaxTs { rts }
            },
            (FlushState::UpdateMaxTs { rts }, _) => FlushState::SafePoint { rts },
            (FlushState::SafePoint { rts }, FlushReply::SafePoint(Ok(_))) => FlushState::StepTask {
                rts,
            },
            (FlushState::SafePoint { rts }, FlushReply::SafePoint(Err(err))) =>
                FlushState::ReportSafePoint { rts, err },
            (FlushState::ReportSafePoint { rts, .. }, _) => FlushState::StepTask { rts },
            (FlushState::StepTask { rts }, FlushReply::Stepped(Ok(_))) =>
                FlushState::ShowCheckpoint { rts },
            (FlushState::StepTask { .. }, FlushReply::Stepped(Err(err))) =>
                FlushState::ReportStep { err },
            (FlushState::ReportStep { .. }, _) => FlushState::Done(FlushOutcome::StepFailed),
            (FlushState::ShowCheckpoint { rts }, _) => FlushState::Done(
                FlushOutcome::Advanced(rts),
            ),
            _ => FlushState::Done(FlushOutcome::NotFlushed),
        }
    }
}

impl FlushJob {
    /// What this step asks for.
    pub open spec fn pending(&self) -> FlushRequest<'_> {
        match &self.state {
            FlushState::GetTaskInfo => FlushRequest::GetTaskInfo { task: &self.task },
            FlushState::SetFlushing => FlushRequest::SetFlushing {
                task: &self.task,
                from: false,
                to: true,
            },
            FlushState::GetTso => FlushRequest::GetTso,
            FlushState::ReportTso { err } => FlushRequest::Report { context: Report::GetTso, err },
            FlushState::MinLock { .. } => FlushRequest::GlobalMinLockTs,
            FlushState::Resolve { tso } => FlushRequest::ResolveWith { tso: *tso },
            FlushState::WarnGap { new_rts } => FlushRequest::WarnIfGapTooHuge { ts: *new_rts },
            FlushState::DoFlush { new_rts } => FlushRequest::DoFlush {
                task: &self.task,
                store_id: self.store_id,
                resolved_ts: *new_rts,
            },
            FlushState::UpdateMaxTs { rts } => FlushRequest::UpdateMaxTs { ts: TimeStamp(*rts) },
            FlushState::SafePoint { rts } => FlushRequest::UpdateServiceSafePoint {
                id: SafePointId { task: &self.task, store_id: self.store_id },
                ts: TimeStamp(*rts),
                ttl_secs: SAFE_POINT_TTL,
            },
            FlushState::ReportSafePoint { err, .. } => FlushRequest::Report {
                context: Report::SafePoint,
                err,
            },
            FlushState::StepTask { rts } => FlushRequest::StepTask { task: &self.task, rts: *rts },
            FlushState::ReportStep { err } => FlushRequest::Report {
                context: Report::Flushing { task: &self.task },
                err,
            },
            FlushState::ShowCheckpoint { rts } => FlushRequest::ShowCheckpoint {
                task: &self.task,
                rts: *rts,
            },
            FlushState::Done(_) => FlushRequest::Nothing,
        }
    }

    /// What this step asks for.
    pub fn request(&self) -> (r: FlushRequest<'_>)
        ensures
            r == self.pending(),
    {
        match &self.state {
            FlushState::GetTaskInfo => FlushRequest::GetTaskInfo { task: &self.task },
            FlushState::SetFlushing => FlushRequest::SetFlushing {
                task: &self.task,
                from: false,
                to: true,
            },
            FlushState::GetTso => FlushRequest::GetTso,
            FlushState::ReportTso { err } => FlushRequest::Report { context: Report::GetTso, err },
            FlushState::MinLock { .. } => FlushRequest::GlobalMinLockTs,
            FlushState::Resolve { tso } => FlushRequest::ResolveWith { tso: *tso },
            FlushState::WarnGap { new_rts } => FlushRequest::WarnIfGapTooHuge { ts: *new_rts },
            FlushState::DoFlush { new_rts } => FlushRequest::DoFlush {
                task: &self.task,
                store_id: self.store_id,
                resolved_ts: *new_rts,
            },
            FlushState::UpdateMaxTs { rts } => FlushRequest::UpdateMaxTs {
                ts: TimeStamp::new(*rts),
            },
            FlushState::SafePoint { rts } => FlushRequest::UpdateServiceSafePoint {
                id: SafePointId { task: &self.task, store_id: self.store_id },
                ts: TimeStamp::new(*rts),
                ttl_secs: SAFE_POINT_TTL,
            },
            FlushState::ReportSafePoint { err, .. } => FlushRequest::Report {
                context: Report::SafePoint,
                err,
            },
            FlushState::StepTask { rts } => FlushRequest::StepTask { task: &self.task, rts: *rts },
            FlushState::ReportStep { err } => FlushRequest::Report {
                context: Report::Flushing { task: &self.task },
                err,
            },
            FlushState::ShowCheckpoint { rts } => FlushRequest::ShowCheckpoint {
                task: &self.task,
                rts: *rts,
            },
            FlushState::Done(_) => FlushRequest::Nothing,
        }
    }

    /// Begins to flush a task whose time has come.
    pub fn flush(task: String, store_id: u64) -> (job: FlushJob)
        ensures
            job == (FlushJob { task, store_id, state: FlushState::GetTso }),
    {
        FlushJob { task, store_id, state: FlushState::GetTso }
    }

    /// Begins to flush a task that is to be marked as being flushed first.
    pub fn force_flush(task: String, store_id: u64) -> (job: FlushJob)
        ensures
            job == (FlushJob { task, store_id, state: FlushState::GetTaskInfo }),
    {
        FlushJob { task, store_id, state: FlushState::GetTaskInfo }
    }

    /// How the flush ended, once it is done.
    pub fn outcome(&self) -> (r: Option<FlushOutcome>)
        ensures
            r == match self.state {
                FlushState::Done(outcome) => Some(outcome),
                _ => None,
            },
    {
        match &self.state {
            FlushState::Done(outcome) => Some(*outcome),
            _ => None,
        }
    }
}

impl Procedure for FlushJob {
    type Reply = FlushReply;

    open spec fn answered_by(self, reply: FlushReply) -> bool {
        match self.state {
            // A flush is forced only of a task that the router knows.
            FlushState::GetTaskInfo => reply matches FlushReply::TaskInfo(Ok(_)),
            FlushState::SetFlushing => reply is Swapped,
            FlushState::GetTso => reply is Tso,
            FlushState::ReportTso { .. } => reply is Acknowledged,
            FlushState::MinLock { .. } => reply is MinLockTs,
            FlushState::Resolve { .. } => reply is Resolved,
            FlushState::WarnGap { .. } => reply is Acknowledged,
            FlushState::DoFlush { .. } => reply is Flushed,
            FlushState::UpdateMaxTs { .. } => reply is Acknowledged,
            FlushState::SafePoint { .. } => reply is SafePoint,
            FlushState::ReportSafePoint { .. } => reply is Acknowledged,
            FlushState::StepTask { .. } => reply is Stepped,
            FlushState::ReportStep { .. } => reply is Acknowledged,
            FlushState::ShowCheckpoint { .. } => reply is Acknowledged,
            FlushState::Done(_) => false,
        }
    }

    open spec fn leads_to(self, reply: FlushReply, next: FlushJob) -> bool {
        next == (FlushJob {
            task: self.task,
            store_id: self.store_id,
            state: self.state.after(reply),
        })
    }

    open spec fn is_done(self) -> bool {
        self.state is Done
    }

    fn accepts(&self, reply: &FlushReply) -> (r: bool) {
        match (&self.state, reply) {
            (FlushState::GetTaskInfo, FlushReply::TaskInfo(Ok(_))) => true,
            (FlushState::SetFlushing, FlushReply::Swapped(_)) => true,
            (FlushState::GetTso, FlushReply::Tso(_)) => true,
            (FlushState::ReportTso { .. }, FlushReply::Acknowledged) => true,
            (FlushState::MinLock { .. }, FlushReply::MinLockTs(_)) => true,
            (FlushState::Resolve { .. }, FlushReply::Resolved(_)) => true,
            (FlushState::WarnGap { .. }, FlushReply::Acknowledged) => true,
            (FlushState::DoFlush { .. }, FlushReply::Flushed(_)) => true,
            (FlushState::UpdateMaxTs { .. }, FlushReply::Acknowledged) => true,
            (FlushState::SafePoint { .. }, FlushReply::SafePoint(_)) => true,
            (FlushState::ReportSafePoint { .. }, FlushReply::Acknowledged) => true,
            (FlushState::StepTask { .. }, FlushReply::Stepped(_)) => true,
            (FlushState::ReportStep { .. }, FlushReply::Acknowledged) => true,
            (FlushState::ShowCheckpoint { .. }, FlushReply::Acknowledged) => true,
            _ => false,
        }
    }

    fn resume(self, reply: FlushReply) -> (next: FlushJob) {
        let task = self.task;
        let store_id = self.store_id;
        let state = match (self.state, reply) {
            (FlushState::GetTaskInfo, _) => FlushState::SetFlushing,
            (FlushState::SetFlushing, _) => FlushState::GetTso,
            (FlushState::GetTso, FlushReply::Tso(result)) => match result {
                Ok(pd_tso) => FlushState::MinLock { pd_tso },
                Err(err) => FlushState::ReportTso { err },
            },
            (FlushState::ReportTso { .. }, _) => FlushState::MinLock { pd_tso: TimeStamp::zero() },
            (FlushState::MinLock { pd_tso }, FlushReply::MinLockTs(min_lock)) =>
                FlushState::Resolve { tso: resolve_tso(pd_tso, min_lock) },
            (FlushState::Resolve { .. }, FlushReply::Resolved(new_rts)) => FlushState::WarnGap {
                new_rts,
            },
            (FlushState::WarnGap { new_rts }, _) => FlushState::DoFlush { new_rts },
            (FlushState::DoFlush { .. }, FlushReply::Flushed(Some(rts))) => if rts == 0 {
                FlushState::Done(FlushOutcome::CannotAdvance)
            } else {
                FlushState::UpdateMaxTs { rts }
            },
            (FlushState::UpdateMaxTs { rts }, _) => FlushState::SafePoint { rts },
            (FlushState::SafePoint { rts }, FlushReply::SafePoint(result)) => match result {
                Ok(_) => FlushState::StepTask { rts },
                Err(err) => FlushState::ReportSafePoint { rts, err },
            },
            (FlushState::ReportSafePoint { rts, .. }, _) => FlushState::StepTask { rts },
            (FlushState::StepTask { rts }, FlushReply::Stepped(result)) => match result {
                Ok(_) => FlushState::ShowCheckpoint { rts },
                Err(err) => FlushState::ReportStep { err },
            },
            (FlushState::ReportStep { .. }, _) => FlushState::Done(FlushOutcome::StepFailed),
            (FlushState::ShowCheckpoint { rts }, _) => FlushState::Done(
                FlushOutcome::Advanced(rts),
            ),
            _ => FlushState::Done(FlushOutcome::NotFlushed),
        };
        FlushJob { task, store_id, state }
    }

    fn done(&self) -> (r: bool) {
        match &self.state {
            FlushState::Done(_) => true,
            _ => false,
        }
    }
}

impl Bounded for FlushJob {
    open spec fn remaining(self) -> nat {
        match self.state {
            FlushState::GetTaskInfo => 13,
            FlushState::SetFlushing => 12,
            FlushState::GetTso => 11,
            FlushState::ReportTso { .. } => 10,
            FlushState::MinLock { .. } => 9,
            FlushState::Resolve { .. } => 8,
            FlushState::WarnGap { .. } => 7,
            FlushState::DoFlush { .. } => 6,
            FlushState::UpdateMaxTs { .. } => 5,
            FlushState::SafePoint { .. } => 4,
            FlushState::ReportSafePoint { .. } => 3,
            FlushState::StepTask { .. } => 2,
            FlushState::ReportStep { .. } => 1,
            FlushState::ShowCheckpoint { .. } => 1,
            FlushState::Done(_) => 0,
        }
    }

    proof fn lemma_remaining_decreases(self, reply: FlushReply, next: FlushJob) {
    }
}

/// The beat to which the router is told to look for tasks that are to be
/// flushed.
#[derive(Debug, Clone, Copy, PartialEq, Eq)]
pub enum FlushTicks {
    /// To wait.
    Sleep,
    /// To tell the router.
    Tick,
}

/// What the beat asks for.
#[derive(Debug, Clone, Copy, PartialEq, Eq)]
pub enum TickRequest {
    Sleep { secs: u64 },
    Tick,
}

impl FlushTicks {
    /// What this step asks for: one tick every fifteen seconds.
    pub open spec fn pending(self) -> TickRequest {
        match self {
            FlushTicks::Sleep => TickRequest::Sleep { secs: 15 },
            FlushTicks::Tick => TickRequest::Tick,
        }
    }

    /// What this step asks for.
    pub fn request(&self) -> (r: TickRequest)
        ensures
            r == self.pending(),
    {
        match self {
            FlushTicks::Sleep => TickRequest::Sleep { secs: FLUSH_STORAGE_INTERVAL / 20 },
            FlushTicks::Tick => TickRequest::Tick,
        }
    }

    /// Begins the beat.
    pub fn starts_flush_ticks() -> (r: FlushTicks)
        ensures
            r == FlushTicks::Sleep,
    {
        FlushTicks::Sleep
    }
}

impl Procedure for FlushTicks {
    type Reply = ();

    open spec fn answered_by(self, reply: ()) -> bool {
        true
    }

    open spec fn leads_to(self, reply: (), next: FlushTicks) -> bool {
        next == match self {
            FlushTicks::Sleep => FlushTicks::Tick,
            FlushTicks::Tick => FlushTicks::Sleep,
        }
    }

    open spec fn is_done(self) -> bool {
        false
    }

    fn accepts(&self, reply: &()) -> (r: bool) {
        true
    }

    fn resume(self, reply: ()) -> (next: FlushTicks) {
        match self {
            FlushTicks::Sleep => FlushTicks::Tick,
            FlushTicks::Tick => FlushTicks::Sleep,
        }
    }

    fn done(&self) -> (r: bool) {
        false
    }
}

} // verus!
