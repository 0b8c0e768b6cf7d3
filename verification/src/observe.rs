//! Changes of the observe status of a region.
//!
//! To observe a region is to register it with the subscriptions of the
//! endpoint and to have the raft store send its changes. Where data that was
//! written before has to be backed up too, the region is scanned from the
//! checkpoint of its task on.
use crate::procedure::{Bounded, Procedure};
use crate::scan::{ScanJob, ScanState};
use crate::task::{ObserveOp, Task};
use crate::types::{
    Error, ErrorContext, ObserveHandle, Region, RegionInfo, SnapshotId, StateRole, TimeStamp,
};
use vstd::prelude::*;
use vstd::string::*;

verus! {

/// When a subscription is to be dropped.
#[derive(Debug, Clone, Copy, PartialEq, Eq)]
pub enum StopCondition {
    Always,
    /// The epoch of the subscribed region passes the comparison with that of
    /// the region in hand. The fields say what the comparison covers, and
    /// whether its failure names the region.
    EpochCheck { check_conf_ver: bool, check_ver: bool, include_region: bool },
    /// The subscription is that of this handle.
    SameHandle(ObserveHandle),
}

impl StopCondition {
    /// Whether the subscription `old` is to be dropped, where `epoch_ok` is
    /// what came of the comparison of epochs.
    pub open spec fn holds_for(self, old: ObserveHandle, epoch_ok: bool) -> bool {
        match self {
            StopCondition::Always => true,
            StopCondition::EpochCheck { .. } => epoch_ok,
            StopCondition::SameHandle(handle) => old.id == handle.id,
        }
    }

    /// Whether the subscription `old` is to be dropped, where `epoch_ok` is
    /// what came of the comparison of epochs.
    pub fn holds(&self, old: ObserveHandle, epoch_ok: bool) -> (r: bool)
        ensures
            r == self.holds_for(old, epoch_ok),
    {
        match self {
            StopCondition::Always => true,
            StopCondition::EpochCheck { .. } => epoch_ok,
            StopCondition::SameHandle(handle) => old.id == handle.id,
        }
    }
}

/// Why a retry was not made.
#[derive(Debug, Clone, Copy, PartialEq, Eq)]
pub enum SkipReason {
    RegionAbsent,
    NotLeader,
    StaleCommand,
}

impl SkipReason {
    pub open spec fn spec_label(self) -> Seq<char> {
        match self {
            SkipReason::RegionAbsent => "region-absent"@,
            SkipReason::NotLeader => "not-leader"@,
            SkipReason::StaleCommand => "stale-command"@,
        }
    }

    /// The label under which the retry is counted.
    pub fn label(&self) -> (r: &'static str)
        ensures
            r@ == self.spec_label(),
    {
        match self {
            SkipReason::RegionAbsent => "region-absent",
            SkipReason::NotLeader => "not-leader",
            SkipReason::StaleCommand => "stale-command",
        }
    }
}

/// How a change of the observe status ended.
#[derive(Debug, Clone, Copy, PartialEq, Eq)]
pub enum ObserveOutcome {
    /// The region is observed.
    Started,
    /// The subscription was to be dropped, and was if it was `removed`.
    Stopped { removed: bool },
    /// The subscription was refreshed in place.
    UpToDate,
    /// There was no subscription to renew.
    NotObserved,
    Skipped(SkipReason),
    /// The region is not observed, and a task that deals with it is scheduled.
    Failed,
}

/// What came of a question to the region info accessor.
#[derive(Debug, Clone, PartialEq, Eq)]
pub enum RegionLookup {
    /// The question could not be sent.
    NotSent(Error),
    /// The question was dropped without an answer.
    Dropped(Error),
    Answered(Option<RegionInfo>),
}

/// What is left to do of a change of the observe status.
#[derive(Clone, PartialEq, Eq)]
pub enum ObserveState {
    /// To start: a handle is needed.
    NewHandle { region: Region, needs_initial_scanning: bool },
    /// To start with a scan: the task of the region is needed.
    FindTask { region: Region, handle: ObserveHandle },
    /// To start with a scan: the checkpoint of the task is needed.
    LoadCheckpoint { region: Region, handle: ObserveHandle, task_name: String },
    /// To start: the region is to be registered.
    Register { region: Region, handle: ObserveHandle, start_ts: Option<TimeStamp> },
    /// To start: the raft store is to send the changes.
    Observe { region: Region, handle: ObserveHandle, start_ts: Option<TimeStamp> },
    /// The region is to be scanned.
    SpawnScan { region: Region, from: TimeStamp, snapshot: SnapshotId },
    /// To stop: the subscription is to be dropped.
    Stop { region: Region, condition: StopCondition },
    /// To refresh: the subscription may be good with the new region.
    TryUpdate { region: Region },
    /// To refresh: the subscription is to be dropped.
    Cancel { region: Region },
    /// To refresh: a handle is needed.
    RefreshHandle { region: Region, canceled: bool },
    /// To retry: the accessor is asked about the region.
    LookUp { region: Region, handle: ObserveHandle, origin: Box<Error> },
    /// To retry: the subscription of the failed start is to be dropped.
    DropFailed { region: Region, handle: ObserveHandle },
    /// The retry failed with `err`: the task of the region is needed, which is
    /// to be stopped.
    FindFailedTask { region: Region, origin: Box<Error>, err: Error },
    /// The retry failed: the task that stops the task of the region is to be
    /// scheduled.
    ScheduleFatal { region: Region, task: Task },
    /// A task is to be scheduled.
    Schedule { task: Task },
    Done(ObserveOutcome),
}

/// A change of the observe status of a region that is under way.
#[derive(Clone, PartialEq, Eq)]
pub struct ObserveJob {
    /// Whether the endpoint has a client of the metadata store.
    pub meta_client: bool,
    pub state: ObserveState,
}

/// What a change of the observe status asks for.
#[derive(Clone, Copy, PartialEq, Eq)]
pub enum ObserveRequest<'a> {
    /// Make a handle that no other observation has.
    NewHandle,
    /// Find the task whose ranges hold these keys.
    FindTask { start_key: &'a Vec<u8>, end_key: &'a Vec<u8> },
    /// Get the global checkpoint of the task from the metadata store.
    LoadCheckpoint { task_name: &'a String },
    /// Register the region with the subscriptions.
    Register { region: &'a Region, handle: ObserveHandle, start_ts: Option<TimeStamp> },
    /// Have the raft store send the changes of the region, and take a
    /// snapshot of it.
    Observe { region: &'a Region, handle: ObserveHandle },
    /// Scan the region in the background.
    SpawnScan { region: &'a Region, from: TimeStamp, snapshot: SnapshotId },
    /// Have the subscriptions take over the new region if they can.
    TryUpdate { region: &'a Region },
    /// Drop the subscription of the region if it meets the condition.
    Deregister { region: &'a Region, condition: StopCondition },
    /// Ask the region info accessor.
    LookUp { region_id: u64 },
    /// Schedule a task, if the scheduler takes it.
    Schedule { task: &'a Task },
    /// Nothing: the change is done.
    Nothing,
}

impl<'a> ObserveRequest<'a> {
    /// Whether `job` is the scan that this request begins.
    pub open spec fn begins(self, job: ScanJob) -> bool {
        &&& self matches ObserveRequest::SpawnScan { region, from, snapshot }
        &&& job.region.same_as(*region)
        &&& job.from == from
        &&& job.snapshot == snapshot
        &&& job.state == ScanState::Scan
    }

    /// The scan that this request begins, if it begins one.
    pub fn scan(&self) -> (r: Option<ScanJob>)
        ensures
            r is Some <==> self is SpawnScan,
            r matches Some(job) ==> self.begins(job),
    {
        match self {
            ObserveRequest::SpawnScan { region, from, snapshot } => Some(
                ScanJob::begin((*region).clone(), *from, *snapshot),
            ),
            _ => None,
        }
    }
}

/// A reply to what a change of the observe status asked for.
#[derive(Debug, PartialEq, Eq)]
pub enum ObserveReply {
    Handle(ObserveHandle),
    TaskName(Option<String>),
    Checkpoint(Result<u64, Error>),
    Registered,
    Observed(Result<SnapshotId, Error>),
    ScanSpawned,
    Updated(bool),
    Deregistered(bool),
    LookedUp(RegionLookup),
    Scheduled,
}

/// What a failed retry is said to be.
pub open spec fn retry_failure_text(origin: Error) -> Seq<char> {
    "While retring to observe region, origin error is "@ + origin.spec_text()
}

/// Whether `task` stops, on account of `err`, the task that the router `found`
/// for a region whose retry failed. Where it found none, there is no task to
/// stop, and what takes the place of the name tells of the retry and of the
/// error of the first try.
pub open spec fn is_retry_failure(
    task: Task,
    found: Option<String>,
    origin: Error,
    err: Error,
) -> bool {
    &&& task matches Task::FatalError(name, boxed)
    &&& *boxed == err
    &&& match found {
        Some(task_name) => name == task_name,
        None => name@ == retry_failure_text(origin),
    }
}

/// The task that reports that `region` could not be observed under `handle`.
pub open spec fn start_failure(region: Region, handle: ObserveHandle, err: Error) -> Task {
    Task::ModifyObserve(
        ObserveOp::NotifyFailToStartObserve { region, handle, err: Box::new(err) },
    )
}

impl ObserveState {
    /// The first step of `op`.
    pub open spec fn first(op: ObserveOp) -> ObserveState {
        match op {
            ObserveOp::Start { region, needs_initial_scanning } => ObserveState::NewHandle {
                region,
                needs_initial_scanning,
            },
            ObserveOp::Stop { region } => ObserveState::Stop {
                region,
                condition: StopCondition::Always,
            },
            ObserveOp::CheckEpochAndStop { region } => ObserveState::Stop {
                region,
                condition: StopCondition::EpochCheck {
                    check_conf_ver: true,
                    check_ver: true,
                    include_region: false,
                },
            },
            ObserveOp::RefreshResolver { region } => ObserveState::TryUpdate { region },
            ObserveOp::NotifyFailToStartObserve { region, handle, err } => ObserveState::LookUp {
                region,
                handle,
                origin: err,
            },
        }
    }

    /// The step after `reply`, where the reply leaves only one.
    pub open spec fn after(self, reply: ObserveReply) -> ObserveState {
        match (self, reply) {
            (
                ObserveState::NewHandle { region, needs_initial_scanning },
                ObserveReply::Handle(handle),
            ) => if needs_initial_scanning {
                ObserveState::FindTask { region, handle }
            } else {
                ObserveState::Register { region, handle, start_ts: None }
            },
            (ObserveState::FindTask { region, handle }, ObserveReply::TaskName(Some(task_name))) =>
                ObserveState::LoadCheckpoint { region, handle, task_name },
            (
                ObserveState::LoadCheckpoint { region, handle, task_name },
                ObserveReply::Checkpoint(Ok(ts)),
            ) => ObserveState::Register { region, handle, start_ts: Some(TimeStamp(ts)) },
            (
                ObserveState::LoadCheckpoint { region, handle, task_name },
                ObserveReply::Checkpoint(Err(err)),
            ) => ObserveState::Schedule { task: start_failure(region, handle, err) },
            (ObserveState::Register { region, handle, start_ts }, ObserveReply::Registered) =>
                ObserveState::Observe { region, handle, start_ts },
            (
                ObserveState::Observe { region, handle, start_ts },
                ObserveReply::Observed(Ok(snapshot)),
            ) => match start_ts {
                Some(from) => ObserveState::SpawnScan { region, from, snapshot },
                None => ObserveState::Done(ObserveOutcome::Started),
            },
            (
                ObserveState::Observe { region, handle, start_ts },
                ObserveReply::Observed(Err(err)),
            ) => ObserveState::Schedule { task: start_failure(region, handle, err) },
            (ObserveState::SpawnScan { .. }, ObserveReply::ScanSpawned) => ObserveState::Done(
                ObserveOutcome::Started,
            ),
            (ObserveState::Stop { .. }, ObserveReply::Deregistered(removed)) => ObserveState::Done(
                ObserveOutcome::Stopped { removed },
            ),
            (ObserveState::TryUpdate { region }, ObserveReply::Updated(updated)) => if updated {
                ObserveState::Done(ObserveOutcome::UpToDate)
            } else {
                ObserveState::Cancel { region }
            },
            (ObserveState::Cancel { region }, ObserveReply::Deregistered(canceled)) =>
                ObserveState::RefreshHandle { region, canceled },
            (
                ObserveState::RefreshHandle { region, canceled },
                ObserveReply::Handle(handle),
            ) => if canceled {
                ObserveState::FindTask { region, handle }
            } else {
                ObserveState::Done(ObserveOutcome::NotObserved)
            },
            (
                ObserveState::LookUp { region, handle, origin },
                ObserveReply::LookedUp(RegionLookup::NotSent(err)),
            ) => ObserveState::FindFailedTask {
                region,
                origin,
                err: Error {
                    context: Some(ErrorContext::RegionInfoBusy { region_id: region.id }),
                    ..err
                },
            },
            (
                ObserveState::LookUp { region, handle, origin },
                ObserveReply::LookedUp(RegionLookup::Dropped(err)),
            ) => ObserveState::FindFailedTask {
                region,
                origin,
                err: Error { context: Some(ErrorContext::MessageDropped), ..err },
            },
            (
                ObserveState::LookUp { region, handle, origin },
                ObserveReply::LookedUp(RegionLookup::Answered(info)),
            ) => match info {
                None => ObserveState::Done(ObserveOutcome::Skipped(SkipReason::RegionAbsent)),
                Some(info) => if info.role == StateRole::Leader {
                    ObserveState::DropFailed { region, handle }
                } else {
                    ObserveState::Done(ObserveOutcome::Skipped(SkipReason::NotLeader))
                },
            },
            (
                ObserveState::DropFailed { region, handle },
                ObserveReply::Deregistered(removed),
            ) => if removed {
                ObserveState::NewHandle { region, needs_initial_scanning: true }
            } else {
                ObserveState::Done(ObserveOutcome::Skipped(SkipReason::StaleCommand))
            },
            _ => ObserveState::Done(ObserveOutcome::Failed),
        }
    }
}

impl ObserveJob {
    /// What this step asks for.
    pub open spec fn pending(&self) -> ObserveRequest<'_> {
        match &self.state {
            ObserveState::NewHandle { .. } => ObserveRequest::NewHandle,
            ObserveState::FindTask { region, .. } => ObserveRequest::FindTask {
                start_key: &region.start_key,
                end_key: &region.end_key,
            },
            ObserveState::LoadCheckpoint { task_name, .. } => ObserveRequest::LoadCheckpoint {
                task_name,
            },
            ObserveState::Register { region, handle, start_ts } => ObserveRequest::Register {
                region,
                handle: *handle,
                start_ts: *start_ts,
            },
            ObserveState::Observe { region, handle, .. } => ObserveRequest::Observe {
                region,
                handle: *handle,
            },
            ObserveState::SpawnScan { region, from, snapshot } => ObserveRequest::SpawnScan {
                region,
                from: *from,
                snapshot: *snapshot,
            },
            ObserveState::Stop { region, condition } => ObserveRequest::Deregister {
                region,
                condition: *condition,
            },
            ObserveState::TryUpdate { region } => ObserveRequest::TryUpdate { region },
            ObserveState::Cancel { region } => ObserveRequest::Deregister {
                region,
                condition: StopCondition::Always,
            },
            ObserveState::RefreshHandle { .. } => ObserveRequest::NewHandle,
            ObserveState::LookUp { region, .. } => ObserveRequest::LookUp { region_id: region.id },
            ObserveState::DropFailed { region, handle } => ObserveRequest::Deregister {
                region,
                condition: StopCondition::SameHandle(*handle),
            },
            ObserveState::FindFailedTask { region, .. } => ObserveRequest::FindTask {
                start_key: &region.start_key,
                end_key: &region.end_key,
            },
            ObserveState::ScheduleFatal { task, .. } => ObserveRequest::Schedule { task },
            ObserveState::Schedule { task } => ObserveRequest::Schedule { task },
            ObserveState::Done(_) => ObserveRequest::Nothing,
        }
    }

    /// What this step asks for.
    pub fn request(&self) -> (r: ObserveRequest<'_>)
        ensures
            r == self.pending(),
    {
        match &self.state {
            ObserveState::NewHandle { .. } => ObserveRequest::NewHandle,
            ObserveState::FindTask { region, .. } => ObserveRequest::FindTask {
                start_key: &region.start_key,
                end_key: &region.end_key,
            },
            ObserveState::LoadCheckpoint { task_name, .. } => ObserveRequest::LoadCheckpoint {
                task_name,
            },
            ObserveState::Register { region, handle, start_ts } => ObserveRequest::Register {
                region,
                handle: *handle,
                start_ts: *start_ts,
            },
            ObserveState::Observe { region, handle, .. } => ObserveRequest::Observe {
                region,
                handle: *handle,
            },
            ObserveState::SpawnScan { region, from, snapshot } => ObserveRequest::SpawnScan {
                region,
                from: *from,
                snapshot: *snapshot,
            },
            ObserveState::Stop { region, condition } => ObserveRequest::Deregister {
                region,
                condition: *condition,
            },
            ObserveState::TryUpdate { region } => ObserveRequest::TryUpdate { region },
            ObserveState::Cancel { region } => ObserveRequest::Deregister {
                region,
                condition: StopCondition::Always,
            },
            ObserveState::RefreshHandle { .. } => ObserveRequest::NewHandle,
            ObserveState::LookUp { region, .. } => ObserveRequest::LookUp { region_id: region.id },
            ObserveState::DropFailed { region, handle } => ObserveRequest::Deregister {
                region,
                condition: StopCondition::SameHandle(*handle),
            },
            ObserveState::FindFailedTask { region, .. } => ObserveRequest::FindTask {
                start_key: &region.start_key,
                end_key: &region.end_key,
            },
            ObserveState::ScheduleFatal { task, .. } => ObserveRequest::Schedule { task },
            ObserveState::Schedule { task } => ObserveRequest::Schedule { task },
            ObserveState::Done(_) => ObserveRequest::Nothing,
        }
    }

    /// Begins `op`.
    pub fn begin(meta_client: bool, op: ObserveOp) -> (job: ObserveJob)
        ensures
            job == (ObserveJob { meta_client, state: ObserveState::first(op) }),
    {
        let state = match op {
            ObserveOp::Start { region, needs_initial_scanning } => ObserveState::NewHandle {
                region,
                needs_initial_scanning,
            },
            ObserveOp::Stop { region } => ObserveState::Stop {
                region,
                condition: StopCondition::Always,
            },
            ObserveOp::CheckEpochAndStop { region } => ObserveState::Stop {
                region,
                condition: StopCondition::EpochCheck {
                    check_conf_ver: true,
                    check_ver: true,
                    include_region: false,
                },
            },
            ObserveOp::RefreshResolver { region } => ObserveState::TryUpdate { region },
            ObserveOp::NotifyFailToStartObserve { region, handle, err } => ObserveState::LookUp {
                region,
                handle,
                origin: err,
            },
        };
        ObserveJob { meta_client, state }
    }

    /// How the change ended, once it is done.
    pub fn outcome(&self) -> (r: Option<ObserveOutcome>)
        ensures
            r == match self.state {
                ObserveState::Done(outcome) => Some(outcome),
                _ => None,
            },
    {
        match &self.state {
            ObserveState::Done(outcome) => Some(*outcome),
            _ => None,
        }
    }
}

fn fail_to_start(region: Region, handle: ObserveHandle, err: Error) -> (state: ObserveState)
    ensures
        state == (ObserveState::Schedule { task: start_failure(region, handle, err) }),
{
    ObserveState::Schedule {
        task: Task::ModifyObserve(
            ObserveOp::NotifyFailToStartObserve { region, handle, err: Box::new(err) },
        ),
    }
}

impl Procedure for ObserveJob {
    type Reply = ObserveReply;

    open spec fn answered_by(self, reply: ObserveReply) -> bool {
        match self.state {
            ObserveState::NewHandle { .. } => reply is Handle,
            // A region that is observed belongs to a task, and tasks come from
            // the metadata store.
            ObserveState::FindTask { .. } => self.meta_client && reply matches
                ObserveReply::TaskName(Some(_)),
            ObserveState::LoadCheckpoint { .. } => reply is Checkpoint,
            ObserveState::Register { .. } => reply is Registered,
            ObserveState::Observe { .. } => reply is Observed,
            ObserveState::SpawnScan { .. } => reply is ScanSpawned,
            ObserveState::Stop { .. } => reply is Deregistered,
            ObserveState::TryUpdate { .. } => reply is Updated,
            ObserveState::Cancel { .. } => reply is Deregistered,
            ObserveState::RefreshHandle { .. } => reply is Handle,
            ObserveState::LookUp { .. } => reply is LookedUp,
            ObserveState::DropFailed { .. } => reply is Deregistered,
            ObserveState::FindFailedTask { .. } => reply is TaskName,
            ObserveState::ScheduleFatal { .. } => reply is Scheduled,
            ObserveState::Schedule { .. } => reply is Scheduled,
            ObserveState::Done(_) => false,
        }
    }

    open spec fn leads_to(self, reply: ObserveReply, next: ObserveJob) -> bool {
        &&& next.meta_client == self.meta_client
        &&& match (self.state, reply) {
            (
                ObserveState::FindFailedTask { region, origin, err },
                ObserveReply::TaskName(found),
            ) => {
                &&& next.state matches ObserveState::ScheduleFatal { region: r, task }
                &&& r == region
                &&& is_retry_failure(task, found, *origin, err)
            },
            _ => next.state == self.state.after(reply),
        }
    }

    open spec fn is_done(self) -> bool {
        self.state is Done
    }

    fn accepts(&self, reply: &ObserveReply) -> (r: bool) {
        match (&self.state, reply) {
            (ObserveState::NewHandle { .. }, ObserveReply::Handle(_)) => true,
            (ObserveState::FindTask { .. }, ObserveReply::TaskName(Some(_))) => self.meta_client,
            (ObserveState::LoadCheckpoint { .. }, ObserveReply::Checkpoint(_)) => true,
            (ObserveState::Register { .. }, ObserveReply::Registered) => true,
            (ObserveState::Observe { .. }, ObserveReply::Observed(_)) => true,
            (ObserveState::SpawnScan { .. }, ObserveReply::ScanSpawned) => true,
            (ObserveState::Stop { .. }, ObserveReply::Deregistered(_)) => true,
            (ObserveState::TryUpdate { .. }, ObserveReply::Updated(_)) => true,
            (ObserveState::Cancel { .. }, ObserveReply::Deregistered(_)) => true,
            (ObserveState::RefreshHandle { .. }, ObserveReply::Handle(_)) => true,
            (ObserveState::LookUp { .. }, ObserveReply::LookedUp(_)) => true,
            (ObserveState::DropFailed { .. }, ObserveReply::Deregistered(_)) => true,
            (ObserveState::FindFailedTask { .. }, ObserveReply::TaskName(_)) => true,
            (ObserveState::ScheduleFatal { .. }, ObserveReply::Scheduled) => true,
            (ObserveState::Schedule { .. }, ObserveReply::Scheduled) => true,
            _ => false,
        }
    }

    fn resume(self, reply: ObserveReply) -> (next: ObserveJob) {
        let meta_client = self.meta_client;
        let state = match (self.state, reply) {
            (
                ObserveState::NewHandle { region, needs_initial_scanning },
                ObserveReply::Handle(handle),
            ) => if needs_initial_scanning {
                ObserveState::FindTask { region, handle }
            } else {
                ObserveState::Register { region, handle, start_ts: None }
            },
            (ObserveState::FindTask { region, handle }, ObserveReply::TaskName(Some(task_name))) =>
                ObserveState::LoadCheckpoint { region, handle, task_name },
            (
                ObserveState::LoadCheckpoint { region, handle, .. },
                ObserveReply::Checkpoint(progress),
            ) => match progress {
                Ok(ts) => ObserveState::Register {
                    region,
                    handle,
                    start_ts: Some(TimeStamp::new(ts)),
                },
                Err(err) => fail_to_start(region, handle, err),
            },
            (ObserveState::Register { region, handle, start_ts }, ObserveReply::Registered) =>
                ObserveState::Observe { region, handle, start_ts },
            (
                ObserveState::Observe { region, handle, start_ts },
                ObserveReply::Observed(result),
            ) => match result {
                Ok(snapshot) => match start_ts {
                    Some(from) => ObserveState::SpawnScan { region, from, snapshot },
                    None => ObserveState::Done(ObserveOutcome::Started),
                },
                Err(err) => fail_to_start(region, handle, err),
            },
            (ObserveState::SpawnScan { .. }, ObserveReply::ScanSpawned) => ObserveState::Done(
                ObserveOutcome::Started,
            ),
            (ObserveState::Stop { .. }, ObserveReply::Deregistered(removed)) => ObserveState::Done(
                ObserveOutcome::Stopped { removed },
            ),
            (ObserveState::TryUpdate { region }, ObserveReply::Updated(updated)) => if updated {
                ObserveState::Done(ObserveOutcome::UpToDate)
            } else {
                ObserveState::Cancel { region }
            },
            (ObserveState::Cancel { region }, ObserveReply::Deregistered(canceled)) =>
                ObserveState::RefreshHandle { region, canceled },
            (
                ObserveState::RefreshHandle { region, canceled },
                ObserveReply::Handle(handle),
            ) => if canceled {
                ObserveState::FindTask { region, handle }
            } else {
                ObserveState::Done(ObserveOutcome::NotObserved)
            },
            (
                ObserveState::LookUp { region, handle, origin },
                ObserveReply::LookedUp(lookup),
            ) => match lookup {
                RegionLookup::NotSent(err) => {
                    let context = ErrorContext::RegionInfoBusy { region_id: region.id };
                    ObserveState::FindFailedTask { region, origin, err: err.annotate(context) }
                },
                RegionLookup::Dropped(err) => {
                    let context = ErrorContext::MessageDropped;
                    ObserveState::FindFailedTask { region, origin, err: err.annotate(context) }
                },
                RegionLookup::Answered(None) => ObserveState::Done(
                    ObserveOutcome::Skipped(SkipReason::RegionAbsent),
                ),
                RegionLookup::Answered(Some(info)) => match info.role {
                    StateRole::Leader => ObserveState::DropFailed { region, handle },
                    _ => ObserveState::Done(ObserveOutcome::Skipped(SkipReason::NotLeader)),
                },
            },
            (
                ObserveState::FindFailedTask { region, origin, err },
                ObserveReply::TaskName(found),
            ) => {
                let name = match found {
                    Some(task_name) => task_name,
                    None => {
                        let mut text = "While retring to observe region, origin error is ".to_owned();
                        text.append(origin.text().as_str());
                        text
                    },
                };
                ObserveState::ScheduleFatal {
                    region,
                    task: Task::FatalError(name, Box::new(err)),
                }
            },
            (
                ObserveState::DropFailed { region, .. },
                ObserveReply::Deregistered(removed),
            ) => if removed {
                ObserveState::NewHandle { region, needs_initial_scanning: true }
            } else {
                ObserveState::Done(ObserveOutcome::Skipped(SkipReason::StaleCommand))
            },
            _ => ObserveState::Done(ObserveOutcome::Failed),
        };
        ObserveJob { meta_client, state }
    }

    fn done(&self) -> (r: bool) {
        match &self.state {
            ObserveState::Done(_) => true,
            _ => false,
        }
    }
}

impl Bounded for ObserveJob {
    open spec fn remaining(self) -> nat {
        match self.state {
            ObserveState::LookUp { .. } => 8,
            ObserveState::TryUpdate { .. } => 8,
            ObserveState::DropFailed { .. } => 7,
            ObserveState::Cancel { .. } => 7,
            ObserveState::NewHandle { .. } => 6,
            ObserveState::RefreshHandle { .. } => 6,
            ObserveState::FindTask { .. } => 5,
            ObserveState::LoadCheckpoint { .. } => 4,
            ObserveState::Register { .. } => 3,
            ObserveState::Observe { .. } => 2,
            ObserveState::FindFailedTask { .. } => 2,
            ObserveState::ScheduleFatal { .. } => 1,
            ObserveState::SpawnScan { .. } => 1,
            ObserveState::Stop { .. } => 1,
            ObserveState::Schedule { .. } => 1,
            ObserveState::Done(_) => 0,
        }
    }

    proof fn lemma_remaining_decreases(self, reply: ObserveReply, next: ObserveJob) {
    }
}

} // verus!
