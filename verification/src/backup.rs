//! Backing up batches of commands.
use crate::procedure::{Bounded, Procedure};
use crate::types::{ApplyEvents, CmdBatch, OnEventResult};
use vstd::prelude::*;

verus! {

/// Handling events for longer than this many seconds is slow.
pub const SLOW_EVENT_THRESHOLD: u64 = 120;

/// What is left to do for the batch in hand.
#[derive(Debug, Clone, Copy, PartialEq, Eq)]
pub enum BackupState {
    /// Whether its region is subscribed is needed.
    FindSubscription,
    /// Its commands are to be made into events.
    Convert,
    /// The events are to be written.
    Sink { events: ApplyEvents },
    /// There is no batch in hand: all are dealt with.
    Done,
}

/// A backup that is under way.
#[derive(Clone, PartialEq, Eq)]
pub struct BackupJob {
    pub batches: Vec<CmdBatch>,
    /// The batch in hand.
    pub index: usize,
    pub state: BackupState,
}

/// What a backup asks for.
#[derive(Clone, Copy, PartialEq, Eq)]
pub enum BackupRequest<'a> {
    /// Find the subscription of a region.
    FindSubscription { region_id: u64 },
    /// Make events of the commands, and tell the resolver of the subscription
    /// of their locks.
    FromCmdBatch { batch: &'a CmdBatch },
    /// Write the events, in the background.
    SpawnSink { region_id: u64, events: ApplyEvents },
    /// Nothing: the backup is done.
    Nothing,
}

impl<'a> BackupRequest<'a> {
    /// The writing of events that this request begins, if it begins one.
    pub open spec fn begun(self) -> Option<SinkJob> {
        match self {
            BackupRequest::SpawnSink { region_id, events } => Some(
                SinkJob { region_id, events, state: SinkState::AddMemory },
            ),
            _ => None,
        }
    }

    /// The writing of events that this request begins, if it begins one.
    pub fn sink(&self) -> (r: Option<SinkJob>)
        ensures
            r == self.begun(),
    {
        match self {
            BackupRequest::SpawnSink { region_id, events } => Some(
                SinkJob::begin(*region_id, *events),
            ),
            _ => None,
        }
    }
}

/// A reply to what a backup asked for.
#[derive(Debug, Clone, Copy, PartialEq, Eq)]
pub enum BackupReply {
    Subscribed(bool),
    Events(ApplyEvents),
    /// What was asked for is on its way.
    Acknowledged,
}

impl BackupJob {
    /// Whether there is a batch in hand if there is anything left to do.
    pub open spec fn wf(self) -> bool {
        !(self.state is Done) ==> self.index < self.batches@.len()
    }

    /// The job once the batch in hand is dealt with.
    pub open spec fn moved_on(self) -> BackupJob {
        if self.index + 1 < self.batches@.len() {
            BackupJob {
                batches: self.batches,
                index: (self.index + 1) as usize,
                state: BackupState::FindSubscription,
            }
        } else {
            BackupJob { batches: self.batches, index: self.index, state: BackupState::Done }
        }
    }

    fn move_on(self) -> (r: BackupJob)
        requires
            self.index < self.batches@.len(),
        ensures
            r == self.moved_on(),
    {
        let batches = self.batches;
        let last: usize = batches.len() - 1;
        if self.index < last {
            BackupJob { batches, index: self.index + 1, state: BackupState::FindSubscription }
        } else {
            BackupJob { batches, index: self.index, state: BackupState::Done }
        }
    }

    /// What this step asks for.
    pub open spec fn pending(&self) -> BackupRequest<'_> {
        if self.index < self.batches@.len() {
            let batch = &self.batches@[self.index as int];
            match self.state {
                BackupState::FindSubscription => BackupRequest::FindSubscription {
                    region_id: batch.region_id,
                },
                BackupState::Convert => BackupRequest::FromCmdBatch { batch },
                BackupState::Sink { events } => BackupRequest::SpawnSink {
                    region_id: batch.region_id,
                    events,
                },
                BackupState::Done => BackupRequest::Nothing,
            }
        } else {
            BackupRequest::Nothing
        }
    }

    /// What this step asks for.
    pub fn request(&self) -> (r: BackupRequest<'_>)
        ensures
            r == self.pending(),
    {
        if self.index < self.batches.len() {
            let batch = &self.batches[self.index];
            match self.state {
                BackupState::FindSubscription => BackupRequest::FindSubscription {
                    region_id: batch.region_id,
                },
                BackupState::Convert => BackupRequest::FromCmdBatch { batch },
                BackupState::Sink { events } => BackupRequest::SpawnSink {
                    region_id: batch.region_id,
                    events,
                },
                BackupState::Done => BackupRequest::Nothing,
            }
        } else {
            BackupRequest::Nothing
        }
    }

    /// The first step of the backup of `batches`.
    pub open spec fn first(batches: Vec<CmdBatch>) -> BackupJob {
        BackupJob {
            batches,
            index: 0,
            state: if batches@.len() > 0 {
                BackupState::FindSubscription
            } else {
                BackupState::Done
            },
        }
    }

    /// Begins to back up `batches`.
    pub fn begin(batches: Vec<CmdBatch>) -> (job: BackupJob)
        ensures
            job == BackupJob::first(batches),
            job.wf(),
    {
        let state = if batches.len() > 0 {
            BackupState::FindSubscription
        } else {
            BackupState::Done
        };
        BackupJob { batches, index: 0, state }
    }

    /// The job after `reply`.
    pub open spec fn after(self, reply: BackupReply) -> BackupJob {
        match (self.state, reply) {
            (BackupState::FindSubscription, BackupReply::Subscribed(true)) => BackupJob {
                batches: self.batches,
                index: self.index,
                state: BackupState::Convert,
            },
            (BackupState::Convert, BackupReply::Events(events)) => if events.len > 0 {
                BackupJob {
                    batches: self.batches,
                    index: self.index,
                    state: BackupState::Sink { events },
                }
            } else {
                self.moved_on()
            },
            _ => self.moved_on(),
        }
    }
}

impl Procedure for BackupJob {
    type Reply = BackupReply;

    open spec fn answered_by(self, reply: BackupReply) -> bool {
        self.index < self.batches@.len() && match self.state {
            BackupState::FindSubscription => reply is Subscribed,
            BackupState::Convert => reply is Events,
            BackupState::Sink { .. } => reply is Acknowledged,
            BackupState::Done => false,
        }
    }

    open spec fn leads_to(self, reply: BackupReply, next: BackupJob) -> bool {
        next == self.after(reply)
    }

    open spec fn is_done(self) -> bool {
        self.state is Done
    }

    fn accepts(&self, reply: &BackupReply) -> (r: bool) {
        self.index < self.batches.len() && match (self.state, reply) {
            (BackupState::FindSubscription, BackupReply::Subscribed(_)) => true,
            (BackupState::Convert, BackupReply::Events(_)) => true,
            (BackupState::Sink { .. }, BackupReply::Acknowledged) => true,
            _ => false,
        }
    }

    fn resume(self, reply: BackupReply) -> (next: BackupJob) {
        match (self.state, reply) {
            (BackupState::FindSubscription, BackupReply::Subscribed(true)) => BackupJob {
                batches: self.batches,
                index: self.index,
                state: BackupState::Convert,
            },
            (BackupState::Convert, BackupReply::Events(events)) => if events.len > 0 {
                BackupJob {
                    batches: self.batches,
                    index: self.index,
                    state: BackupState::Sink { events },
                }
            } else {
                self.move_on()
            },
            _ => self.move_on(),
        }
    }

    fn done(&self) -> (r: bool) {
        match self.state {
            BackupState::Done => true,
            _ => false,
        }
    }
}

impl Bounded for BackupJob {
    open spec fn remaining(self) -> nat {
        let later = if self.index < self.batches@.len() {
            self.batches@.len() - self.index - 1
        } else {
            0
        };
        match self.state {
            BackupState::FindSubscription => (3 * later + 3) as nat,
            BackupState::Convert => (3 * later + 2) as nat,
            BackupState::Sink { .. } => (3 * later + 1) as nat,
            BackupState::Done => 0,
        }
    }

    proof fn lemma_remaining_decreases(self, reply: BackupReply, next: BackupJob) {
        assert(self.index < self.batches.len());
    }
}

/// What is left to do for events that are written.
#[derive(Debug, Clone, Copy, PartialEq, Eq)]
pub enum SinkState {
    /// Their memory is to be accounted for.
    AddMemory,
    /// The router is to take them.
    OnEvents,
    /// What came of it is to be dealt with.
    HandleResult { result: OnEventResult },
    /// Their memory is free again.
    ReleaseMemory,
    /// They are to be counted.
    CountEvents,
    /// The time that they took is needed.
    TakeTime,
    /// They took long.
    WarnSlow,
    Done,
}

/// Events of a region that are being written.
#[derive(Debug, Clone, Copy, PartialEq, Eq)]
pub struct SinkJob {
    pub region_id: u64,
    pub events: ApplyEvents,
    pub state: SinkState,
}

/// What writing events asks for.
#[derive(Debug, Clone, Copy, PartialEq, Eq)]
pub enum SinkRequest {
    /// Account for bytes on the heap.
    AddMemory { bytes: usize },
    /// Have the router take the events.
    OnEvents { events: ApplyEvents },
    /// Deal with what came of it, with the scheduler of the endpoint at hand.
    HandleOnEventResult { result: OnEventResult },
    /// Account for bytes that are free again.
    ReleaseMemory { bytes: usize },
    /// Count events.
    CountEvents { count: usize },
    /// Read how long the events took.
    TakeTime,
    /// Warn that the events took long.
    WarnSlow { region_id: u64, count: usize },
    /// Nothing: the events are written.
    Nothing,
}

/// A reply to what writing events asked for.
#[derive(Debug, Clone, Copy, PartialEq, Eq)]
pub enum SinkReply {
    /// What came of the events.
    Taken(OnEventResult),
    /// A time in seconds, and nanoseconds of the second that was begun.
    Elapsed { secs: u64, nanos: u32 },
    /// What was asked for is done.
    Acknowledged,
}

/// Whether a time is longer than the threshold.
pub open spec fn is_slow(secs: u64, nanos: u32) -> bool {
    secs * 1_000_000_000 + nanos > SLOW_EVENT_THRESHOLD * 1_000_000_000
}

/// Whether a time is longer than the threshold.
pub fn took_long(secs: u64, nanos: u32) -> (r: bool)
    requires
        nanos < 1_000_000_000,
    ensures
        r == is_slow(secs, nanos),
{
    secs > SLOW_EVENT_THRESHOLD || (secs == SLOW_EVENT_THRESHOLD && nanos > 0)
}

impl SinkState {
    /// The step after `reply`.
    pub open spec fn after(self, reply: SinkReply) -> SinkState {
        match (self, reply) {
            (SinkState::AddMemory, _) => SinkState::OnEvents,
            (SinkState::OnEvents, SinkReply::Taken(result)) => SinkState::HandleResult { result },
            (SinkState::HandleResult { .. }, _) => SinkState::ReleaseMemory,
            (SinkState::ReleaseMemory, _) => SinkState::CountEvents,
            (SinkState::CountEvents, _) => SinkState::TakeTime,
            (SinkState::TakeTime, SinkReply::Elapsed { secs, nanos }) => if is_slow(secs, nanos) {
                SinkState::WarnSlow
            } else {
                SinkState::Done
            },
            _ => SinkState::Done,
        }
    }
}

impl SinkJob {
    /// What this step asks for.
    pub open spec fn pending(self) -> SinkRequest {
        match self.state {
            SinkState::AddMemory => SinkRequest::AddMemory { bytes: self.events.size },
            SinkState::OnEvents => SinkRequest::OnEvents { events: self.events },
            SinkState::HandleResult { result } => SinkRequest::HandleOnEventResult { result },
            SinkState::ReleaseMemory => SinkRequest::ReleaseMemory { bytes: self.events.size },
            SinkState::CountEvents => SinkRequest::CountEvents { count: self.events.len },
            SinkState::TakeTime => SinkRequest::TakeTime,
            SinkState::WarnSlow => SinkRequest::WarnSlow {
                region_id: self.region_id,
                count: self.events.len,
            },
            SinkState::Done => SinkRequest::Nothing,
        }
    }

    /// What this step asks for.
    pub fn request(&self) -> (r: SinkRequest)
        ensures
            r == self.pending(),
    {
        match self.state {
            SinkState::AddMemory => SinkRequest::AddMemory { bytes: self.events.size },
            SinkState::OnEvents => SinkRequest::OnEvents { events: self.events },
            SinkState::HandleResult { result } => SinkRequest::HandleOnEventResult { result },
            SinkState::ReleaseMemory => SinkRequest::ReleaseMemory { bytes: self.events.size },
            SinkState::CountEvents => SinkRequest::CountEvents { count: self.events.len },
            SinkState::TakeTime => SinkRequest::TakeTime,
            SinkState::WarnSlow => SinkRequest::WarnSlow {
                region_id: self.region_id,
                count: self.events.len,
            },
            SinkState::Done => SinkRequest::Nothing,
        }
    }

    /// Begins to write `events`.
    pub fn begin(region_id: u64, events: ApplyEvents) -> (job: SinkJob)
        ensures
            job == (SinkJob { region_id, events, state: SinkState::AddMemory }),
    {
        SinkJob { region_id, events, state: SinkState::AddMemory }
    }
}

impl Procedure for SinkJob {
    type Reply = SinkReply;

    open spec fn answered_by(self, reply: SinkReply) -> bool {
        match self.state {
            SinkState::OnEvents => reply is Taken,
            SinkState::TakeTime => reply matches SinkReply::Elapsed { nanos, .. } && nanos
                < 1_000_000_000,
            SinkState::Done => false,
            _ => reply is Acknowledged,
        }
    }

    open spec fn leads_to(self, reply: SinkReply, next: SinkJob) -> bool {
        next == (SinkJob {
            region_id: self.region_id,
            events: self.events,
            state: self.state.after(reply),
        })
    }

    open spec fn is_done(self) -> bool {
        self.state is Done
    }

    fn accepts(&self, reply: &SinkReply) -> (r: bool) {
        match (self.state, reply) {
            (SinkState::Done, _) => false,
            (SinkState::OnEvents, SinkReply::Taken(_)) => true,
            (SinkState::OnEvents, _) => false,
            (SinkState::TakeTime, SinkReply::Elapsed { nanos, .. }) => *nanos < 1_000_000_000,
            (SinkState::TakeTime, _) => false,
            (_, SinkReply::Acknowledged) => true,
            _ => false,
        }
    }

    fn resume(self, reply: SinkReply) -> (next: SinkJob) {
        let state = match (self.state, reply) {
            (SinkState::AddMemory, _) => SinkState::OnEvents,
            (SinkState::OnEvents, SinkReply::Taken(result)) => SinkState::HandleResult { result },
            (SinkState::HandleResult { .. }, _) => SinkState::ReleaseMemory,
            (SinkState::ReleaseMemory, _) => SinkState::CountEvents,
            (SinkState::CountEvents, _) => SinkState::TakeTime,
            (SinkState::TakeTime, SinkReply::Elapsed { secs, nanos }) => if took_long(
                secs,
                nanos,
            ) {
                SinkState::WarnSlow
            } else {
                SinkState::Done
            },
            _ => SinkState::Done,
        };
        SinkJob { region_id: self.region_id, events: self.events, state }
    }

    fn done(&self) -> (r: bool) {
        match self.state {
            SinkState::Done => true,
            _ => false,
        }
    }
}

impl Bounded for SinkJob {
    open spec fn remaining(self) -> nat {
        match self.state {
            SinkState::AddMemory => 7,
            SinkState::OnEvents => 6,
            SinkState::HandleResult { .. } => 5,
            SinkState::ReleaseMemory => 4,
            SinkState::CountEvents => 3,
            SinkState::TakeTime => 2,
            SinkState::WarnSlow => 1,
            SinkState::Done => 0,
        }
    }

    proof fn lemma_remaining_decreases(self, reply: SinkReply, next: SinkJob) {
    }
}

} // verus!
