//! Registering a task and its ranges, and taking it off again.
use crate::procedure::{Bounded, Procedure};
use crate::report::Report;
use crate::scan::{InitializeJob, InitializeState};
use crate::types::{Error, KeyRange, StreamTask};
use vstd::prelude::*;

verus! {

/// Why a task was not registered.
#[derive(Debug, Clone, Copy, PartialEq, Eq)]
pub enum RegisterFailure {
    /// The metadata store did not give its ranges.
    RangesNotFound,
    /// The router refused it.
    Refused,
}

/// How a registration ended.
#[derive(Debug, Clone, Copy, PartialEq, Eq)]
pub enum RegisterOutcome {
    /// The endpoint has no client of the metadata store.
    NoClient,
    Failed(RegisterFailure),
    Registered,
}

/// What is left to do of a registration.
#[derive(Clone, PartialEq, Eq)]
pub enum RegisterState {
    /// The ranges of the task are needed.
    LoadRanges,
    /// The start key of the next range is to be wrapped.
    WrapStart { raw: Vec<KeyRange>, wrapped: Vec<KeyRange> },
    /// The end key of the next range is to be wrapped.
    WrapEnd { raw: Vec<KeyRange>, wrapped: Vec<KeyRange>, start_key: Vec<u8> },
    /// The router is to take the task.
    RegisterTask { ranges: Vec<KeyRange> },
    /// The range at `index` is to be observed.
    AddRange { ranges: Vec<KeyRange>, index: usize },
    /// The data that the range at `index` holds is to be loaded.
    Initialize { ranges: Vec<KeyRange>, index: usize },
    /// The registration failed.
    Report { failure: RegisterFailure, err: Error },
    Done(RegisterOutcome),
}

/// A registration that is under way.
#[derive(Clone, PartialEq, Eq)]
pub struct RegisterJob {
    pub task: StreamTask,
    pub state: RegisterState,
}

/// What a registration asks for.
#[derive(Clone, Copy, PartialEq, Eq)]
pub enum RegisterRequest<'a> {
    /// Get the ranges of the task from the metadata store.
    RangesOfTask { task_name: &'a String },
    /// Give the form in which the storage holds this key.
    WrapKey { key: &'a Vec<u8> },
    /// Have the router take the task with these ranges.
    RegisterTask { task: &'a StreamTask, ranges: &'a Vec<KeyRange> },
    /// Add the range to those that are observed.
    AddRange { range: &'a KeyRange },
    /// Load the data that the range holds, in the background.
    SpawnInitialize { range: &'a KeyRange },
    /// Report an error.
    Report { context: Report<'a>, err: &'a Error },
    /// Nothing: the registration is done.
    Nothing,
}

impl<'a> RegisterRequest<'a> {
    /// Whether `job` is the work that this request begins.
    pub open spec fn begins(self, job: InitializeJob) -> bool {
        &&& self matches RegisterRequest::SpawnInitialize { range }
        &&& job.range.same_as(*range)
        &&& job.state == InitializeState::Initialize
    }

    /// The work that this request begins, if it begins one.
    pub fn initialization(&self) -> (r: Option<InitializeJob>)
        ensures
            r is Some <==> self is SpawnInitialize,
            r matches Some(job) ==> self.begins(job),
    {
        match self {
            RegisterRequest::SpawnInitialize { range } => Some(
                InitializeJob::begin((*range).clone()),
            ),
            _ => None,
        }
    }
}

/// A reply to what a registration asked for.
#[derive(Debug, PartialEq, Eq)]
pub enum RegisterReply {
    Ranges(Result<Vec<KeyRange>, Error>),
    Key(Vec<u8>),
    Registered(Result<(), Error>),
    /// Whether the range overlaps with none that was there.
    Added(bool),
    /// What was asked for is done, or on its way.
    Acknowledged,
}

impl RegisterJob {
    /// What this step asks for.
    pub open spec fn pending(&self) -> RegisterRequest<'_> {
        match &self.state {
            RegisterState::LoadRanges => RegisterRequest::RangesOfTask {
                task_name: &self.task.info.name,
            },
            RegisterState::WrapStart { raw, wrapped } => if wrapped@.len() < raw@.len() {
                RegisterRequest::WrapKey { key: &raw@[wrapped@.len() as int].start_key }
            } else {
                RegisterRequest::Nothing
            },
            RegisterState::WrapEnd { raw, wrapped, .. } => if wrapped@.len() < raw@.len() {
                RegisterRequest::WrapKey { key: &raw@[wrapped@.len() as int].end_key }
            } else {
                RegisterRequest::Nothing
            },
            RegisterState::RegisterTask { ranges } => RegisterRequest::RegisterTask {
                task: &self.task,
                ranges,
            },
            RegisterState::AddRange { ranges, index } => if *index < ranges@.len() {
                RegisterRequest::AddRange { range: &ranges@[*index as int] }
            } else {
                RegisterRequest::Nothing
            },
            RegisterState::Initialize { ranges, index } => if *index < ranges@.len() {
                RegisterRequest::SpawnInitialize { range: &ranges@[*index as int] }
            } else {
                RegisterRequest::Nothing
            },
            RegisterState::Report { failure, err } => RegisterRequest::Report {
                context: match failure {
                    RegisterFailure::RangesNotFound => Report::RangesNotFound {
                        task: &self.task.info.name,
                    },
                    RegisterFailure::Refused => Report::RegisterRefused {
                        task: &self.task.info.name,
                    },
                },
                err,
            },
            RegisterState::Done(_) => RegisterRequest::Nothing,
        }
    }

    /// What this step asks for.
    pub fn request(&self) -> (r: RegisterRequest<'_>)
        ensures
            r == self.pending(),
    {
        match &self.state {
            RegisterState::LoadRanges => RegisterRequest::RangesOfTask {
                task_name: &self.task.info.name,
            },
            RegisterState::WrapStart { raw, wrapped } => if wrapped.len() < raw.len() {
                RegisterRequest::WrapKey { key: &raw[wrapped.len()].start_key }
            } else {
                RegisterRequest::Nothing
            },
            RegisterState::WrapEnd { raw, wrapped, .. } => if wrapped.len() < raw.len() {
                RegisterRequest::WrapKey { key: &raw[wrapped.len()].end_key }
            } else {
                RegisterRequest::Nothing
            },
            RegisterState::RegisterTask { ranges } => RegisterRequest::RegisterTask {
                task: &self.task,
                ranges,
            },
            RegisterState::AddRange { ranges, index } => if *index < ranges.len() {
                RegisterRequest::AddRange { range: &ranges[*index] }
            } else {
                RegisterRequest::Nothing
            },
            RegisterState::Initialize { ranges, index } => if *index < ranges.len() {
                RegisterRequest::SpawnInitialize { range: &ranges[*index] }
            } else {
                RegisterRequest::Nothing
            },
            RegisterState::Report { failure, err } => RegisterRequest::Report {
                context: match failure {
                    RegisterFailure::RangesNotFound => Report::RangesNotFound {
                        task: &self.task.info.name,
                    },
                    RegisterFailure::Refused => Report::RegisterRefused {
                        task: &self.task.info.name,
                    },
                },
                err,
            },
            RegisterState::Done(_) => RegisterRequest::Nothing,
        }
    }

    /// Begins to register `task`. Without a client of the metadata store there
    /// is nothing to register.
    pub fn begin(meta_client: bool, task: StreamTask) -> (job: RegisterJob)
        ensures
            job == (RegisterJob {
                task,
                state: if meta_client {
                    RegisterState::LoadRanges
                } else {
                    RegisterState::Done(RegisterOutcome::NoClient)
                },
            }),
    {
        let state = if meta_client {
            RegisterState::LoadRanges
        } else {
            RegisterState::Done(RegisterOutcome::NoClient)
        };
        RegisterJob { task, state }
    }

    /// How the registration ended, once it is done.
    pub fn outcome(&self) -> (r: Option<RegisterOutcome>)
        ensures
            r == match self.state {
                RegisterState::Done(outcome) => Some(outcome),
                _ => None,
            },
    {
        match &self.state {
            RegisterState::Done(outcome) => Some(*outcome),
            _ => None,
        }
    }
}

impl RegisterState {
    /// Whether `self` is the step at which the ranges from `wrapped` on are
    /// still to be wrapped.
    pub open spec fn wraps_on(self, raw: Seq<KeyRange>, wrapped: Seq<KeyRange>) -> bool {
        if wrapped.len() < raw.len() {
            &&& self matches RegisterState::WrapStart { raw: r, wrapped: w }
            &&& r@ == raw
            &&& w@ == wrapped
        } else {
            &&& self matches RegisterState::RegisterTask { ranges }
            &&& ranges@ == wrapped
        }
    }

    /// Whether `self` is the step at which the ranges from `index` on are
    /// still to be observed.
    pub open spec fn observes_on(self, ranges: Seq<KeyRange>, index: int) -> bool {
        if index < ranges.len() {
            &&& self matches RegisterState::AddRange { ranges: r, index: i }
            &&& r@ == ranges
            &&& i == index
        } else {
            self == RegisterState::Done(RegisterOutcome::Registered)
        }
    }
}

impl Procedure for RegisterJob {
    type Reply = RegisterReply;

    open spec fn answered_by(self, reply: RegisterReply) -> bool {
        match self.state {
            RegisterState::LoadRanges => reply is Ranges,
            RegisterState::WrapStart { raw, wrapped } => wrapped@.len() < raw@.len()
                && reply is Key,
            RegisterState::WrapEnd { raw, wrapped, .. } => wrapped@.len() < raw@.len()
                && reply is Key,
            RegisterState::RegisterTask { .. } => reply is Registered,
            RegisterState::AddRange { ranges, index } => index < ranges@.len() && reply is Added,
            RegisterState::Initialize { ranges, index } => index < ranges@.len()
                && reply is Acknowledged,
            RegisterState::Report { .. } => reply is Acknowledged,
            RegisterState::Done(_) => false,
        }
    }

    open spec fn leads_to(self, reply: RegisterReply, next: RegisterJob) -> bool {
        &&& next.task == self.task
        &&& match (self.state, reply) {
            (RegisterState::LoadRanges, RegisterReply::Ranges(Ok(raw))) => next.state.wraps_on(
                raw@,
                seq![],
            ),
            (RegisterState::LoadRanges, RegisterReply::Ranges(Err(err))) => next.state == (
            RegisterState::Report { failure: RegisterFailure::RangesNotFound, err }),
            (RegisterState::WrapStart { raw, wrapped }, RegisterReply::Key(start_key)) =>
                next.state == (RegisterState::WrapEnd { raw, wrapped, start_key }),
            (
                RegisterState::WrapEnd { raw, wrapped, start_key },
                RegisterReply::Key(end_key),
            ) => next.state.wraps_on(raw@, wrapped@.push(KeyRange { start_key, end_key })),
            (RegisterState::RegisterTask { ranges }, RegisterReply::Registered(Ok(_))) =>
                next.state.observes_on(ranges@, 0),
            (RegisterState::RegisterTask { ranges }, RegisterReply::Registered(Err(err))) =>
                next.state == (RegisterState::Report { failure: RegisterFailure::Refused, err }),
            (RegisterState::AddRange { ranges, index }, _) => next.state == (
            RegisterState::Initialize { ranges, index }),
            (RegisterState::Initialize { ranges, index }, _) => next.state.observes_on(
                ranges@,
                index + 1,
            ),
            (RegisterState::Report { failure, .. }, _) => next.state == RegisterState::Done(
                RegisterOutcome::Failed(failure),
            ),
            _ => false,
        }
    }

    open spec fn is_done(self) -> bool {
        self.state is Done
    }

    fn accepts(&self, reply: &RegisterReply) -> (r: bool) {
        match (&self.state, reply) {
            (RegisterState::LoadRanges, RegisterReply::Ranges(_)) => true,
            (RegisterState::WrapStart { raw, wrapped }, RegisterReply::Key(_)) => wrapped.len()
                < raw.len(),
            (RegisterState::WrapEnd { raw, wrapped, .. }, RegisterReply::Key(_)) => wrapped.len()
                < raw.len(),
            (RegisterState::RegisterTask { .. }, RegisterReply::Registered(_)) => true,
            (RegisterState::AddRange { ranges, index }, RegisterReply::Added(_)) => *index
                < ranges.len(),
            (RegisterState::Initialize { ranges, index }, RegisterReply::Acknowledged) => *index
                < ranges.len(),
            (RegisterState::Report { .. }, RegisterReply::Acknowledged) => true,
            _ => false,
        }
    }

    fn resume(self, reply: RegisterReply) -> (next: RegisterJob) {
        let task = self.task;
        let state = match (self.state, reply) {
            (RegisterState::LoadRanges, RegisterReply::Ranges(result)) => match result {
                Ok(raw) => wrap_on(raw, Vec::new()),
                Err(err) => RegisterState::Report {
                    failure: RegisterFailure::RangesNotFound,
                    err,
                },
            },
            (RegisterState::WrapStart { raw, wrapped }, RegisterReply::Key(start_key)) =>
                RegisterState::WrapEnd { raw, wrapped, start_key },
            (
                RegisterState::WrapEnd { raw, wrapped, start_key },
                RegisterReply::Key(end_key),
            ) => {
                let mut wrapped = wrapped;
                wrapped.push(KeyRange { start_key, end_key });
                wrap_on(raw, wrapped)
            },
            (RegisterState::RegisterTask { ranges }, RegisterReply::Registered(result)) =>
                match result {
                    Ok(_) => observe_on(ranges, 0),
                    Err(err) => RegisterState::Report { failure: RegisterFailure::Refused, err },
                },
            (RegisterState::AddRange { ranges, index }, _) => RegisterState::Initialize {
                ranges,
                index,
            },
            (RegisterState::Initialize { ranges, index }, _) => {
                assert(index < ranges.len());
                observe_on(ranges, index + 1)
            },
            (RegisterState::Report { failure, .. }, _) => RegisterState::Done(
                RegisterOutcome::Failed(failure),
            ),
            (state, _) => state,
        };
        RegisterJob { task, state }
    }

    fn done(&self) -> (r: bool) {
        match &self.state {
            RegisterState::Done(_) => true,
            _ => false,
        }
    }
}

fn wrap_on(raw: Vec<KeyRange>, wrapped: Vec<KeyRange>) -> (state: RegisterState)
    ensures
        state.wraps_on(raw@, wrapped@),
{
    if wrapped.len() < raw.len() {
        RegisterState::WrapStart { raw, wrapped }
    } else {
        RegisterState::RegisterTask { ranges: wrapped }
    }
}

fn observe_on(ranges: Vec<KeyRange>, index: usize) -> (state: RegisterState)
    ensures
        state.observes_on(ranges@, index as int),
{
    if index < ranges.len() {
        RegisterState::AddRange { ranges, index }
    } else {
        RegisterState::Done(RegisterOutcome::Registered)
    }
}

/// What is left to do to take a task off.
#[derive(Debug, Clone, Copy, PartialEq, Eq)]
pub enum UnregisterState {
    UnregisterTask,
    ClearSubscriptions,
    ClearRanges,
    Done,
}

/// The removal of a task that is under way. Only one task runs at a time, so
/// all subscriptions and all observed ranges go with it.
#[derive(Debug, Clone, PartialEq, Eq)]
pub struct UnregisterJob {
    pub task: String,
    pub state: UnregisterState,
}

/// What the removal of a task asks for.
#[derive(Debug, Clone, Copy, PartialEq, Eq)]
pub enum UnregisterRequest<'a> {
    /// Have the router drop the task.
    UnregisterTask { task: &'a String },
    /// Drop all subscriptions.
    ClearSubscriptions,
    /// Observe no range any more.
    ClearRanges,
    /// Nothing: the removal is done.
    Nothing,
}

impl UnregisterState {
    pub open spec fn spec_next(self) -> UnregisterState {
        match self {
            UnregisterState::UnregisterTask => UnregisterState::ClearSubscriptions,
            UnregisterState::ClearSubscriptions => UnregisterState::ClearRanges,
            UnregisterState::ClearRanges => UnregisterState::Done,
            UnregisterState::Done => UnregisterState::Done,
        }
    }

    /// The step after this one.
    pub fn next(self) -> (r: UnregisterState)
        ensures
            r == self.spec_next(),
    {
        match self {
            UnregisterState::UnregisterTask => UnregisterState::ClearSubscriptions,
            UnregisterState::ClearSubscriptions => UnregisterState::ClearRanges,
            UnregisterState::ClearRanges => UnregisterState::Done,
            UnregisterState::Done => UnregisterState::Done,
        }
    }

    /// What this step asks for, where `task` is to be taken off.
    pub open spec fn pending(self, task: &String) -> UnregisterRequest<'_> {
        match self {
            UnregisterState::UnregisterTask => UnregisterRequest::UnregisterTask { task },
            UnregisterState::ClearSubscriptions => UnregisterRequest::ClearSubscriptions,
            UnregisterState::ClearRanges => UnregisterRequest::ClearRanges,
            UnregisterState::Done => UnregisterRequest::Nothing,
        }
    }

    /// What this step asks for, where `task` is to be taken off.
    pub fn request(self, task: &String) -> (r: UnregisterRequest<'_>)
        ensures
            r == self.pending(task),
    {
        match self {
            UnregisterState::UnregisterTask => UnregisterRequest::UnregisterTask { task },
            UnregisterState::ClearSubscriptions => UnregisterRequest::ClearSubscriptions,
            UnregisterState::ClearRanges => UnregisterRequest::ClearRanges,
            UnregisterState::Done => UnregisterRequest::Nothing,
        }
    }
}

impl UnregisterJob {
    /// What this step asks for.
    pub open spec fn pending(&self) -> UnregisterRequest<'_> {
        self.state.pending(&self.task)
    }

    /// What this step asks for.
    pub fn request(&self) -> (r: UnregisterRequest<'_>)
        ensures
            r == self.pending(),
    {
        self.state.request(&self.task)
    }

    /// Begins to take `task` off.
    pub fn begin(task: String) -> (job: UnregisterJob)
        ensures
            job == (UnregisterJob { task, state: UnregisterState::UnregisterTask }),
    {
        UnregisterJob { task, state: UnregisterState::UnregisterTask }
    }
}

impl Procedure for UnregisterJob {
    type Reply = ();

    open spec fn answered_by(self, reply: ()) -> bool {
        !(self.state is Done)
    }

    open spec fn leads_to(self, reply: (), next: UnregisterJob) -> bool {
        next == (UnregisterJob { task: self.task, state: self.state.spec_next() })
    }

    open spec fn is_done(self) -> bool {
        self.state is Done
    }

    fn accepts(&self, reply: &()) -> (r: bool) {
        match self.state {
            UnregisterState::Done => false,
            _ => true,
        }
    }

    fn resume(self, reply: ()) -> (next: UnregisterJob) {
        UnregisterJob { task: self.task, state: self.state.next() }
    }

    fn done(&self) -> (r: bool) {
        match self.state {
            UnregisterState::Done => true,
            _ => false,
        }
    }
}

impl Bounded for UnregisterJob {
    open spec fn remaining(self) -> nat {
        match self.state {
            UnregisterState::UnregisterTask => 3,
            UnregisterState::ClearSubscriptions => 2,
            UnregisterState::ClearRanges => 1,
            UnregisterState::Done => 0,
        }
    }

    proof fn lemma_remaining_decreases(self, reply: (), next: UnregisterJob) {
    }
}

} // verus!
