//! Loading data that was there before its changes were observed. Both ways of
//! doing so go on in the background.
use crate::procedure::{is_run, law_run_is_bounded, Bounded, Procedure};
use crate::report::Report;
use crate::types::{CfStatistics, Error, KeyRange, Region, SnapshotId, Statistics, TimeStamp};
use vstd::prelude::*;

verus! {

/// What is left to do to load a range.
#[derive(Debug, Clone, PartialEq, Eq)]
pub enum InitializeState {
    Initialize,
    /// The range could not be loaded.
    Report { err: Error },
    Done { loaded: bool },
}

/// The data of a range of a new task that is being loaded.
#[derive(Debug, Clone, PartialEq, Eq)]
pub struct InitializeJob {
    pub range: KeyRange,
    pub state: InitializeState,
}

/// What loading a range asks for.
#[derive(Debug, Clone, Copy, PartialEq, Eq)]
pub enum InitializeRequest<'a> {
    /// Load the data that the range holds.
    InitializeRange { range: &'a KeyRange },
    /// Report an error.
    Report { context: Report<'a>, err: &'a Error },
    /// Nothing: it is done.
    Nothing,
}

/// A reply to what loading a range asked for.
#[derive(Debug, PartialEq, Eq)]
pub enum InitializeReply {
    Initialized(Result<(), Error>),
    /// What was asked for is done.
    Acknowledged,
}

impl InitializeState {
    /// The step after `reply`.
    pub open spec fn after(self, reply: InitializeReply) -> InitializeState {
        match (self, reply) {
            (InitializeState::Initialize, InitializeReply::Initialized(Err(err))) =>
                InitializeState::Report { err },
            (InitializeState::Report { .. }, _) => InitializeState::Done { loaded: false },
            _ => InitializeState::Done { loaded: true },
        }
    }
}

impl InitializeJob {
    /// What this step asks for.
    pub open spec fn pending(&self) -> InitializeRequest<'_> {
        match &self.state {
            InitializeState::Initialize => InitializeRequest::InitializeRange {
                range: &self.range,
            },
            InitializeState::Report { err } => InitializeRequest::Report {
                context: Report::InitializeRange,
                err,
            },
            InitializeState::Done { .. } => InitializeRequest::Nothing,
        }
    }

    /// What this step asks for.
    pub fn request(&self) -> (r: InitializeRequest<'_>)
        ensures
            r == self.pending(),
    {
        match &self.state {
            InitializeState::Initialize => InitializeRequest::InitializeRange {
                range: &self.range,
            },
            InitializeState::Report { err } => InitializeRequest::Report {
                context: Report::InitializeRange,
                err,
            },
            InitializeState::Done { .. } => InitializeRequest::Nothing,
        }
    }

    /// Begins to load `range`.
    pub fn begin(range: KeyRange) -> (job: InitializeJob)
        ensures
            job == (InitializeJob { range, state: InitializeState::Initialize }),
    {
        InitializeJob { range, state: InitializeState::Initialize }
    }
}

impl Procedure for InitializeJob {
    type Reply = InitializeReply;

    open spec fn answered_by(self, reply: InitializeReply) -> bool {
        match self.state {
            InitializeState::Initialize => reply is Initialized,
            InitializeState::Report { .. } => reply is Acknowledged,
            InitializeState::Done { .. } => false,
        }
    }

    open spec fn leads_to(self, reply: InitializeReply, next: InitializeJob) -> bool {
        next == (InitializeJob { range: self.range, state: self.state.after(reply) })
    }

    open spec fn is_done(self) -> bool {
        self.state is Done
    }

    fn accepts(&self, reply: &InitializeReply) -> (r: bool) {
        match (&self.state, reply) {
            (InitializeState::Initialize, InitializeReply::Initialized(_)) => true,
            (InitializeState::Report { .. }, InitializeReply::Acknowledged) => true,
            _ => false,
        }
    }

    fn resume(self, reply: InitializeReply) -> (next: InitializeJob) {
        let range = self.range;
        let state = match (self.state, reply) {
            (InitializeState::Initialize, InitializeReply::Initialized(result)) => match result {
                Ok(_) => InitializeState::Done { loaded: true },
                Err(err) => InitializeState::Report { err },
            },
            (InitializeState::Report { .. }, _) => InitializeState::Done { loaded: false },
            _ => InitializeState::Done { loaded: true },
        };
        InitializeJob { range, state }
    }

    fn done(&self) -> (r: bool) {
        match &self.state {
            InitializeState::Done { .. } => true,
            _ => false,
        }
    }
}

impl Bounded for InitializeJob {
    open spec fn remaining(self) -> nat {
        match self.state {
            InitializeState::Initialize => 2,
            InitializeState::Report { .. } => 1,
            InitializeState::Done { .. } => 0,
        }
    }

    proof fn lemma_remaining_decreases(self, reply: InitializeReply, next: InitializeJob) {
    }
}

/// The data of a range is loaded once, and an error is reported if and only if
/// that fails.
pub proof fn law_failed_load_is_reported(
    range: KeyRange,
    steps: Seq<InitializeJob>,
    replies: Seq<InitializeReply>,
)
    requires
        is_run(steps, replies),
        steps[0] == (InitializeJob { range, state: InitializeState::Initialize }),
        steps.last().is_done(),
    ensures
        steps[0].pending() == (InitializeRequest::InitializeRange { range: &range }),
        replies[0] matches InitializeReply::Initialized(result) && match result {
            Ok(_) => replies.len() == 1 && steps[1].state == (InitializeState::Done {
                loaded: true,
            }),
            Err(err) => {
                &&& replies.len() == 2
                &&& steps[1].pending() == (InitializeRequest::Report {
                    context: Report::InitializeRange,
                    err: &err,
                })
                &&& steps[2].state == (InitializeState::Done { loaded: false })
            },
        },
{
    law_run_is_bounded(steps, replies);
    assert(replies.len() > 0);
    assert(steps[0].answered_by(replies[0]) && steps[0].leads_to(replies[0], steps[1]));
    if replies.len() > 1 {
        assert(steps[1].answered_by(replies[1]) && steps[1].leads_to(replies[1], steps[2]));
    }
}

/// A column family.
#[derive(Debug, Clone, Copy, PartialEq, Eq)]
pub enum Cf {
    Lock,
    Write,
    Default,
}

impl Cf {
    pub open spec fn spec_label(self) -> Seq<char> {
        match self {
            Cf::Lock => "lock"@,
            Cf::Write => "write"@,
            Cf::Default => "default"@,
        }
    }

    /// The label under which what was counted in it is recorded.
    pub fn label(&self) -> (r: &'static str)
        ensures
            r@ == self.spec_label(),
    {
        match self {
            Cf::Lock => "lock",
            Cf::Write => "write",
            Cf::Default => "default",
        }
    }

    /// What was counted in it.
    pub open spec fn of(self, stat: &Statistics) -> &CfStatistics {
        match self {
            Cf::Lock => &stat.lock,
            Cf::Write => &stat.write,
            Cf::Default => &stat.data,
        }
    }

    /// What was counted in it.
    pub fn pick(self, stat: &Statistics) -> (r: &CfStatistics)
        ensures
            r == self.of(stat),
    {
        match self {
            Cf::Lock => &stat.lock,
            Cf::Write => &stat.write,
            Cf::Default => &stat.data,
        }
    }
}

/// What is left to do to scan a region.
#[derive(Debug, Clone, PartialEq, Eq)]
pub enum ScanState {
    Scan,
    /// What was counted in a column family is to be recorded.
    Record { stat: Statistics, cf: Cf },
    /// The region could not be scanned.
    Report { err: Error },
    Done { scanned: bool },
}

/// The scan of a region that is under way.
#[derive(Debug, Clone, PartialEq, Eq)]
pub struct ScanJob {
    pub region: Region,
    /// Data that was written before is left out.
    pub from: TimeStamp,
    pub snapshot: SnapshotId,
    pub state: ScanState,
}

/// What a scan asks for.
#[derive(Debug, Clone, Copy, PartialEq, Eq)]
pub enum ScanRequest<'a> {
    /// Scan the snapshot of the region.
    DoInitialScan { region: &'a Region, from: TimeStamp, snapshot: SnapshotId },
    /// Record what was counted in a column family.
    RecordCfStat { cf: Cf, stat: &'a CfStatistics },
    /// Report an error of a scan of the region.
    Report { context: Report<'a>, region: &'a Region, err: &'a Error },
    /// Nothing: it is done.
    Nothing,
}

/// A reply to what a scan asked for.
#[derive(Debug, PartialEq, Eq)]
pub enum ScanReply {
    Scanned(Result<Statistics, Error>),
    /// What was asked for is done.
    Acknowledged,
}

impl ScanState {
    /// The step after `reply`.
    pub open spec fn after(self, reply: ScanReply) -> ScanState {
        match (self, reply) {
            (ScanState::Scan, ScanReply::Scanned(Ok(stat))) => ScanState::Record {
                stat,
                cf: Cf::Lock,
            },
            (ScanState::Scan, ScanReply::Scanned(Err(err))) => ScanState::Report { err },
            (ScanState::Record { stat, cf: Cf::Lock }, _) => ScanState::Record {
                stat,
                cf: Cf::Write,
            },
            (ScanState::Record { stat, cf: Cf::Write }, _) => ScanState::Record {
                stat,
                cf: Cf::Default,
            },
            (ScanState::Report { .. }, _) => ScanState::Done { scanned: false },
            _ => ScanState::Done { scanned: true },
        }
    }
}

impl ScanJob {
    /// What this step asks for.
    pub open spec fn pending(&self) -> ScanRequest<'_> {
        match &self.state {
            ScanState::Scan => ScanRequest::DoInitialScan {
                region: &self.region,
                from: self.from,
                snapshot: self.snapshot,
            },
            ScanState::Record { stat, cf } => ScanRequest::RecordCfStat {
                cf: *cf,
                stat: cf.of(stat),
            },
            ScanState::Report { err } => ScanRequest::Report {
                context: Report::InitialScan,
                region: &self.region,
                err,
            },
            ScanState::Done { .. } => ScanRequest::Nothing,
        }
    }

    /// What this step asks for.
    pub fn request(&self) -> (r: ScanRequest<'_>)
        ensures
            r == self.pending(),
    {
        match &self.state {
            ScanState::Scan => ScanRequest::DoInitialScan {
                region: &self.region,
                from: self.from,
                snapshot: self.snapshot,
            },
            ScanState::Record { stat, cf } => ScanRequest::RecordCfStat {
                cf: *cf,
                stat: cf.pick(stat),
            },
            ScanState::Report { err } => ScanRequest::Report {
                context: Report::InitialScan,
                region: &self.region,
                err,
            },
            ScanState::Done { .. } => ScanRequest::Nothing,
        }
    }

    /// Begins to scan `region` from a timestamp on.
    pub fn begin(region: Region, from: TimeStamp, snapshot: SnapshotId) -> (job: ScanJob)
        ensures
            job == (ScanJob { region, from, snapshot, state: ScanState::Scan }),
    {
        ScanJob { region, from, snapshot, state: ScanState::Scan }
    }
}

impl Procedure for ScanJob {
    type Reply = ScanReply;

    open spec fn answered_by(self, reply: ScanReply) -> bool {
        match self.state {
            ScanState::Scan => reply is Scanned,
            ScanState::Record { .. } => reply is Acknowledged,
            ScanState::Report { .. } => reply is Acknowledged,
            ScanState::Done { .. } => false,
        }
    }

    open spec fn leads_to(self, reply: ScanReply, next: ScanJob) -> bool {
        next == (ScanJob {
            region: self.region,
            from: self.from,
            snapshot: self.snapshot,
            state: self.state.after(reply),
        })
    }

    open spec fn is_done(self) -> bool {
        self.state is Done
    }

    fn accepts(&self, reply: &ScanReply) -> (r: bool) {
        match (&self.state, reply) {
            (ScanState::Scan, ScanReply::Scanned(_)) => true,
            (ScanState::Record { .. }, ScanReply::Acknowledged) => true,
            (ScanState::Report { .. }, ScanReply::Acknowledged) => true,
            _ => false,
        }
    }

    fn resume(self, reply: ScanReply) -> (next: ScanJob) {
        let region = self.region;
        let from = self.from;
        let snapshot = self.snapshot;
        let state = match (self.state, reply) {
            (ScanState::Scan, ScanReply::Scanned(result)) => match result {
                Ok(stat) => ScanState::Record { stat, cf: Cf::Lock },
                Err(err) => ScanState::Report { err },
            },
            (ScanState::Record { stat, cf }, _) => match cf {
                Cf::Lock => ScanState::Record { stat, cf: Cf::Write },
                Cf::Write => ScanState::Record { stat, cf: Cf::Default },
                Cf::Default => ScanState::Done { scanned: true },
            },
            (ScanState::Report { .. }, _) => ScanState::Done { scanned: false },
            _ => ScanState::Done { scanned: true },
        };
        ScanJob { region, from, snapshot, state }
    }

    fn done(&self) -> (r: bool) {
        match &self.state {
            ScanState::Done { .. } => true,
            _ => false,
        }
    }
}

impl Bounded for ScanJob {
    open spec fn remaining(self) -> nat {
        match self.state {
            ScanState::Scan => 4,
            ScanState::Record { cf: Cf::Lock, .. } => 3,
            ScanState::Record { cf: Cf::Write, .. } => 2,
            ScanState::Record { cf: Cf::Default, .. } => 1,
            ScanState::Report { .. } => 1,
            ScanState::Done { .. } => 0,
        }
    }

    proof fn lemma_remaining_decreases(self, reply: ScanReply, next: ScanJob) {
    }
}

/// A region is scanned once, from the given timestamp on. Where that succeeds,
/// what was counted in each column family is recorded under its own label;
/// where it fails, the error is reported.
pub proof fn law_scan_is_accounted_for(
    region: Region,
    from: TimeStamp,
    snapshot: SnapshotId,
    steps: Seq<ScanJob>,
    replies: Seq<ScanReply>,
)
    requires
        is_run(steps, replies),
        steps[0] == (ScanJob { region, from, snapshot, state: ScanState::Scan }),
        steps.last().is_done(),
    ensures
        steps[0].pending() == (ScanRequest::DoInitialScan { region: &region, from, snapshot }),
        replies[0] matches ScanReply::Scanned(result) && match result {
            Ok(stat) => {
                &&& replies.len() == 4
                &&& steps[1].pending() == (ScanRequest::RecordCfStat {
                    cf: Cf::Lock,
                    stat: &stat.lock,
                })
                &&& steps[2].pending() == (ScanRequest::RecordCfStat {
                    cf: Cf::Write,
                    stat: &stat.write,
                })
                &&& steps[3].pending() == (ScanRequest::RecordCfStat {
                    cf: Cf::Default,
                    stat: &stat.data,
                })
                &&& steps[4].state == (ScanState::Done { scanned: true })
            },
            Err(err) => {
                &&& replies.len() == 2
                &&& steps[1].pending() == (ScanRequest::Report {
                    context: Report::InitialScan,
                    region: &region,
                    err: &err,
                })
                &&& steps[2].state == (ScanState::Done { scanned: false })
            },
        },
{
    law_run_is_bounded(steps, replies);
    assert(replies.len() > 0);
    assert(steps[0].answered_by(replies[0]) && steps[0].leads_to(replies[0], steps[1]));
    if replies.len() > 1 {
        assert(steps[1].answered_by(replies[1]) && steps[1].leads_to(replies[1], steps[2]));
    }
    if replies.len() > 2 {
        assert(steps[2].answered_by(replies[2]) && steps[2].leads_to(replies[2], steps[3]));
    }
    if replies.len() > 3 {
        assert(steps[3].answered_by(replies[3]) && steps[3].leads_to(replies[3], steps[4]));
    }
}

/// Which replies loading a range takes, and what it asks for after each: an
/// error is reported, and nothing else is.
pub proof fn law_loading_goes_on(job: InitializeJob, reply: InitializeReply, next: InitializeJob)
    ensures
        (InitializeJob { state: InitializeState::Initialize, ..job }).pending() == (
        InitializeRequest::InitializeRange { range: &job.range }),
        job.is_done() <==> job.pending() is Nothing,
        job.answered_by(reply) == match job.pending() {
            InitializeRequest::InitializeRange { .. } => reply is Initialized,
            InitializeRequest::Report { .. } => reply is Acknowledged,
            InitializeRequest::Nothing => false,
        },
        job.answered_by(reply) && job.leads_to(reply, next) ==> {
            &&& next.range == job.range
            &&& match (job.pending(), reply) {
                (InitializeRequest::InitializeRange { range }, InitializeReply::Initialized(
                    result,
                )) => *range == job.range && match result {
                    Ok(_) => next.state == (InitializeState::Done { loaded: true }),
                    Err(err) => next.pending() == (InitializeRequest::Report {
                        context: Report::InitializeRange,
                        err: &err,
                    }),
                },
                (InitializeRequest::Report { .. }, InitializeReply::Acknowledged) => next.state
                    == (InitializeState::Done { loaded: false }),
                _ => false,
            }
        },
{
}

/// Which replies a scan takes: those that answer what it asks for, whatever
/// they hold.
pub proof fn law_scan_takes_any_answer(job: ScanJob, reply: ScanReply)
    ensures
        (ScanJob { state: ScanState::Scan, ..job }).pending() == (ScanRequest::DoInitialScan {
            region: &job.region,
            from: job.from,
            snapshot: job.snapshot,
        }),
        job.is_done() <==> job.pending() is Nothing,
        job.answered_by(reply) == match job.pending() {
            ScanRequest::DoInitialScan { .. } => reply is Scanned,
            ScanRequest::RecordCfStat { .. } => reply is Acknowledged,
            ScanRequest::Report { .. } => reply is Acknowledged,
            ScanRequest::Nothing => false,
        },
{
}

/// What a scan asks for after each reply: what was counted is recorded for the
/// locks, then for the writes, then for the data, and an error is reported.
pub proof fn law_scan_goes_on(
    region: Region,
    from: TimeStamp,
    snapshot: SnapshotId,
    steps: Seq<ScanJob>,
    replies: Seq<ScanReply>,
    i: int,
)
    requires
        is_run(steps, replies),
        steps[0] == (ScanJob { region, from, snapshot, state: ScanState::Scan }),
        0 <= i < replies.len(),
    ensures
        i < 4,
        steps[0].pending() == (ScanRequest::DoInitialScan { region: &region, from, snapshot }),
        replies[0] matches ScanReply::Scanned(result) && match result {
            Ok(stat) => {
                &&& i == 0 ==> steps[1].pending() == (ScanRequest::RecordCfStat {
                    cf: Cf::Lock,
                    stat: &stat.lock,
                })
                &&& i == 1 ==> steps[2].pending() == (ScanRequest::RecordCfStat {
                    cf: Cf::Write,
                    stat: &stat.write,
                })
                &&& i == 2 ==> steps[3].pending() == (ScanRequest::RecordCfStat {
                    cf: Cf::Default,
                    stat: &stat.data,
                })
                &&& i == 3 ==> steps[4].state == (ScanState::Done { scanned: true })
            },
            Err(err) => {
                &&& i < 2
                &&& i == 0 ==> steps[1].pending() == (ScanRequest::Report {
                    context: Report::InitialScan,
                    region: &region,
                    err: &err,
                })
                &&& i == 1 ==> steps[2].state == (ScanState::Done { scanned: false })
            },
        },
{
    assert(steps[0].leads_to(replies[0], steps[1]) && steps[0].answered_by(replies[0]));
    if i > 0 {
        assert(steps[1].leads_to(replies[1], steps[2]) && steps[1].answered_by(replies[1]));
    }
    if i > 1 {
        assert(steps[2].leads_to(replies[2], steps[3]) && steps[2].answered_by(replies[2]));
    }
    if i > 2 {
        assert(steps[3].leads_to(replies[3], steps[4]) && steps[3].answered_by(replies[3]));
    }
    if i > 3 {
        assert(steps[4].answered_by(replies[4]));
    }
}

/// Each column family is recorded under a label of its own.
pub proof fn law_cf_labels(stat: &Statistics)
    ensures
        Cf::Lock.spec_label() == "lock"@,
        Cf::Write.spec_label() == "write"@,
        Cf::Default.spec_label() == "default"@,
        Cf::Lock.of(stat) == stat.lock,
        Cf::Write.of(stat) == stat.write,
        Cf::Default.of(stat) == stat.data,
{
}

} // verus!
