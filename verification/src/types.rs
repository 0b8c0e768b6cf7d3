//! The values that the endpoint decides on.
use crate::text::{decimal, push_decimal};
use vstd::prelude::*;
use vstd::string::*;

verus! {

/// A timestamp of the timestamp oracle.
#[derive(Debug, Clone, Copy, PartialEq, Eq)]
pub struct TimeStamp(pub u64);

impl TimeStamp {
    pub fn new(ts: u64) -> (r: TimeStamp)
        ensures
            r == TimeStamp(ts),
    {
        TimeStamp(ts)
    }

    /// The timestamp that no other one exceeds.
    pub fn max() -> (r: TimeStamp)
        ensures
            r == TimeStamp(u64::MAX),
    {
        TimeStamp(u64::MAX)
    }

    /// The timestamp before all others.
    pub fn zero() -> (r: TimeStamp)
        ensures
            r == TimeStamp(0),
    {
        TimeStamp(0)
    }

    /// The earlier one of two timestamps.
    pub open spec fn earlier_of(self, other: TimeStamp) -> TimeStamp {
        if self.0 <= other.0 {
            self
        } else {
            other
        }
    }

    /// The earlier one of two timestamps.
    pub fn earlier(self, other: TimeStamp) -> (r: TimeStamp)
        ensures
            r == self.earlier_of(other),
    {
        if self.0 <= other.0 {
            self
        } else {
            other
        }
    }
}

/// The version numbers of a region.
#[derive(Debug, Clone, Copy, PartialEq, Eq)]
pub struct RegionEpoch {
    pub conf_ver: u64,
    pub version: u64,
}

/// A replica of a region.
#[derive(Debug, Clone, Copy, PartialEq, Eq)]
pub struct Peer {
    pub id: u64,
    pub store_id: u64,
}

/// A region: the keys from `start_key` up to `end_key`.
#[derive(Debug, PartialEq, Eq)]
pub struct Region {
    pub id: u64,
    pub start_key: Vec<u8>,
    pub end_key: Vec<u8>,
    pub region_epoch: RegionEpoch,
    pub peers: Vec<Peer>,
}

impl Region {
    /// Whether both are the same region in the same state.
    pub open spec fn same_as(self, other: Region) -> bool {
        &&& self.id == other.id
        &&& self.start_key@ == other.start_key@
        &&& self.end_key@ == other.end_key@
        &&& self.region_epoch == other.region_epoch
        &&& self.peers@ == other.peers@
    }
}

impl Clone for Region {
    fn clone(&self) -> (r: Region)
        ensures
            r.same_as(*self),
    {
        let r = Region {
            id: self.id,
            start_key: self.start_key.clone(),
            end_key: self.end_key.clone(),
            region_epoch: self.region_epoch,
            peers: self.peers.clone(),
        };
        assert(r.start_key@ =~= self.start_key@);
        assert(r.end_key@ =~= self.end_key@);
        assert(r.peers@ =~= self.peers@);
        r
    }
}

/// The part that a peer plays in its raft group.
#[derive(Debug, Clone, Copy, PartialEq, Eq)]
pub enum StateRole {
    Follower,
    Candidate,
    Leader,
    PreCandidate,
}

/// What the region info accessor knows of a region on this store.
#[derive(Debug, Clone, Copy, PartialEq, Eq)]
pub struct RegionInfo {
    pub role: StateRole,
}

/// Identifies one observation of a region.
#[derive(Debug, Clone, Copy, PartialEq, Eq)]
pub struct ObserveHandle {
    pub id: u64,
}

/// Identifies a snapshot that was taken when an observation began.
#[derive(Debug, Clone, Copy, PartialEq, Eq)]
pub struct SnapshotId(pub u64);

/// A range of keys, from `start_key` up to `end_key`.
#[derive(Debug, PartialEq, Eq)]
pub struct KeyRange {
    pub start_key: Vec<u8>,
    pub end_key: Vec<u8>,
}

impl KeyRange {
    /// Whether both are the same range.
    pub open spec fn same_as(self, other: KeyRange) -> bool {
        &&& self.start_key@ == other.start_key@
        &&& self.end_key@ == other.end_key@
    }
}

impl Clone for KeyRange {
    fn clone(&self) -> (r: KeyRange)
        ensures
            r.same_as(*self),
    {
        let r = KeyRange { start_key: self.start_key.clone(), end_key: self.end_key.clone() };
        assert(r.start_key@ =~= self.start_key@);
        assert(r.end_key@ =~= self.end_key@);
        r
    }
}

/// The description of a stream backup task.
#[derive(Debug, Clone, PartialEq, Eq)]
pub struct StreamBackupTaskInfo {
    pub name: String,
    /// The rest of the description, as the metadata store holds it.
    pub details: Vec<u8>,
}

/// A stream backup task, as found in the metadata store.
#[derive(Debug, Clone, PartialEq, Eq)]
pub struct StreamTask {
    pub info: StreamBackupTaskInfo,
    pub is_paused: bool,
}

/// Commands that were applied to one region.
#[derive(Debug, Clone, PartialEq, Eq)]
pub struct CmdBatch {
    pub region_id: u64,
    /// The commands, encoded.
    pub cmds: Vec<Vec<u8>>,
}

/// Key-value events that were made of a batch of commands.
#[derive(Debug, Clone, Copy, PartialEq, Eq)]
pub struct ApplyEvents {
    /// By which the events are found.
    pub id: u64,
    /// How many events there are.
    pub len: usize,
    /// How many bytes they take.
    pub size: usize,
}

/// Identifies what came of events that the router took.
#[derive(Debug, Clone, Copy, PartialEq, Eq)]
pub struct OnEventResult(pub u64);

/// What a scan counted in one column family, by name.
#[derive(Debug, Clone, PartialEq, Eq)]
pub struct CfStatistics {
    pub details: Vec<(String, u64)>,
}

/// What a scan counted.
#[derive(Debug, Clone, PartialEq, Eq)]
pub struct Statistics {
    pub lock: CfStatistics,
    pub write: CfStatistics,
    pub data: CfStatistics,
}

/// The configuration of an endpoint.
#[derive(Debug, Clone, PartialEq, Eq)]
pub struct BackupStreamConfig {
    /// How many threads the endpoint has.
    pub num_threads: usize,
    /// Where events wait to be flushed.
    pub temp_path: String,
    /// How many bytes may wait there for one task.
    pub temp_file_size_limit_per_task: u64,
}

/// A change of the configuration, by name and new value.
#[derive(Debug, Clone, PartialEq, Eq)]
pub struct ConfigChange {
    pub entries: Vec<(String, String)>,
}

/// What an error is said to have disturbed.
#[derive(Debug, Clone, Copy, PartialEq, Eq)]
pub enum ErrorContext {
    /// The region info accessor did not take a request about this region.
    RegionInfoBusy { region_id: u64 },
    /// The region info accessor dropped a request.
    MessageDropped,
}

impl ErrorContext {
    pub open spec fn spec_text(self) -> Seq<char> {
        match self {
            ErrorContext::RegionInfoBusy { region_id } =>
                "failed to send request to region info accessor, server maybe too too too busy. (region id = "@
                + decimal(region_id as nat) + ")"@,
            ErrorContext::MessageDropped => "BUG?: unexpected channel message dropped."@,
        }
    }

    pub fn text(&self) -> (text: String)
        ensures
            text@ == self.spec_text(),
    {
        match self {
            ErrorContext::RegionInfoBusy { region_id } => {
                let mut text =
                    "failed to send request to region info accessor, server maybe too too too busy. (region id = ".to_owned();
                push_decimal(&mut text, *region_id);
                text.append(")");
                text
            },
            ErrorContext::MessageDropped => "BUG?: unexpected channel message dropped.".to_owned(),
        }
    }
}

/// An error of a collaborator.
#[derive(Debug, PartialEq, Eq)]
pub struct Error {
    /// The code that is published with the error.
    pub code: String,
    pub message: String,
    pub context: Option<ErrorContext>,
}

impl Clone for Error {
    fn clone(&self) -> (r: Error)
        ensures
            r == *self,
    {
        Error { code: self.code.clone(), message: self.message.clone(), context: self.context }
    }
}

impl Error {
    /// The error in words.
    pub open spec fn spec_text(self) -> Seq<char> {
        match self.context {
            None => self.message@,
            Some(context) => context.spec_text() + ": "@ + self.message@,
        }
    }

    /// The error in words.
    pub fn text(&self) -> (text: String)
        ensures
            text@ == self.spec_text(),
    {
        match &self.context {
            None => self.message.as_str().to_owned(),
            Some(context) => {
                let mut text = context.text();
                text.append(": ");
                text.append(self.message.as_str());
                text
            },
        }
    }

    /// The same error, with a note on what it disturbed.
    pub fn annotate(self, context: ErrorContext) -> (r: Error)
        ensures
            r == (Error { context: Some(context), ..self }),
    {
        Error { code: self.code, message: self.message, context: Some(context) }
    }
}

/// The earlier one of two timestamps is one of them, and after neither.
pub proof fn law_earlier_is_the_least(a: TimeStamp, b: TimeStamp)
    ensures
        a.earlier_of(b) == a || a.earlier_of(b) == b,
        a.earlier_of(b).0 <= a.0,
        a.earlier_of(b).0 <= b.0,
        a.earlier_of(b) == b.earlier_of(a),
{
}

/// Regions and ranges are the same only where all that they hold is.
pub proof fn law_same_in_all_they_hold(a: Region, b: Region, c: KeyRange, d: KeyRange)
    ensures
        a.same_as(b) <==> {
            &&& a.id == b.id && a.region_epoch == b.region_epoch
            &&& a.start_key@ == b.start_key@ && a.end_key@ == b.end_key@
            &&& a.peers@ == b.peers@
        },
        c.same_as(d) <==> c.start_key@ == d.start_key@ && c.end_key@ == d.end_key@,
{
}

/// An error is told in its own words, after those on what it disturbed.
pub proof fn law_error_is_told_with_its_context(err: Error, region_id: u64)
    ensures
        (Error { context: None, ..err }).spec_text() == err.message@,
        (Error {
            context: Some(ErrorContext::RegionInfoBusy { region_id }),
            ..err
        }).spec_text()
            == "failed to send request to region info accessor, server maybe too too too busy. (region id = "@
            + decimal(region_id as nat) + ")"@ + ": "@ + err.message@,
        (Error { context: Some(ErrorContext::MessageDropped), ..err }).spec_text()
            == "BUG?: unexpected channel message dropped."@ + ": "@ + err.message@,
{
}

} // verus!
