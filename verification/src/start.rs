//! Bringing an endpoint up.
use crate::endpoint::Endpoint;
use crate::flush::FlushTicks;
use crate::procedure::{is_run, law_run_is_bounded, Bounded, Procedure};
use crate::types::{BackupStreamConfig, Error};
use crate::watch::{StartWatchJob, StartWatchState};
use vstd::prelude::*;

verus! {

/// What a runtime is to be made like.
#[derive(Debug, Clone, Copy, PartialEq, Eq)]
pub struct RuntimeSpec {
    pub thread_name: &'static str,
    pub max_blocking_threads: usize,
    pub worker_threads: usize,
    pub enable_io: bool,
    pub enable_time: bool,
    /// Whether the memory that a thread takes is accounted for, from its start
    /// to its stop.
    pub thread_memory_accessor: bool,
}

/// A runtime with `thread_count` threads, that allows io and time reactors and
/// accounts for the memory of its threads. As many threads again are for work
/// that blocks.
pub open spec fn standard_runtime(
    thread_count: usize,
    thread_name: &'static str,
    spec: RuntimeSpec,
) -> bool {
    &&& spec.thread_name@ == thread_name@
    &&& spec.max_blocking_threads == thread_count
    &&& spec.worker_threads == thread_count
    &&& spec.enable_io
    &&& spec.enable_time
    &&& spec.thread_memory_accessor
}

/// A standard runtime.
pub fn create_tokio_runtime(thread_count: usize, thread_name: &'static str) -> (spec: RuntimeSpec)
    requires
        thread_count > 0,
    ensures
        standard_runtime(thread_count, thread_name, spec),
{
    RuntimeSpec {
        thread_name,
        max_blocking_threads: thread_count,
        worker_threads: thread_count,
        enable_io: true,
        enable_time: true,
        thread_memory_accessor: true,
    }
}

/// Where the client of the metadata store comes from.
#[derive(Debug, Clone, PartialEq, Eq)]
pub enum ClientSource {
    /// It is there already.
    Given,
    /// It is made of a connection to one of these endpoints of etcd.
    Etcd { endpoints: Vec<String> },
}

impl ClientSource {
    /// The name of the threads of an endpoint with such a client.
    pub open spec fn spec_thread_name(self) -> Seq<char> {
        match self {
            ClientSource::Given => "br-stream"@,
            ClientSource::Etcd { .. } => "backup-stream"@,
        }
    }

    /// The name of the threads of an endpoint with such a client.
    pub fn thread_name(&self) -> (r: &'static str)
        ensures
            r@ == self.spec_thread_name(),
    {
        match self {
            ClientSource::Given => "br-stream",
            ClientSource::Etcd { .. } => "backup-stream",
        }
    }
}

/// What is left to do to bring an endpoint up.
#[derive(Debug, Clone, Copy, PartialEq, Eq)]
pub enum StartState {
    /// The endpoint is to be counted.
    CountEnabled,
    /// A runtime is needed.
    CreateRuntime,
    /// A connection is needed.
    Connect,
    /// The router is needed.
    CreateRouter { meta_client: bool },
    /// The tasks are to be watched.
    SpawnWatch,
    /// The beat of the flushes is to begin.
    SpawnFlushTicks,
    Done { meta_client: bool },
}

/// An endpoint that is being brought up.
#[derive(Debug, Clone, PartialEq, Eq)]
pub struct StartJob {
    pub store_id: u64,
    pub source: ClientSource,
    pub config: BackupStreamConfig,
    pub state: StartState,
}

/// What bringing an endpoint up asks for.
#[derive(Debug, Clone, Copy, PartialEq, Eq)]
pub enum StartRequest<'a> {
    /// Count one more endpoint.
    CountEnabled,
    /// Make a runtime. It is `RuntimeSpec` that says what it is like.
    CreateRuntime,
    /// Connect to etcd, and make a client of the metadata store for this store
    /// of the connection.
    Connect { endpoints: &'a Vec<String>, store_id: u64 },
    /// Make a router.
    CreateRouter { temp_path: &'a String, temp_file_size_limit_per_task: u64 },
    /// Watch the tasks, in the background.
    SpawnWatch,
    /// Begin the beat of the flushes, in the background.
    SpawnFlushTicks,
    /// Nothing: the endpoint is up.
    Nothing,
}

impl<'a> StartRequest<'a> {
    /// The watch of the tasks that this request begins, if it begins it.
    pub fn watch(&self) -> (r: Option<StartWatchJob>)
        ensures
            r == if self is SpawnWatch {
                Some(StartWatchJob { state: StartWatchState::GetTasks })
            } else {
                None
            },
    {
        match self {
            StartRequest::SpawnWatch => Some(StartWatchJob::start_and_watch_tasks()),
            _ => None,
        }
    }

    /// The beat of the flushes that this request begins, if it begins it.
    pub fn ticks(&self) -> (r: Option<FlushTicks>)
        ensures
            r == if self is SpawnFlushTicks {
                Some(FlushTicks::Sleep)
            } else {
                None
            },
    {
        match self {
            StartRequest::SpawnFlushTicks => Some(FlushTicks::starts_flush_ticks()),
            _ => None,
        }
    }
}

/// A reply to what bringing an endpoint up asked for.
#[derive(Debug, PartialEq, Eq)]
pub enum StartReply {
    RuntimeCreated(Result<(), Error>),
    Connected(Result<(), Error>),
    /// What was asked for is done, or on its way.
    Acknowledged,
}

impl StartJob {
    /// The first step with a client that is there already.
    pub open spec fn first_with_client(store_id: u64, config: BackupStreamConfig) -> StartJob {
        StartJob {
            store_id,
            source: ClientSource::Given,
            config,
            state: StartState::CreateRuntime,
        }
    }

    /// The first step with a client that is still to be made.
    pub open spec fn first_new(
        store_id: u64,
        endpoints: Vec<String>,
        config: BackupStreamConfig,
    ) -> StartJob {
        StartJob {
            store_id,
            source: ClientSource::Etcd { endpoints },
            config,
            state: StartState::CountEnabled,
        }
    }

    /// The state after `reply`.
    pub open spec fn after(self, reply: StartReply) -> StartState {
        match (self.state, reply) {
            (StartState::CountEnabled, _) => StartState::CreateRuntime,
            (StartState::CreateRuntime, _) => match self.source {
                ClientSource::Given => StartState::CreateRouter { meta_client: true },
                ClientSource::Etcd { .. } => StartState::Connect,
            },
            (StartState::Connect, StartReply::Connected(result)) => StartState::CreateRouter {
                meta_client: result is Ok,
            },
            (StartState::CreateRouter { meta_client }, _) => if meta_client {
                StartState::SpawnWatch
            } else {
                StartState::Done { meta_client: false }
            },
            (StartState::SpawnWatch, _) => StartState::SpawnFlushTicks,
            (StartState::SpawnFlushTicks, _) => StartState::Done { meta_client: true },
            (state, _) => state,
        }
    }

    /// What this step asks for.
    pub open spec fn pending(&self) -> StartRequest<'_> {
        match self.state {
            StartState::CountEnabled => StartRequest::CountEnabled,
            StartState::CreateRuntime => StartRequest::CreateRuntime,
            StartState::Connect => match &self.source {
                ClientSource::Given => StartRequest::Nothing,
                ClientSource::Etcd { endpoints } => StartRequest::Connect {
                    endpoints,
                    store_id: self.store_id,
                },
            },
            StartState::CreateRouter { .. } => StartRequest::CreateRouter {
                temp_path: &self.config.temp_path,
                temp_file_size_limit_per_task: self.config.temp_file_size_limit_per_task,
            },
            StartState::SpawnWatch => StartRequest::SpawnWatch,
            StartState::SpawnFlushTicks => StartRequest::SpawnFlushTicks,
            StartState::Done { .. } => StartRequest::Nothing,
        }
    }

    /// What this step asks for.
    pub fn request(&self) -> (r: StartRequest<'_>)
        ensures
            r == self.pending(),
    {
        match self.state {
            StartState::CountEnabled => StartRequest::CountEnabled,
            StartState::CreateRuntime => StartRequest::CreateRuntime,
            StartState::Connect => match &self.source {
                ClientSource::Given => StartRequest::Nothing,
                ClientSource::Etcd { endpoints } => StartRequest::Connect {
                    endpoints,
                    store_id: self.store_id,
                },
            },
            StartState::CreateRouter { .. } => StartRequest::CreateRouter {
                temp_path: &self.config.temp_path,
                temp_file_size_limit_per_task: self.config.temp_file_size_limit_per_task,
            },
            StartState::SpawnWatch => StartRequest::SpawnWatch,
            StartState::SpawnFlushTicks => StartRequest::SpawnFlushTicks,
            StartState::Done { .. } => StartRequest::Nothing,
        }
    }

    /// What the runtime of the endpoint is to be made like.
    pub fn runtime(&self) -> (spec: RuntimeSpec)
        requires
            self.config.num_threads > 0,
        ensures
            standard_runtime(self.config.num_threads, spec.thread_name, spec),
            spec.thread_name@ == self.source.spec_thread_name(),
    {
        create_tokio_runtime(self.config.num_threads, self.source.thread_name())
    }

    /// The endpoint, once it is up.
    pub fn endpoint(&self) -> (r: Option<Endpoint>)
        ensures
            r == match self.state {
                StartState::Done { meta_client } => Some(
                    Endpoint { store_id: self.store_id, meta_client },
                ),
                _ => None,
            },
    {
        match self.state {
            StartState::Done { meta_client } => Some(
                Endpoint { store_id: self.store_id, meta_client },
            ),
            _ => None,
        }
    }
}

impl Procedure for StartJob {
    type Reply = StartReply;

    open spec fn answered_by(self, reply: StartReply) -> bool {
        match self.state {
            // There is no endpoint without a runtime.
            StartState::CreateRuntime => reply matches StartReply::RuntimeCreated(Ok(_)),
            StartState::Connect => self.source is Etcd && reply is Connected,
            StartState::Done { .. } => false,
            _ => reply is Acknowledged,
        }
    }

    open spec fn leads_to(self, reply: StartReply, next: StartJob) -> bool {
        next == (StartJob {
            store_id: self.store_id,
            source: self.source,
            config: self.config,
            state: self.after(reply),
        })
    }

    open spec fn is_done(self) -> bool {
        self.state is Done
    }

    fn accepts(&self, reply: &StartReply) -> (r: bool) {
        match (self.state, reply) {
            (StartState::CreateRuntime, StartReply::RuntimeCreated(Ok(_))) => true,
            (StartState::CreateRuntime, _) => false,
            (StartState::Connect, StartReply::Connected(_)) => match &self.source {
                ClientSource::Given => false,
                ClientSource::Etcd { .. } => true,
            },
            (StartState::Connect, _) => false,
            (StartState::Done { .. }, _) => false,
            (_, StartReply::Acknowledged) => true,
            _ => false,
        }
    }

    fn resume(self, reply: StartReply) -> (next: StartJob) {
        let state = match (self.state, reply) {
            (StartState::CountEnabled, _) => StartState::CreateRuntime,
            (StartState::CreateRuntime, _) => match &self.source {
                ClientSource::Given => StartState::CreateRouter { meta_client: true },
                ClientSource::Etcd { .. } => StartState::Connect,
            },
            (StartState::Connect, StartReply::Connected(result)) => StartState::CreateRouter {
                meta_client: result.is_ok(),
            },
            (StartState::CreateRouter { meta_client }, _) => if meta_client {
                StartState::SpawnWatch
            } else {
                StartState::Done { meta_client: false }
            },
            (StartState::SpawnWatch, _) => StartState::SpawnFlushTicks,
            (StartState::SpawnFlushTicks, _) => StartState::Done { meta_client: true },
            (state, _) => state,
        };
        StartJob { store_id: self.store_id, source: self.source, config: self.config, state }
    }

    fn done(&self) -> (r: bool) {
        match self.state {
            StartState::Done { .. } => true,
            _ => false,
        }
    }
}

impl Bounded for StartJob {
    open spec fn remaining(self) -> nat {
        match self.state {
            StartState::CountEnabled => 6,
            StartState::CreateRuntime => 5,
            StartState::Connect => 4,
            StartState::CreateRouter { .. } => 3,
            StartState::SpawnWatch => 2,
            StartState::SpawnFlushTicks => 1,
            StartState::Done { .. } => 0,
        }
    }

    proof fn lemma_remaining_decreases(self, reply: StartReply, next: StartJob) {
    }
}

/// An endpoint that is given a client has it, watches the tasks and keeps the
/// beat of the flushes.
pub proof fn law_given_client_is_used(
    store_id: u64,
    config: BackupStreamConfig,
    steps: Seq<StartJob>,
    replies: Seq<StartReply>,
)
    requires
        is_run(steps, replies),
        steps[0] == StartJob::first_with_client(store_id, config),
        steps.last().is_done(),
    ensures
        replies.len() == 4,
        steps[0].pending() == StartRequest::CreateRuntime,
        steps[1].pending() == (StartRequest::CreateRouter {
            temp_path: &config.temp_path,
            temp_file_size_limit_per_task: config.temp_file_size_limit_per_task,
        }),
        steps[2].pending() == StartRequest::SpawnWatch,
        steps[3].pending() == StartRequest::SpawnFlushTicks,
        steps[4] == (StartJob { state: StartState::Done { meta_client: true }, ..steps[0] }),
{
    law_run_is_bounded(steps, replies);
    if replies.len() > 0 {
        assert(steps[0].leads_to(replies[0], steps[1]));
    }
    if replies.len() > 1 {
        assert(steps[1].leads_to(replies[1], steps[2]));
    }
    if replies.len() > 2 {
        assert(steps[2].leads_to(replies[2], steps[3]));
    }
    if replies.len() > 3 {
        assert(steps[3].leads_to(replies[3], steps[4]));
    }
    if replies.len() > 4 {
        assert(steps[4].answered_by(replies[4]));
    }
}

/// A new endpoint is up whether or not it could connect. It watches the tasks
/// and keeps the beat of the flushes if and only if it could.
pub proof fn law_unconnected_endpoint_watches_nothing(
    store_id: u64,
    endpoints: Vec<String>,
    config: BackupStreamConfig,
    steps: Seq<StartJob>,
    replies: Seq<StartReply>,
)
    requires
        is_run(steps, replies),
        steps[0] == StartJob::first_new(store_id, endpoints, config),
        steps.last().is_done(),
    ensures
        replies.len() >= 4,
        steps[0].pending() == StartRequest::CountEnabled,
        steps[1].pending() == StartRequest::CreateRuntime,
        steps[2].pending() == (StartRequest::Connect { endpoints: &endpoints, store_id }),
        steps[3].pending() == (StartRequest::CreateRouter {
            temp_path: &config.temp_path,
            temp_file_size_limit_per_task: config.temp_file_size_limit_per_task,
        }),
        replies[2] matches StartReply::Connected(result) && match result {
            Ok(_) => {
                &&& replies.len() == 6
                &&& steps[4].pending() == StartRequest::SpawnWatch
                &&& steps[5].pending() == StartRequest::SpawnFlushTicks
                &&& steps[6] == (StartJob {
                    state: StartState::Done { meta_client: true },
                    ..steps[0]
                })
            },
            Err(_) => {
                &&& replies.len() == 4
                &&& steps[4] == (StartJob {
                    state: StartState::Done { meta_client: false },
                    ..steps[0]
                })
            },
        },
{
    law_run_is_bounded(steps, replies);
    if replies.len() > 0 {
        assert(steps[0].leads_to(replies[0], steps[1]));
    }
    if replies.len() > 1 {
        assert(steps[1].leads_to(replies[1], steps[2]));
    }
    if replies.len() > 2 {
        assert(steps[2].answered_by(replies[2]) && steps[2].leads_to(replies[2], steps[3]));
    }
    if replies.len() > 3 {
        assert(steps[3].leads_to(replies[3], steps[4]));
    }
    if replies.len() > 4 {
        assert(steps[4].answered_by(replies[4]) && steps[4].leads_to(replies[4], steps[5]));
    }
    if replies.len() > 5 {
        assert(steps[5].leads_to(replies[5], steps[6]));
    }
}

/// Which replies bringing an endpoint up takes: those that answer what it asks
/// for, whatever they hold. There is no endpoint without a runtime.
pub proof fn law_start_up_takes_any_answer(
    steps: Seq<StartJob>,
    replies: Seq<StartReply>,
    store_id: u64,
    endpoints: Vec<String>,
    config: BackupStreamConfig,
    i: int,
    reply: StartReply,
)
    requires
        is_run(steps, replies),
        steps[0] == StartJob::first_with_client(store_id, config) || steps[0]
            == StartJob::first_new(store_id, endpoints, config),
        0 <= i < steps.len(),
    ensures
        steps[i].is_done() <==> steps[i].pending() is Nothing,
        steps[i].answered_by(reply) == match steps[i].pending() {
            StartRequest::CreateRuntime => reply matches StartReply::RuntimeCreated(Ok(_)),
            StartRequest::Connect { .. } => reply is Connected,
            StartRequest::Nothing => false,
            _ => reply is Acknowledged,
        },
{
    if i > 0 {
        assert(steps[i - 1].leads_to(replies[i - 1], steps[i]));
        lemma_start_keeps(steps, replies, i);
    }
}

proof fn lemma_start_keeps(steps: Seq<StartJob>, replies: Seq<StartReply>, i: int)
    requires
        is_run(steps, replies),
        0 <= i < steps.len(),
        steps[0].state != StartState::Connect,
    ensures
        steps[i].store_id == steps[0].store_id,
        steps[i].source == steps[0].source,
        steps[i].config == steps[0].config,
        steps[i].state == StartState::Connect ==> steps[i].source is Etcd,
    decreases i,
{
    if i > 0 {
        lemma_start_keeps(steps, replies, i - 1);
        assert(steps[i - 1].leads_to(replies[i - 1], steps[i]));
    }
}

/// What bringing an endpoint up asks for after each reply, with a client that is
/// there already and with one that is still to be made. An endpoint is counted
/// where it makes its own client, and watches the tasks and keeps the beat of
/// the flushes where it has one.
pub proof fn law_start_up_goes_on(
    steps: Seq<StartJob>,
    replies: Seq<StartReply>,
    store_id: u64,
    endpoints: Vec<String>,
    config: BackupStreamConfig,
    given: bool,
    i: int,
)
    requires
        is_run(steps, replies),
        steps[0] == if given {
            StartJob::first_with_client(store_id, config)
        } else {
            StartJob::first_new(store_id, endpoints, config)
        },
        0 <= i < replies.len(),
    ensures
        steps[0].pending() == if given {
            StartRequest::CreateRuntime
        } else {
            StartRequest::CountEnabled
        },
        steps[0].store_id == store_id,
        steps[0].config == config,
        steps[i + 1].store_id == store_id,
        steps[i + 1].config == config,
        match (steps[i].pending(), replies[i]) {
            (StartRequest::CountEnabled, StartReply::Acknowledged) => !given
                && steps[i + 1].pending() == StartRequest::CreateRuntime,
            (StartRequest::CreateRuntime, StartReply::RuntimeCreated(Ok(_))) =>
                steps[i + 1].pending() == if given {
                    StartRequest::CreateRouter {
                        temp_path: &config.temp_path,
                        temp_file_size_limit_per_task: config.temp_file_size_limit_per_task,
                    }
                } else {
                    StartRequest::Connect { endpoints: &endpoints, store_id }
                },
            (StartRequest::Connect { .. }, StartReply::Connected(_)) => !given
                && steps[i + 1].pending() == (StartRequest::CreateRouter {
                temp_path: &config.temp_path,
                temp_file_size_limit_per_task: config.temp_file_size_limit_per_task,
            }),
            (StartRequest::CreateRouter { .. }, StartReply::Acknowledged) => {
                &&& i > 0
                &&& if given || replies[i - 1] matches StartReply::Connected(Ok(_)) {
                    steps[i + 1].pending() == StartRequest::SpawnWatch
                } else {
                    steps[i + 1].state == (StartState::Done { meta_client: false })
                }
            },
            (StartRequest::SpawnWatch, StartReply::Acknowledged) => steps[i + 1].pending()
                == StartRequest::SpawnFlushTicks,
            (StartRequest::SpawnFlushTicks, StartReply::Acknowledged) => steps[i + 1].state == (
            StartState::Done { meta_client: true }),
            _ => false,
        },
{
    lemma_start_keeps(steps, replies, i);
    lemma_start_keeps(steps, replies, i + 1);
    assert(steps[i].leads_to(replies[i], steps[i + 1]) && steps[i].answered_by(replies[i]));
    if i > 0 {
        lemma_start_keeps(steps, replies, i - 1);
        assert(steps[i - 1].leads_to(replies[i - 1], steps[i]) && steps[i - 1].answered_by(
            replies[i - 1],
        ));
    }
}

/// A standard runtime has as many threads for work that blocks as for other
/// work, as many as it was asked for, and allows io and time. Endpoints that are
/// given their client and those that make it name their threads differently.
pub proof fn law_runtime_is_standard(
    thread_count: usize,
    thread_name: &'static str,
    spec: RuntimeSpec,
    endpoints: Vec<String>,
)
    ensures
        standard_runtime(thread_count, thread_name, spec) <==> {
            &&& spec.thread_name@ == thread_name@
            &&& spec.worker_threads == thread_count
            &&& spec.max_blocking_threads == thread_count
            &&& spec.enable_io && spec.enable_time && spec.thread_memory_accessor
        },
        ClientSource::Given.spec_thread_name() == "br-stream"@,
        (ClientSource::Etcd { endpoints }).spec_thread_name() == "backup-stream"@,
{
}

} // verus!
