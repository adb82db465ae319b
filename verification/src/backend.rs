//! The chain backend: which one is selected and where it listens, the probe that
//! waits for it at startup and derives the sync strategy, and the supervisor
//! that asks for a restart when the backend's sync state no longer matches that
//! strategy.

use vstd::prelude::*;
use crate::fault::Fault;
use crate::retry::{FILE_POLL_SECS, SUPERVISOR_PERIOD_SECS};
use crate::text::{decimal, push_decimal, push_str, string_from_chars};

verus! {

/// The chain backend that the operator selected.
#[derive(Debug, Clone, PartialEq, Eq)]
pub enum BitcoinCoreConfig {
    NoBackend,
    Internal { user: String, password: String },
}

impl BitcoinCoreConfig {
    /// Whether a backend is selected.
    pub fn selected(&self) -> (r: bool)
        ensures
            r == (self is Internal),
    {
        match self {
            BitcoinCoreConfig::NoBackend => false,
            BitcoinCoreConfig::Internal { .. } => true,
        }
    }
}

/// Where the selected backend is reached.
#[derive(Debug, Clone, PartialEq, Eq)]
pub struct BackendEndpoints {
    pub rpc_user: String,
    pub rpc_pass: String,
    pub rpc_host: String,
    pub rpc_port: u16,
    pub zmq_host: String,
    pub zmq_block_port: u16,
    pub zmq_tx_port: u16,
}

/// The endpoints as values.
pub struct BackendEndpointsView {
    pub rpc_user: Seq<char>,
    pub rpc_pass: Seq<char>,
    pub rpc_host: Seq<char>,
    pub rpc_port: u16,
    pub zmq_host: Seq<char>,
    pub zmq_block_port: u16,
    pub zmq_tx_port: u16,
}

impl View for BackendEndpoints {
    type V = BackendEndpointsView;

    open spec fn view(&self) -> BackendEndpointsView {
        BackendEndpointsView {
            rpc_user: self.rpc_user@,
            rpc_pass: self.rpc_pass@,
            rpc_host: self.rpc_host@,
            rpc_port: self.rpc_port,
            zmq_host: self.zmq_host@,
            zmq_block_port: self.zmq_block_port,
            zmq_tx_port: self.zmq_tx_port,
        }
    }
}

/// The endpoints of a selection: empty names and port 0 without a backend, the
/// internal backend's host and ports with the operator's credentials otherwise.
pub open spec fn endpoints_spec(config: BitcoinCoreConfig) -> BackendEndpointsView {
    match config {
        BitcoinCoreConfig::NoBackend => BackendEndpointsView {
            rpc_user: Seq::empty(),
            rpc_pass: Seq::empty(),
            rpc_host: Seq::empty(),
            rpc_port: 0,
            zmq_host: Seq::empty(),
            zmq_block_port: 0,
            zmq_tx_port: 0,
        },
        BitcoinCoreConfig::Internal { user, password } => BackendEndpointsView {
            rpc_user: user@,
            rpc_pass: password@,
            rpc_host: "bitcoind.embassy"@,
            rpc_port: 8332,
            zmq_host: "bitcoind.embassy"@,
            zmq_block_port: 28332,
            zmq_tx_port: 28333,
        },
    }
}

/// The endpoints of the selected backend.
pub fn endpoints(config: &BitcoinCoreConfig) -> (e: BackendEndpoints)
    ensures
        e@ == endpoints_spec(*config),
{
    match config {
        BitcoinCoreConfig::NoBackend => BackendEndpoints {
            rpc_user: String::new(),
            rpc_pass: String::new(),
            rpc_host: String::new(),
            rpc_port: 0,
            zmq_host: String::new(),
            zmq_block_port: 0,
            zmq_tx_port: 0,
        },
        BitcoinCoreConfig::Internal { user, password } => BackendEndpoints {
            rpc_user: user.clone(),
            rpc_pass: password.clone(),
            rpc_host: "bitcoind.embassy".to_owned(),
            rpc_port: 8332,
            zmq_host: "bitcoind.embassy".to_owned(),
            zmq_block_port: 28332,
            zmq_tx_port: 28333,
        },
    }
}

/// The URL of a backend's RPC port: `http://`, the host, a colon, the port.
pub open spec fn rpc_url_spec(host: Seq<char>, port: u16) -> Seq<char> {
    "http://"@ + host + seq![':'] + decimal(port as nat)
}

/// The URL of a backend's RPC port.
pub fn rpc_url(host: &str, port: u16) -> (url: String)
    ensures
        url@ == rpc_url_spec(host@, port),
{
    let mut out: Vec<char> = Vec::new();
    push_str(&mut out, "http://");
    push_str(&mut out, host);
    out.push(':');
    push_decimal(&mut out, port as u64);
    assert(out@ =~= rpc_url_spec(host@, port));
    string_from_chars(&out)
}

/// How the node follows the chain.
#[derive(Clone, Copy, Debug, PartialEq, Eq, Structural)]
pub enum SyncStrategy {
    /// Without a synced backend: the light client.
    LightClient,
    /// On the synced backend: the full node.
    FullNode,
}

/// The strategy decided at startup: the full node exactly where a backend is
/// selected and synced.
pub open spec fn sync_strategy_spec(selected: bool, synced: bool) -> SyncStrategy {
    if selected && synced {
        SyncStrategy::FullNode
    } else {
        SyncStrategy::LightClient
    }
}

/// The strategy decided at startup.
pub fn sync_strategy(selected: bool, synced: bool) -> (s: SyncStrategy)
    ensures
        s == sync_strategy_spec(selected, synced),
{
    if selected && synced {
        SyncStrategy::FullNode
    } else {
        SyncStrategy::LightClient
    }
}

impl SyncStrategy {
    /// Whether the node runs as a light client.
    pub fn use_light_client(&self) -> (r: bool)
        ensures
            r == (*self == SyncStrategy::LightClient),
    {
        match self {
            SyncStrategy::LightClient => true,
            SyncStrategy::FullNode => false,
        }
    }
}

/// What a liveness query of the backend brought back.
#[derive(Clone, Copy, Debug, PartialEq, Eq, Structural)]
pub enum ReadyReply {
    /// The backend answered.
    Answered,
    /// The query failed, for whatever reason.
    Failed,
}

/// What a sync query of the backend brought back.
#[derive(Clone, Copy, Debug, PartialEq, Eq, Structural)]
pub enum SyncReply {
    /// The backend reported whether it is in its initial block download.
    Info { initial_block_download: bool },
    /// The query failed: no answer, a malformed one, or a refusal.
    Failed,
}

/// The backend is ready where it answered; any failure means not ready yet.
pub open spec fn is_ready_spec(reply: ReadyReply) -> bool {
    reply == ReadyReply::Answered
}

/// The backend is synced where it is not in its initial block download; a
/// failed query is a fault.
pub open spec fn is_synced_spec(reply: SyncReply) -> Result<bool, Fault> {
    match reply {
        SyncReply::Info { initial_block_download } => Ok(!initial_block_download),
        SyncReply::Failed => Err(Fault::BackendUnreadable),
    }
}

/// Whether the backend is ready. A failure is never passed on.
pub fn is_ready(reply: ReadyReply) -> (r: bool)
    ensures
        r == is_ready_spec(reply),
{
    match reply {
        ReadyReply::Answered => true,
        ReadyReply::Failed => false,
    }
}

/// Whether the backend is synced, or the fault of a failed query.
pub fn is_synced(reply: SyncReply) -> (r: Result<bool, Fault>)
    ensures
        r == is_synced_spec(reply),
{
    match reply {
        SyncReply::Info { initial_block_download } => Ok(!initial_block_download),
        SyncReply::Failed => Err(Fault::BackendUnreadable),
    }
}

/// A query of the backend.
#[derive(Clone, Copy, Debug, PartialEq, Eq, Structural)]
pub enum ProbeOp {
    CheckReady,
    QuerySync,
}

/// One step of the startup probe.
#[derive(Clone, Copy, Debug, PartialEq, Eq, Structural)]
pub enum ProbeStep {
    Call { after_secs: u64, op: ProbeOp },
    Done(SyncStrategy),
    Fatal(Fault),
}

/// What the driver reports back to the probe.
#[derive(Clone, Copy, Debug, PartialEq, Eq, Structural)]
pub enum ProbeEvent {
    Ready(ReadyReply),
    Sync(SyncReply),
}

/// The startup probe of a selected backend: it polls until the backend answers,
/// then asks once whether it is synced.
#[derive(Clone, Copy, Debug, PartialEq, Eq, Structural)]
pub enum Probe {
    AwaitingReady,
    AwaitingSync,
    Done,
    Failed,
}

impl Probe {
    /// The first step for a selection: without a backend the probe does not
    /// run, and the strategy is the light client.
    pub open spec fn start_spec(selected: bool) -> (Probe, ProbeStep) {
        if selected {
            (Probe::AwaitingReady, ProbeStep::Call { after_secs: 0, op: ProbeOp::CheckReady })
        } else {
            (Probe::Done, ProbeStep::Done(sync_strategy_spec(false, false)))
        }
    }

    /// The step that answers `event`.
    pub open spec fn next(self, event: ProbeEvent) -> (Probe, ProbeStep) {
        match (self, event) {
            (Probe::AwaitingReady, ProbeEvent::Ready(reply)) => if is_ready_spec(reply) {
                (Probe::AwaitingSync, ProbeStep::Call { after_secs: 0, op: ProbeOp::QuerySync })
            } else {
                (
                    Probe::AwaitingReady,
                    ProbeStep::Call { after_secs: FILE_POLL_SECS, op: ProbeOp::CheckReady },
                )
            },
            (Probe::AwaitingSync, ProbeEvent::Sync(reply)) => match is_synced_spec(reply) {
                Ok(synced) => (Probe::Done, ProbeStep::Done(sync_strategy_spec(true, synced))),
                Err(fault) => (Probe::Failed, ProbeStep::Fatal(fault)),
            },
            _ => (Probe::Failed, ProbeStep::Fatal(Fault::OutOfTurn)),
        }
    }

    /// Starts the probe of a selection.
    pub fn start(config: &BitcoinCoreConfig) -> (r: (Probe, ProbeStep))
        ensures
            r == Self::start_spec(config is Internal),
            config is NoBackend ==> r.1 == ProbeStep::Done(SyncStrategy::LightClient),
    {
        if config.selected() {
            (Probe::AwaitingReady, ProbeStep::Call { after_secs: 0, op: ProbeOp::CheckReady })
        } else {
            (Probe::Done, ProbeStep::Done(sync_strategy(false, false)))
        }
    }

    /// Answers what the last query brought back with the next step.
    pub fn step(self, event: ProbeEvent) -> (r: (Probe, ProbeStep))
        ensures
            r == self.next(event),
    {
        match (self, event) {
            (Probe::AwaitingReady, ProbeEvent::Ready(reply)) => if is_ready(reply) {
                (Probe::AwaitingSync, ProbeStep::Call { after_secs: 0, op: ProbeOp::QuerySync })
            } else {
                (
                    Probe::AwaitingReady,
                    ProbeStep::Call { after_secs: FILE_POLL_SECS, op: ProbeOp::CheckReady },
                )
            },
            (Probe::AwaitingSync, ProbeEvent::Sync(reply)) => match is_synced(reply) {
                Ok(synced) => (Probe::Done, ProbeStep::Done(sync_strategy(true, synced))),
                Err(fault) => (Probe::Failed, ProbeStep::Fatal(fault)),
            },
            _ => (Probe::Failed, ProbeStep::Fatal(Fault::OutOfTurn)),
        }
    }
}

/// What the supervisor makes of one poll.
#[derive(Clone, Copy, Debug, PartialEq, Eq, Structural)]
pub enum Supervision {
    /// Nothing to do but wait for the next poll.
    Keep,
    /// Ask the supervising process for a restart: the backend's sync state now
    /// calls for this other strategy.
    Restart(SyncStrategy),
}

/// The strategy that a sync state calls for on a selected backend.
pub open spec fn strategy_for(synced: bool) -> SyncStrategy {
    sync_strategy_spec(true, synced)
}

/// The backend-switch supervisor of a selected backend. It remembers the
/// strategy decided at startup and whether it has asked for a restart in the
/// divergence that is going on.
#[derive(Clone, Copy, Debug, PartialEq, Eq, Structural)]
pub struct Supervisor {
    pub strategy: SyncStrategy,
    pub asked: bool,
}

impl Supervisor {
    /// What one poll leads to. A failed poll changes nothing. A sync state that
    /// calls for another strategy than the one decided at startup is a
    /// divergence: the first poll that shows it asks for a restart, the polls
    /// that follow it keep quiet, and a poll that matches the strategy again
    /// ends it.
    pub open spec fn next(self, reply: SyncReply) -> (Supervisor, Supervision) {
        match is_synced_spec(reply) {
            Err(_) => (self, Supervision::Keep),
            Ok(synced) => if strategy_for(synced) == self.strategy {
                (Supervisor { strategy: self.strategy, asked: false }, Supervision::Keep)
            } else if self.asked {
                (self, Supervision::Keep)
            } else {
                (
                    Supervisor { strategy: self.strategy, asked: true },
                    Supervision::Restart(strategy_for(synced)),
                )
            },
        }
    }

    /// The supervisor of a selection: none without a backend.
    pub fn start(config: &BitcoinCoreConfig, strategy: SyncStrategy) -> (r: Option<Supervisor>)
        ensures
            config is NoBackend ==> r is None,
            config is Internal ==> r == Some(Supervisor { strategy, asked: false }),
    {
        if config.selected() {
            Some(Supervisor { strategy, asked: false })
        } else {
            None
        }
    }

    /// Seconds between two polls.
    pub fn period_secs(&self) -> (secs: u64)
        ensures
            secs == SUPERVISOR_PERIOD_SECS,
    {
        SUPERVISOR_PERIOD_SECS
    }

    /// Takes in one poll.
    pub fn observe(self, reply: SyncReply) -> (r: (Supervisor, Supervision))
        ensures
            r == self.next(reply),
    {
        match is_synced(reply) {
            Err(_) => (self, Supervision::Keep),
            Ok(synced) => {
                let wanted = sync_strategy(true, synced);
                if wanted == self.strategy {
                    (Supervisor { strategy: self.strategy, asked: false }, Supervision::Keep)
                } else if self.asked {
                    (self, Supervision::Keep)
                } else {
                    (Supervisor { strategy: self.strategy, asked: true }, Supervision::Restart(wanted))
                }
            },
        }
    }
}

/// The supervisor after the first `n` of `polls`.
pub open spec fn supervisor_after(start: Supervisor, polls: Seq<SyncReply>, n: nat) -> Supervisor
    decreases n,
{
    if n == 0 {
        start
    } else {
        supervisor_after(start, polls, (n - 1) as nat).next(polls[n - 1]).0
    }
}

/// What the supervisor makes of the poll at position `n`, after those before it.
pub open spec fn supervision_at(start: Supervisor, polls: Seq<SyncReply>, n: nat) -> Supervision {
    supervisor_after(start, polls, n).next(polls[n as int]).1
}

/// The backend reports that it is synced.
pub open spec fn reports_synced(reply: SyncReply) -> bool {
    reply == (SyncReply::Info { initial_block_download: false })
}

/// A strategy decided as the light client on an unsynced backend asks for a
/// restart at the first poll at which the backend reports that it is synced, and
/// at none before it.
pub proof fn law_light_client_restarts_at_first_synced_poll(polls: Seq<SyncReply>, first: nat)
    requires
        first < polls.len(),
        reports_synced(polls[first as int]),
        forall|i: int| 0 <= i < first ==> !reports_synced(#[trigger] polls[i]),
    ensures
        ({
            let start = Supervisor { strategy: sync_strategy_spec(true, false), asked: false };
            &&& supervision_at(start, polls, first) == Supervision::Restart(SyncStrategy::FullNode)
            &&& forall|i: nat| i < first ==> #[trigger] supervision_at(start, polls, i) == Supervision::Keep
        }),
{
    let start = Supervisor { strategy: sync_strategy_spec(true, false), asked: false };
    lemma_quiet_before_first_synced(polls, first, first);
    assert forall|i: nat| i < first implies #[trigger] supervision_at(start, polls, i)
        == Supervision::Keep by {
        lemma_quiet_before_first_synced(polls, first, i);
        assert(!reports_synced(polls[i as int]));
    }
}

proof fn lemma_quiet_before_first_synced(polls: Seq<SyncReply>, first: nat, n: nat)
    requires
        n <= first < polls.len(),
        forall|i: int| 0 <= i < first ==> !reports_synced(#[trigger] polls[i]),
    ensures
        supervisor_after(
            Supervisor { strategy: sync_strategy_spec(true, false), asked: false },
            polls,
            n,
        ) == (Supervisor { strategy: SyncStrategy::LightClient, asked: false }),
    decreases n,
{
    if n > 0 {
        lemma_quiet_before_first_synced(polls, first, (n - 1) as nat);
        assert(!reports_synced(polls[n - 1]));
    }
}

/// The supervisor asks once for each divergence: after it has asked, it keeps
/// quiet until a poll matches the strategy again.
pub proof fn law_asks_once_per_divergence(supervisor: Supervisor, reply: SyncReply)
    requires
        supervisor.asked,
    ensures
        supervisor.next(reply).1 == Supervision::Keep,
{
}

} // verus!
