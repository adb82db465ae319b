//! The watchtower coordinator: it publishes or withdraws the URL of the local
//! tower server, then attaches the node to each configured remote tower, one
//! after the other.

use vstd::prelude::*;
use crate::fault::Fault;
use crate::json::texts_view;
use crate::properties::TowerInfo;
use crate::retry::{CliReply, CliReplyView, RetryPolicy, RetryPolicyView, Verdict, judge_cli, judge_cli_spec};
use crate::text::{
    after_first, before_first, find_char, first_index, string_of, to_chars,
};

verus! {

/// What is wrong with a watchtower URI.
#[derive(Clone, Copy, Debug, PartialEq, Eq, Structural)]
pub enum UriError {
    /// Nothing stands before the `@`.
    MissingPubkey,
    /// There is no `@`, or nothing stands behind it.
    MissingAddress,
}

/// A watchtower URI, `pubkey@address`, taken apart.
#[derive(Debug, Clone, PartialEq, Eq)]
pub struct WatchtowerUri {
    pub pubkey: String,
    pub address: String,
}

/// A URI taken apart, as a value.
pub struct WatchtowerUriView {
    pub pubkey: Seq<char>,
    pub address: Seq<char>,
}

impl View for WatchtowerUri {
    type V = WatchtowerUriView;

    open spec fn view(&self) -> WatchtowerUriView {
        WatchtowerUriView { pubkey: self.pubkey@, address: self.address@ }
    }
}

/// The halves of a URI: the public key is what stands before the first `@`, the
/// address what stands between it and the next `@`, or the end.
pub open spec fn uri_halves(uri: Seq<char>) -> WatchtowerUriView {
    WatchtowerUriView {
        pubkey: before_first(uri, '@'),
        address: before_first(after_first(uri, '@'), '@'),
    }
}

/// The reading of a URI. A URI without an `@` lacks its address; one with an
/// `@` lacks the half that is empty, the public key first.
pub open spec fn parse_uri(uri: Seq<char>) -> Result<WatchtowerUriView, UriError> {
    let halves = uri_halves(uri);
    if first_index(uri, '@') >= uri.len() {
        Err(UriError::MissingAddress)
    } else if halves.pubkey.len() == 0 {
        Err(UriError::MissingPubkey)
    } else if halves.address.len() == 0 {
        Err(UriError::MissingAddress)
    } else {
        Ok(halves)
    }
}

/// A URI has both halves where it can be read.
pub open spec fn has_both_halves(uri: Seq<char>) -> bool {
    parse_uri(uri) is Ok
}

impl WatchtowerUri {
    /// Takes a URI apart. It fails exactly where a half is missing: where the URI
    /// holds no `@`, or nothing before it, or nothing behind it.
    pub fn from_str(s: &str) -> (r: Result<WatchtowerUri, UriError>)
        ensures
            match r {
                Ok(uri) => parse_uri(s@) == Ok::<WatchtowerUriView, UriError>(uri@),
                Err(e) => parse_uri(s@) == Err::<WatchtowerUriView, UriError>(e),
            },
    {
        let chars = to_chars(s);
        let at = find_char(&chars, 0, '@');
        assert(chars@.skip(0) =~= chars@);
        if at >= chars.len() {
            return Err(UriError::MissingAddress);
        }
        let end = find_char(&chars, at + 1, '@');
        proof {
            let rest = chars@.skip(at + 1);
            assert(after_first(s@, '@') == rest);
            assert(chars@.subrange(0, at as int) =~= before_first(s@, '@'));
            assert(chars@.subrange(at + 1, end as int) =~= rest.take(first_index(rest, '@')));
        }
        if at == 0 {
            return Err(UriError::MissingPubkey);
        }
        if end == at + 1 {
            return Err(UriError::MissingAddress);
        }
        let pubkey = string_of(&chars, 0, at);
        let address = string_of(&chars, at + 1, end);
        Ok(WatchtowerUri { pubkey, address })
    }
}

/// Whether the node attaches itself to remote towers, and to which.
#[derive(Debug, Clone, PartialEq, Eq)]
pub enum WtClient {
    Disabled,
    Enabled { add_watchtowers: Vec<String> },
}

/// The watchtower part of the configuration.
#[derive(Debug, Clone, PartialEq, Eq)]
pub struct WatchtowerConfig {
    pub wt_server: bool,
    pub wt_client: WtClient,
}

impl WtClient {
    /// The towers to attach to, in their configured order: none where the
    /// client is disabled.
    pub open spec fn peers_spec(self) -> Seq<Seq<char>> {
        match self {
            WtClient::Disabled => Seq::empty(),
            WtClient::Enabled { add_watchtowers } => texts_view(add_watchtowers@),
        }
    }

    /// Whether the client is enabled.
    pub fn enabled(&self) -> (r: bool)
        ensures
            r == (self is Enabled),
    {
        match self {
            WtClient::Disabled => false,
            WtClient::Enabled { .. } => true,
        }
    }
}

/// What the driver is to do next.
#[derive(Debug, Clone, PartialEq, Eq)]
pub enum TowerOp {
    /// Delete the published tower URL. A failure is reported and changes nothing.
    WithdrawUrl,
    /// Ask the local tower server for its description.
    QueryTower,
    /// Write this URL to the published file. A failure is reported and changes nothing.
    PublishUrl { url: String },
    /// Attach the node to the tower with this URI.
    AddTower { uri: String },
}

/// An operation as a value.
pub enum TowerOpView {
    WithdrawUrl,
    QueryTower,
    PublishUrl { url: Seq<char> },
    AddTower { uri: Seq<char> },
}

impl View for TowerOp {
    type V = TowerOpView;

    open spec fn view(&self) -> TowerOpView {
        match self {
            TowerOp::WithdrawUrl => TowerOpView::WithdrawUrl,
            TowerOp::QueryTower => TowerOpView::QueryTower,
            TowerOp::PublishUrl { url } => TowerOpView::PublishUrl { url: url@ },
            TowerOp::AddTower { uri } => TowerOpView::AddTower { uri: uri@ },
        }
    }
}

/// One step of the coordination.
#[derive(Debug, Clone, PartialEq, Eq)]
pub enum TowerStep {
    Call { after_secs: u64, op: TowerOp },
    Done,
    Fatal(Fault),
}

/// A step as a value.
pub enum TowerStepView {
    Call { after_secs: u64, op: TowerOpView },
    Done,
    Fatal(Fault),
}

impl View for TowerStep {
    type V = TowerStepView;

    open spec fn view(&self) -> TowerStepView {
        match self {
            TowerStep::Call { after_secs, op } => TowerStepView::Call {
                after_secs: *after_secs,
                op: op@,
            },
            TowerStep::Done => TowerStepView::Done,
            TowerStep::Fatal(f) => TowerStepView::Fatal(*f),
        }
    }
}

/// What the driver reports back.
#[derive(Debug, PartialEq, Eq)]
pub enum TowerEvent {
    /// A file operation was tried; whether it succeeded does not matter.
    File(bool),
    /// The answer to `QueryTower`: how the command went and, where it
    /// succeeded, the description read from its output, if it could be read.
    Info { reply: CliReply, info: Option<TowerInfo> },
    /// The answer to `AddTower`.
    Added(CliReply),
}

/// An event as a value: of a tower description only its first URI counts.
pub enum TowerEventView {
    File(bool),
    /// The first URI of the description, where there is a description with one.
    Info { reply: CliReplyView, first_uri: Option<Seq<char>> },
    Added(CliReplyView),
}

/// The first URI of a description, if the description could be read and has one.
pub open spec fn first_uri(info: Option<TowerInfo>) -> Option<Seq<char>> {
    match info {
        Some(i) => if i.uris@.len() > 0 {
            Some(i.uris@[0]@)
        } else {
            None
        },
        None => None,
    }
}

impl View for TowerEvent {
    type V = TowerEventView;

    open spec fn view(&self) -> TowerEventView {
        match self {
            TowerEvent::File(ok) => TowerEventView::File(*ok),
            TowerEvent::Info { reply, info } => TowerEventView::Info {
                reply: reply@,
                first_uri: first_uri(*info),
            },
            TowerEvent::Added(r) => TowerEventView::Added(r@),
        }
    }
}

/// Where the coordinator stands.
#[derive(Clone, Copy, Debug, PartialEq, Eq, Structural)]
pub enum TowerState {
    /// Server disabled; waiting for the published URL to be withdrawn.
    Withdrawing,
    /// Server enabled; waiting for its description.
    Querying,
    /// Waiting for the URL to be published.
    Publishing,
    /// Waiting for the tower at this position to be added; all before it are.
    Adding { index: usize },
    Done,
    Failed,
}

/// What the coordinator works with: the policy of its commands and the towers
/// to attach to, in their order.
pub struct TowerModel {
    pub policy: RetryPolicyView,
    pub peers: Seq<Seq<char>>,
}

impl TowerModel {
    /// The end of the machine on a fault.
    pub open spec fn fail(fault: Fault) -> (TowerState, TowerStepView) {
        (TowerState::Failed, TowerStepView::Fatal(fault))
    }

    /// The first attempt on the tower at `index`: the end where there is none
    /// left, a fault where its URI lacks a half.
    pub open spec fn attach_from(self, index: nat) -> (TowerState, TowerStepView) {
        if index >= self.peers.len() {
            (TowerState::Done, TowerStepView::Done)
        } else if !has_both_halves(self.peers[index as int]) {
            Self::fail(Fault::MalformedWatchtowerUri)
        } else {
            (
                TowerState::Adding { index: index as usize },
                TowerStepView::Call {
                    after_secs: 0,
                    op: TowerOpView::AddTower { uri: self.peers[index as int] },
                },
            )
        }
    }

    /// The first step: withdraw the URL where the server is disabled, ask the
    /// server for its description where it is enabled.
    pub open spec fn start(self, server: bool) -> (TowerState, TowerStepView) {
        if server {
            (TowerState::Querying, TowerStepView::Call { after_secs: 0, op: TowerOpView::QueryTower })
        } else {
            (
                TowerState::Withdrawing,
                TowerStepView::Call { after_secs: 0, op: TowerOpView::WithdrawUrl },
            )
        }
    }

    /// The step that answers `event` in `state`.
    pub open spec fn next(self, state: TowerState, event: TowerEventView) -> (
        TowerState,
        TowerStepView,
    ) {
        match (state, event) {
            (TowerState::Withdrawing, TowerEventView::File(_)) => self.attach_from(0),
            (TowerState::Querying, TowerEventView::Info { reply, first_uri }) => {
                match judge_cli_spec(self.policy, reply, Fault::UnreadableTowerInfo) {
                    Verdict::Success => match first_uri {
                        Some(url) => (
                            TowerState::Publishing,
                            TowerStepView::Call { after_secs: 0, op: TowerOpView::PublishUrl { url } },
                        ),
                        None => Self::fail(Fault::UnreadableTowerInfo),
                    },
                    Verdict::Transient => (
                        TowerState::Querying,
                        TowerStepView::Call {
                            after_secs: self.policy.interval_secs,
                            op: TowerOpView::QueryTower,
                        },
                    ),
                    Verdict::Fatal(fault) => Self::fail(fault),
                }
            },
            (TowerState::Publishing, TowerEventView::File(_)) => self.attach_from(0),
            (TowerState::Adding { index }, TowerEventView::Added(reply)) => {
                if index >= self.peers.len() {
                    Self::fail(Fault::OutOfTurn)
                } else {
                    match judge_cli_spec(self.policy, reply, Fault::GatewayFailed) {
                        Verdict::Success => self.attach_from((index + 1) as nat),
                        Verdict::Transient => (
                            TowerState::Adding { index },
                            TowerStepView::Call {
                                after_secs: self.policy.interval_secs,
                                op: TowerOpView::AddTower { uri: self.peers[index as int] },
                            },
                        ),
                        Verdict::Fatal(fault) => Self::fail(fault),
                    }
                }
            },
            _ => Self::fail(Fault::OutOfTurn),
        }
    }
}

/// The watchtower coordinator. It is made by `start`, which hands out the first
/// step, and moved on by `step` with what each operation brought back.
pub struct Coordinator {
    policy: RetryPolicy,
    peers: Vec<String>,
    state: TowerState,
}

impl Coordinator {
    /// The policy and the towers that the coordinator was started with.
    pub closed spec fn model(&self) -> TowerModel {
        TowerModel { policy: self.policy@, peers: texts_view(self.peers@) }
    }

    /// Where the coordinator stands.
    pub closed spec fn state(&self) -> TowerState {
        self.state
    }

    fn attach_from(policy: RetryPolicy, peers: Vec<String>, index: usize) -> (r: (
        Coordinator,
        TowerStep,
    ))
        ensures
            r.0.model() == (TowerModel { policy: policy@, peers: texts_view(peers@) }),
            (r.0.state(), r.1@) == r.0.model().attach_from(index as nat),
    {
        if index >= peers.len() {
            return (Coordinator { policy, peers, state: TowerState::Done }, TowerStep::Done);
        }
        match WatchtowerUri::from_str(peers[index].as_str()) {
            Err(_) => (
                Coordinator { policy, peers, state: TowerState::Failed },
                TowerStep::Fatal(Fault::MalformedWatchtowerUri),
            ),
            Ok(_) => {
                let uri = peers[index].clone();
                (
                    Coordinator { policy, peers, state: TowerState::Adding { index } },
                    TowerStep::Call { after_secs: 0, op: TowerOp::AddTower { uri } },
                )
            },
        }
    }

    fn failed(policy: RetryPolicy, peers: Vec<String>, fault: Fault) -> (r: (Coordinator, TowerStep))
        ensures
            r.0.model() == (TowerModel { policy: policy@, peers: texts_view(peers@) }),
            (r.0.state(), r.1@) == TowerModel::fail(fault),
    {
        (Coordinator { policy, peers, state: TowerState::Failed }, TowerStep::Fatal(fault))
    }

    /// Starts the coordination for this configuration.
    pub fn start(config: WatchtowerConfig, policy: RetryPolicy) -> (r: (Coordinator, TowerStep))
        ensures
            r.0.model() == (TowerModel { policy: policy@, peers: config.wt_client.peers_spec() }),
            (r.0.state(), r.1@) == r.0.model().start(config.wt_server),
    {
        let peers = match config.wt_client {
            WtClient::Disabled => Vec::new(),
            WtClient::Enabled { add_watchtowers } => add_watchtowers,
        };
        assert(texts_view(peers@) =~= config.wt_client.peers_spec());
        if config.wt_server {
            (
                Coordinator { policy, peers, state: TowerState::Querying },
                TowerStep::Call { after_secs: 0, op: TowerOp::QueryTower },
            )
        } else {
            (
                Coordinator { policy, peers, state: TowerState::Withdrawing },
                TowerStep::Call { after_secs: 0, op: TowerOp::WithdrawUrl },
            )
        }
    }

    /// Answers what the last operation brought back with the next step.
    pub fn step(self, event: TowerEvent) -> (r: (Coordinator, TowerStep))
        ensures
            r.0.model() == self.model(),
            (r.0.state(), r.1@) == self.model().next(self.state(), event@),
    {
        let Coordinator { policy, peers, state } = self;
        match (state, event) {
            (TowerState::Withdrawing, TowerEvent::File(_)) => Self::attach_from(policy, peers, 0),
            (TowerState::Querying, TowerEvent::Info { reply, info }) => {
                match judge_cli(&policy, &reply, Fault::UnreadableTowerInfo) {
                    Verdict::Success => {
                        let url = match info {
                            Some(i) => if i.uris.len() > 0 {
                                Some(i.uris[0].clone())
                            } else {
                                None
                            },
                            None => None,
                        };
                        match url {
                            Some(url) => (
                                Coordinator { policy, peers, state: TowerState::Publishing },
                                TowerStep::Call { after_secs: 0, op: TowerOp::PublishUrl { url } },
                            ),
                            None => Self::failed(policy, peers, Fault::UnreadableTowerInfo),
                        }
                    },
                    Verdict::Transient => {
                        let after_secs = policy.interval_secs;
                        (
                            Coordinator { policy, peers, state: TowerState::Querying },
                            TowerStep::Call { after_secs, op: TowerOp::QueryTower },
                        )
                    },
                    Verdict::Fatal(fault) => Self::failed(policy, peers, fault),
                }
            },
            (TowerState::Publishing, TowerEvent::File(_)) => Self::attach_from(policy, peers, 0),
            (TowerState::Adding { index }, TowerEvent::Added(reply)) => {
                if index >= peers.len() {
                    Self::failed(policy, peers, Fault::OutOfTurn)
                } else {
                    match judge_cli(&policy, &reply, Fault::GatewayFailed) {
                        Verdict::Success => Self::attach_from(policy, peers, index + 1),
                        Verdict::Transient => {
                            let after_secs = policy.interval_secs;
                            let uri = peers[index].clone();
                            (
                                Coordinator { policy, peers, state: TowerState::Adding { index } },
                                TowerStep::Call { after_secs, op: TowerOp::AddTower { uri } },
                            )
                        },
                        Verdict::Fatal(fault) => Self::failed(policy, peers, fault),
                    }
                }
            },
            _ => Self::failed(policy, peers, Fault::OutOfTurn),
        }
    }
}

impl TowerStepView {
    /// The step adds the tower with this URI.
    pub open spec fn adds(self, uri: Seq<char>) -> bool {
        self matches TowerStepView::Call { op: TowerOpView::AddTower { uri: u }, .. } && u == uri
    }
}

/// The towers are attached one after the other, in their configured order: the
/// step that answers an attempt on one tower repeats that attempt, after the
/// policy's interval, where it was read as transient; it is the first attempt on
/// the next tower, at once, where it succeeded; and it adds no tower otherwise.
pub proof fn law_towers_one_after_the_other(
    model: TowerModel,
    index: usize,
    reply: CliReplyView,
)
    requires
        index < model.peers.len() <= usize::MAX,
    ensures
        ({
            let verdict = judge_cli_spec(model.policy, reply, Fault::GatewayFailed);
            let (state, step) = model.next(
                TowerState::Adding { index },
                TowerEventView::Added(reply),
            );
            &&& verdict == Verdict::Transient ==> state == (TowerState::Adding { index }) && step
                == (TowerStepView::Call {
                after_secs: model.policy.interval_secs,
                op: TowerOpView::AddTower { uri: model.peers[index as int] },
            })
            &&& verdict == Verdict::Success ==> (state, step) == model.attach_from(
                (index + 1) as nat,
            )
            &&& verdict == Verdict::Success && step is Call ==> index + 1 < model.peers.len()
                && state == (TowerState::Adding { index: (index + 1) as usize }) && step
                == (TowerStepView::Call {
                after_secs: 0,
                op: TowerOpView::AddTower { uri: model.peers[index + 1] },
            })
            &&& verdict is Fatal ==> step is Fatal
        }),
{
}

/// A policy without a marker that also retries a command that could not be run
/// never gives up: it reads every outcome but success as transient.
pub proof fn law_unmarked_policy_never_gives_up(
    policy: RetryPolicyView,
    reply: CliReplyView,
    fault: Fault,
)
    requires
        policy.marker is None,
        policy.retry_not_run,
    ensures
        judge_cli_spec(policy, reply, fault) != Verdict::Fatal(fault),
        !(judge_cli_spec(policy, reply, fault) is Fatal),
        judge_cli_spec(policy, reply, fault) == Verdict::Success <==> reply is Succeeded,
{
}

/// The state of the coordinator after the first `n` of `events`.
pub open spec fn tower_run_state(
    model: TowerModel,
    server: bool,
    events: Seq<TowerEventView>,
    n: nat,
) -> TowerState
    decreases n,
{
    if n == 0 {
        model.start(server).0
    } else {
        model.next(tower_run_state(model, server, events, (n - 1) as nat), events[n - 1]).0
    }
}

/// Before the first `n` of `events` were through, the coordinator waited for the
/// tower at `index`, and the answer it got was a success.
pub open spec fn added_before(
    model: TowerModel,
    server: bool,
    events: Seq<TowerEventView>,
    index: usize,
    n: nat,
) -> bool {
    exists|m: nat|
        m < n && #[trigger] tower_run_state(model, server, events, m) == (TowerState::Adding {
            index,
        }) && succeeded(model, events[m as int])
}

/// The event is the answer to an attempt on a tower, read as a success.
pub open spec fn succeeded(model: TowerModel, event: TowerEventView) -> bool {
    event matches TowerEventView::Added(reply) && judge_cli_spec(
        model.policy,
        reply,
        Fault::GatewayFailed,
    ) == Verdict::Success
}

proof fn lemma_predecessor_added(
    model: TowerModel,
    server: bool,
    events: Seq<TowerEventView>,
    n: nat,
    index: usize,
)
    requires
        model.peers.len() <= usize::MAX,
        index > 0,
        tower_run_state(model, server, events, n) == (TowerState::Adding { index }),
    ensures
        added_before(model, server, events, (index - 1) as usize, n),
    decreases n,
{
    if n > 0 {
        let m = (n - 1) as nat;
        let before = tower_run_state(model, server, events, m);
        if before == (TowerState::Adding { index }) {
            lemma_predecessor_added(model, server, events, m, index);
            let w = choose|w: nat|
                w < m && #[trigger] tower_run_state(model, server, events, w) == (
                TowerState::Adding { index: (index - 1) as usize }) && succeeded(
                    model,
                    events[w as int],
                );
            assert(w < n);
        } else {
            assert(before == (TowerState::Adding { index: (index - 1) as usize }));
            assert(succeeded(model, events[m as int]));
        }
    }
}

/// One tower's success opens the way to the next: whenever the coordinator
/// waits for the tower at some position, every tower before it has been
/// attempted and has answered with a success.
pub proof fn law_towers_wait_for_those_before(
    model: TowerModel,
    server: bool,
    events: Seq<TowerEventView>,
    n: nat,
    index: usize,
    earlier: usize,
)
    requires
        model.peers.len() <= usize::MAX,
        earlier < index,
        tower_run_state(model, server, events, n) == (TowerState::Adding { index }),
    ensures
        added_before(model, server, events, earlier, n),
    decreases index - earlier,
{
    lemma_predecessor_added(model, server, events, n, index);
    if earlier < index - 1 {
        let m = choose|m: nat|
            m < n && #[trigger] tower_run_state(model, server, events, m) == (TowerState::Adding {
                index: (index - 1) as usize,
            }) && succeeded(model, events[m as int]);
        law_towers_wait_for_those_before(
            model,
            server,
            events,
            m,
            (index - 1) as usize,
            earlier,
        );
        let w = choose|w: nat|
            w < m && #[trigger] tower_run_state(model, server, events, w) == (TowerState::Adding {
                index: earlier,
            }) && succeeded(model, events[w as int]);
        assert(w < n);
    }
}

} // verus!
