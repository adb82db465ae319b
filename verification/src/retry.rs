//! The retry policy of a polling site, and the reading of what the gateway
//! brought back: success, a transient state that is retried, or a fault.

use vstd::prelude::*;
use crate::fault::Fault;
use crate::json::{JsonMember, JsonMemberView, json_member, reply_member};
use crate::text::{contains, str_contains};

verus! {

/// Seconds between two looks at a file.
pub const FILE_POLL_SECS: u64 = 1;

/// Seconds between two calls to the node daemon.
pub const RPC_RETRY_SECS: u64 = 5;

/// Seconds between two watchtower commands.
pub const TOWER_RETRY_SECS: u64 = 10;

/// Seconds between two sync queries of the supervisor.
pub const SUPERVISOR_PERIOD_SECS: u64 = 60;

/// How a failure is read.
#[derive(Clone, Copy, Debug, PartialEq, Eq, Structural)]
pub enum Verdict {
    Success,
    Transient,
    Fatal(Fault),
}

/// The policy of one polling site: how long to wait between attempts, and which
/// failures are transient. With a marker, a failure is transient where its text
/// contains the marker; without one, every failure is. A command that could not
/// even be run is retried only where `retry_not_run` says so.
#[derive(Debug, Clone, PartialEq, Eq)]
pub struct RetryPolicy {
    pub interval_secs: u64,
    pub marker: Option<String>,
    pub retry_not_run: bool,
}

/// A policy as a value.
pub struct RetryPolicyView {
    pub interval_secs: u64,
    pub marker: Option<Seq<char>>,
    pub retry_not_run: bool,
}

impl View for RetryPolicy {
    type V = RetryPolicyView;

    open spec fn view(&self) -> RetryPolicyView {
        RetryPolicyView {
            interval_secs: self.interval_secs,
            marker: match self.marker {
                Some(m) => Some(m@),
                None => None,
            },
            retry_not_run: self.retry_not_run,
        }
    }
}

impl RetryPolicyView {
    /// Whether a failure with this text is retried.
    pub open spec fn transient(self, failure: Seq<char>) -> bool {
        match self.marker {
            Some(m) => contains(failure, m),
            None => true,
        }
    }

    /// The reading of a failure with this text, `fault` being what a lasting
    /// failure means at this site.
    pub open spec fn judge_failure(self, failure: Seq<char>, fault: Fault) -> Verdict {
        if self.transient(failure) {
            Verdict::Transient
        } else {
            Verdict::Fatal(fault)
        }
    }
}

/// The text by which the daemon's REST interface says that it is not serving yet.
pub open spec fn rpc_marker() -> Seq<char> {
    "waiting to start"@
}

/// The text by which the command-line tool says that the daemon is still starting.
pub open spec fn restore_marker_text() -> Seq<char> {
    "server is still in the process of starting"@
}

/// The policy of the calls to the daemon's REST interface.
pub open spec fn rpc_policy() -> RetryPolicyView {
    RetryPolicyView {
        interval_secs: RPC_RETRY_SECS,
        marker: Some(rpc_marker()),
        retry_not_run: false,
    }
}

/// The policy of the channel-backup restore.
pub open spec fn restore_policy() -> RetryPolicyView {
    RetryPolicyView {
        interval_secs: RPC_RETRY_SECS,
        marker: Some(restore_marker_text()),
        retry_not_run: false,
    }
}

/// The policy of the watchtower commands: every failure is retried, also that of
/// running the command.
pub open spec fn tower_policy() -> RetryPolicyView {
    RetryPolicyView { interval_secs: TOWER_RETRY_SECS, marker: None, retry_not_run: true }
}

impl RetryPolicy {
    /// Retry every five seconds while the daemon says "waiting to start".
    pub fn rpc() -> (p: RetryPolicy)
        ensures
            p@ == rpc_policy(),
    {
        RetryPolicy {
            interval_secs: RPC_RETRY_SECS,
            marker: Some("waiting to start".to_owned()),
            retry_not_run: false,
        }
    }

    /// Retry every five seconds while the tool says that the server is still
    /// in the process of starting.
    pub fn restore() -> (p: RetryPolicy)
        ensures
            p@ == restore_policy(),
    {
        RetryPolicy {
            interval_secs: RPC_RETRY_SECS,
            marker: Some("server is still in the process of starting".to_owned()),
            retry_not_run: false,
        }
    }

    /// Retry every ten seconds, whatever the failure.
    pub fn tower() -> (p: RetryPolicy)
        ensures
            p@ == tower_policy(),
    {
        RetryPolicy { interval_secs: TOWER_RETRY_SECS, marker: None, retry_not_run: true }
    }

    /// Whether a failure with this text is retried.
    pub fn is_transient(&self, failure: &str) -> (r: bool)
        ensures
            r == self@.transient(failure@),
    {
        match &self.marker {
            Some(m) => str_contains(failure, m.as_str()),
            None => true,
        }
    }

    /// Reads a failure: transient, or the fault that a lasting failure means here.
    pub fn judge_failure(&self, failure: &str, fault: Fault) -> (v: Verdict)
        ensures
            v == self@.judge_failure(failure@, fault),
    {
        if self.is_transient(failure) {
            Verdict::Transient
        } else {
            Verdict::Fatal(fault)
        }
    }
}

/// What came back from a call to the daemon's REST interface.
#[derive(Debug, PartialEq, Eq)]
pub enum RpcReply {
    /// The call could not be made.
    NotRun,
    /// The reply is not text.
    NotText,
    /// The reply's body.
    Body(String),
}

/// A reply of the REST interface as a value.
pub enum RpcReplyView {
    NotRun,
    NotText,
    Body(Seq<char>),
}

impl View for RpcReply {
    type V = RpcReplyView;

    open spec fn view(&self) -> RpcReplyView {
        match self {
            RpcReply::NotRun => RpcReplyView::NotRun,
            RpcReply::NotText => RpcReplyView::NotText,
            RpcReply::Body(b) => RpcReplyView::Body(b@),
        }
    }
}

/// What came back from a command of the companion tool.
#[derive(Debug, PartialEq, Eq)]
pub enum CliReply {
    /// The command could not be run.
    NotRun,
    /// The command ran and failed, with this text on its error stream.
    Failed(String),
    /// The command ran and succeeded.
    Succeeded,
}

/// A reply of a command as a value.
pub enum CliReplyView {
    NotRun,
    Failed(Seq<char>),
    Succeeded,
}

impl View for CliReply {
    type V = CliReplyView;

    open spec fn view(&self) -> CliReplyView {
        match self {
            CliReply::NotRun => CliReplyView::NotRun,
            CliReply::Failed(e) => CliReplyView::Failed(e@),
            CliReply::Succeeded => CliReplyView::Succeeded,
        }
    }
}

/// The key under which the daemon reports an error.
pub open spec fn message_key() -> Seq<char> {
    "message"@
}

/// The reading of the `message` member of a reply: a reply without one is a
/// success; a message is transient or means `fault`, as the policy has it.
pub open spec fn judge_member_spec(
    policy: RetryPolicyView,
    member: JsonMemberView,
    fault: Fault,
) -> Verdict {
    match member {
        JsonMemberView::NotObject => Verdict::Fatal(Fault::InvalidReply),
        JsonMemberView::Absent => Verdict::Success,
        JsonMemberView::NotText => Verdict::Fatal(Fault::InvalidErrorReply),
        JsonMemberView::Text(m) => policy.judge_failure(m, fault),
    }
}

/// The reading of a reply of the REST interface.
pub open spec fn judge_rpc_spec(policy: RetryPolicyView, reply: RpcReplyView, fault: Fault) -> Verdict {
    match reply {
        RpcReplyView::NotRun => Verdict::Fatal(Fault::GatewayFailed),
        RpcReplyView::NotText => Verdict::Fatal(Fault::UnreadableReply),
        RpcReplyView::Body(b) => match json_member(b, message_key()) {
            None => Verdict::Fatal(Fault::UnreadableReply),
            Some(member) => judge_member_spec(policy, member, fault),
        },
    }
}

/// The reading of what a command brought back: a command that could not be run
/// is transient where the policy retries that, and a gateway fault where not.
pub open spec fn judge_cli_spec(policy: RetryPolicyView, reply: CliReplyView, fault: Fault) -> Verdict {
    match reply {
        CliReplyView::NotRun => if policy.retry_not_run {
            Verdict::Transient
        } else {
            Verdict::Fatal(Fault::GatewayFailed)
        },
        CliReplyView::Failed(e) => policy.judge_failure(e, fault),
        CliReplyView::Succeeded => Verdict::Success,
    }
}

/// Reads the `message` member of a reply.
pub fn judge_member(policy: &RetryPolicy, member: &JsonMember, fault: Fault) -> (v: Verdict)
    ensures
        v == judge_member_spec(policy@, member@, fault),
{
    match member {
        JsonMember::NotObject => Verdict::Fatal(Fault::InvalidReply),
        JsonMember::Absent => Verdict::Success,
        JsonMember::NotText => Verdict::Fatal(Fault::InvalidErrorReply),
        JsonMember::Text(m) => policy.judge_failure(m.as_str(), fault),
    }
}

/// Reads a reply of the REST interface.
pub fn judge_rpc(policy: &RetryPolicy, reply: &RpcReply, fault: Fault) -> (v: Verdict)
    ensures
        v == judge_rpc_spec(policy@, reply@, fault),
{
    match reply {
        RpcReply::NotRun => Verdict::Fatal(Fault::GatewayFailed),
        RpcReply::NotText => Verdict::Fatal(Fault::UnreadableReply),
        RpcReply::Body(b) => match reply_member(b.as_str(), "message") {
            None => Verdict::Fatal(Fault::UnreadableReply),
            Some(member) => judge_member(policy, &member, fault),
        },
    }
}

/// Reads what a command brought back.
pub fn judge_cli(policy: &RetryPolicy, reply: &CliReply, fault: Fault) -> (v: Verdict)
    ensures
        v == judge_cli_spec(policy@, reply@, fault),
{
    match reply {
        CliReply::NotRun => if policy.retry_not_run {
            Verdict::Transient
        } else {
            Verdict::Fatal(Fault::GatewayFailed)
        },
        CliReply::Failed(e) => policy.judge_failure(e.as_str(), fault),
        CliReply::Succeeded => Verdict::Success,
    }
}

} // verus!
