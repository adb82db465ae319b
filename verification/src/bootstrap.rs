//! The credential bootstrapper: one machine that creates a fresh wallet, or
//! unlocks the stored one, after rotating a secret that cannot be typed, and
//! then restores the channel backup where a restore is pending.
//!
//! The machine decides; its driver performs each operation it is handed and
//! reports what came back.

use vstd::prelude::*;
use crate::fault::Fault;
use crate::json::texts_view;
use crate::properties::{CipherSeedMnemonic, seed_file_text, seed_text};
use crate::requests::{init_body, init_text, rotation_body, rotation_text, unlock_body, unlock_text};
use crate::retry::{
    CliReply, CliReplyView, RetryPolicy, RetryPolicyView, RpcReply, RpcReplyView, Verdict,
    judge_cli, judge_cli_spec, judge_rpc, judge_rpc_spec,
};
use crate::secret::{
    MAX_BASE64_INPUT, MAX_SECRET_LEN, base32_bytes, encode_typeable, pw_is_typeable, typeable,
};

verus! {

/// Number of random bytes behind a fresh secret.
pub const ENTROPY_LEN: usize = 16;

/// What the credential file says: no wallet was ever created, or one was and
/// this is its secret.
#[derive(Debug, Clone, PartialEq, Eq)]
pub enum CredentialState {
    NoWallet,
    Stored(Vec<u8>),
}

/// A credential state as a value.
pub enum CredentialStateView {
    NoWallet,
    Stored(Seq<u8>),
}

impl View for CredentialState {
    type V = CredentialStateView;

    open spec fn view(&self) -> CredentialStateView {
        match self {
            CredentialState::NoWallet => CredentialStateView::NoWallet,
            CredentialState::Stored(s) => CredentialStateView::Stored(s@),
        }
    }
}

/// The files that decide the bootstrap, looked at once.
#[derive(Debug, Clone, PartialEq, Eq)]
pub struct DiskSnapshot {
    pub credential: CredentialState,
    /// A disaster-recovery restore is pending.
    pub restore_marker: bool,
    /// A channel backup is there to restore from.
    pub backup_artifact: bool,
}

/// A snapshot as a value.
pub struct DiskSnapshotView {
    pub credential: CredentialStateView,
    pub restore_marker: bool,
    pub backup_artifact: bool,
}

impl View for DiskSnapshot {
    type V = DiskSnapshotView;

    open spec fn view(&self) -> DiskSnapshotView {
        DiskSnapshotView {
            credential: self.credential@,
            restore_marker: self.restore_marker,
            backup_artifact: self.backup_artifact,
        }
    }
}

impl DiskSnapshotView {
    /// A restore is carried out where it is pending and there is a backup.
    pub open spec fn restore_due(self) -> bool {
        self.restore_marker && self.backup_artifact
    }
}

/// Whether a disaster-recovery restore is pending.
pub fn is_restore(disk: &DiskSnapshot) -> (pending: bool)
    ensures
        pending == disk@.restore_marker,
{
    disk.restore_marker
}

/// The three ways through the bootstrap.
#[derive(Clone, Copy, Debug, PartialEq, Eq, Structural)]
pub enum BootstrapPath {
    /// No wallet yet: create one.
    FreshWallet,
    /// The stored secret cannot be typed: rotate it, then unlock.
    RotateAndUnlock,
    /// The stored secret can be typed: unlock.
    PlainUnlock,
}

/// The path that a credential state calls for.
pub open spec fn bootstrap_path(credential: CredentialStateView) -> BootstrapPath {
    match credential {
        CredentialStateView::NoWallet => BootstrapPath::FreshWallet,
        CredentialStateView::Stored(s) => if typeable(s) {
            BootstrapPath::PlainUnlock
        } else {
            BootstrapPath::RotateAndUnlock
        },
    }
}

/// How a bootstrap ended.
#[derive(Clone, Copy, Debug, PartialEq, Eq, Structural)]
pub struct BootOutcome {
    pub path: BootstrapPath,
    pub restored: bool,
}

/// What the driver is to do next.
#[derive(Debug, Clone, PartialEq, Eq)]
pub enum BootOp {
    /// Read this many random bytes.
    ReadEntropy { len: usize },
    /// Ask the daemon for a seed phrase.
    GenSeed,
    /// Write the recovery file. A failure is reported and changes nothing.
    SaveSeed { text: String },
    /// Initialise the wallet.
    InitWallet { body: String },
    /// Write the secret to a temporary file and rename that onto the credential file.
    PersistCredential { secret: Vec<u8> },
    /// Change the wallet's password.
    ChangePassword { body: String },
    /// Unlock the wallet.
    Unlock { body: String },
    /// Remove the routing-graph cache.
    DropGraphCache,
    /// Restore the channels from the backup.
    RestoreBackup,
    /// Remove the restore marker.
    ClearRestoreMarker,
}

/// An operation as a value.
pub enum BootOpView {
    ReadEntropy { len: usize },
    GenSeed,
    SaveSeed { text: Seq<char> },
    InitWallet { body: Seq<char> },
    PersistCredential { secret: Seq<u8> },
    ChangePassword { body: Seq<char> },
    Unlock { body: Seq<char> },
    DropGraphCache,
    RestoreBackup,
    ClearRestoreMarker,
}

impl View for BootOp {
    type V = BootOpView;

    open spec fn view(&self) -> BootOpView {
        match self {
            BootOp::ReadEntropy { len } => BootOpView::ReadEntropy { len: *len },
            BootOp::GenSeed => BootOpView::GenSeed,
            BootOp::SaveSeed { text } => BootOpView::SaveSeed { text: text@ },
            BootOp::InitWallet { body } => BootOpView::InitWallet { body: body@ },
            BootOp::PersistCredential { secret } => BootOpView::PersistCredential {
                secret: secret@,
            },
            BootOp::ChangePassword { body } => BootOpView::ChangePassword { body: body@ },
            BootOp::Unlock { body } => BootOpView::Unlock { body: body@ },
            BootOp::DropGraphCache => BootOpView::DropGraphCache,
            BootOp::RestoreBackup => BootOpView::RestoreBackup,
            BootOp::ClearRestoreMarker => BootOpView::ClearRestoreMarker,
        }
    }
}

/// One step of the bootstrap: an operation to perform after a wait, or its end.
#[derive(Debug, Clone, PartialEq, Eq)]
pub enum BootStep {
    Call { after_secs: u64, op: BootOp },
    Done(BootOutcome),
    Fatal(Fault),
}

/// A step as a value.
pub enum BootStepView {
    Call { after_secs: u64, op: BootOpView },
    Done(BootOutcome),
    Fatal(Fault),
}

impl View for BootStep {
    type V = BootStepView;

    open spec fn view(&self) -> BootStepView {
        match self {
            BootStep::Call { after_secs, op } => BootStepView::Call {
                after_secs: *after_secs,
                op: op@,
            },
            BootStep::Done(o) => BootStepView::Done(*o),
            BootStep::Fatal(f) => BootStepView::Fatal(*f),
        }
    }
}

/// What came back from the request for a seed phrase.
#[derive(Debug, Clone, PartialEq, Eq)]
pub enum SeedReply {
    /// The request could not be made.
    NotRun,
    /// The request failed.
    Failed,
    /// The reply holds no seed phrase: the daemon is not serving yet.
    Unreadable,
    /// The seed phrase.
    Phrase(CipherSeedMnemonic),
}

/// A seed reply as a value.
pub enum SeedReplyView {
    NotRun,
    Failed,
    Unreadable,
    Phrase(Seq<Seq<char>>),
}

impl View for SeedReply {
    type V = SeedReplyView;

    open spec fn view(&self) -> SeedReplyView {
        match self {
            SeedReply::NotRun => SeedReplyView::NotRun,
            SeedReply::Failed => SeedReplyView::Failed,
            SeedReply::Unreadable => SeedReplyView::Unreadable,
            SeedReply::Phrase(p) => SeedReplyView::Phrase(p@),
        }
    }
}

/// What came back from the wallet initialisation.
#[derive(Clone, Copy, Debug, PartialEq, Eq, Structural)]
pub enum InitReply {
    NotRun,
    Refused,
    Accepted,
}

/// What the driver reports back.
#[derive(Debug, PartialEq, Eq)]
pub enum BootEvent {
    /// The random bytes that were asked for.
    Entropy(Vec<u8>),
    /// The answer to `GenSeed`.
    Seed(SeedReply),
    /// Whether a file operation succeeded.
    File(bool),
    /// The answer to `InitWallet`.
    Init(InitReply),
    /// The answer to `ChangePassword` or `Unlock`.
    Rpc(RpcReply),
    /// The answer to `RestoreBackup`.
    Cli(CliReply),
}

/// An event as a value.
pub enum BootEventView {
    Entropy(Seq<u8>),
    Seed(SeedReplyView),
    File(bool),
    Init(InitReply),
    Rpc(RpcReplyView),
    Cli(CliReplyView),
}

impl View for BootEvent {
    type V = BootEventView;

    open spec fn view(&self) -> BootEventView {
        match self {
            BootEvent::Entropy(b) => BootEventView::Entropy(b@),
            BootEvent::Seed(r) => BootEventView::Seed(r@),
            BootEvent::File(ok) => BootEventView::File(*ok),
            BootEvent::Init(r) => BootEventView::Init(*r),
            BootEvent::Rpc(r) => BootEventView::Rpc(r@),
            BootEvent::Cli(r) => BootEventView::Cli(r@),
        }
    }
}

/// What does not change while the machine runs.
pub struct BootContext {
    /// The address-recovery window sent with an unlock.
    pub recovery_window: Option<u64>,
    /// A restore follows the unlock.
    pub restore_due: bool,
    /// The policy of the calls to the daemon.
    pub rpc: RetryPolicy,
    /// The policy of the restore command.
    pub restore: RetryPolicy,
}

/// The context as a value.
pub struct BootContextView {
    pub recovery_window: Option<u64>,
    pub restore_due: bool,
    pub rpc: RetryPolicyView,
    pub restore: RetryPolicyView,
}

impl View for BootContext {
    type V = BootContextView;

    open spec fn view(&self) -> BootContextView {
        BootContextView {
            recovery_window: self.recovery_window,
            restore_due: self.restore_due,
            rpc: self.rpc@,
            restore: self.restore@,
        }
    }
}

/// Where the machine stands: which answer it is waiting for.
pub enum BootState {
    /// No wallet; waiting for random bytes.
    NeedEntropy,
    /// Waiting for the seed phrase.
    SeedRequested { password: Vec<u8> },
    /// Waiting for the recovery file to be written.
    SeedSaving { password: Vec<u8>, words: Vec<String> },
    /// Waiting for the wallet initialisation.
    InitRequested { password: Vec<u8> },
    /// Wallet created; waiting for the fresh secret to be stored.
    FreshStoring,
    /// Waiting for the password change.
    Rotating { secret: Vec<u8>, rotated: Vec<u8> },
    /// Rotation confirmed; waiting for the new secret to be stored.
    RotatedStoring { rotated: Vec<u8> },
    /// Waiting for the unlock.
    Unlocking { secret: Vec<u8>, rotated: bool },
    /// Unlocked; waiting for the graph cache to be removed.
    GraphDropping { rotated: bool },
    /// Waiting for the restore command.
    Restoring { rotated: bool },
    /// Restored; waiting for the marker to be removed.
    MarkerClearing { rotated: bool },
    Done,
    Failed,
}

/// A state as a value.
pub enum BootStateView {
    NeedEntropy,
    SeedRequested { password: Seq<u8> },
    SeedSaving { password: Seq<u8>, words: Seq<Seq<char>> },
    InitRequested { password: Seq<u8> },
    FreshStoring,
    Rotating { secret: Seq<u8>, rotated: Seq<u8> },
    RotatedStoring { rotated: Seq<u8> },
    Unlocking { secret: Seq<u8>, rotated: bool },
    GraphDropping { rotated: bool },
    Restoring { rotated: bool },
    MarkerClearing { rotated: bool },
    Done,
    Failed,
}

impl View for BootState {
    type V = BootStateView;

    open spec fn view(&self) -> BootStateView {
        match self {
            BootState::NeedEntropy => BootStateView::NeedEntropy,
            BootState::SeedRequested { password } => BootStateView::SeedRequested {
                password: password@,
            },
            BootState::SeedSaving { password, words } => BootStateView::SeedSaving {
                password: password@,
                words: texts_view(words@),
            },
            BootState::InitRequested { password } => BootStateView::InitRequested {
                password: password@,
            },
            BootState::FreshStoring => BootStateView::FreshStoring,
            BootState::Rotating { secret, rotated } => BootStateView::Rotating {
                secret: secret@,
                rotated: rotated@,
            },
            BootState::RotatedStoring { rotated } => BootStateView::RotatedStoring {
                rotated: rotated@,
            },
            BootState::Unlocking { secret, rotated } => BootStateView::Unlocking {
                secret: secret@,
                rotated: *rotated,
            },
            BootState::GraphDropping { rotated } => BootStateView::GraphDropping {
                rotated: *rotated,
            },
            BootState::Restoring { rotated } => BootStateView::Restoring { rotated: *rotated },
            BootState::MarkerClearing { rotated } => BootStateView::MarkerClearing {
                rotated: *rotated,
            },
            BootState::Done => BootStateView::Done,
            BootState::Failed => BootStateView::Failed,
        }
    }
}

/// A secret that the request encoder takes.
pub open spec fn encodable(secret: Seq<u8>) -> bool {
    secret.len() <= MAX_BASE64_INPUT
}

impl BootStateView {
    /// Every secret that the state holds can be put into a request, and every
    /// secret that the machine made itself can be typed.
    pub open spec fn wf(self) -> bool {
        match self {
            BootStateView::SeedRequested { password } => encodable(password) && typeable(password),
            BootStateView::SeedSaving { password, .. } => encodable(password) && typeable(
                password,
            ),
            BootStateView::InitRequested { password } => encodable(password) && typeable(password),
            BootStateView::Rotating { secret, rotated } => encodable(secret) && encodable(rotated)
                && typeable(rotated),
            BootStateView::RotatedStoring { rotated } => encodable(rotated) && typeable(rotated),
            BootStateView::Unlocking { secret, .. } => encodable(secret),
            _ => true,
        }
    }

    /// The machine has come to its end.
    pub open spec fn ended(self) -> bool {
        self is Done || self is Failed
    }
}

impl BootStepView {
    /// The step is a call of this operation.
    pub open spec fn calls(self, op: BootOpView) -> bool {
        self matches BootStepView::Call { op: o, .. } && o == op
    }

    /// The step asks for random bytes.
    pub open spec fn reads_entropy(self) -> bool {
        self matches BootStepView::Call { op: BootOpView::ReadEntropy { .. }, .. }
    }

    /// The step writes the recovery file.
    pub open spec fn saves_seed(self) -> bool {
        self matches BootStepView::Call { op: BootOpView::SaveSeed { .. }, .. }
    }

    /// The step initialises the wallet.
    pub open spec fn inits_wallet(self) -> bool {
        self matches BootStepView::Call { op: BootOpView::InitWallet { .. }, .. }
    }

    /// The step changes the wallet's password.
    pub open spec fn changes_password(self) -> bool {
        self matches BootStepView::Call { op: BootOpView::ChangePassword { .. }, .. }
    }

    /// The step unlocks the wallet.
    pub open spec fn unlocks(self) -> bool {
        self matches BootStepView::Call { op: BootOpView::Unlock { .. }, .. }
    }

    /// The step stores a secret.
    pub open spec fn persists(self) -> bool {
        self matches BootStepView::Call { op: BootOpView::PersistCredential { .. }, .. }
    }

    /// The step belongs to the restore: it drops the graph cache, runs the
    /// restore command or clears the marker.
    pub open spec fn restores(self) -> bool {
        self.calls(BootOpView::DropGraphCache) || self.calls(BootOpView::RestoreBackup)
            || self.calls(BootOpView::ClearRestoreMarker)
    }

    /// Where the step stores a secret, that secret can be typed.
    pub open spec fn persists_typeable_only(self) -> bool {
        self matches BootStepView::Call { op: BootOpView::PersistCredential { secret }, .. }
            ==> typeable(secret)
    }
}

/// The step that performs `op` after `after_secs` seconds.
pub open spec fn call(after_secs: u64, op: BootOpView) -> BootStepView {
    BootStepView::Call { after_secs, op }
}

/// The end of the machine on a fault.
pub open spec fn fail(fault: Fault) -> (BootStateView, BootStepView) {
    (BootStateView::Failed, BootStepView::Fatal(fault))
}

/// The end of the machine on success.
pub open spec fn finish(rotated: bool, restored: bool) -> (BootStateView, BootStepView) {
    (
        BootStateView::Done,
        BootStepView::Done(
            BootOutcome {
                path: if rotated {
                    BootstrapPath::RotateAndUnlock
                } else {
                    BootstrapPath::PlainUnlock
                },
                restored,
            },
        ),
    )
}

impl BootContextView {
    /// An unlock with `secret`, after the policy's interval.
    pub open spec fn unlock_call(self, secret: Seq<u8>, rotated: bool) -> (
        BootStateView,
        BootStepView,
    ) {
        match unlock_text(secret, self.recovery_window) {
            Some(body) => (
                BootStateView::Unlocking { secret, rotated },
                call(self.rpc.interval_secs, BootOpView::Unlock { body }),
            ),
            None => fail(Fault::RequestNotEncodable),
        }
    }

    /// A password change from `secret` to `rotated`, after the policy's interval.
    pub open spec fn rotation_call(self, secret: Seq<u8>, rotated: Seq<u8>) -> (
        BootStateView,
        BootStepView,
    ) {
        match rotation_text(secret, rotated) {
            Some(body) => (
                BootStateView::Rotating { secret, rotated },
                call(self.rpc.interval_secs, BootOpView::ChangePassword { body }),
            ),
            None => fail(Fault::RequestNotEncodable),
        }
    }

    /// What follows a successful unlock: the restore where one is due, else the end.
    pub open spec fn after_unlock(self, rotated: bool) -> (BootStateView, BootStepView) {
        if self.restore_due {
            (BootStateView::GraphDropping { rotated }, call(0, BootOpView::DropGraphCache))
        } else {
            finish(rotated, false)
        }
    }

    /// The first step: by the credential state, the request for random bytes,
    /// the rotation of a secret that cannot be typed, or the unlock.
    pub open spec fn start(self, credential: CredentialStateView) -> (BootStateView, BootStepView) {
        match credential {
            CredentialStateView::NoWallet => (
                BootStateView::NeedEntropy,
                call(0, BootOpView::ReadEntropy { len: ENTROPY_LEN }),
            ),
            CredentialStateView::Stored(secret) => if secret.len() > MAX_SECRET_LEN {
                fail(Fault::SecretTooLong)
            } else if typeable(secret) {
                self.unlock_call(secret, false)
            } else {
                self.rotation_call(secret, base32_bytes(secret))
            },
        }
    }

    /// The step that answers `event` in `state`.
    pub open spec fn next(self, state: BootStateView, event: BootEventView) -> (
        BootStateView,
        BootStepView,
    ) {
        match (state, event) {
            (BootStateView::NeedEntropy, BootEventView::Entropy(bytes)) => {
                if bytes.len() == ENTROPY_LEN {
                    (
                        BootStateView::SeedRequested { password: base32_bytes(bytes) },
                        call(0, BootOpView::GenSeed),
                    )
                } else {
                    fail(Fault::BadEntropy)
                }
            },
            (BootStateView::SeedRequested { password }, BootEventView::Seed(reply)) => {
                match reply {
                    SeedReplyView::NotRun => fail(Fault::GatewayFailed),
                    SeedReplyView::Failed => fail(Fault::SeedRefused),
                    SeedReplyView::Unreadable => (
                        BootStateView::SeedRequested { password },
                        call(self.rpc.interval_secs, BootOpView::GenSeed),
                    ),
                    SeedReplyView::Phrase(words) => (
                        BootStateView::SeedSaving { password, words },
                        call(0, BootOpView::SaveSeed { text: seed_text(words) }),
                    ),
                }
            },
            (BootStateView::SeedSaving { password, words }, BootEventView::File(_)) => {
                match init_text(password, words) {
                    Some(body) => (
                        BootStateView::InitRequested { password },
                        call(0, BootOpView::InitWallet { body }),
                    ),
                    None => fail(Fault::RequestNotEncodable),
                }
            },
            (BootStateView::InitRequested { password }, BootEventView::Init(reply)) => {
                match reply {
                    InitReply::NotRun => fail(Fault::GatewayFailed),
                    InitReply::Refused => fail(Fault::WalletInitRefused),
                    InitReply::Accepted => (
                        BootStateView::FreshStoring,
                        call(0, BootOpView::PersistCredential { secret: password }),
                    ),
                }
            },
            (BootStateView::FreshStoring, BootEventView::File(ok)) => {
                if ok {
                    (
                        BootStateView::Done,
                        BootStepView::Done(
                            BootOutcome { path: BootstrapPath::FreshWallet, restored: false },
                        ),
                    )
                } else {
                    fail(Fault::CredentialNotPersisted)
                }
            },
            (BootStateView::Rotating { secret, rotated }, BootEventView::Rpc(reply)) => {
                match judge_rpc_spec(self.rpc, reply, Fault::RotationRefused) {
                    Verdict::Success => (
                        BootStateView::RotatedStoring { rotated },
                        call(0, BootOpView::PersistCredential { secret: rotated }),
                    ),
                    Verdict::Transient => self.rotation_call(secret, rotated),
                    Verdict::Fatal(fault) => fail(fault),
                }
            },
            (BootStateView::RotatedStoring { rotated }, BootEventView::File(ok)) => {
                if ok {
                    self.unlock_call(rotated, true)
                } else {
                    fail(Fault::CredentialNotPersisted)
                }
            },
            (BootStateView::Unlocking { secret, rotated }, BootEventView::Rpc(reply)) => {
                match judge_rpc_spec(self.rpc, reply, Fault::UnlockRefused) {
                    Verdict::Success => self.after_unlock(rotated),
                    Verdict::Transient => self.unlock_call(secret, rotated),
                    Verdict::Fatal(fault) => fail(fault),
                }
            },
            (BootStateView::GraphDropping { rotated }, BootEventView::File(ok)) => {
                if ok {
                    (
                        BootStateView::Restoring { rotated },
                        call(self.restore.interval_secs, BootOpView::RestoreBackup),
                    )
                } else {
                    fail(Fault::GraphCacheNotDropped)
                }
            },
            (BootStateView::Restoring { rotated }, BootEventView::Cli(reply)) => {
                match judge_cli_spec(self.restore, reply, Fault::RestoreRefused) {
                    Verdict::Success => (
                        BootStateView::MarkerClearing { rotated },
                        call(0, BootOpView::ClearRestoreMarker),
                    ),
                    Verdict::Transient => (
                        BootStateView::Restoring { rotated },
                        call(self.restore.interval_secs, BootOpView::RestoreBackup),
                    ),
                    Verdict::Fatal(fault) => fail(fault),
                }
            },
            (BootStateView::MarkerClearing { rotated }, BootEventView::File(ok)) => {
                if ok {
                    finish(rotated, true)
                } else {
                    fail(Fault::RestoreMarkerNotCleared)
                }
            },
            _ => fail(Fault::OutOfTurn),
        }
    }
}

fn failed(fault: Fault) -> (r: (BootState, BootStep))
    ensures
        (r.0@, r.1@) == fail(fault),
        r.0@.wf(),
{
    (BootState::Failed, BootStep::Fatal(fault))
}

fn finished(rotated: bool, restored: bool) -> (r: (BootState, BootStep))
    ensures
        (r.0@, r.1@) == finish(rotated, restored),
        r.0@.wf(),
{
    let path = if rotated {
        BootstrapPath::RotateAndUnlock
    } else {
        BootstrapPath::PlainUnlock
    };
    (BootState::Done, BootStep::Done(BootOutcome { path, restored }))
}

fn copy_bytes(v: &Vec<u8>) -> (r: Vec<u8>)
    ensures
        r@ == v@,
{
    let mut r: Vec<u8> = Vec::new();
    let mut i: usize = 0;
    while i < v.len()
        invariant
            i <= v.len(),
            r@ == v@.take(i as int),
        decreases v.len() - i,
    {
        r.push(v[i]);
        assert(r@ =~= v@.take(i + 1));
        i += 1;
    }
    assert(v@.take(v.len() as int) =~= v@);
    r
}

fn unlock_call(ctx: &BootContext, secret: Vec<u8>, rotated: bool) -> (r: (BootState, BootStep))
    requires
        encodable(secret@),
    ensures
        (r.0@, r.1@) == ctx@.unlock_call(secret@, rotated),
        r.0@.wf(),
{
    match unlock_body(secret.as_slice(), ctx.recovery_window) {
        Some(body) => (
            BootState::Unlocking { secret, rotated },
            BootStep::Call { after_secs: ctx.rpc.interval_secs, op: BootOp::Unlock { body } },
        ),
        None => failed(Fault::RequestNotEncodable),
    }
}

fn rotation_call(ctx: &BootContext, secret: Vec<u8>, rotated: Vec<u8>) -> (r: (
    BootState,
    BootStep,
))
    requires
        encodable(secret@),
        encodable(rotated@),
        typeable(rotated@),
    ensures
        (r.0@, r.1@) == ctx@.rotation_call(secret@, rotated@),
        r.0@.wf(),
{
    match rotation_body(secret.as_slice(), rotated.as_slice()) {
        Some(body) => (
            BootState::Rotating { secret, rotated },
            BootStep::Call {
                after_secs: ctx.rpc.interval_secs,
                op: BootOp::ChangePassword { body },
            },
        ),
        None => failed(Fault::RequestNotEncodable),
    }
}

fn after_unlock(ctx: &BootContext, rotated: bool) -> (r: (BootState, BootStep))
    ensures
        (r.0@, r.1@) == ctx@.after_unlock(rotated),
        r.0@.wf(),
{
    if ctx.restore_due {
        (
            BootState::GraphDropping { rotated },
            BootStep::Call { after_secs: 0, op: BootOp::DropGraphCache },
        )
    } else {
        finished(rotated, false)
    }
}

fn begin(ctx: &BootContext, credential: CredentialState) -> (r: (BootState, BootStep))
    ensures
        (r.0@, r.1@) == ctx@.start(credential@),
        r.0@.wf(),
        r.1@.persists_typeable_only(),
{
    match credential {
        CredentialState::NoWallet => (
            BootState::NeedEntropy,
            BootStep::Call { after_secs: 0, op: BootOp::ReadEntropy { len: ENTROPY_LEN } },
        ),
        CredentialState::Stored(secret) => {
            if secret.len() > MAX_SECRET_LEN {
                failed(Fault::SecretTooLong)
            } else if pw_is_typeable(secret.as_slice()) {
                unlock_call(ctx, secret, false)
            } else {
                let rotated = encode_typeable(secret.as_slice());
                rotation_call(ctx, secret, rotated)
            }
        },
    }
}

fn advance(ctx: &BootContext, state: BootState, event: BootEvent) -> (r: (BootState, BootStep))
    requires
        state@.wf(),
    ensures
        (r.0@, r.1@) == ctx@.next(state@, event@),
        r.0@.wf(),
        r.1@.persists_typeable_only(),
{
    match (state, event) {
        (BootState::NeedEntropy, BootEvent::Entropy(bytes)) => {
            if bytes.len() == ENTROPY_LEN {
                let password = encode_typeable(bytes.as_slice());
                (
                    BootState::SeedRequested { password },
                    BootStep::Call { after_secs: 0, op: BootOp::GenSeed },
                )
            } else {
                failed(Fault::BadEntropy)
            }
        },
        (BootState::SeedRequested { password }, BootEvent::Seed(reply)) => {
            match reply {
                SeedReply::NotRun => failed(Fault::GatewayFailed),
                SeedReply::Failed => failed(Fault::SeedRefused),
                SeedReply::Unreadable => (
                    BootState::SeedRequested { password },
                    BootStep::Call { after_secs: ctx.rpc.interval_secs, op: BootOp::GenSeed },
                ),
                SeedReply::Phrase(phrase) => {
                    let words = phrase.cipher_seed_mnemonic;
                    let text = seed_file_text(&words);
                    (
                        BootState::SeedSaving { password, words },
                        BootStep::Call { after_secs: 0, op: BootOp::SaveSeed { text } },
                    )
                },
            }
        },
        (BootState::SeedSaving { password, words }, BootEvent::File(_)) => {
            match init_body(password.as_slice(), words) {
                Some(body) => (
                    BootState::InitRequested { password },
                    BootStep::Call { after_secs: 0, op: BootOp::InitWallet { body } },
                ),
                None => failed(Fault::RequestNotEncodable),
            }
        },
        (BootState::InitRequested { password }, BootEvent::Init(reply)) => {
            match reply {
                InitReply::NotRun => failed(Fault::GatewayFailed),
                InitReply::Refused => failed(Fault::WalletInitRefused),
                InitReply::Accepted => (
                    BootState::FreshStoring,
                    BootStep::Call {
                        after_secs: 0,
                        op: BootOp::PersistCredential { secret: password },
                    },
                ),
            }
        },
        (BootState::FreshStoring, BootEvent::File(ok)) => {
            if ok {
                (
                    BootState::Done,
                    BootStep::Done(
                        BootOutcome { path: BootstrapPath::FreshWallet, restored: false },
                    ),
                )
            } else {
                failed(Fault::CredentialNotPersisted)
            }
        },
        (BootState::Rotating { secret, rotated }, BootEvent::Rpc(reply)) => {
            match judge_rpc(&ctx.rpc, &reply, Fault::RotationRefused) {
                Verdict::Success => {
                    let secret = copy_bytes(&rotated);
                    (
                        BootState::RotatedStoring { rotated },
                        BootStep::Call { after_secs: 0, op: BootOp::PersistCredential { secret } },
                    )
                },
                Verdict::Transient => rotation_call(ctx, secret, rotated),
                Verdict::Fatal(fault) => failed(fault),
            }
        },
        (BootState::RotatedStoring { rotated }, BootEvent::File(ok)) => {
            if ok {
                unlock_call(ctx, rotated, true)
            } else {
                failed(Fault::CredentialNotPersisted)
            }
        },
        (BootState::Unlocking { secret, rotated }, BootEvent::Rpc(reply)) => {
            match judge_rpc(&ctx.rpc, &reply, Fault::UnlockRefused) {
                Verdict::Success => after_unlock(ctx, rotated),
                Verdict::Transient => unlock_call(ctx, secret, rotated),
                Verdict::Fatal(fault) => failed(fault),
            }
        },
        (BootState::GraphDropping { rotated }, BootEvent::File(ok)) => {
            if ok {
                (
                    BootState::Restoring { rotated },
                    BootStep::Call {
                        after_secs: ctx.restore.interval_secs,
                        op: BootOp::RestoreBackup,
                    },
                )
            } else {
                failed(Fault::GraphCacheNotDropped)
            }
        },
        (BootState::Restoring { rotated }, BootEvent::Cli(reply)) => {
            match judge_cli(&ctx.restore, &reply, Fault::RestoreRefused) {
                Verdict::Success => (
                    BootState::MarkerClearing { rotated },
                    BootStep::Call { after_secs: 0, op: BootOp::ClearRestoreMarker },
                ),
                Verdict::Transient => (
                    BootState::Restoring { rotated },
                    BootStep::Call {
                        after_secs: ctx.restore.interval_secs,
                        op: BootOp::RestoreBackup,
                    },
                ),
                Verdict::Fatal(fault) => failed(fault),
            }
        },
        (BootState::MarkerClearing { rotated }, BootEvent::File(ok)) => {
            if ok {
                finished(rotated, true)
            } else {
                failed(Fault::RestoreMarkerNotCleared)
            }
        },
        _ => failed(Fault::OutOfTurn),
    }
}

/// The credential bootstrapper. It is made by `start`, which hands out the first
/// step, and moved on by `step` with what each operation brought back.
pub struct Bootstrapper {
    ctx: BootContext,
    state: BootState,
}

impl Bootstrapper {
    #[verifier::type_invariant]
    spec fn inv(self) -> bool {
        self.state@.wf()
    }

    /// What the machine was started with.
    pub closed spec fn context(&self) -> BootContextView {
        self.ctx@
    }

    /// Where the machine stands.
    pub closed spec fn state(&self) -> BootStateView {
        self.state@
    }

    /// Starts the bootstrap from what is on disk. The first step is, by the
    /// credential state, the request for random bytes, the password change or
    /// the unlock; a stored secret too long to encode ends the machine at once.
    pub fn start(
        disk: DiskSnapshot,
        recovery_window: Option<u64>,
        rpc: RetryPolicy,
        restore: RetryPolicy,
    ) -> (r: (Bootstrapper, BootStep))
        ensures
            r.0.context() == (BootContextView {
                recovery_window,
                restore_due: disk@.restore_due(),
                rpc: rpc@,
                restore: restore@,
            }),
            (r.0.state(), r.1@) == r.0.context().start(disk@.credential),
            r.0.state().wf(),
            r.1@.persists_typeable_only(),
    {
        let ctx = BootContext {
            recovery_window,
            restore_due: disk.restore_marker && disk.backup_artifact,
            rpc,
            restore,
        };
        let (state, step) = begin(&ctx, disk.credential);
        (Bootstrapper { ctx, state }, step)
    }

    /// Answers what the last operation brought back with the next step. A
    /// secret that the step stores can always be typed.
    pub fn step(self, event: BootEvent) -> (r: (Bootstrapper, BootStep))
        ensures
            r.0.context() == self.context(),
            (r.0.state(), r.1@) == self.context().next(self.state(), event@),
            r.0.state().wf(),
            r.1@.persists_typeable_only(),
    {
        proof {
            use_type_invariant(&self);
        }
        let Bootstrapper { ctx, state } = self;
        let (state, step) = advance(&ctx, state, event);
        (Bootstrapper { ctx, state }, step)
    }

    /// Whether the machine has come to its end.
    pub fn ended(&self) -> (r: bool)
        ensures
            r == self.state().ended(),
    {
        match &self.state {
            BootState::Done => true,
            BootState::Failed => true,
            _ => false,
        }
    }
}

} // verus!
