//! What holds of every run of the credential bootstrapper, whatever its driver
//! reports back.

use vstd::prelude::*;
use crate::bootstrap::{
    BootContextView, BootEventView, BootOpView, BootOutcome, BootStateView, BootStepView,
    CredentialStateView, InitReply, bootstrap_path, call,
};
use crate::fault::Fault;
use crate::requests::{rotation_text, unlock_text};
use crate::retry::{Verdict, judge_cli_spec, judge_rpc_spec};
use crate::secret::{MAX_SECRET_LEN, base32_bytes, typeable};

verus! {

/// The state of the machine after the first `n` of `events`, started on `credential`.
pub open spec fn run_state(
    ctx: BootContextView,
    credential: CredentialStateView,
    events: Seq<BootEventView>,
    n: nat,
) -> BootStateView
    decreases n,
{
    if n == 0 {
        ctx.start(credential).0
    } else {
        ctx.next(run_state(ctx, credential, events, (n - 1) as nat), events[n - 1]).0
    }
}

/// The step that the machine hands out after the first `n` of `events`; the one
/// after none of them is the first step.
pub open spec fn run_step(
    ctx: BootContextView,
    credential: CredentialStateView,
    events: Seq<BootEventView>,
    n: nat,
) -> BootStepView {
    if n == 0 {
        ctx.start(credential).1
    } else {
        ctx.next(run_state(ctx, credential, events, (n - 1) as nat), events[n - 1]).1
    }
}

/// The event is a reply of the daemon that the policy reads as transient.
pub open spec fn transient_reply(ctx: BootContextView, event: BootEventView, fault: Fault) -> bool {
    event matches BootEventView::Rpc(reply) && judge_rpc_spec(ctx.rpc, reply, fault)
        == Verdict::Transient
}

/// The states of the restore.
pub open spec fn in_restore(s: BootStateView, rotated: bool) -> bool {
    s == (BootStateView::GraphDropping { rotated }) || s == (BootStateView::Restoring { rotated })
        || s == (BootStateView::MarkerClearing { rotated })
}

/// The states that a run started on `credential` can be in: those of the one
/// path that the credential calls for, with the secrets that belong to it.
pub open spec fn on_path(ctx: BootContextView, credential: CredentialStateView, s: BootStateView) -> bool {
    match credential {
        CredentialStateView::NoWallet => {
            s is NeedEntropy || s is SeedRequested || s is SeedSaving || s is InitRequested
                || s is FreshStoring || s is Done || s is Failed
        },
        CredentialStateView::Stored(secret) => if typeable(secret) {
            ||| s == (BootStateView::Unlocking { secret, rotated: false }) && unlock_text(
                secret,
                ctx.recovery_window,
            ) is Some
            ||| ctx.restore_due && in_restore(s, false)
            ||| s is Done
            ||| s is Failed
        } else {
            let rotated = base32_bytes(secret);
            ||| s == (BootStateView::Rotating { secret, rotated }) && rotation_text(
                secret,
                rotated,
            ) is Some
            ||| s == (BootStateView::RotatedStoring { rotated })
            ||| s == (BootStateView::Unlocking { secret: rotated, rotated: true }) && unlock_text(
                rotated,
                ctx.recovery_window,
            ) is Some
            ||| ctx.restore_due && in_restore(s, true)
            ||| s is Done
            ||| s is Failed
        },
    }
}

/// The step that was handed out tells the state that the machine is in: each
/// operation has one state that waits for its answer.
pub open spec fn step_names_state(step: BootStepView, s: BootStateView) -> bool {
    &&& step.reads_entropy() <==> s is NeedEntropy
    &&& step.calls(BootOpView::GenSeed) <==> s is SeedRequested
    &&& step.saves_seed() <==> s is SeedSaving
    &&& step.inits_wallet() <==> s is InitRequested
    &&& step.persists() <==> (s is FreshStoring || s is RotatedStoring)
    &&& step.changes_password() <==> s is Rotating
    &&& step.unlocks() <==> s is Unlocking
    &&& step.calls(BootOpView::DropGraphCache) <==> s is GraphDropping
    &&& step.calls(BootOpView::RestoreBackup) <==> s is Restoring
    &&& step.calls(BootOpView::ClearRestoreMarker) <==> s is MarkerClearing
    &&& step is Done <==> s is Done
    &&& step is Fatal <==> s is Failed
}

/// Every transition hands out the step that its new state waits on.
pub proof fn lemma_next_names_state(ctx: BootContextView, s: BootStateView, e: BootEventView)
    ensures
        step_names_state(ctx.next(s, e).1, ctx.next(s, e).0),
{
}

/// The first step is the one that the first state waits on.
pub proof fn lemma_start_names_state(ctx: BootContextView, credential: CredentialStateView)
    ensures
        step_names_state(ctx.start(credential).1, ctx.start(credential).0),
{
}

/// A transition keeps the machine on the path of its credential.
pub proof fn lemma_next_stays_on_path(
    ctx: BootContextView,
    credential: CredentialStateView,
    s: BootStateView,
    e: BootEventView,
)
    requires
        on_path(ctx, credential, s),
    ensures
        on_path(ctx, credential, ctx.next(s, e).0),
{
}

/// Every run stays on the path that its credential calls for, and each of its
/// steps is the one that the state reached waits on.
pub proof fn lemma_run_on_path(
    ctx: BootContextView,
    credential: CredentialStateView,
    events: Seq<BootEventView>,
    n: nat,
)
    ensures
        on_path(ctx, credential, run_state(ctx, credential, events, n)),
        step_names_state(
            run_step(ctx, credential, events, n),
            run_state(ctx, credential, events, n),
        ),
    decreases n,
{
    if n == 0 {
        lemma_start_names_state(ctx, credential);
    } else {
        let before = run_state(ctx, credential, events, (n - 1) as nat);
        lemma_run_on_path(ctx, credential, events, (n - 1) as nat);
        lemma_next_stays_on_path(ctx, credential, before, events[n - 1]);
        lemma_next_names_state(ctx, before, events[n - 1]);
    }
}

/// Exactly one of the three paths is taken, the one that the credential state
/// calls for: a run that ends well reports that path, and reports a restore
/// exactly where one was due after an unlock.
pub proof fn law_outcome_names_the_path(
    ctx: BootContextView,
    credential: CredentialStateView,
    events: Seq<BootEventView>,
    n: nat,
    outcome: BootOutcome,
)
    requires
        run_step(ctx, credential, events, n) == BootStepView::Done(outcome),
    ensures
        outcome.path == bootstrap_path(credential),
        outcome.restored == (credential is Stored && ctx.restore_due),
{
    if n > 0 {
        lemma_run_on_path(ctx, credential, events, (n - 1) as nat);
    }
}

/// A secret that can be typed is never rotated, and no wallet is created beside
/// the one it opens: whatever comes back, no step changes the password, asks for
/// random bytes or a seed, initialises a wallet or stores a secret. The run opens
/// with the one unlock call, and a later step is an unlock call exactly where it
/// repeats one that the daemon answered with its transient message.
pub proof fn law_typeable_secret_only_unlocks(
    ctx: BootContextView,
    secret: Seq<u8>,
    events: Seq<BootEventView>,
    n: nat,
)
    requires
        typeable(secret),
    ensures
        ({
            let credential = CredentialStateView::Stored(secret);
            let step = run_step(ctx, credential, events, n);
            &&& !step.changes_password()
            &&& !step.reads_entropy()
            &&& !step.calls(BootOpView::GenSeed)
            &&& !step.saves_seed()
            &&& !step.inits_wallet()
            &&& !step.persists()
            &&& n == 0 ==> (step.unlocks() <==> secret.len() <= MAX_SECRET_LEN && unlock_text(
                secret,
                ctx.recovery_window,
            ) is Some)
            &&& n > 0 ==> (step.unlocks() <==> run_step(ctx, credential, events, (n - 1) as nat).unlocks()
                && transient_reply(ctx, events[n - 1], Fault::UnlockRefused))
            &&& step.unlocks() ==> step == call(
                ctx.rpc.interval_secs,
                BootOpView::Unlock { body: unlock_text(secret, ctx.recovery_window).unwrap() },
            )
        }),
{
    let credential = CredentialStateView::Stored(secret);
    lemma_run_on_path(ctx, credential, events, n);
    if n > 0 {
        lemma_run_on_path(ctx, credential, events, (n - 1) as nat);
    }
}

/// Without a transient answer there is exactly one unlock call: the first step.
pub proof fn law_one_unlock_without_transient_reply(
    ctx: BootContextView,
    secret: Seq<u8>,
    events: Seq<BootEventView>,
    n: nat,
)
    requires
        typeable(secret),
        0 < n <= events.len(),
        forall|i: int| 0 <= i < events.len() ==> !transient_reply(ctx, #[trigger] events[i], Fault::UnlockRefused),
    ensures
        !run_step(ctx, CredentialStateView::Stored(secret), events, n).unlocks(),
{
    law_typeable_secret_only_unlocks(ctx, secret, events, n);
}

/// Where no restore is due, none is begun: no step drops the graph cache, runs
/// the restore command or clears the restore marker.
pub proof fn law_no_restore_unless_due(
    ctx: BootContextView,
    credential: CredentialStateView,
    events: Seq<BootEventView>,
    n: nat,
)
    requires
        !ctx.restore_due,
    ensures
        !run_step(ctx, credential, events, n).restores(),
{
    lemma_run_on_path(ctx, credential, events, n);
}

/// Some step of the run, after the first and at or before `n`, stores the
/// rotated secret in answer to the daemon's confirmation of the password change.
pub open spec fn stored_by(
    ctx: BootContextView,
    credential: CredentialStateView,
    events: Seq<BootEventView>,
    rotated: Seq<u8>,
    n: nat,
) -> bool {
    exists|i: nat|
        0 < i <= n && #[trigger] run_step(ctx, credential, events, i) == call(
            0,
            BootOpView::PersistCredential { secret: rotated },
        ) && follows_confirmation(ctx, credential, events, i)
}

/// The step at `i` follows a password change that the daemon confirmed.
pub open spec fn follows_confirmation(
    ctx: BootContextView,
    credential: CredentialStateView,
    events: Seq<BootEventView>,
    i: nat,
) -> bool {
    &&& i > 0
    &&& run_step(ctx, credential, events, (i - 1) as nat).changes_password()
    &&& events[i - 1] matches BootEventView::Rpc(reply)
    &&& judge_rpc_spec(ctx.rpc, reply, Fault::RotationRefused) == Verdict::Success
}

/// Past the rotation: the new secret is being stored, or the machine has gone
/// on from there without failing.
pub open spec fn past_rotation(s: BootStateView) -> bool {
    s is RotatedStoring || s is Unlocking || s is GraphDropping || s is Restoring
        || s is MarkerClearing || s is Done
}

proof fn lemma_stored_before(
    ctx: BootContextView,
    secret: Seq<u8>,
    events: Seq<BootEventView>,
    n: nat,
)
    requires
        !typeable(secret),
    ensures
        past_rotation(run_state(ctx, CredentialStateView::Stored(secret), events, n)) ==> stored_by(
            ctx,
            CredentialStateView::Stored(secret),
            events,
            base32_bytes(secret),
            n,
        ),
    decreases n,
{
    let credential = CredentialStateView::Stored(secret);
    let rotated = base32_bytes(secret);
    lemma_run_on_path(ctx, credential, events, n);
    if n > 0 {
        let m = (n - 1) as nat;
        lemma_run_on_path(ctx, credential, events, m);
        lemma_stored_before(ctx, secret, events, m);
        let before = run_state(ctx, credential, events, m);
        if past_rotation(run_state(ctx, credential, events, n)) {
            if past_rotation(before) {
                let i = choose|i: nat|
                    0 < i <= m && #[trigger] run_step(ctx, credential, events, i) == call(
                        0,
                        BootOpView::PersistCredential { secret: rotated },
                    ) && follows_confirmation(ctx, credential, events, i);
                assert(0 < i <= n);
            } else {
                assert(before is Rotating);
                assert(run_step(ctx, credential, events, n) == call(
                    0,
                    BootOpView::PersistCredential { secret: rotated },
                ));
                assert(follows_confirmation(ctx, credential, events, n));
            }
        }
    }
}

/// A secret that cannot be typed is rotated once, before the unlock. The run
/// opens with the password change to the base32 form of the secret; a later step
/// is a password change exactly where it repeats one that the daemon answered
/// with its transient message; a secret is stored only as the answer to the
/// daemon's confirmation, and it is that base32 form; and an unlock call comes
/// only after that, with the rotated secret.
pub proof fn law_untypeable_secret_rotated_before_unlock(
    ctx: BootContextView,
    secret: Seq<u8>,
    events: Seq<BootEventView>,
    n: nat,
)
    requires
        !typeable(secret),
    ensures
        ({
            let credential = CredentialStateView::Stored(secret);
            let rotated = base32_bytes(secret);
            let step = run_step(ctx, credential, events, n);
            &&& n == 0 ==> (step.changes_password() <==> secret.len() <= MAX_SECRET_LEN
                && rotation_text(secret, rotated) is Some)
            &&& n == 0 ==> !step.unlocks()
            &&& n > 0 ==> (step.changes_password() <==> run_step(
                ctx,
                credential,
                events,
                (n - 1) as nat,
            ).changes_password() && transient_reply(ctx, events[n - 1], Fault::RotationRefused))
            &&& step.changes_password() ==> step == call(
                ctx.rpc.interval_secs,
                BootOpView::ChangePassword { body: rotation_text(secret, rotated).unwrap() },
            )
            &&& step.persists() ==> step == call(0, BootOpView::PersistCredential { secret: rotated })
                && follows_confirmation(ctx, credential, events, n)
            &&& step.unlocks() ==> step == call(
                ctx.rpc.interval_secs,
                BootOpView::Unlock { body: unlock_text(rotated, ctx.recovery_window).unwrap() },
            ) && stored_by(ctx, credential, events, rotated, (n - 1) as nat)
        }),
{
    let credential = CredentialStateView::Stored(secret);
    let rotated = base32_bytes(secret);
    lemma_run_on_path(ctx, credential, events, n);
    lemma_stored_before(ctx, secret, events, n);
    if n > 0 {
        let m = (n - 1) as nat;
        lemma_run_on_path(ctx, credential, events, m);
        lemma_stored_before(ctx, secret, events, m);
        let step = run_step(ctx, credential, events, n);
        if step.unlocks() {
            let i = choose|i: nat|
                0 < i <= n && #[trigger] run_step(ctx, credential, events, i) == call(
                    0,
                    BootOpView::PersistCredential { secret: rotated },
                ) && follows_confirmation(ctx, credential, events, i);
            assert(i != n);
            assert(0 < i <= m);
        }
    }
}

/// Without a wallet, one is created and nothing else is done: no step changes
/// a password, unlocks, or belongs to a restore. The fresh secret is stored only
/// as the answer to the daemon's acceptance of the wallet initialisation.
pub proof fn law_fresh_wallet_only_creates(
    ctx: BootContextView,
    events: Seq<BootEventView>,
    n: nat,
)
    ensures
        ({
            let credential = CredentialStateView::NoWallet;
            let step = run_step(ctx, credential, events, n);
            &&& !step.changes_password()
            &&& !step.unlocks()
            &&& !step.restores()
            &&& step.persists() ==> n > 0 && run_step(
                ctx,
                credential,
                events,
                (n - 1) as nat,
            ).inits_wallet() && events[n - 1] == BootEventView::Init(InitReply::Accepted)
        }),
{
    lemma_run_on_path(ctx, CredentialStateView::NoWallet, events, n);
    if n > 0 {
        lemma_run_on_path(ctx, CredentialStateView::NoWallet, events, (n - 1) as nat);
    }
}

/// With a stored secret no wallet is created: no step asks for random bytes or
/// for a seed, writes a recovery file or initialises a wallet.
pub proof fn law_stored_secret_never_creates(
    ctx: BootContextView,
    secret: Seq<u8>,
    events: Seq<BootEventView>,
    n: nat,
)
    ensures
        ({
            let step = run_step(ctx, CredentialStateView::Stored(secret), events, n);
            &&& !step.reads_entropy()
            &&& !step.calls(BootOpView::GenSeed)
            &&& !step.saves_seed()
            &&& !step.inits_wallet()
        }),
{
    lemma_run_on_path(ctx, CredentialStateView::Stored(secret), events, n);
}

/// The event is an answer of the restore command that the policy reads as a
/// success.
pub open spec fn restore_succeeded(ctx: BootContextView, event: BootEventView) -> bool {
    event matches BootEventView::Cli(reply) && judge_cli_spec(
        ctx.restore,
        reply,
        Fault::RestoreRefused,
    ) == Verdict::Success
}

/// The restore marker is cleared only in answer to a restore that succeeded, and
/// the restore is run only after the unlock: the graph cache is dropped in
/// answer to the daemon's confirmation of the unlock, and the restore command is
/// first run in answer to that.
pub proof fn law_restore_follows_unlock_and_clears_after_success(
    ctx: BootContextView,
    credential: CredentialStateView,
    events: Seq<BootEventView>,
    n: nat,
)
    ensures
        ({
            let step = run_step(ctx, credential, events, n);
            let before = run_step(ctx, credential, events, (n - 1) as nat);
            &&& step.restores() ==> n > 0 && credential is Stored && ctx.restore_due
            &&& step.calls(BootOpView::ClearRestoreMarker) ==> before.calls(
                BootOpView::RestoreBackup,
            ) && restore_succeeded(ctx, events[n - 1])
            &&& step.calls(BootOpView::DropGraphCache) ==> before.unlocks() && (events[n - 1]
                matches BootEventView::Rpc(reply) && judge_rpc_spec(
                ctx.rpc,
                reply,
                Fault::UnlockRefused,
            ) == Verdict::Success)
            &&& step.calls(BootOpView::RestoreBackup) ==> before.calls(BootOpView::DropGraphCache)
                || before.calls(BootOpView::RestoreBackup)
        }),
{
    lemma_run_on_path(ctx, credential, events, n);
    if n > 0 {
        lemma_run_on_path(ctx, credential, events, (n - 1) as nat);
    }
}

/// How far a state is along its path. No transition leads to a state that is
/// less far.
pub open spec fn progress(s: BootStateView) -> nat {
    match s {
        BootStateView::NeedEntropy => 0,
        BootStateView::SeedRequested { .. } => 1,
        BootStateView::SeedSaving { .. } => 2,
        BootStateView::InitRequested { .. } => 3,
        BootStateView::Rotating { .. } => 3,
        BootStateView::FreshStoring => 4,
        BootStateView::RotatedStoring { .. } => 4,
        BootStateView::Unlocking { .. } => 5,
        BootStateView::GraphDropping { .. } => 6,
        BootStateView::Restoring { .. } => 7,
        BootStateView::MarkerClearing { .. } => 8,
        BootStateView::Done => 9,
        BootStateView::Failed => 10,
    }
}

/// The machine never goes back: a transition leads to a state at least as far
/// along, and further along from a state that waits for a secret to be stored
/// or for the restore marker to be cleared.
pub proof fn lemma_next_makes_progress(ctx: BootContextView, s: BootStateView, e: BootEventView)
    ensures
        progress(ctx.next(s, e).0) >= progress(s),
        progress(s) == 4 || progress(s) == 8 ==> progress(ctx.next(s, e).0) > progress(s),
{
}

proof fn lemma_run_makes_progress(
    ctx: BootContextView,
    credential: CredentialStateView,
    events: Seq<BootEventView>,
    i: nat,
    j: nat,
)
    requires
        i < j,
    ensures
        progress(run_state(ctx, credential, events, j)) >= progress(
            run_state(ctx, credential, events, i),
        ),
        ({
            let at = progress(run_state(ctx, credential, events, i));
            at == 4 || at == 8 ==> progress(run_state(ctx, credential, events, j)) > at
        }),
    decreases j,
{
    let before = run_state(ctx, credential, events, (j - 1) as nat);
    lemma_next_makes_progress(ctx, before, events[j - 1]);
    if i < j - 1 {
        lemma_run_makes_progress(ctx, credential, events, i, (j - 1) as nat);
    }
}

/// In one run the credential file is written at most once, and the restore
/// marker is cleared at most once.
pub proof fn law_stored_and_cleared_at_most_once(
    ctx: BootContextView,
    credential: CredentialStateView,
    events: Seq<BootEventView>,
    i: nat,
    j: nat,
)
    requires
        i < j,
    ensures
        !(run_step(ctx, credential, events, i).persists() && run_step(
            ctx,
            credential,
            events,
            j,
        ).persists()),
        !(run_step(ctx, credential, events, i).calls(BootOpView::ClearRestoreMarker) && run_step(
            ctx,
            credential,
            events,
            j,
        ).calls(BootOpView::ClearRestoreMarker)),
{
    lemma_run_on_path(ctx, credential, events, i);
    lemma_run_on_path(ctx, credential, events, j);
    lemma_run_makes_progress(ctx, credential, events, i, j);
}

} // verus!
