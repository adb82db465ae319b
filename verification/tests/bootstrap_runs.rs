use configurator::bootstrap::{
    is_restore, BootEvent, BootOp, BootOutcome, BootStep, Bootstrapper, BootstrapPath,
    CredentialState, DiskSnapshot, InitReply, SeedReply, ENTROPY_LEN,
};
use configurator::fault::Fault;
use configurator::properties::CipherSeedMnemonic;
use configurator::retry::{CliReply, RetryPolicy, RpcReply};
use configurator::secret::pw_is_typeable;

const UNLOCK_HUNTER2: &str = "{\"wallet_password\":\"aHVudGVyMg==\"}";
const WAITING: &str = "{\"code\":2,\"message\":\"wallet locked, waiting to start\"}";

fn disk(credential: CredentialState, restore_marker: bool, backup_artifact: bool) -> DiskSnapshot {
    DiskSnapshot { credential, restore_marker, backup_artifact }
}

fn start(d: DiskSnapshot, window: Option<u64>) -> (Bootstrapper, BootStep) {
    Bootstrapper::start(d, window, RetryPolicy::rpc(), RetryPolicy::restore())
}

fn stored(secret: &[u8]) -> CredentialState {
    CredentialState::Stored(secret.to_vec())
}

fn body(text: &str) -> BootEvent {
    BootEvent::Rpc(RpcReply::Body(text.to_string()))
}

fn call(after_secs: u64, op: BootOp) -> BootStep {
    BootStep::Call { after_secs, op }
}

fn unlock(text: &str) -> BootStep {
    call(5, BootOp::Unlock { body: text.to_string() })
}

fn phrase(words: &[&str]) -> CipherSeedMnemonic {
    CipherSeedMnemonic { cipher_seed_mnemonic: words.iter().map(|w| w.to_string()).collect() }
}

#[test]
fn is_restore_reads_the_marker() {
    assert!(is_restore(&disk(CredentialState::NoWallet, true, false)));
    assert!(is_restore(&disk(stored(b"x"), true, true)));
    assert!(!is_restore(&disk(stored(b"x"), false, true)));
}

#[test]
fn unlock_waiting_twice_then_success_makes_three_calls() {
    let (m, first) = start(disk(stored(b"hunter2"), false, false), None);
    let mut steps = vec![first];
    let (m, s) = m.step(body(WAITING));
    assert!(!m.ended());
    steps.push(s);
    let (m, s) = m.step(body("{\"message\":\"waiting to start\"}"));
    assert!(!m.ended());
    steps.push(s);
    let (m, last) = m.step(body("{}"));
    assert!(m.ended());
    assert_eq!(steps, vec![unlock(UNLOCK_HUNTER2), unlock(UNLOCK_HUNTER2), unlock(UNLOCK_HUNTER2)]);
    for s in &steps {
        assert!(matches!(s, BootStep::Call { after_secs, .. } if *after_secs >= 5));
    }
    assert_eq!(
        last,
        BootStep::Done(BootOutcome { path: BootstrapPath::PlainUnlock, restored: false })
    );
}

#[test]
fn typeable_secret_unlocks_once_and_never_rotates_or_inits() {
    let (m, first) = start(disk(stored(b"correct horse"), false, false), Some(2500));
    assert_eq!(
        first,
        unlock("{\"recovery_window\":2500,\"wallet_password\":\"Y29ycmVjdCBob3JzZQ==\"}")
    );
    let (m, last) = m.step(body("{}"));
    assert_eq!(
        last,
        BootStep::Done(BootOutcome { path: BootstrapPath::PlainUnlock, restored: false })
    );
    assert!(m.ended());
}

#[test]
fn untypeable_secret_is_rotated_once_before_the_unlock() {
    let secret = [0u8, 1, 2, 255];
    assert!(!pw_is_typeable(&secret));
    let change = "{\"current_password\":\"AAEC/w==\",\"new_password\":\"QUFBUUY3WQ==\"}";
    let (m, first) = start(disk(stored(&secret), false, false), None);
    assert_eq!(first, call(5, BootOp::ChangePassword { body: change.to_string() }));
    let (m, s) = m.step(body(WAITING));
    assert_eq!(s, call(5, BootOp::ChangePassword { body: change.to_string() }));
    let (m, s) = m.step(body("{}"));
    assert_eq!(s, call(0, BootOp::PersistCredential { secret: b"AAAQF7Y".to_vec() }));
    assert!(pw_is_typeable(b"AAAQF7Y"));
    let (m, s) = m.step(BootEvent::File(true));
    assert_eq!(s, unlock("{\"wallet_password\":\"QUFBUUY3WQ==\"}"));
    let (m, s) = m.step(body("{}"));
    assert_eq!(
        s,
        BootStep::Done(BootOutcome { path: BootstrapPath::RotateAndUnlock, restored: false })
    );
    assert!(m.ended());
}

#[test]
fn rotation_rejected_is_fatal() {
    let (m, _) = start(disk(stored(&[200u8]), false, false), None);
    let (m, s) = m.step(body("{\"message\":\"invalid passphrase\"}"));
    assert_eq!(s, BootStep::Fatal(Fault::RotationRefused));
    assert!(m.ended());
}

#[test]
fn rotated_secret_that_cannot_be_stored_is_fatal() {
    let (m, _) = start(disk(stored(&[200u8]), false, false), None);
    let (m, _) = m.step(body("{}"));
    let (_, s) = m.step(BootEvent::File(false));
    assert_eq!(s, BootStep::Fatal(Fault::CredentialNotPersisted));
}

#[test]
fn unlock_rejected_is_fatal() {
    let (m, _) = start(disk(stored(b"hunter2"), true, true), None);
    let (m, s) = m.step(body("{\"message\":\"invalid passphrase for master public key\"}"));
    assert_eq!(s, BootStep::Fatal(Fault::UnlockRefused));
    let (_, s) = m.step(body("{}"));
    assert_eq!(s, BootStep::Fatal(Fault::OutOfTurn));
}

#[test]
fn unlock_replies_of_wrong_shape_are_fatal() {
    let (m, _) = start(disk(stored(b"hunter2"), false, false), None);
    let (_, s) = m.step(body("[]"));
    assert_eq!(s, BootStep::Fatal(Fault::InvalidReply));
    let (m, _) = start(disk(stored(b"hunter2"), false, false), None);
    let (_, s) = m.step(body("{\"message\":{}}"));
    assert_eq!(s, BootStep::Fatal(Fault::InvalidErrorReply));
    let (m, _) = start(disk(stored(b"hunter2"), false, false), None);
    let (_, s) = m.step(body("<html>502</html>"));
    assert_eq!(s, BootStep::Fatal(Fault::UnreadableReply));
    let (m, _) = start(disk(stored(b"hunter2"), false, false), None);
    let (_, s) = m.step(BootEvent::Rpc(RpcReply::NotText));
    assert_eq!(s, BootStep::Fatal(Fault::UnreadableReply));
    let (m, _) = start(disk(stored(b"hunter2"), false, false), None);
    let (_, s) = m.step(BootEvent::Rpc(RpcReply::NotRun));
    assert_eq!(s, BootStep::Fatal(Fault::GatewayFailed));
}

#[test]
fn restore_marker_without_artifact_skips_the_restore() {
    let (m, first) = start(disk(stored(b"hunter2"), true, false), None);
    assert_eq!(first, unlock(UNLOCK_HUNTER2));
    let (m, s) = m.step(body("{}"));
    assert_eq!(s, BootStep::Done(BootOutcome { path: BootstrapPath::PlainUnlock, restored: false }));
    assert!(m.ended());
}

#[test]
fn artifact_without_restore_marker_skips_the_restore() {
    let (m, _) = start(disk(stored(b"hunter2"), false, true), None);
    let (_, s) = m.step(body("{}"));
    assert_eq!(s, BootStep::Done(BootOutcome { path: BootstrapPath::PlainUnlock, restored: false }));
}

#[test]
fn restore_follows_the_unlock_and_clears_the_marker_once() {
    let (m, _) = start(disk(stored(b"hunter2"), true, true), None);
    let (m, s) = m.step(body("{}"));
    assert_eq!(s, call(0, BootOp::DropGraphCache));
    let (m, s) = m.step(BootEvent::File(true));
    assert_eq!(s, call(5, BootOp::RestoreBackup));
    let (m, s) = m.step(BootEvent::Cli(CliReply::Failed(
        "[lncli] rpc error: code = Unknown desc = server is still in the process of starting"
            .to_string(),
    )));
    assert_eq!(s, call(5, BootOp::RestoreBackup));
    let (m, s) = m.step(BootEvent::Cli(CliReply::Succeeded));
    assert_eq!(s, call(0, BootOp::ClearRestoreMarker));
    let (m, s) = m.step(BootEvent::File(true));
    assert_eq!(s, BootStep::Done(BootOutcome { path: BootstrapPath::PlainUnlock, restored: true }));
    let (_, s) = m.step(BootEvent::File(true));
    assert_eq!(s, BootStep::Fatal(Fault::OutOfTurn));
}

#[test]
fn restore_failures_are_fatal() {
    let (m, _) = start(disk(stored(b"hunter2"), true, true), None);
    let (m, _) = m.step(body("{}"));
    let (_, s) = m.step(BootEvent::File(false));
    assert_eq!(s, BootStep::Fatal(Fault::GraphCacheNotDropped));

    let (m, _) = start(disk(stored(b"hunter2"), true, true), None);
    let (m, _) = m.step(body("{}"));
    let (m, _) = m.step(BootEvent::File(true));
    let (_, s) = m.step(BootEvent::Cli(CliReply::Failed("unable to unpack".to_string())));
    assert_eq!(s, BootStep::Fatal(Fault::RestoreRefused));

    let (m, _) = start(disk(stored(b"hunter2"), true, true), None);
    let (m, _) = m.step(body("{}"));
    let (m, _) = m.step(BootEvent::File(true));
    let (_, s) = m.step(BootEvent::Cli(CliReply::NotRun));
    assert_eq!(s, BootStep::Fatal(Fault::GatewayFailed));

    let (m, _) = start(disk(stored(b"hunter2"), true, true), None);
    let (m, _) = m.step(body("{}"));
    let (m, _) = m.step(BootEvent::File(true));
    let (m, _) = m.step(BootEvent::Cli(CliReply::Succeeded));
    let (_, s) = m.step(BootEvent::File(false));
    assert_eq!(s, BootStep::Fatal(Fault::RestoreMarkerNotCleared));
}

#[test]
fn fresh_wallet_is_created_from_sixteen_random_bytes() {
    assert_eq!(ENTROPY_LEN, 16);
    let (m, first) = start(disk(CredentialState::NoWallet, false, false), None);
    assert_eq!(first, call(0, BootOp::ReadEntropy { len: 16 }));
    let entropy: Vec<u8> = (0u8..16u8).collect();
    let (m, s) = m.step(BootEvent::Entropy(entropy));
    assert_eq!(s, call(0, BootOp::GenSeed));
    let (m, s) = m.step(BootEvent::Seed(SeedReply::Unreadable));
    assert_eq!(s, call(5, BootOp::GenSeed));
    let (m, s) = m.step(BootEvent::Seed(SeedReply::Phrase(phrase(&["abandon", "ability"]))));
    assert_eq!(s, call(0, BootOp::SaveSeed { text: "1 abandon\n2 ability\n".to_string() }));
    let (m, s) = m.step(BootEvent::File(false));
    assert_eq!(
        s,
        call(
            0,
            BootOp::InitWallet {
                body: "{\"cipher_seed_mnemonic\":[\"abandon\",\"ability\"],\"wallet_password\":\"QUFBUUVBWUVBVURBT0NBSkJJRlFZRElPQjQ=\"}"
                    .to_string()
            }
        )
    );
    let (m, s) = m.step(BootEvent::Init(InitReply::Accepted));
    assert_eq!(
        s,
        call(0, BootOp::PersistCredential { secret: b"AAAQEAYEAUDAOCAJBIFQYDIOB4".to_vec() })
    );
    let (m, s) = m.step(BootEvent::File(true));
    assert_eq!(s, BootStep::Done(BootOutcome { path: BootstrapPath::FreshWallet, restored: false }));
    assert!(m.ended());
}

#[test]
fn fresh_wallet_ignores_a_pending_restore() {
    let (m, _) = start(disk(CredentialState::NoWallet, true, true), None);
    let (m, _) = m.step(BootEvent::Entropy(vec![7u8; 16]));
    let (m, _) = m.step(BootEvent::Seed(SeedReply::Phrase(phrase(&["zoo"]))));
    let (m, _) = m.step(BootEvent::File(true));
    let (m, _) = m.step(BootEvent::Init(InitReply::Accepted));
    let (_, s) = m.step(BootEvent::File(true));
    assert_eq!(s, BootStep::Done(BootOutcome { path: BootstrapPath::FreshWallet, restored: false }));
}

#[test]
fn fresh_wallet_failures_are_fatal() {
    let (m, _) = start(disk(CredentialState::NoWallet, false, false), None);
    let (_, s) = m.step(BootEvent::Entropy(vec![1, 2, 3]));
    assert_eq!(s, BootStep::Fatal(Fault::BadEntropy));

    let (m, _) = start(disk(CredentialState::NoWallet, false, false), None);
    let (m, _) = m.step(BootEvent::Entropy(vec![0u8; 16]));
    let (_, s) = m.step(BootEvent::Seed(SeedReply::Failed));
    assert_eq!(s, BootStep::Fatal(Fault::SeedRefused));

    let (m, _) = start(disk(CredentialState::NoWallet, false, false), None);
    let (m, _) = m.step(BootEvent::Entropy(vec![0u8; 16]));
    let (_, s) = m.step(BootEvent::Seed(SeedReply::NotRun));
    assert_eq!(s, BootStep::Fatal(Fault::GatewayFailed));

    let (m, _) = start(disk(CredentialState::NoWallet, false, false), None);
    let (m, _) = m.step(BootEvent::Entropy(vec![0u8; 16]));
    let (m, _) = m.step(BootEvent::Seed(SeedReply::Phrase(phrase(&["zoo"]))));
    let (m, _) = m.step(BootEvent::File(true));
    let (_, s) = m.step(BootEvent::Init(InitReply::Refused));
    assert_eq!(s, BootStep::Fatal(Fault::WalletInitRefused));

    let (m, _) = start(disk(CredentialState::NoWallet, false, false), None);
    let (m, _) = m.step(BootEvent::Entropy(vec![0u8; 16]));
    let (m, _) = m.step(BootEvent::Seed(SeedReply::Phrase(phrase(&["zoo"]))));
    let (m, _) = m.step(BootEvent::File(true));
    let (_, s) = m.step(BootEvent::Init(InitReply::NotRun));
    assert_eq!(s, BootStep::Fatal(Fault::GatewayFailed));

    let (m, _) = start(disk(CredentialState::NoWallet, false, false), None);
    let (m, _) = m.step(BootEvent::Entropy(vec![0u8; 16]));
    let (m, _) = m.step(BootEvent::Seed(SeedReply::Phrase(phrase(&["zoo"]))));
    let (m, _) = m.step(BootEvent::File(true));
    let (m, _) = m.step(BootEvent::Init(InitReply::Accepted));
    let (_, s) = m.step(BootEvent::File(false));
    assert_eq!(s, BootStep::Fatal(Fault::CredentialNotPersisted));
}

#[test]
fn event_out_of_turn_is_fatal() {
    let (m, _) = start(disk(stored(b"hunter2"), false, false), None);
    let (m, s) = m.step(BootEvent::Entropy(vec![0u8; 16]));
    assert_eq!(s, BootStep::Fatal(Fault::OutOfTurn));
    assert!(m.ended());
    let (m, _) = start(disk(CredentialState::NoWallet, false, false), None);
    let (_, s) = m.step(body("{}"));
    assert_eq!(s, BootStep::Fatal(Fault::OutOfTurn));
}

#[test]
fn every_stored_secret_of_one_byte_takes_its_path() {
    for b in 0u8..=255u8 {
        let (_, first) = start(disk(stored(&[b]), false, false), None);
        let rotates = matches!(&first, BootStep::Call { op: BootOp::ChangePassword { .. }, .. });
        let unlocks = matches!(&first, BootStep::Call { op: BootOp::Unlock { .. }, .. });
        assert_eq!(rotates, !(32..=126).contains(&b));
        assert_eq!(unlocks, (32..=126).contains(&b));
    }
}
