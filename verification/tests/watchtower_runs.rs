use configurator::commands::{add_tower_args, restore_backup_args, tower_info_args};
use configurator::fault::Fault;
use configurator::properties::TowerInfo;
use configurator::retry::{CliReply, RetryPolicy};
use configurator::watchtower::{
    Coordinator, TowerEvent, TowerOp, TowerStep, UriError, WatchtowerConfig, WatchtowerUri,
    WtClient,
};

const PEER: &str = "02ab@10.0.0.5:9911";

fn config(server: bool, peers: Option<&[&str]>) -> WatchtowerConfig {
    WatchtowerConfig {
        wt_server: server,
        wt_client: match peers {
            None => WtClient::Disabled,
            Some(list) => WtClient::Enabled {
                add_watchtowers: list.iter().map(|p| p.to_string()).collect(),
            },
        },
    }
}

fn start(server: bool, peers: Option<&[&str]>) -> (Coordinator, TowerStep) {
    Coordinator::start(config(server, peers), RetryPolicy::tower())
}

fn call(after_secs: u64, op: TowerOp) -> TowerStep {
    TowerStep::Call { after_secs, op }
}

fn add(after_secs: u64, uri: &str) -> TowerStep {
    call(after_secs, TowerOp::AddTower { uri: uri.to_string() })
}

fn info(uris: &[&str]) -> Option<TowerInfo> {
    Some(TowerInfo {
        pubkey: "02ab".to_string(),
        listeners: vec!["[::]:9911".to_string()],
        uris: uris.iter().map(|u| u.to_string()).collect(),
    })
}

#[test]
fn uri_splits_at_the_first_at_sign() {
    assert_eq!(
        WatchtowerUri::from_str(PEER),
        Ok(WatchtowerUri { pubkey: "02ab".to_string(), address: "10.0.0.5:9911".to_string() })
    );
    assert_eq!(
        WatchtowerUri::from_str("k@h:1@rest"),
        Ok(WatchtowerUri { pubkey: "k".to_string(), address: "h:1".to_string() })
    );
}

#[test]
fn uri_with_an_empty_half_lacks_that_half() {
    assert_eq!(WatchtowerUri::from_str("@h"), Err(UriError::MissingPubkey));
    assert_eq!(WatchtowerUri::from_str("@"), Err(UriError::MissingPubkey));
    assert_eq!(WatchtowerUri::from_str("@@h"), Err(UriError::MissingPubkey));
    assert_eq!(WatchtowerUri::from_str("k@"), Err(UriError::MissingAddress));
    assert_eq!(WatchtowerUri::from_str("k@@h"), Err(UriError::MissingAddress));
}

#[test]
fn uri_without_at_sign_lacks_its_address() {
    assert_eq!(WatchtowerUri::from_str("02ab"), Err(UriError::MissingAddress));
    assert_eq!(WatchtowerUri::from_str(""), Err(UriError::MissingAddress));
    assert_eq!(WatchtowerUri::from_str("10.0.0.5:9911"), Err(UriError::MissingAddress));
}

#[test]
fn client_enabled_is_told_apart() {
    assert!(!WtClient::Disabled.enabled());
    assert!(WtClient::Enabled { add_watchtowers: Vec::new() }.enabled());
}

#[test]
fn disabled_server_withdraws_the_published_url() {
    let mut published = true;
    let (m, step) = start(false, None);
    assert_eq!(step, call(0, TowerOp::WithdrawUrl));
    if let TowerStep::Call { op: TowerOp::WithdrawUrl, .. } = step {
        published = false;
    }
    let (_, step) = m.step(TowerEvent::File(true));
    assert_eq!(step, TowerStep::Done);
    assert!(!published);
}

#[test]
fn disabled_server_goes_on_when_there_was_no_url() {
    let (m, _) = start(false, Some(&[PEER]));
    let (_, step) = m.step(TowerEvent::File(false));
    assert_eq!(step, add(0, PEER));
}

#[test]
fn tower_added_at_the_third_attempt() {
    let (m, _) = start(false, Some(&[PEER]));
    let mut attempts = 0;
    let (m, step) = m.step(TowerEvent::File(true));
    assert_eq!(step, add(0, PEER));
    attempts += 1;
    let (m, step) = m.step(TowerEvent::Added(CliReply::Failed("connection refused".to_string())));
    assert_eq!(step, add(10, PEER));
    attempts += 1;
    let (m, step) = m.step(TowerEvent::Added(CliReply::NotRun));
    assert_eq!(step, add(10, PEER));
    attempts += 1;
    let (_, step) = m.step(TowerEvent::Added(CliReply::Succeeded));
    assert_eq!(step, TowerStep::Done);
    assert_eq!(attempts, 3);
}

#[test]
fn towers_are_added_in_their_order() {
    let peers = ["a@1", "b@2", "c@3"];
    let (m, _) = start(false, Some(&peers));
    let (m, step) = m.step(TowerEvent::File(true));
    assert_eq!(step, add(0, "a@1"));
    let (m, step) = m.step(TowerEvent::Added(CliReply::Succeeded));
    assert_eq!(step, add(0, "b@2"));
    let (m, step) = m.step(TowerEvent::Added(CliReply::Failed("x".to_string())));
    assert_eq!(step, add(10, "b@2"));
    let (m, step) = m.step(TowerEvent::Added(CliReply::Succeeded));
    assert_eq!(step, add(0, "c@3"));
    let (m, step) = m.step(TowerEvent::Added(CliReply::Succeeded));
    assert_eq!(step, TowerStep::Done);
    let (_, step) = m.step(TowerEvent::Added(CliReply::Succeeded));
    assert_eq!(step, TowerStep::Fatal(Fault::OutOfTurn));
}

#[test]
fn malformed_uri_is_fatal_when_its_turn_comes() {
    let peers = ["a@1", "nonsense", "c@3"];
    let (m, _) = start(false, Some(&peers));
    let (m, step) = m.step(TowerEvent::File(true));
    assert_eq!(step, add(0, "a@1"));
    let (_, step) = m.step(TowerEvent::Added(CliReply::Succeeded));
    assert_eq!(step, TowerStep::Fatal(Fault::MalformedWatchtowerUri));
}

#[test]
fn enabled_client_without_towers_is_done() {
    let (m, _) = start(false, Some(&[]));
    let (_, step) = m.step(TowerEvent::File(true));
    assert_eq!(step, TowerStep::Done);
}

#[test]
fn enabled_server_polls_until_the_tower_answers() {
    let (m, step) = start(true, None);
    assert_eq!(step, call(0, TowerOp::QueryTower));
    let (m, step) = m.step(TowerEvent::Info { reply: CliReply::NotRun, info: None });
    assert_eq!(step, call(10, TowerOp::QueryTower));
    let (m, step) =
        m.step(TowerEvent::Info { reply: CliReply::Failed("not yet".to_string()), info: None });
    assert_eq!(step, call(10, TowerOp::QueryTower));
    let (m, step) = m.step(TowerEvent::Info {
        reply: CliReply::Succeeded,
        info: info(&["02ab@tower.onion:9911", "02ab@10.0.0.5:9911"]),
    });
    assert_eq!(step, call(0, TowerOp::PublishUrl { url: "02ab@tower.onion:9911".to_string() }));
    let (_, step) = m.step(TowerEvent::File(false));
    assert_eq!(step, TowerStep::Done);
}

#[test]
fn tower_description_without_uri_is_fatal() {
    let (m, _) = start(true, None);
    let (_, step) = m.step(TowerEvent::Info { reply: CliReply::Succeeded, info: info(&[]) });
    assert_eq!(step, TowerStep::Fatal(Fault::UnreadableTowerInfo));
    let (m, _) = start(true, None);
    let (_, step) = m.step(TowerEvent::Info { reply: CliReply::Succeeded, info: None });
    assert_eq!(step, TowerStep::Fatal(Fault::UnreadableTowerInfo));
}

#[test]
fn tower_with_a_marker_policy_can_give_up() {
    let (m, _) = Coordinator::start(config(false, Some(&[PEER])), RetryPolicy::restore());
    let (m, _) = m.step(TowerEvent::File(true));
    let (_, step) = m.step(TowerEvent::Added(CliReply::Failed("no".to_string())));
    assert_eq!(step, TowerStep::Fatal(Fault::GatewayFailed));
}

#[test]
fn coordinator_refuses_an_event_out_of_turn() {
    let (m, _) = start(true, None);
    let (_, step) = m.step(TowerEvent::File(true));
    assert_eq!(step, TowerStep::Fatal(Fault::OutOfTurn));
}

#[test]
fn commands_name_the_daemon_first() {
    assert_eq!(tower_info_args(), vec!["--rpcserver=lnd.embassy", "tower", "info"]);
    assert_eq!(add_tower_args(PEER), vec!["--rpcserver=lnd.embassy", "wtclient", "add", PEER]);
    assert_eq!(
        restore_backup_args("/root/.lnd/data/chain/bitcoin/mainnet/channel.backup"),
        vec![
            "--rpcserver=lnd.embassy",
            "restorechanbackup",
            "--multi_file",
            "/root/.lnd/data/chain/bitcoin/mainnet/channel.backup"
        ]
    );
}
