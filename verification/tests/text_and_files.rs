use configurator::alias::{default_alias, get_alias, resolve_alias, AliasChoice};
use configurator::backend::{BitcoinCoreConfig, SyncStrategy};
use configurator::config::{chain_node, fee_url_row, optional_number_row, optional_row, NodeConfig};
use configurator::iface::{
    control_address, find_field, iface_ipv4, listen_address, parse_iface_ip, parse_ipv4,
    IfaceError, Ipv4,
};
use configurator::paths::{is_macaroon, Entry, Paths};
use configurator::properties::{seed_file_text, CipherSeedMnemonic, Data, Properties, Property, TowerInfo};
use configurator::readiness::{
    control_gate, poll, port_available, BindOutcome, Gate, PortUnknown, Wait, CONTROL_PORT,
};
use configurator::text::{
    char_is_ascii_space, char_is_space, chars_contain, chars_match_at, find_char, push_decimal,
    push_hexadecimal, push_str, str_contains, string_from_chars, string_of, to_chars, trim_bounds,
};
use configurator::watchtower::{WatchtowerConfig, WtClient};

const IP_LINE: &str = "2: eth0    inet 172.18.0.5/16 brd 172.18.255.255 scope global eth0\\       valid_lft forever preferred_lft forever\n";

fn chars(s: &str) -> Vec<char> {
    s.chars().collect()
}

fn node() -> NodeConfig {
    NodeConfig {
        alias: None,
        externalip: None,
        min_chan_size: None,
        max_chan_size: None,
        bitcoind: BitcoinCoreConfig::NoBackend,
        watchtowers: WatchtowerConfig { wt_server: false, wt_client: WtClient::Disabled },
        recovery_window: None,
        use_tor_only: false,
    }
}

#[test]
fn to_chars_and_back() {
    assert_eq!(to_chars("héllo"), chars("héllo"));
    assert_eq!(to_chars(""), Vec::<char>::new());
    assert_eq!(string_from_chars(&chars("añb")), "añb");
    assert_eq!(string_of(&chars("abcdef"), 2, 4), "cd");
    assert_eq!(string_of(&chars("abcdef"), 3, 3), "");
}

#[test]
fn chars_match_at_compares_in_place() {
    let hay = chars("xabcx");
    assert!(chars_match_at(&hay, &chars("abc"), 1));
    assert!(!chars_match_at(&hay, &chars("abc"), 0));
    assert!(chars_match_at(&hay, &chars(""), 5));
    assert!(chars_match_at(&hay, &chars("x"), 4));
}

#[test]
fn contains_finds_a_run_anywhere() {
    assert!(str_contains("abc", "abc"));
    assert!(str_contains("xxabc", "abc"));
    assert!(str_contains("abcxx", "abc"));
    assert!(str_contains("aababc", "abc"));
    assert!(str_contains("abc", ""));
    assert!(str_contains("", ""));
    assert!(!str_contains("", "a"));
    assert!(!str_contains("ab", "abc"));
    assert!(!str_contains("abxc", "abc"));
    assert!(chars_contain(&chars("wäiting"), &chars("äit")));
}

#[test]
fn whitespace_classes() {
    for c in [' ', '\t', '\n', '\x0C', '\r'] {
        assert!(char_is_ascii_space(c));
        assert!(char_is_space(c));
    }
    assert!(!char_is_ascii_space('\x0B'));
    assert!(char_is_space('\x0B'));
    for c in ['\u{85}', '\u{A0}', '\u{1680}', '\u{2000}', '\u{200A}', '\u{2028}', '\u{2029}', '\u{202F}', '\u{205F}', '\u{3000}'] {
        assert!(char_is_space(c));
        assert!(!char_is_ascii_space(c));
    }
    for c in ['a', '0', '\u{200B}', '\u{1F}', '\u{0E}', '\u{8}'] {
        assert!(!char_is_space(c));
    }
}

#[test]
fn whitespace_agrees_with_the_standard_library() {
    for u in 0u32..0x3100 {
        if let Some(c) = char::from_u32(u) {
            assert_eq!(char_is_space(c), c.is_whitespace());
            assert_eq!(char_is_ascii_space(c), c.is_ascii_whitespace());
        }
    }
}

#[test]
fn trim_bounds_cut_both_ends() {
    assert_eq!(trim_bounds(&chars("  ab c \n")), (2, 6));
    assert_eq!(trim_bounds(&chars("abc")), (0, 3));
    assert_eq!(trim_bounds(&chars("\u{A0}x\u{3000}")), (1, 2));
    let (a, b) = trim_bounds(&chars(" \t\n "));
    assert_eq!(a, b);
    let (a, b) = trim_bounds(&chars(""));
    assert_eq!((a, b), (0, 0));
}

#[test]
fn find_char_from_an_index() {
    let v = chars("a@b@c");
    assert_eq!(find_char(&v, 0, '@'), 1);
    assert_eq!(find_char(&v, 1, '@'), 1);
    assert_eq!(find_char(&v, 2, '@'), 3);
    assert_eq!(find_char(&v, 4, '@'), 5);
    assert_eq!(find_char(&v, 5, '@'), 5);
}

fn decimal_of(n: u64) -> String {
    let mut out = chars("n=");
    push_decimal(&mut out, n);
    string_from_chars(&out)
}

fn hexadecimal_of(n: u64) -> String {
    let mut out = chars("x=");
    push_hexadecimal(&mut out, n);
    string_from_chars(&out)
}

#[test]
fn push_decimal_appends_the_digits() {
    assert_eq!(decimal_of(0), "n=0");
    assert_eq!(decimal_of(9), "n=9");
    assert_eq!(decimal_of(10), "n=10");
    assert_eq!(decimal_of(8332), "n=8332");
    assert_eq!(decimal_of(u64::MAX), "n=18446744073709551615");
}

#[test]
fn push_hexadecimal_appends_lower_case_digits() {
    assert_eq!(hexadecimal_of(0), "x=0");
    assert_eq!(hexadecimal_of(10), "x=a");
    assert_eq!(hexadecimal_of(255), "x=ff");
    assert_eq!(hexadecimal_of(0xABCDEF), "x=abcdef");
    assert_eq!(hexadecimal_of(u64::MAX), "x=ffffffffffffffff");
}

#[test]
fn push_str_appends_the_characters() {
    let mut out = chars("ab");
    push_str(&mut out, "çd");
    push_str(&mut out, "");
    assert_eq!(out, chars("abçd"));
}

#[test]
fn find_field_counts_from_zero() {
    let v = chars("  a bb\t\tccc \n d");
    assert_eq!(find_field(&v, 0), Some((2, 3)));
    assert_eq!(find_field(&v, 1), Some((4, 6)));
    assert_eq!(find_field(&v, 2), Some((8, 11)));
    assert_eq!(find_field(&v, 3), Some((14, 15)));
    assert_eq!(find_field(&v, 4), None);
    assert_eq!(find_field(&chars("   "), 0), None);
}

#[test]
fn parse_iface_ip_takes_the_fourth_field() {
    assert_eq!(parse_iface_ip(IP_LINE), Ok(Some("172.18.0.5/16")));
    assert_eq!(parse_iface_ip("a b c d"), Ok(Some("d")));
    assert_eq!(parse_iface_ip("a b c d e"), Ok(Some("d")));
    assert_eq!(parse_iface_ip("\n\ta\r\nb\x0Cc  d\n"), Ok(Some("d")));
}

#[test]
fn parse_iface_ip_of_blank_output_is_nothing() {
    assert_eq!(parse_iface_ip(""), Ok(None));
    assert_eq!(parse_iface_ip("  \n\t "), Ok(None));
    assert_eq!(parse_iface_ip("\u{A0}\u{2003}"), Ok(None));
}

#[test]
fn parse_iface_ip_of_a_short_line_is_malformed() {
    assert_eq!(parse_iface_ip("a"), Err(IfaceError::Malformed));
    assert_eq!(parse_iface_ip("2: eth0 inet"), Err(IfaceError::Malformed));
    assert_eq!(parse_iface_ip("a b c\u{A0}d"), Err(IfaceError::Malformed));
}

#[test]
fn parse_iface_ip_agrees_with_the_standard_library() {
    for text in [IP_LINE, "", " ", "a b c", "a b c d", "\u{A0}a b c d\u{A0}", "a\u{A0}b c d e", "x\x0By z w v"] {
        let trimmed = text.trim();
        let expected = if trimmed.is_empty() {
            Ok(None)
        } else {
            match trimmed.split_ascii_whitespace().nth(3) {
                Some(f) => Ok(Some(f)),
                None => Err(IfaceError::Malformed),
            }
        };
        assert_eq!(parse_iface_ip(text), expected);
    }
}

#[test]
fn parse_ipv4_reads_four_octets() {
    assert_eq!(parse_ipv4("172.18.0.5"), Some(Ipv4 { a: 172, b: 18, c: 0, d: 5 }));
    assert_eq!(parse_ipv4("0.0.0.0"), Some(Ipv4 { a: 0, b: 0, c: 0, d: 0 }));
    assert_eq!(parse_ipv4("255.255.255.255"), Some(Ipv4 { a: 255, b: 255, c: 255, d: 255 }));
}

#[test]
fn parse_ipv4_rejects_everything_else() {
    for text in [
        "", "1", "1.2.3", "1.2.3.4.5", "1.2.3.", ".1.2.3", "1..2.3", "256.1.1.1", "1.1.1.256",
        "01.2.3.4", "1.2.3.04", "00.0.0.0", "1.2.3.4 ", " 1.2.3.4", "a.b.c.d", "1.2.3.-4",
        "1.2.3.4/16", "1000.1.1.1", "１.2.3.4", "+1.2.3.4",
    ] {
        assert_eq!(parse_ipv4(text), None);
    }
}

#[test]
fn parse_ipv4_agrees_with_the_standard_library() {
    for text in [
        "172.18.0.5", "0.0.0.0", "255.255.255.255", "10.0.0.1", "", "1.2.3", "256.1.1.1",
        "01.2.3.4", "1.2.3.4.5", "1.2.3.4 ", "0.00.0.0", "9.99.199.249", "1.2.3.٤",
    ] {
        let expected = text.parse::<core::net::Ipv4Addr>().ok().map(|ip| {
            let o = ip.octets();
            Ipv4 { a: o[0], b: o[1], c: o[2], d: o[3] }
        });
        assert_eq!(parse_ipv4(text), expected);
    }
}

#[test]
fn iface_ipv4_reads_the_address_before_the_slash() {
    assert_eq!(iface_ipv4(IP_LINE), Ok(Some(Ipv4 { a: 172, b: 18, c: 0, d: 5 })));
    assert_eq!(iface_ipv4("1: lo inet 127.0.0.1 scope host"), Ok(Some(Ipv4 { a: 127, b: 0, c: 0, d: 1 })));
    assert_eq!(iface_ipv4(""), Ok(None));
    assert_eq!(iface_ipv4("2: eth0 inet"), Err(IfaceError::Malformed));
    assert_eq!(iface_ipv4("2: eth0 inet6 fe80::1/64"), Err(IfaceError::BadAddress));
    assert_eq!(iface_ipv4("2: eth0 inet /16"), Err(IfaceError::BadAddress));
}

#[test]
fn addresses_fall_back_when_the_interface_has_none() {
    let ip = Ipv4 { a: 172, b: 18, c: 0, d: 5 };
    assert_eq!(listen_address(Some(ip)), ip);
    assert_eq!(listen_address(None), Ipv4 { a: 0, b: 0, c: 0, d: 0 });
    assert_eq!(control_address(Some(ip)), ip);
    assert_eq!(control_address(None), Ipv4 { a: 127, b: 0, c: 0, d: 1 });
}

#[test]
fn default_alias_is_padded_hexadecimal() {
    assert_eq!(default_alias(0x1f), "start9-0x0000001f");
    assert_eq!(default_alias(0), "start9-0x00000000");
    assert_eq!(default_alias(0xdeadbeef), "start9-0xdeadbeef");
    assert_eq!(default_alias(0xdeadbeefcafe), "start9-0xdeadbeefcafe");
    assert_eq!(default_alias(u64::MAX), "start9-0xffffffffffffffff");
}

#[test]
fn default_alias_agrees_with_the_formatter() {
    for n in [0u64, 1, 15, 16, 255, 0xfffffff, 0x10000000, 0xffffffff, 0x100000000, u64::MAX] {
        assert_eq!(default_alias(n), format!("start9-{:#010x}", n));
    }
}

#[test]
fn alias_prefers_configured_then_stored() {
    let configured = Some("mynode".to_string());
    assert_eq!(
        resolve_alias(&configured, Some("old".to_string()), 7),
        AliasChoice { alias: "mynode".to_string(), persist: false }
    );
    assert_eq!(
        resolve_alias(&configured, None, 7),
        AliasChoice { alias: "mynode".to_string(), persist: false }
    );
    assert_eq!(
        resolve_alias(&None, Some("old".to_string()), 7),
        AliasChoice { alias: "old".to_string(), persist: false }
    );
    assert_eq!(
        resolve_alias(&None, None, 7),
        AliasChoice { alias: "start9-0x00000007".to_string(), persist: true }
    );
}

#[test]
fn get_alias_makes_a_default_only_when_nothing_is_there() {
    assert_eq!(
        get_alias(&Some("mynode".to_string()), None),
        AliasChoice { alias: "mynode".to_string(), persist: false }
    );
    assert_eq!(
        get_alias(&None, Some("old".to_string())),
        AliasChoice { alias: "old".to_string(), persist: false }
    );
    let fresh = get_alias(&None, None);
    assert!(fresh.persist);
    assert!(fresh.alias.starts_with("start9-0x"));
    let digits = &fresh.alias["start9-0x".len()..];
    assert!(digits.len() >= 8 && digits.len() <= 16);
    assert!(digits.chars().all(|c| c.is_ascii_digit() || ('a'..='f').contains(&c)));
    let number = u64::from_str_radix(digits, 16).unwrap();
    assert_eq!(default_alias(number), fresh.alias);
}

#[test]
fn get_alias_draws_different_numbers() {
    let a = get_alias(&None, None).alias;
    let b = get_alias(&None, None).alias;
    let c = get_alias(&None, None).alias;
    assert!(a != b || b != c);
}

#[test]
fn paths_lie_below_the_base() {
    let paths = Paths::under("/root/.lnd");
    assert_eq!(paths.at(Entry::Config), "/root/.lnd/start9/config.yaml");
    assert_eq!(paths.at(Entry::DefaultAlias), "/root/.lnd/default_alias.txt");
    assert_eq!(paths.at(Entry::DaemonConfig), "/root/.lnd/lnd.conf");
    assert_eq!(paths.at(Entry::PublicDir), "/root/.lnd/public");
    assert_eq!(paths.at(Entry::BackupIgnore), "/root/.lnd/.backupignore");
    assert_eq!(paths.at(Entry::BackupIgnoreTemp), "/root/.lnd/.backupignore.tmp");
    assert_eq!(paths.at(Entry::RestoreMarker), "/root/.lnd/start9/restore.yaml");
    assert_eq!(
        paths.at(Entry::ChannelBackup),
        "/root/.lnd/data/chain/bitcoin/mainnet/channel.backup"
    );
    assert_eq!(paths.at(Entry::GraphCache), "/root/.lnd/data/graph");
    assert_eq!(paths.at(Entry::Credential), "/root/.lnd/pwd.dat");
    assert_eq!(paths.at(Entry::CredentialTemp), "/root/.lnd/new_pwd.dat");
    assert_eq!(paths.at(Entry::TlsCert), "/root/.lnd/tls.cert");
    assert_eq!(paths.at(Entry::SeedFile), "/root/.lnd/start9/cipherSeedMnemonic.txt");
    assert_eq!(paths.at(Entry::MacaroonDir), "/root/.lnd/data/chain/bitcoin/mainnet");
    assert_eq!(
        paths.at(Entry::AdminMacaroon),
        "/root/.lnd/data/chain/bitcoin/mainnet/admin.macaroon"
    );
    assert_eq!(paths.at(Entry::TowerUrl), "/root/.lnd/start9/towerServerUrl");
}

#[test]
fn paths_join_with_one_slash() {
    assert_eq!(Paths::under("/tmp/x/").at(Entry::Credential), "/tmp/x/pwd.dat");
    assert_eq!(Paths::under("").at(Entry::Credential), "pwd.dat");
    assert_eq!(Paths::under("/").at(Entry::Credential), "/pwd.dat");
    assert_eq!(Paths::under("rel").at(Entry::GraphCache), "rel/data/graph");
}

#[test]
fn paths_agree_with_the_standard_library() {
    for base in ["/root/.lnd", "/tmp/x/", "", "/", "rel", "a//"] {
        let expected = std::path::Path::new(base).join("start9/restore.yaml");
        assert_eq!(Paths::under(base).at(Entry::RestoreMarker), expected.to_str().unwrap());
    }
}

#[test]
fn macaroon_files_are_told_by_their_ending() {
    assert!(is_macaroon("admin.macaroon"));
    assert!(is_macaroon("a.macaroon"));
    assert!(is_macaroon("..macaroon"));
    assert!(is_macaroon("x.y.macaroon"));
    assert!(!is_macaroon(".macaroon"));
    assert!(!is_macaroon("macaroon"));
    assert!(!is_macaroon("admin.macaroon.bak"));
    assert!(!is_macaroon("admin.Macaroon"));
    assert!(!is_macaroon("adminmacaroon"));
    assert!(!is_macaroon(""));
}

#[test]
fn macaroon_files_agree_with_the_standard_library() {
    for name in ["admin.macaroon", ".macaroon", "..macaroon", "a.b.macaroon", "macaroon", "x.macaroon.y", "channel.backup"] {
        let expected =
            std::path::Path::new(name).extension().and_then(|s| s.to_str()) == Some("macaroon");
        assert_eq!(is_macaroon(name), expected);
    }
}

#[test]
fn seed_file_numbers_the_words_from_one() {
    let words: Vec<String> = ["abandon", "ability", "able"].iter().map(|w| w.to_string()).collect();
    assert_eq!(seed_file_text(&words), "1 abandon\n2 ability\n3 able\n");
    assert_eq!(seed_file_text(&Vec::new()), "");
    let phrase = CipherSeedMnemonic { cipher_seed_mnemonic: words };
    assert_eq!(seed_file_text(&phrase.cipher_seed_mnemonic), "1 abandon\n2 ability\n3 able\n");
}

#[test]
fn seed_file_of_twenty_four_words() {
    let words: Vec<String> = (0..24).map(|i| format!("w{}", i)).collect();
    let text = seed_file_text(&words);
    let lines: Vec<&str> = text.lines().collect();
    assert_eq!(lines.len(), 24);
    assert_eq!(lines[0], "1 w0");
    assert_eq!(lines[9], "10 w9");
    assert_eq!(lines[23], "24 w23");
    assert!(text.ends_with('\n'));
}

#[test]
fn optional_rows_are_empty_when_absent() {
    assert_eq!(optional_row("externalip", &None), "");
    assert_eq!(optional_row("externalip", &Some("1.2.3.4".to_string())), "externalip=1.2.3.4");
    assert_eq!(optional_number_row("minchansize", None), "");
    assert_eq!(optional_number_row("minchansize", Some(20000)), "minchansize=20000");
    assert_eq!(optional_number_row("maxchansize", Some(0)), "maxchansize=0");
}

#[test]
fn node_config_rows() {
    let mut config = node();
    assert_eq!(config.externalip_row(), "");
    assert_eq!(config.min_chan_size_row(), "");
    assert_eq!(config.max_chan_size_row(), "");
    assert!(config.tor_enable_clearnet());
    assert_eq!(config.unlock_window(), None);
    config.externalip = Some("node.example:9735".to_string());
    config.min_chan_size = Some(20000);
    config.max_chan_size = Some(16777215);
    config.use_tor_only = true;
    config.recovery_window = Some(2500);
    assert_eq!(config.externalip_row(), "externalip=node.example:9735");
    assert_eq!(config.min_chan_size_row(), "minchansize=20000");
    assert_eq!(config.max_chan_size_row(), "maxchansize=16777215");
    assert!(!config.tor_enable_clearnet());
    assert_eq!(config.unlock_window(), Some(2500));
}

#[test]
fn strategy_rows() {
    assert_eq!(
        fee_url_row(SyncStrategy::LightClient),
        "fee.url=https://nodes.lightning.computer/fees/v1/btc-fee-estimates.json"
    );
    assert_eq!(fee_url_row(SyncStrategy::FullNode), "");
    assert_eq!(chain_node(SyncStrategy::LightClient), "neutrino");
    assert_eq!(chain_node(SyncStrategy::FullNode), "bitcoind");
}

#[test]
fn poll_waits_one_second_until_open() {
    assert_eq!(poll(true), Wait::Proceed);
    assert_eq!(poll(false), Wait::Again { after_secs: 1 });
}

#[test]
fn control_gate_is_the_control_port() {
    assert_eq!(CONTROL_PORT, 10009);
    let ip = Ipv4 { a: 127, b: 0, c: 0, d: 1 };
    assert_eq!(control_gate(ip), Gate::Tcp { address: ip, port: 10009 });
}

#[test]
fn port_available_reads_the_bind_outcome() {
    assert_eq!(port_available(8080, BindOutcome::Bound), Ok(true));
    assert_eq!(port_available(8080, BindOutcome::InUse), Ok(false));
    assert_eq!(port_available(8080, BindOutcome::OtherFailure), Err(PortUnknown { port: 8080 }));
}

#[test]
fn properties_sheet_holds_its_entries() {
    let entry = Property {
        value_type: "string".to_string(),
        value: "lndconnect://x".to_string(),
        description: Some("connect".to_string()),
        copyable: true,
        qr: true,
        masked: true,
    };
    let sheet = Properties { version: 2, data: Data::NotReady { not_ready: entry.clone() } };
    assert_eq!(sheet.version, 2);
    match sheet.data {
        Data::NotReady { not_ready } => {
            assert_eq!(not_ready.value, "lndconnect://x");
            assert_eq!(not_ready.value_type, "string");
            assert!(not_ready.copyable && not_ready.qr && not_ready.masked);
        }
        Data::LND { .. } => panic!("wrong variant"),
    }
    let info = TowerInfo { pubkey: "02".to_string(), listeners: Vec::new(), uris: Vec::new() };
    assert_eq!(info.clone(), info);
}
