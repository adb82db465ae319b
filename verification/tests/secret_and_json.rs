use configurator::json::{reply_member, request_body, skip_nulls, JsonField, JsonMember, JsonValue};
use configurator::requests::{init_body, rotation_body, unlock_body, Endpoint};
use configurator::secret::{encode_typeable, password_field, pw_is_typeable};

fn field(key: &str, value: JsonValue) -> JsonField {
    JsonField { key: key.to_string(), value }
}

#[test]
fn typeable_accepts_the_whole_printable_range() {
    let all: Vec<u8> = (32u8..=126u8).collect();
    assert!(pw_is_typeable(&all));
    assert!(pw_is_typeable(b"correct horse battery staple"));
}

#[test]
fn typeable_accepts_the_empty_secret() {
    assert!(pw_is_typeable(&[]));
}

#[test]
fn typeable_rejects_bytes_next_to_the_range() {
    assert!(!pw_is_typeable(&[31]));
    assert!(!pw_is_typeable(&[127]));
    assert!(!pw_is_typeable(&[b'a', b'b', 0, b'c']));
    assert!(!pw_is_typeable(&[b'a', 200]));
    assert!(pw_is_typeable(&[32, 126]));
}

#[test]
fn base32_matches_the_rfc_vectors() {
    assert_eq!(encode_typeable(b""), b"".to_vec());
    assert_eq!(encode_typeable(b"f"), b"MY".to_vec());
    assert_eq!(encode_typeable(b"fo"), b"MZXQ".to_vec());
    assert_eq!(encode_typeable(b"foo"), b"MZXW6".to_vec());
    assert_eq!(encode_typeable(b"foob"), b"MZXW6YQ".to_vec());
    assert_eq!(encode_typeable(b"fooba"), b"MZXW6YTB".to_vec());
    assert_eq!(encode_typeable(b"foobar"), b"MZXW6YTBOI".to_vec());
}

#[test]
fn base32_of_sixteen_bytes_has_twenty_six_symbols() {
    let entropy: Vec<u8> = (0u8..16u8).collect();
    let secret = encode_typeable(&entropy);
    assert_eq!(secret, b"AAAQEAYEAUDAOCAJBIFQYDIOB4".to_vec());
    assert_eq!(secret.len(), 26);
    assert!(pw_is_typeable(&secret));
}

#[test]
fn base32_of_any_byte_is_typeable() {
    for b in 0u8..=255u8 {
        let secret = encode_typeable(&[b, 255 - b, b]);
        assert_eq!(secret.len(), 5);
        assert!(pw_is_typeable(&secret));
    }
}

#[test]
fn password_field_is_padded_base64() {
    assert_eq!(password_field(b"hunter2"), "aHVudGVyMg==");
    assert_eq!(password_field(b"hello world"), "aGVsbG8gd29ybGQ=");
    assert_eq!(password_field(&[0, 1, 2, 255]), "AAEC/w==");
    assert_eq!(password_field(b""), "");
}

#[test]
fn skip_nulls_keeps_the_other_members_in_order() {
    let fields = vec![
        field("b", JsonValue::Null),
        field("z", JsonValue::Number(7)),
        field("a", JsonValue::Text("x".to_string())),
        field("c", JsonValue::Null),
        field("l", JsonValue::List(vec!["p".to_string(), "q".to_string()])),
    ];
    let kept = skip_nulls(&fields);
    assert_eq!(kept.len(), 3);
    assert_eq!(kept[0].key, "z");
    assert!(matches!(kept[0].value, JsonValue::Number(7)));
    assert_eq!(kept[1].key, "a");
    assert!(matches!(&kept[1].value, JsonValue::Text(t) if t == "x"));
    assert_eq!(kept[2].key, "l");
    assert!(matches!(&kept[2].value, JsonValue::List(l) if l.len() == 2 && l[1] == "q"));
}

#[test]
fn skip_nulls_of_only_nulls_is_empty() {
    let fields = vec![field("a", JsonValue::Null), field("b", JsonValue::Null)];
    assert_eq!(skip_nulls(&fields).len(), 0);
    assert_eq!(skip_nulls(&Vec::new()).len(), 0);
}

#[test]
fn request_body_leaves_null_members_out() {
    let fields = vec![
        field("wallet_password", JsonValue::Text("cGFzcw==".to_string())),
        field("recovery_window", JsonValue::Null),
    ];
    assert_eq!(request_body(&fields), Some("{\"wallet_password\":\"cGFzcw==\"}".to_string()));
}

#[test]
fn request_body_of_no_members_is_the_empty_object() {
    assert_eq!(request_body(&Vec::new()), Some("{}".to_string()));
    let fields = vec![field("only", JsonValue::Null)];
    assert_eq!(request_body(&fields), Some("{}".to_string()));
}

#[test]
fn request_body_escapes_text_and_writes_lists() {
    let fields = vec![
        field("t", JsonValue::Text("a\"b\\c\n".to_string())),
        field("l", JsonValue::List(vec!["x".to_string(), "y".to_string()])),
        field("n", JsonValue::Number(18446744073709551615)),
    ];
    assert_eq!(
        request_body(&fields),
        Some("{\"l\":[\"x\",\"y\"],\"n\":18446744073709551615,\"t\":\"a\\\"b\\\\c\\n\"}".to_string())
    );
}

#[test]
fn unlock_body_with_and_without_window() {
    assert_eq!(
        unlock_body(b"hunter2", None),
        Some("{\"wallet_password\":\"aHVudGVyMg==\"}".to_string())
    );
    assert_eq!(
        unlock_body(b"hunter2", Some(2500)),
        Some("{\"recovery_window\":2500,\"wallet_password\":\"aHVudGVyMg==\"}".to_string())
    );
}

#[test]
fn rotation_body_holds_both_secrets() {
    assert_eq!(
        rotation_body(&[0, 1, 2, 255], b"AAAQF7Y"),
        Some("{\"current_password\":\"AAEC/w==\",\"new_password\":\"QUFBUUY3WQ==\"}".to_string())
    );
}

#[test]
fn init_body_holds_secret_and_phrase() {
    let words = vec!["abandon".to_string(), "ability".to_string()];
    assert_eq!(
        init_body(b"MZXW6YTBOI", words),
        Some(
            "{\"cipher_seed_mnemonic\":[\"abandon\",\"ability\"],\"wallet_password\":\"TVpYVzZZVEJPSQ==\"}"
                .to_string()
        )
    );
}

#[test]
fn endpoint_paths() {
    assert_eq!(Endpoint::GenSeed.path(), "/v1/genseed");
    assert_eq!(Endpoint::InitWallet.path(), "/v1/initwallet");
    assert_eq!(Endpoint::UnlockWallet.path(), "/v1/unlockwallet");
    assert_eq!(Endpoint::ChangePassword.path(), "/v1/changepassword");
}

#[test]
fn reply_member_tells_the_shapes_apart() {
    assert!(matches!(reply_member("{}", "message"), Some(JsonMember::Absent)));
    assert!(matches!(reply_member("{\"other\":1}", "message"), Some(JsonMember::Absent)));
    assert!(matches!(reply_member("[1,2]", "message"), Some(JsonMember::NotObject)));
    assert!(matches!(reply_member("\"message\"", "message"), Some(JsonMember::NotObject)));
    assert!(matches!(reply_member("{\"message\":5}", "message"), Some(JsonMember::NotText)));
    assert!(matches!(reply_member("{\"message\":null}", "message"), Some(JsonMember::NotText)));
    assert!(matches!(
        reply_member("{\"code\":2,\"message\":\"wallet locked\"}", "message"),
        Some(JsonMember::Text(m)) if m == "wallet locked"
    ));
}

#[test]
fn reply_member_of_what_is_not_json_is_none() {
    assert!(reply_member("", "message").is_none());
    assert!(reply_member("not json", "message").is_none());
    assert!(reply_member("{\"message\":", "message").is_none());
}

#[test]
fn reply_member_looks_up_the_given_key() {
    assert!(matches!(
        reply_member("{\"a\":\"x\",\"b\":\"y\"}", "b"),
        Some(JsonMember::Text(m)) if m == "y"
    ));
    assert!(matches!(reply_member("{\"a\":\"x\"}", "b"), Some(JsonMember::Absent)));
}
