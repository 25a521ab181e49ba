use shorts_tauri_app::dotenv::{parse_env_file, parse_env_line, unquote_env_value};
use shorts_tauri_app::hex::{bytes_to_hex, hex_decoding_panics, hex_to_bytes, sha256_hex};
use shorts_tauri_app::privacy::{
    block_key_outcome, check_deletion_input, check_devolens_credentials, check_status_input,
    decode_devolens_request_id, devolens_request_id, generate_idempotency_key, get_key_outcome,
    parse_worker_response, PrivacyEnvelope, UserDataDeletionInput, UserDataDeletionView,
    UserDataDeletionStatusInput,
};

#[test]
fn devolens_request_id_roundtrips_the_license_key() {
    let id = devolens_request_id("abc-123-xyz");
    assert_eq!(id, "del_dev_6162632d3132332d78797a");
    match decode_devolens_request_id(&id) {
        Some(Ok(k)) => assert_eq!(k, "abc-123-xyz"),
        other => panic!("unexpected: {other:?}"),
    }
    let unicode = devolens_request_id("ключ");
    assert!(matches!(decode_devolens_request_id(&unicode), Some(Ok(ref k)) if k == "ключ"));
}

#[test]
fn devolens_request_id_decoding_errors() {
    assert!(decode_devolens_request_id("req_123").is_none());
    match decode_devolens_request_id("del_dev_zz") {
        Some(Err(e)) => {
            assert_eq!(e.code, "invalid_request_id");
            assert_eq!(e.message, "Request ID has invalid Devolens encoding.");
        }
        other => panic!("unexpected: {other:?}"),
    }
    match decode_devolens_request_id("del_dev_ff") {
        Some(Err(e)) => assert_eq!(e.message, "Request ID has invalid UTF-8 license key."),
        other => panic!("unexpected: {other:?}"),
    }
}

#[test]
fn deletion_input_needs_key_and_confirmation() {
    let ok = check_deletion_input(&UserDataDeletionInput {
        license_key: "  KEY-1 ".to_string(),
        purchaser_email: Some("   ".to_string()),
        confirmation: " DELETE ".to_string(),
    })
    .expect("valid request");
    assert_eq!(ok.license_key, "KEY-1");
    assert_eq!(ok.purchaser_email, None);
    let err = check_deletion_input(&UserDataDeletionInput {
        license_key: "KEY-1".to_string(),
        purchaser_email: None,
        confirmation: "delete".to_string(),
    })
    .unwrap_err();
    assert_eq!(err.code, "invalid_deletion_request");
    let err = check_status_input(&UserDataDeletionStatusInput {
        request_id: "r".to_string(),
        lookup_token: "  ".to_string(),
    })
    .unwrap_err();
    assert_eq!(err.code, "bad_request");
}

#[test]
fn devolens_outcomes() {
    assert_eq!(check_devolens_credentials(" ", "1").unwrap_err().code, "unauthorized");
    assert!(check_devolens_credentials("t", "1").is_ok());
    let v = block_key_outcome(0, "", "abc", 77).expect("completed");
    assert_eq!(v.status, "completed");
    assert_eq!(v.completed_at_ms, Some(77));
    assert_eq!(v.lookup_token.as_deref(), Some("devolens_direct"));
    let e = block_key_outcome(1, "nope", "abc", 77).unwrap_err();
    assert_eq!(e.message, "Devolens error: nope");
    let v = get_key_outcome(0, None, "abc", 5).expect("pending");
    assert_eq!(v.status, "pending");
    assert_eq!(v.completed_at_ms, None);
    assert_eq!(get_key_outcome(0, Some(true), "abc", 5).unwrap().status, "completed");
    assert_eq!(get_key_outcome(2, Some(true), "abc", 5).unwrap_err().code, "devolens_error");
}

#[test]
fn privacy_worker_envelopes() {
    assert_eq!(parse_worker_response::<UserDataDeletionView>(None).unwrap_err().code, "serialization");
    let view = UserDataDeletionView {
        request_id: "del_1".to_string(),
        lookup_token: Some("tok".to_string()),
        status: "pending".to_string(),
        message: None,
        completed_at_ms: None,
        error_code: None,
    };
    let ok = PrivacyEnvelope { ok: true, data: Some(view), error: None };
    assert_eq!(parse_worker_response(Some(ok)).unwrap().request_id, "del_1");
    let missing: PrivacyEnvelope<UserDataDeletionView> = PrivacyEnvelope { ok: true, data: None, error: None };
    assert_eq!(parse_worker_response(Some(missing)).unwrap_err().message, "Worker response was missing data.");
    let failed: PrivacyEnvelope<UserDataDeletionView> = PrivacyEnvelope {
        ok: false,
        data: None,
        error: Some(("rate_limited".to_string(), "slow down".to_string())),
    };
    let e = parse_worker_response(Some(failed)).unwrap_err();
    assert_eq!((e.code.as_str(), e.message.as_str()), ("rate_limited", "slow down"));
    let silent: PrivacyEnvelope<UserDataDeletionView> = PrivacyEnvelope { ok: false, data: None, error: None };
    assert_eq!(parse_worker_response(Some(silent)).unwrap_err().message, "Worker request failed.");
}

#[test]
fn privacy_idempotency_keys() {
    let k = generate_idempotency_key("delete", " KEY ", 10);
    assert!(k.starts_with("privacy_"));
    assert_eq!(k.len(), 8 + 32);
    assert_eq!(k, generate_idempotency_key("delete", "KEY", 10));
    let expected = &sha256_hex(b"delete:KEY:10")[..32];
    assert_eq!(&k[8..], expected);
    assert_ne!(k, generate_idempotency_key("status", "KEY", 10));
}

#[test]
fn hex_roundtrip_and_digest() {
    assert_eq!(bytes_to_hex(&[0, 15, 255]), "000fff");
    assert_eq!(hex_to_bytes("000fff"), Some(vec![0, 15, 255]));
    assert_eq!(hex_to_bytes("ABcd"), Some(vec![0xab, 0xcd]));
    assert_eq!(hex_to_bytes("abc"), None);
    assert_eq!(hex_to_bytes("zz"), None);
    assert_eq!(
        sha256_hex(b"abc"),
        "ba7816bf8f01cfea414140de5dae2223b00361a396177a9cb410ff61f20015ad"
    );
}

#[test]
fn dotenv_lines() {
    assert_eq!(parse_env_line("  KEY = 'v a l' "), Some(("KEY".to_string(), "v a l".to_string())));
    assert_eq!(parse_env_line("# comment"), None);
    assert_eq!(parse_env_line("no equals"), None);
    assert_eq!(parse_env_line(" = value"), None);
    assert_eq!(parse_env_line("A=b=c"), Some(("A".to_string(), "b=c".to_string())));
    assert_eq!(unquote_env_value("\"x\""), "x");
    assert_eq!(unquote_env_value("'x\""), "'x\"");
    assert_eq!(parse_env_file("A=1\n\n#c\nB=\"2\"\n").len(), 2);
}

#[test]
fn hex_decoding_panics_only_where_a_pair_ends_inside_a_character() {
    assert!(!hex_decoding_panics("6162"));
    assert!(!hex_decoding_panics("6é"));
    assert!(hex_decoding_panics("aé1"));
    assert!(!hex_decoding_panics("zzé1"));
    assert!(!hex_decoding_panics(""));
}
