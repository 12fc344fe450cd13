//! Tests of the credential blob codec and the login-status decision.

use snailer_gui::credblob::{encode_credential, parse_credential, Credential};
use snailer_gui::credstore::{api_key_credential, check_status_decision, is_expired};

fn sample_credential(expires_at: Option<i64>) -> Credential {
    Credential {
        access_token: String::from("at-123"),
        refresh_token: String::from("rt-456"),
        account_id: String::from("acct-1"),
        email: String::from("user@example.com"),
        name: String::from("User Example"),
        expires_at,
    }
}

#[test]
fn blob_round_trips_with_expiry() {
    let c = sample_credential(Some(1700000000));
    let blob = encode_credential(&c);
    let back = parse_credential(blob.as_str()).expect("canonical blob must parse");
    assert_eq!(back.access_token, "at-123");
    assert_eq!(back.refresh_token, "rt-456");
    assert_eq!(back.account_id, "acct-1");
    assert_eq!(back.email, "user@example.com");
    assert_eq!(back.name, "User Example");
    assert_eq!(back.expires_at, Some(1700000000));
}

#[test]
fn blob_round_trips_without_expiry() {
    let c = sample_credential(None);
    let blob = encode_credential(&c);
    let back = parse_credential(blob.as_str()).expect("canonical blob must parse");
    assert_eq!(back.access_token, "at-123");
    assert_eq!(back.expires_at, None);
}

#[test]
fn blob_round_trips_negative_expiry_and_odd_text() {
    let c = Credential {
        access_token: String::from("a:b:c\n17:"),
        refresh_token: String::new(),
        account_id: String::from("N"),
        email: String::from("E-42"),
        name: String::from("héllo ✓"),
        expires_at: Some(-12345),
    };
    let blob = encode_credential(&c);
    let back = parse_credential(blob.as_str()).expect("canonical blob must parse");
    assert_eq!(back.access_token, "a:b:c\n17:");
    assert_eq!(back.refresh_token, "");
    assert_eq!(back.account_id, "N");
    assert_eq!(back.email, "E-42");
    assert_eq!(back.name, "héllo ✓");
    assert_eq!(back.expires_at, Some(-12345));
}

#[test]
fn garbage_blobs_do_not_parse() {
    assert!(parse_credential("").is_none());
    assert!(parse_credential("hello").is_none());
    assert!(parse_credential("3:abc").is_none());
    assert!(parse_credential("1:a1:b1:c1:d1:e").is_none());
    assert!(parse_credential("1:a1:b1:c1:d1:eX").is_none());
    assert!(parse_credential("1:a1:b1:c1:d1:eE").is_none());
    assert!(parse_credential("99:a1:b1:c1:d1:eN").is_none());
}

#[test]
fn expired_credential_reports_not_logged_in() {
    let c = sample_credential(Some(1000));
    assert!(is_expired(&c, 1001));
    let outcome = check_status_decision(Some(c), None, 1001);
    assert!(outcome.response.is_none());
    assert!(outcome.cleanup);
    assert!(outcome.migrate.is_none());
}

#[test]
fn unexpired_credential_reports_logged_in_with_remaining_lifetime() {
    let c = sample_credential(Some(2000));
    assert!(!is_expired(&c, 1500));
    let outcome = check_status_decision(Some(c), None, 1500);
    let t = outcome.response.expect("must be logged in");
    assert_eq!(t.access_token, "at-123");
    assert_eq!(t.expires_in, 500);
    assert!(!outcome.cleanup);
}

#[test]
fn credential_without_expiry_reports_zero_lifetime() {
    let c = sample_credential(None);
    let outcome = check_status_decision(Some(c), None, 1500);
    let t = outcome.response.expect("must be logged in");
    assert_eq!(t.expires_in, 0);
}

#[test]
fn legacy_record_is_migrated_once_and_both_stores_agree() {
    let legacy = sample_credential(Some(5000));
    // First pass: secure storage empty, valid legacy record.
    let first = check_status_decision(None, Some(sample_credential(Some(5000))), 1000);
    let migrated = first.migrate.expect("legacy record must be migrated");
    assert_eq!(migrated.access_token, legacy.access_token);
    assert!(first.response.is_some());
    // Second pass: the migrated record is in secure storage; nothing more to
    // migrate and the same record is reported.
    let second = check_status_decision(Some(migrated), Some(legacy), 1000);
    assert!(second.migrate.is_none());
    assert_eq!(second.response.expect("still logged in").access_token, "at-123");
}

#[test]
fn expired_legacy_record_is_not_migrated() {
    let outcome = check_status_decision(None, Some(sample_credential(Some(10))), 1000);
    assert!(outcome.response.is_none());
    assert!(outcome.migrate.is_none());
    assert!(!outcome.cleanup);
}

#[test]
fn api_key_credential_has_no_expiry() {
    let c = api_key_credential(String::from("sk-test"));
    assert_eq!(c.access_token, "sk-test");
    assert_eq!(c.email, "API Key User");
    assert_eq!(c.name, "API Key");
    assert!(c.expires_at.is_none());
}
