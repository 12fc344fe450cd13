//! Tests of the device-authorization client: session lifecycle and the
//! classification of poll failures.

use snailer_gui::device::{
    classify_poll_failure, new_device_code_request, new_poll_request, normalize_interval,
    token_to_credential, auth_logout, DeviceAuthClient, PollClass, RpcCode,
};
use snailer_gui::types::{DeviceCodeResponse, TokenResponse};

fn sample_session(interval: i32) -> DeviceCodeResponse {
    DeviceCodeResponse {
        device_code: String::from("dev-123"),
        user_code: String::from("ABCD-EFGH"),
        verification_uri: String::from("https://auth.example/verify"),
        verification_uri_complete: String::from("https://auth.example/verify?code=ABCD-EFGH"),
        expires_in: 600,
        interval,
    }
}

#[test]
fn pending_poll_keeps_session_alive() {
    let mut client = DeviceAuthClient::new();
    client.begin_session(sample_session(5));
    assert!(client.poll_allowed("dev-123"));
    let class = client.handle_poll_failure(
        &RpcCode::FailedPrecondition,
        "rpc error: authorization_pending",
    );
    assert!(matches!(class, PollClass::Pending));
    assert!(client.poll_allowed("dev-123"));
}

#[test]
fn expired_poll_ends_session_and_later_polls_are_rejected() {
    let mut client = DeviceAuthClient::new();
    client.begin_session(sample_session(5));
    let class =
        client.handle_poll_failure(&RpcCode::FailedPrecondition, "rpc error: expired_token");
    assert!(matches!(class, PollClass::Expired));
    assert!(!client.poll_allowed("dev-123"));
    assert!(client.auth_state().is_none());
}

#[test]
fn poll_with_wrong_code_is_rejected() {
    let mut client = DeviceAuthClient::new();
    client.begin_session(sample_session(5));
    assert!(!client.poll_allowed("other-code"));
}

#[test]
fn classification_taxonomy() {
    assert!(matches!(
        classify_poll_failure(&RpcCode::ResourceExhausted, "anything"),
        PollClass::SlowDown
    ));
    assert!(matches!(
        classify_poll_failure(&RpcCode::Unauthenticated, "anything"),
        PollClass::InvalidClient
    ));
    match classify_poll_failure(&RpcCode::FailedPrecondition, "strange state") {
        PollClass::PreconditionFailed(m) => assert_eq!(m, "strange state"),
        _ => panic!("must surface the precondition message"),
    }
    match classify_poll_failure(&RpcCode::Other, "transport closed") {
        PollClass::OtherFailure(m) => assert_eq!(m, "transport closed"),
        _ => panic!("must surface other failures verbatim"),
    }
}

#[test]
fn non_positive_interval_defaults_to_five_seconds() {
    assert_eq!(normalize_interval(7), 7);
    assert_eq!(normalize_interval(0), 5);
    assert_eq!(normalize_interval(-3), 5);
    let mut client = DeviceAuthClient::new();
    let stored = client.begin_session(sample_session(0));
    assert_eq!(stored.interval, 5);
}

#[test]
fn create_request_carries_identity_and_fresh_key() {
    let r = new_device_code_request("1.2.3");
    assert_eq!(r.client_id, "snailer-cli");
    assert_eq!(r.scope, "read write");
    assert_eq!(r.user_agent, "snailer-gui/1.2.3");
    assert_eq!(r.idempotency_key.chars().count(), 36);
    let r2 = new_device_code_request("1.2.3");
    assert_ne!(r.idempotency_key, r2.idempotency_key);
}

#[test]
fn poll_request_names_the_device_code() {
    let p = new_poll_request(String::from("dev-9"));
    assert_eq!(p.device_code, "dev-9");
    assert_eq!(p.client_id, "snailer-cli");
}

#[test]
fn successful_exchange_computes_absolute_expiry() {
    let t = TokenResponse {
        access_token: String::from("at"),
        refresh_token: String::from("rt"),
        account_id: String::from("acct"),
        email: String::from("e@example.com"),
        name: String::from("E"),
        expires_in: 3600,
    };
    let c = token_to_credential(t, 1_000_000);
    assert_eq!(c.expires_at, Some(1_003_600));
    assert_eq!(c.access_token, "at");
}

#[test]
fn logout_clears_the_session() {
    let mut client = DeviceAuthClient::new();
    client.begin_session(sample_session(5));
    auth_logout(&mut client);
    assert!(client.auth_state().is_none());
}
