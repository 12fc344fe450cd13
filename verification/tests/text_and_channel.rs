//! Tests of the shared text helpers and of the channel-builder decisions.

use snailer_gui::channel::{
    ca_bundle_candidates, connect_timeout_secs, host_for_sni, normalize_auth_url, pick_ca_bundle,
    request_timeout_secs,
};
use snailer_gui::textutil::{
    clip_message, combine_output, contains_substring, find_substring, i64_to_dec, is_blank,
    starts_with, str_eq, to_lowercase, trim_str, u64_to_dec,
};

#[test]
fn substring_search_is_exact() {
    assert!(contains_substring("authorization_pending state", "authorization_pending"));
    assert!(!contains_substring("authorization", "authorization_pending"));
    assert!(contains_substring("anything", ""));
    assert_eq!(find_substring("a//b//c", "//"), Some(1));
    assert_eq!(find_substring("abc", "//"), None);
    assert!(starts_with("https://x", "https://"));
    assert!(!starts_with("http://x", "https://"));
    assert!(str_eq("abc", "abc"));
    assert!(!str_eq("abc", "abd"));
}

#[test]
fn decimal_rendering_is_exact() {
    assert_eq!(u64_to_dec(0), "0");
    assert_eq!(u64_to_dec(65535), "65535");
    assert_eq!(i64_to_dec(-12345), "-12345");
    assert_eq!(i64_to_dec(i64::MIN), "-9223372036854775808");
    assert_eq!(i64_to_dec(i64::MAX), "9223372036854775807");
}

#[test]
fn trim_and_blank_follow_whitespace() {
    assert_eq!(trim_str("  a b \t\n"), "a b");
    assert_eq!(trim_str(""), "");
    assert_eq!(trim_str(" \r\n "), "");
    assert!(is_blank("   \t"));
    assert!(!is_blank(" x "));
    // The lowercase folding goes through the standard library.
    assert_eq!(to_lowercase("Logged IN"), "logged in");
}

#[test]
fn clipping_and_output_combining() {
    assert_eq!(clip_message("short", 4000), "short");
    let long = "y".repeat(4002);
    let clipped = clip_message(long.as_str(), 4000);
    assert_eq!(clipped.chars().count(), 4003);
    assert!(clipped.ends_with("..."));
    assert_eq!(combine_output("out", "err"), "out\nerr");
    assert_eq!(combine_output("", "err"), "err");
    assert_eq!(combine_output("out", ""), "out");
}

#[test]
fn addresses_are_normalized_by_scheme_and_mode() {
    assert_eq!(normalize_auth_url("auth.example:443", false), "https://auth.example:443");
    assert_eq!(normalize_auth_url("auth.example:443", true), "http://auth.example:443");
    assert_eq!(normalize_auth_url("http://already", false), "http://already");
    assert_eq!(normalize_auth_url("https://already", true), "https://already");
}

#[test]
fn sni_host_comes_from_override_or_url() {
    assert_eq!(
        host_for_sni("https://auth.example:443/x", Some(String::from("sni.example"))).as_deref(),
        Some("sni.example")
    );
    assert_eq!(
        host_for_sni("https://auth.example:443/x", None).as_deref(),
        Some("auth.example")
    );
    assert_eq!(host_for_sni("https://auth.example/x", None).as_deref(), Some("auth.example"));
    assert_eq!(host_for_sni("no-scheme-here", None), None);
}

#[test]
fn ca_bundles_are_probed_in_a_fixed_order() {
    let c = ca_bundle_candidates();
    assert_eq!(
        c,
        vec![
            "/etc/ssl/certs/ca-certificates.crt",
            "/etc/pki/tls/certs/ca-bundle.crt",
            "/etc/ssl/ca-bundle.pem",
            "/usr/local/etc/openssl/cert.pem",
            "/etc/ssl/cert.pem",
        ]
    );
    assert_eq!(pick_ca_bundle(&vec![false, true, true, false, false]), Some(1));
    assert_eq!(pick_ca_bundle(&vec![false, false, false, false, false]), None);
}

#[test]
fn channel_timeouts_are_fixed() {
    assert_eq!(connect_timeout_secs(), 10);
    assert_eq!(request_timeout_secs(), 30);
    assert_eq!(snailer_gui::device::create_code_timeout_secs(), 10);
    assert_eq!(snailer_gui::device::poll_timeout_secs(), 5);
    assert_eq!(snailer_gui::engine::engine_start_timeout_secs(), 8);
}
