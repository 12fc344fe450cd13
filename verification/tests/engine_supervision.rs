//! Tests of the engine supervisor's start, restart and kill decisions.

use snailer_gui::engine::{engine_url, EngineSupervisor, StartDecision};
use snailer_gui::ids::fresh_uuid;

#[test]
fn repeated_start_returns_identical_url_and_token() {
    let mut sup = EngineSupervisor::new();
    match sup.start_probe(false) {
        StartDecision::Launch => {}
        StartDecision::UseExisting { .. } => panic!("nothing is registered yet"),
    }
    sup.publish(String::from("ws://127.0.0.1:4100"), String::from("tok-a"), 7);
    for _ in 0..5 {
        match sup.start_probe(false) {
            StartDecision::UseExisting { url, token } => {
                assert_eq!(url, "ws://127.0.0.1:4100");
                assert_eq!(token, "tok-a");
            }
            StartDecision::Launch => panic!("live handle must be reused"),
        }
    }
}

#[test]
fn exited_child_forces_relaunch_with_new_token() {
    let mut sup = EngineSupervisor::new();
    sup.publish(String::from("ws://127.0.0.1:4100"), String::from("tok-a"), 7);
    match sup.start_probe(true) {
        StartDecision::Launch => {}
        StartDecision::UseExisting { .. } => panic!("stale handle must be discarded"),
    }
    sup.publish(String::from("ws://127.0.0.1:4200"), String::from("tok-b"), 8);
    match sup.start_probe(false) {
        StartDecision::UseExisting { url, token } => {
            assert_eq!(url, "ws://127.0.0.1:4200");
            assert_eq!(token, "tok-b");
            assert_ne!(token, "tok-a");
        }
        StartDecision::Launch => panic!("new handle must be reused"),
    }
}

#[test]
fn engine_kill_unregisters_and_reports_the_process() {
    let mut sup = EngineSupervisor::new();
    sup.publish(String::from("ws://127.0.0.1:4100"), String::from("tok-a"), 7);
    assert_eq!(sup.engine_kill(), Some(7));
    // Killing again is harmless and reports nothing.
    assert_eq!(sup.engine_kill(), None);
    match sup.start_probe(false) {
        StartDecision::Launch => {}
        StartDecision::UseExisting { .. } => panic!("killed handle must be gone"),
    }
}

#[test]
fn engine_url_names_the_port() {
    assert_eq!(engine_url(4123), "ws://127.0.0.1:4123");
    assert_eq!(engine_url(1), "ws://127.0.0.1:1");
    assert_eq!(engine_url(65535), "ws://127.0.0.1:65535");
}

#[test]
fn fresh_tokens_are_long_and_distinct() {
    let a = fresh_uuid();
    let b = fresh_uuid();
    assert_eq!(a.chars().count(), 36);
    assert_ne!(a, b);
}
