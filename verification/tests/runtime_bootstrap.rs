//! Tests of the runtime bootstrapper: platform mapping, version fallback,
//! and the install state machine, in particular that a failed extraction
//! never promotes over an existing install.

use snailer_gui::bootstrap::{
    choose_node_version, detect_latest_lts_node_version, node_archive_name, node_dist_url,
    node_extracted_dir_name, node_platform_string, pinned_node_version, BootPhase,
    BootstrapAction, BootstrapEvent, LtsMark, RuntimeBootstrapper, VersionIndexEntry,
};

fn entry(lts: LtsMark, version: Option<&str>) -> VersionIndexEntry {
    VersionIndexEntry { lts, version: version.map(String::from) }
}

fn fresh_bootstrapper() -> RuntimeBootstrapper {
    RuntimeBootstrapper::new(
        String::from("/home/u"),
        String::from("linux"),
        String::from("x86_64"),
    )
}

#[test]
fn platform_mapping_is_exact() {
    assert_eq!(node_platform_string("macos", "aarch64").unwrap(), "darwin-arm64");
    assert_eq!(node_platform_string("macos", "x86_64").unwrap(), "darwin-x64");
    assert_eq!(node_platform_string("linux", "x86_64").unwrap(), "linux-x64");
    assert_eq!(node_platform_string("linux", "aarch64").unwrap(), "linux-arm64");
    assert_eq!(node_platform_string("windows", "x86_64").unwrap(), "win-x64");
    assert_eq!(node_platform_string("windows", "aarch64").unwrap(), "win-arm64");
    let err = node_platform_string("freebsd", "riscv64").unwrap_err();
    assert_eq!(err, "Unsupported platform for auto Node install: freebsd/riscv64");
}

#[test]
fn version_lookup_failure_falls_back_to_pinned() {
    assert_eq!(choose_node_version(None), "v20.11.1");
    assert_eq!(choose_node_version(Some(String::from("v22.1.0"))), "v22.1.0");
    assert_eq!(pinned_node_version(), "v20.11.1");
}

#[test]
fn lts_selection_picks_the_first_flagged_entry() {
    let entries = vec![
        entry(LtsMark::False, Some("v23.0.0")),
        entry(LtsMark::Flagged, Some(" v22.11.0 ")),
        entry(LtsMark::Flagged, Some("v20.18.0")),
    ];
    assert_eq!(detect_latest_lts_node_version(&entries).as_deref(), Some("v22.11.0"));
}

#[test]
fn lts_selection_skips_null_and_unversioned_text() {
    let entries = vec![
        entry(LtsMark::Null, Some("v23.0.0")),
        entry(LtsMark::Flagged, Some("20.18.0")),
        entry(LtsMark::Flagged, Some("v18.20.0")),
    ];
    assert_eq!(detect_latest_lts_node_version(&entries).as_deref(), Some("v18.20.0"));
}

#[test]
fn lts_selection_fails_on_a_malformed_index() {
    assert!(detect_latest_lts_node_version(&vec![]).is_none());
    assert!(detect_latest_lts_node_version(&vec![entry(LtsMark::Missing, Some("v1"))]).is_none());
    assert!(detect_latest_lts_node_version(&vec![entry(LtsMark::Flagged, None)]).is_none());
    let only_false = vec![entry(LtsMark::False, Some("v23.0.0")), entry(LtsMark::Null, None)];
    assert!(detect_latest_lts_node_version(&only_false).is_none());
}

#[test]
fn machine_downloads_the_detected_lts_version() {
    let mut b = fresh_bootstrapper();
    b.begin();
    b.step(BootstrapEvent::CurrentProbed { npm_file: false, node_file: false });
    let entries = Some(vec![entry(LtsMark::Flagged, Some("v22.11.0"))]);
    b.step(BootstrapEvent::IndexFetched { entries });
    match b.step(BootstrapEvent::DirsPrepared { ok: true, err: String::new() }) {
        Some(BootstrapAction::Download { url, dest }) => {
            assert_eq!(
                url,
                "https://nodejs.org/dist/v22.11.0/node-v22.11.0-linux-x64.tar.gz"
            );
            assert_eq!(
                dest,
                "/home/u/.snailer/node/cache/node-v22.11.0-linux-x64.tar.gz"
            );
        }
        _ => panic!("the detected version must drive the download"),
    }
}

#[test]
fn archive_names_and_urls() {
    let file = node_archive_name("v20.11.1", "linux-x64");
    assert_eq!(file, "node-v20.11.1-linux-x64.tar.gz");
    assert_eq!(
        node_dist_url("v20.11.1", file.as_str()),
        "https://nodejs.org/dist/v20.11.1/node-v20.11.1-linux-x64.tar.gz"
    );
    assert_eq!(node_extracted_dir_name("v20.11.1", "linux-x64"), "node-v20.11.1-linux-x64");
}

#[test]
fn existing_install_is_reused_without_download() {
    let mut b = fresh_bootstrapper();
    match b.begin() {
        BootstrapAction::ProbeCurrent { npm, node } => {
            assert_eq!(npm, "/home/u/.snailer/node/current/bin/npm");
            assert_eq!(node, "/home/u/.snailer/node/current/bin/node");
        }
        _ => panic!("must first probe the current install"),
    }
    match b.step(BootstrapEvent::CurrentProbed { npm_file: true, node_file: true }) {
        Some(BootstrapAction::Finish { bin_dir }) => {
            assert_eq!(bin_dir, "/home/u/.snailer/node/current/bin");
        }
        _ => panic!("a complete install must be reused"),
    }
    assert!(matches!(b.phase, BootPhase::Done));
}

#[test]
fn fresh_install_promotes_only_after_verified_extraction() {
    let mut b = fresh_bootstrapper();
    b.begin();
    match b.step(BootstrapEvent::CurrentProbed { npm_file: false, node_file: true }) {
        Some(BootstrapAction::FetchIndex { url }) => {
            assert_eq!(url, "https://nodejs.org/dist/index.json");
        }
        _ => panic!("a partial install must trigger a fresh bootstrap"),
    }
    match b.step(BootstrapEvent::IndexFetched { entries: None }) {
        Some(BootstrapAction::PrepareDirs { root, cache }) => {
            assert_eq!(root, "/home/u/.snailer/node");
            assert_eq!(cache, "/home/u/.snailer/node/cache");
        }
        _ => panic!("the pinned fallback must never fail the bootstrap"),
    }
    match b.step(BootstrapEvent::DirsPrepared { ok: true, err: String::new() }) {
        Some(BootstrapAction::Download { url, dest }) => {
            assert_eq!(
                url,
                "https://nodejs.org/dist/v20.11.1/node-v20.11.1-linux-x64.tar.gz"
            );
            assert_eq!(
                dest,
                "/home/u/.snailer/node/cache/node-v20.11.1-linux-x64.tar.gz"
            );
        }
        _ => panic!("prepared directories must lead to the download"),
    }
    let tmp = match b.step(BootstrapEvent::DownloadFinished { ok: true, err: String::new() }) {
        Some(BootstrapAction::Extract { archive, dest }) => {
            assert_eq!(
                archive,
                "/home/u/.snailer/node/cache/node-v20.11.1-linux-x64.tar.gz"
            );
            assert!(dest.starts_with("/home/u/.snailer/node/tmp-"));
            dest
        }
        _ => panic!("a finished download must be extracted"),
    };
    match b.step(BootstrapEvent::ExtractFinished { ok: true }) {
        Some(BootstrapAction::ProbeExtractedDir { path }) => {
            assert_eq!(path, format!("{}/node-v20.11.1-linux-x64", tmp));
        }
        _ => panic!("extraction must be verified before promotion"),
    }
    match b.step(BootstrapEvent::ExtractedDirProbed { is_dir: true }) {
        Some(BootstrapAction::Promote { from, to }) => {
            assert_eq!(from, format!("{}/node-v20.11.1-linux-x64", tmp));
            assert_eq!(to, "/home/u/.snailer/node/current");
        }
        _ => panic!("a verified extraction is promoted"),
    }
    match b.step(BootstrapEvent::Promoted { ok: true, err: String::new() }) {
        Some(BootstrapAction::ProbeNpm { path }) => {
            assert_eq!(path, "/home/u/.snailer/node/current/bin/npm");
        }
        _ => panic!("the promoted install is verified"),
    }
    match b.step(BootstrapEvent::NpmProbed { is_file: true }) {
        Some(BootstrapAction::Finish { bin_dir }) => {
            assert_eq!(bin_dir, "/home/u/.snailer/node/current/bin");
        }
        _ => panic!("a verified promotion finishes the bootstrap"),
    }
    assert_eq!(b.cleanup_dir().as_deref(), Some(tmp.as_str()));
}

#[test]
fn failed_extraction_never_promotes() {
    let mut b = fresh_bootstrapper();
    b.begin();
    b.step(BootstrapEvent::CurrentProbed { npm_file: false, node_file: false });
    b.step(BootstrapEvent::IndexFetched { entries: None });
    b.step(BootstrapEvent::DirsPrepared { ok: true, err: String::new() });
    b.step(BootstrapEvent::DownloadFinished { ok: true, err: String::new() });
    match b.step(BootstrapEvent::ExtractFinished { ok: false }) {
        Some(BootstrapAction::Fail { msg }) => {
            assert_eq!(msg, "Failed to extract Node.js archive (tar)");
        }
        _ => panic!("a failed extraction fails the bootstrap"),
    }
    assert!(matches!(b.phase, BootPhase::Failed));
    // The machine is dead: nothing it is fed afterwards promotes anything.
    let later = [
        BootstrapEvent::ExtractedDirProbed { is_dir: true },
        BootstrapEvent::Promoted { ok: true, err: String::new() },
        BootstrapEvent::NpmProbed { is_file: true },
    ];
    for ev in later {
        assert!(b.step(ev).is_none());
        assert!(matches!(b.phase, BootPhase::Failed));
    }
}

#[test]
fn missing_npm_after_promotion_is_a_distinct_error() {
    let mut b = fresh_bootstrapper();
    b.begin();
    b.step(BootstrapEvent::CurrentProbed { npm_file: false, node_file: false });
    b.step(BootstrapEvent::IndexFetched { entries: None });
    b.step(BootstrapEvent::DirsPrepared { ok: true, err: String::new() });
    b.step(BootstrapEvent::DownloadFinished { ok: true, err: String::new() });
    b.step(BootstrapEvent::ExtractFinished { ok: true });
    b.step(BootstrapEvent::ExtractedDirProbed { is_dir: true });
    b.step(BootstrapEvent::Promoted { ok: true, err: String::new() });
    match b.step(BootstrapEvent::NpmProbed { is_file: false }) {
        Some(BootstrapAction::Fail { msg }) => {
            assert_eq!(msg, "Node.js installed but npm was not found.");
        }
        _ => panic!("a promoted install without npm is a fatal error"),
    }
}

#[test]
fn unsupported_platform_fails_before_any_download() {
    let mut b = RuntimeBootstrapper::new(
        String::from("/home/u"),
        String::from("solaris"),
        String::from("sparc"),
    );
    b.begin();
    b.step(BootstrapEvent::CurrentProbed { npm_file: false, node_file: false });
    match b.step(BootstrapEvent::IndexFetched { entries: None }) {
        Some(BootstrapAction::Fail { msg }) => {
            assert_eq!(msg, "Unsupported platform for auto Node install: solaris/sparc");
        }
        _ => panic!("an unsupported platform fails fast"),
    }
    assert!(matches!(b.phase, BootPhase::Failed));
}
