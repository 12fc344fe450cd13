//! Tests of the CLI installer: resolution order, the install machine, the
//! short-circuit on an already-installed package, and the status probe.

use snailer_gui::installer::{
    cli_package_name, npm_install_failure_message, snailer_cli_bin_path, snailer_cli_is_installed,
    snailer_cli_manifest_path, snailer_cli_status_from_probes, CliAction, CliEvent, CliInstaller,
    CliPhase,
};

fn fresh_installer() -> CliInstaller {
    CliInstaller::new(String::from("/home/u"), false)
}

#[test]
fn cli_paths_are_exact() {
    assert_eq!(
        snailer_cli_bin_path("/home/u/.snailer/npm_cli", false),
        "/home/u/.snailer/npm_cli/node_modules/.bin/snailer"
    );
    assert_eq!(
        snailer_cli_bin_path("/home/u/.snailer/npm_cli", true),
        "/home/u/.snailer/npm_cli/node_modules/.bin/snailer.cmd"
    );
    assert_eq!(
        snailer_cli_manifest_path("/home/u/.snailer/npm_cli"),
        "/home/u/.snailer/npm_cli/node_modules/@snailer-team/snailer/package.json"
    );
}

#[test]
fn manifest_without_binary_is_not_installed() {
    assert!(!snailer_cli_is_installed(true, false));
    assert!(!snailer_cli_is_installed(false, true));
    assert!(snailer_cli_is_installed(true, true));
}

#[test]
fn global_cli_short_circuits() {
    let mut c = fresh_installer();
    assert!(matches!(c.begin(), CliAction::ProbeSystemNpm));
    assert!(matches!(
        c.step(CliEvent::SystemNpmProbed { ok: true }),
        Some(CliAction::ProbeGlobalCli)
    ));
    match c.step(CliEvent::GlobalCliProbed { ok: true }) {
        Some(CliAction::Finish { cli_path }) => assert_eq!(cli_path, "snailer"),
        _ => panic!("a CLI on the PATH is used as it is"),
    }
    assert!(matches!(c.phase, CliPhase::Done));
}

#[test]
fn second_call_detects_installed_package_and_never_installs() {
    // First call: full install, ending with the post-install verification.
    let mut first = fresh_installer();
    first.begin();
    first.step(CliEvent::SystemNpmProbed { ok: true });
    first.step(CliEvent::GlobalCliProbed { ok: false });
    match first.step(CliEvent::PrefixProbed { manifest: false, bin: false }) {
        Some(CliAction::PreparePrefix { prefix, manifest, manifest_contents }) => {
            assert_eq!(prefix, "/home/u/.snailer/npm_cli");
            assert_eq!(manifest, "/home/u/.snailer/npm_cli/package.json");
            assert_eq!(manifest_contents, "{\"private\":true}");
        }
        _ => panic!("a missing install prepares the prefix"),
    }
    first.step(CliEvent::PrefixPrepared { ok: true, err: String::new() });
    match first.step(CliEvent::NpmChecked { ok: true, launch_failed: false }) {
        Some(CliAction::RunInstall { npm, prefix, path_prepend, package }) => {
            assert_eq!(npm, "npm");
            assert_eq!(prefix, "/home/u/.snailer/npm_cli");
            assert!(path_prepend.is_none());
            assert_eq!(package, "@snailer-team/snailer");
        }
        _ => panic!("a working package manager runs the install"),
    }
    first.step(CliEvent::InstallFinished {
        exit_ok: true,
        stdout: String::new(),
        stderr: String::new(),
    });
    match first.step(CliEvent::ReverifyProbed { manifest: true, bin: true }) {
        Some(CliAction::Finish { cli_path }) => {
            assert_eq!(cli_path, "/home/u/.snailer/npm_cli/node_modules/.bin/snailer");
        }
        _ => panic!("a verified install finishes"),
    }

    // Second call: the package is on disk, so the prefix probe answers
    // positively and the machine finishes without ever emitting an install.
    let mut second = fresh_installer();
    second.begin();
    let mut installs = 0;
    for ev in [
        CliEvent::SystemNpmProbed { ok: true },
        CliEvent::GlobalCliProbed { ok: false },
        CliEvent::PrefixProbed { manifest: true, bin: true },
    ] {
        if let Some(CliAction::RunInstall { .. }) = second.step(ev) {
            installs += 1;
        }
    }
    assert_eq!(installs, 0);
    assert!(matches!(second.phase, CliPhase::Done));
}

#[test]
fn bundled_runtime_is_used_when_system_npm_is_missing() {
    let mut c = fresh_installer();
    c.begin();
    assert!(matches!(
        c.step(CliEvent::SystemNpmProbed { ok: false }),
        Some(CliAction::RunBootstrap)
    ));
    c.step(CliEvent::BootstrapFinished {
        bin_dir: Some(String::from("/home/u/.snailer/node/current/bin")),
        err: String::new(),
    });
    c.step(CliEvent::GlobalCliProbed { ok: false });
    c.step(CliEvent::PrefixProbed { manifest: false, bin: false });
    match c.step(CliEvent::PrefixPrepared { ok: true, err: String::new() }) {
        Some(CliAction::CheckNpm { npm, path_prepend }) => {
            assert_eq!(npm, "/home/u/.snailer/node/current/bin/npm");
            assert_eq!(path_prepend.as_deref(), Some("/home/u/.snailer/node/current/bin"));
        }
        _ => panic!("the bundled package manager is checked"),
    }
}

#[test]
fn failed_install_surfaces_clipped_output() {
    let msg = npm_install_failure_message("  npm ERR! boom  ", "");
    assert_eq!(msg, "npm install failed:\nnpm ERR! boom");
    let msg = npm_install_failure_message("", "   ");
    assert_eq!(msg, "npm install failed (no output).");
    let long = "x".repeat(5000);
    let msg = npm_install_failure_message(long.as_str(), "");
    assert_eq!(msg.chars().count(), "npm install failed:\n".len() + 4000 + 3);
    assert!(msg.ends_with("..."));
    let msg = npm_install_failure_message("out", "err");
    assert_eq!(msg, "npm install failed:\nout\nerr");
}

#[test]
fn reported_success_with_missing_binary_is_an_error() {
    let mut c = fresh_installer();
    c.begin();
    c.step(CliEvent::SystemNpmProbed { ok: true });
    c.step(CliEvent::GlobalCliProbed { ok: false });
    c.step(CliEvent::PrefixProbed { manifest: false, bin: false });
    c.step(CliEvent::PrefixPrepared { ok: true, err: String::new() });
    c.step(CliEvent::NpmChecked { ok: true, launch_failed: false });
    c.step(CliEvent::InstallFinished {
        exit_ok: true,
        stdout: String::new(),
        stderr: String::new(),
    });
    match c.step(CliEvent::ReverifyProbed { manifest: true, bin: false }) {
        Some(CliAction::Fail { msg }) => {
            assert_eq!(
                msg,
                "npm install reported success, but Snailer CLI was not found after install.\n\
                 Expected binary: /home/u/.snailer/npm_cli/node_modules/.bin/snailer\n\
                 Binary exists: false\npackage.json exists: true"
            );
        }
        _ => panic!("success with a missing binary must not be silent"),
    }
    assert!(matches!(c.phase, CliPhase::Failed));
}

#[test]
fn reverify_failure_carries_install_output_excerpts() {
    let mut c = fresh_installer();
    c.begin();
    c.step(CliEvent::SystemNpmProbed { ok: true });
    c.step(CliEvent::GlobalCliProbed { ok: false });
    c.step(CliEvent::PrefixProbed { manifest: false, bin: false });
    c.step(CliEvent::PrefixPrepared { ok: true, err: String::new() });
    c.step(CliEvent::NpmChecked { ok: true, launch_failed: false });
    c.step(CliEvent::InstallFinished {
        exit_ok: true,
        stdout: String::from(" added 1 package "),
        stderr: String::from("npm WARN deprecated"),
    });
    match c.step(CliEvent::ReverifyProbed { manifest: false, bin: false }) {
        Some(CliAction::Fail { msg }) => {
            assert!(msg.contains("Binary exists: false"));
            assert!(msg.contains("package.json exists: false"));
            assert!(msg.contains("npm stdout: added 1 package"));
            assert!(msg.contains("npm stderr: npm WARN deprecated"));
        }
        _ => panic!("the diagnostics must carry the captured install output"),
    }
}

#[test]
fn status_is_probe_only_and_exact() {
    let s = snailer_cli_status_from_probes("/home/u", false, false, true, true, false, true, true);
    assert!(s.installed);
    assert_eq!(s.cli_path.as_deref(), Some("/home/u/.snailer/npm_cli/node_modules/.bin/snailer"));
    assert!(s.npm_available);
    assert!(s.using_bundled_node);
    assert_eq!(s.bundled_node_path.as_deref(), Some("/home/u/.snailer/node/current/bin"));
    assert_eq!(s.prefix_dir, "/home/u/.snailer/npm_cli");

    let s = snailer_gui::installer::snailer_cli_status_from_probes(
        "/home/u", false, true, false, false, false, false, false,
    );
    assert!(!s.installed);
    assert!(s.cli_path.is_none());
    assert!(s.npm_available);
    assert!(!s.using_bundled_node);
    assert!(s.bundled_node_path.is_none());

    let s = snailer_gui::installer::snailer_cli_status_from_probes(
        "/home/u", false, true, false, false, true, false, true,
    );
    assert!(s.installed);
    assert_eq!(s.cli_path.as_deref(), Some("snailer"));
}

#[test]
fn package_name_is_fixed() {
    assert_eq!(cli_package_name(), "@snailer-team/snailer");
}
