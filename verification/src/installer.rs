//! Installation of the engine CLI package into a user-local prefix.
//!
//! `EnsureInstalled` resolves a package manager (system, else the
//! bootstrapped runtime), reuses a CLI already on the `PATH` or already
//! installed under the prefix, and otherwise runs one non-interactive
//! install and re-verifies it. Every emitted action and failure message is
//! pinned per transition, and the machine reports success only after the
//! installed package has been seen on disk, so a second call short-circuits
//! on its probes and never installs again.

use vstd::prelude::*;
use vstd::string::StrSliceExecFns;
use vstd::string::StringExecFns;
use crate::paths::path_join;
use crate::paths::snailer_cli_prefix_dir;
use crate::paths::spec_cli_prefix;
use crate::paths::spec_join;
use crate::textutil::clip_message;
use crate::textutil::combine_output;
use crate::textutil::spec_clip;
use crate::textutil::spec_combined;
use crate::textutil::spec_trim;
use crate::textutil::trim_str;
use crate::types::SnailerCliStatus;

verus! {

/// The CLI executable name on this platform.
pub open spec fn spec_cli_name(windows: bool) -> Seq<char> {
    if windows {
        "snailer.cmd"@
    } else {
        "snailer"@
    }
}

/// The CLI executable name on this platform.
pub fn cli_file_name(windows: bool) -> (r: &'static str)
    ensures
        r@ == spec_cli_name(windows),
{
    if windows {
        "snailer.cmd"
    } else {
        "snailer"
    }
}

/// The CLI executable shim under an install prefix.
pub fn snailer_cli_bin_path(prefix: &str, windows: bool) -> (r: String)
    ensures
        r@ == spec_join(
            spec_join(spec_join(prefix@, "node_modules"@), ".bin"@),
            spec_cli_name(windows),
        ),
{
    let base = path_join(prefix, "node_modules");
    let base = path_join(base.as_str(), ".bin");
    path_join(base.as_str(), cli_file_name(windows))
}

/// The package manifest of the installed CLI under a prefix.
pub fn snailer_cli_manifest_path(prefix: &str) -> (r: String)
    ensures
        r@ == spec_join(
            spec_join(spec_join(spec_join(prefix@, "node_modules"@), "@snailer-team"@), "snailer"@),
            "package.json"@,
        ),
{
    let p = path_join(prefix, "node_modules");
    let p = path_join(p.as_str(), "@snailer-team");
    let p = path_join(p.as_str(), "snailer");
    path_join(p.as_str(), "package.json")
}

/// The CLI shim under the user-local prefix for this home.
pub open spec fn spec_home_cli_bin(home: Seq<char>, windows: bool) -> Seq<char> {
    spec_join(
        spec_join(spec_join(spec_cli_prefix(home), "node_modules"@), ".bin"@),
        spec_cli_name(windows),
    )
}

/// The installed package's manifest under the prefix for this home.
pub open spec fn spec_home_cli_manifest(home: Seq<char>) -> Seq<char> {
    spec_join(
        spec_join(
            spec_join(spec_join(spec_cli_prefix(home), "node_modules"@), "@snailer-team"@),
            "snailer"@,
        ),
        "package.json"@,
    )
}

/// The CLI counts as installed under a prefix exactly when both the package
/// manifest and the executable shim exist — one without the other is "not
/// installed".
pub fn snailer_cli_is_installed(manifest_exists: bool, bin_exists: bool) -> (r: bool)
    ensures
        r == (manifest_exists && bin_exists),
{
    manifest_exists && bin_exists
}

/// The published package the install command names.
pub fn cli_package_name() -> (r: &'static str)
    ensures
        r@ == "@snailer-team/snailer"@,
{
    "@snailer-team/snailer"
}

/// The error message of a failed install: the combined output, trimmed and
/// clipped to 4000 characters, or a fixed message when there was none.
pub open spec fn spec_install_failure(stdout: Seq<char>, stderr: Seq<char>) -> Seq<char> {
    let text = spec_trim(spec_combined(stdout, stderr));
    if text.len() == 0 {
        "npm install failed (no output)."@
    } else {
        "npm install failed:\n"@ + spec_clip(text, 4000)
    }
}

/// Render the error message of a failed install.
pub fn npm_install_failure_message(stdout: &str, stderr: &str) -> (r: String)
    ensures
        r@ == spec_install_failure(stdout@, stderr@),
{
    let combined = combine_output(stdout, stderr);
    let trimmed = trim_str(combined.as_str());
    if trimmed.as_str().unicode_len() == 0 {
        String::from_str("npm install failed (no output).")
    } else {
        let clipped = clip_message(trimmed.as_str(), 4000);
        let mut msg = String::from_str("npm install failed:\n");
        msg.append(clipped.as_str());
        msg
    }
}

/// The rendering of a probe result in a diagnostic message.
pub open spec fn spec_bool_text(b: bool) -> Seq<char> {
    if b {
        "true"@
    } else {
        "false"@
    }
}

fn bool_text(b: bool) -> (r: &'static str)
    ensures
        r@ == spec_bool_text(b),
{
    if b {
        "true"
    } else {
        "false"
    }
}

/// The text of an optional captured output; empty when none was captured.
pub open spec fn spec_opt_text(o: Option<String>) -> Seq<char> {
    match o {
        Option::Some(s) => s@,
        Option::None => Seq::empty(),
    }
}

/// The error reported when the install exited successfully but the package
/// is still not on disk: the expected shim, which of the two files is
/// missing, and excerpts of the captured install output, clipped to 2000
/// characters each.
pub open spec fn spec_reverify_failure(
    manifest: bool,
    bin_ok: bool,
    home: Seq<char>,
    windows: bool,
    out: Option<String>,
    errout: Option<String>,
) -> Seq<char> {
    let base = "npm install reported success, but Snailer CLI was not found after install."@
        + "\nExpected binary: "@ + spec_home_cli_bin(home, windows) + "\nBinary exists: "@
        + spec_bool_text(bin_ok) + "\npackage.json exists: "@ + spec_bool_text(manifest);
    let so = spec_trim(spec_opt_text(out));
    let se = spec_trim(spec_opt_text(errout));
    base + (if so.len() == 0 {
        Seq::<char>::empty()
    } else {
        "\nnpm stdout: "@ + spec_clip(so, 2000)
    }) + (if se.len() == 0 {
        Seq::<char>::empty()
    } else {
        "\nnpm stderr: "@ + spec_clip(se, 2000)
    })
}

fn reverify_failure_message(
    manifest: bool,
    bin_ok: bool,
    home: &str,
    windows: bool,
    out: &Option<String>,
    errout: &Option<String>,
) -> (r: String)
    ensures
        r@ == spec_reverify_failure(manifest, bin_ok, home@, windows, *out, *errout),
{
    let prefix = snailer_cli_prefix_dir(home);
    let bin_path = snailer_cli_bin_path(prefix.as_str(), windows);
    let mut msg = String::from_str(
        "npm install reported success, but Snailer CLI was not found after install.",
    );
    msg.append("\nExpected binary: ");
    msg.append(bin_path.as_str());
    msg.append("\nBinary exists: ");
    msg.append(bool_text(bin_ok));
    msg.append("\npackage.json exists: ");
    msg.append(bool_text(manifest));
    let out_text = match out {
        Option::Some(s) => trim_str(s.as_str()),
        Option::None => String::new(),
    };
    if out_text.as_str().unicode_len() > 0 {
        msg.append("\nnpm stdout: ");
        let clipped = clip_message(out_text.as_str(), 2000);
        msg.append(clipped.as_str());
    }
    let err_text = match errout {
        Option::Some(s) => trim_str(s.as_str()),
        Option::None => String::new(),
    };
    if err_text.as_str().unicode_len() > 0 {
        msg.append("\nnpm stderr: ");
        let clipped = clip_message(err_text.as_str(), 2000);
        msg.append(clipped.as_str());
    }
    proof {
        assert(spec_trim(Seq::<char>::empty()) =~= Seq::<char>::empty());
    }
    msg
}

/// Where `EnsureInstalled` stands.
pub enum CliPhase {
    /// Nothing started yet.
    Idle,
    /// Waiting for the system package-manager probe.
    ResolvingNpm,
    /// Waiting for the runtime bootstrap (no system package manager).
    Bootstrapping,
    /// Waiting for the probe of a CLI already on the `PATH`.
    ProbingGlobalCli,
    /// Waiting for the probe of a completed install under the prefix.
    ProbingPrefix,
    /// Waiting for the prefix directory and its manifest to be created.
    PreparingPrefix,
    /// Waiting for the resolved package manager to answer a version probe.
    CheckingNpm,
    /// Waiting for the install command to finish.
    Installing,
    /// Waiting for the post-install probe.
    Reverifying,
    /// A usable CLI was resolved.
    Done,
    /// The install failed; nothing further happens.
    Failed,
}

/// What the application reports back to the machine.
pub enum CliEvent {
    /// Whether a system package manager answered its version probe.
    SystemNpmProbed { ok: bool },
    /// The bootstrapped runtime's bin directory, or the bootstrap error.
    BootstrapFinished { bin_dir: Option<String>, err: String },
    /// Whether a CLI already on the `PATH` answered its version probe.
    GlobalCliProbed { ok: bool },
    /// Whether the prefix holds the package manifest and the executable.
    PrefixProbed { manifest: bool, bin: bool },
    /// Whether the prefix directory and its manifest could be created.
    PrefixPrepared { ok: bool, err: String },
    /// Whether the resolved package manager works; `launch_failed` when it
    /// could not be run at all.
    NpmChecked { ok: bool, launch_failed: bool },
    /// The install command's exit and captured output.
    InstallFinished { exit_ok: bool, stdout: String, stderr: String },
    /// The post-install probe of manifest and executable.
    ReverifyProbed { manifest: bool, bin: bool },
}

/// What the application must do next.
pub enum CliAction {
    /// Probe the system package manager (`npm --version`).
    ProbeSystemNpm,
    /// Run the runtime bootstrap to completion.
    RunBootstrap,
    /// Probe a CLI already on the `PATH` (`snailer --version`).
    ProbeGlobalCli,
    /// Check whether both files exist.
    ProbePrefix { manifest: String, bin: String },
    /// Create the prefix directory and, if missing, its minimal manifest, so
    /// the package manager scopes the install locally.
    PreparePrefix { prefix: String, manifest: String, manifest_contents: String },
    /// Probe the resolved package manager, with the bootstrapped bin
    /// directory prepended to `PATH` when one is in use.
    CheckNpm { npm: String, path_prepend: Option<String> },
    /// Run the non-interactive install in the prefix.
    RunInstall { npm: String, prefix: String, path_prepend: Option<String>, package: String },
    /// Re-check both files after the install.
    ProbeReverify { manifest: String, bin: String },
    /// A usable CLI was resolved at this path.
    Finish { cli_path: String },
    /// The install failed.
    Fail { msg: String },
}

/// The machine's phase after seeing `ev` in phase `p`. Events that do not
/// belong to the phase change nothing; `Done` and `Failed` absorb.
pub open spec fn spec_next_cli_phase(p: CliPhase, ev: CliEvent) -> CliPhase {
    match (p, ev) {
        (CliPhase::ResolvingNpm, CliEvent::SystemNpmProbed { ok }) => {
            if ok {
                CliPhase::ProbingGlobalCli
            } else {
                CliPhase::Bootstrapping
            }
        },
        (CliPhase::Bootstrapping, CliEvent::BootstrapFinished { bin_dir, .. }) => {
            if bin_dir is Some {
                CliPhase::ProbingGlobalCli
            } else {
                CliPhase::Failed
            }
        },
        (CliPhase::ProbingGlobalCli, CliEvent::GlobalCliProbed { ok }) => {
            if ok {
                CliPhase::Done
            } else {
                CliPhase::ProbingPrefix
            }
        },
        (CliPhase::ProbingPrefix, CliEvent::PrefixProbed { manifest, bin }) => {
            if manifest && bin {
                CliPhase::Done
            } else {
                CliPhase::PreparingPrefix
            }
        },
        (CliPhase::PreparingPrefix, CliEvent::PrefixPrepared { ok, .. }) => {
            if ok {
                CliPhase::CheckingNpm
            } else {
                CliPhase::Failed
            }
        },
        (CliPhase::CheckingNpm, CliEvent::NpmChecked { ok, .. }) => {
            if ok {
                CliPhase::Installing
            } else {
                CliPhase::Failed
            }
        },
        (CliPhase::Installing, CliEvent::InstallFinished { exit_ok, .. }) => {
            if exit_ok {
                CliPhase::Reverifying
            } else {
                CliPhase::Failed
            }
        },
        (CliPhase::Reverifying, CliEvent::ReverifyProbed { manifest, bin }) => {
            if manifest && bin {
                CliPhase::Done
            } else {
                CliPhase::Failed
            }
        },
        _ => p,
    }
}

/// A step runs the install exactly when the resolved package manager has
/// just answered its check.
pub open spec fn spec_emits_install(p: CliPhase, ev: CliEvent) -> bool {
    p is CheckingNpm && (ev matches CliEvent::NpmChecked { ok: true, .. })
}

/// A rank that every transition keeps or raises: the machine never returns
/// to an earlier stage, so the install stage is passed at most once.
pub open spec fn spec_cli_rank(p: CliPhase) -> int {
    match p {
        CliPhase::Idle => 0,
        CliPhase::ResolvingNpm => 1,
        CliPhase::Bootstrapping => 2,
        CliPhase::ProbingGlobalCli => 3,
        CliPhase::ProbingPrefix => 4,
        CliPhase::PreparingPrefix => 5,
        CliPhase::CheckingNpm => 6,
        CliPhase::Installing => 7,
        CliPhase::Reverifying => 8,
        CliPhase::Done => 9,
        CliPhase::Failed => 9,
    }
}

/// The resolved package-manager command; the system `npm` until another is
/// resolved.
pub open spec fn spec_npm_text(n: Option<String>) -> Seq<char> {
    match n {
        Option::Some(s) => s@,
        Option::None => "npm"@,
    }
}

/// `EnsureInstalled` as a step machine over probe and subprocess outcomes.
pub struct CliInstaller {
    pub home: String,
    pub windows: bool,
    pub phase: CliPhase,
    /// The resolved package-manager command, once known.
    pub npm_cmd: Option<String>,
    /// The bootstrapped runtime's bin directory, when one is in use.
    pub bundled_bin: Option<String>,
    /// The captured output of a completed install command, kept for the
    /// post-install diagnostics.
    pub install_stdout: Option<String>,
    /// The captured error output of a completed install command.
    pub install_stderr: Option<String>,
}

impl CliInstaller {
    /// An installer for the given home directory and platform.
    pub fn new(home: String, windows: bool) -> (c: Self)
        ensures
            c.phase is Idle,
            c.home == home,
            c.windows == windows,
    {
        CliInstaller {
            home,
            windows,
            phase: CliPhase::Idle,
            npm_cmd: None,
            bundled_bin: None,
            install_stdout: None,
            install_stderr: None,
        }
    }

    /// Begin `EnsureInstalled`: first resolve the package manager, system
    /// install first.
    pub fn begin(&mut self) -> (a: CliAction)
        ensures
            final(self).phase is ResolvingNpm,
            final(self).home == old(self).home,
            final(self).windows == old(self).windows,
            final(self).npm_cmd is None,
            final(self).bundled_bin is None,
            a is ProbeSystemNpm,
    {
        self.phase = CliPhase::ResolvingNpm;
        self.npm_cmd = None;
        self.bundled_bin = None;
        self.install_stdout = None;
        self.install_stderr = None;
        CliAction::ProbeSystemNpm
    }

    /// Feed one outcome in and get the next action. The phase moves exactly
    /// as `spec_next_cli_phase` says; every emitted action, payload and
    /// failure message is pinned per transition; the install command is
    /// issued only right after the package-manager check; and success is
    /// reported only when a CLI was actually seen (on the `PATH`, under the
    /// prefix, or by the post-install probe).
    #[verifier::rlimit(100)]
    pub fn step(&mut self, ev: CliEvent) -> (a: Option<CliAction>)
        ensures
            final(self).phase == spec_next_cli_phase(old(self).phase, ev),
            final(self).home == old(self).home,
            final(self).windows == old(self).windows,
            (a matches Some(act) && act is RunInstall) <==> spec_emits_install(old(self).phase, ev),
            (a matches Some(act) && act is Finish) <==> ((!(old(self).phase is Done))
                && spec_next_cli_phase(old(self).phase, ev) is Done),
            old(self).phase is Failed ==> final(self).phase is Failed && a is None,
            old(self).phase is Done ==> final(self).phase is Done && a is None,
            (!(old(self).phase is ResolvingNpm && ev matches CliEvent::SystemNpmProbed { .. })
                && !(old(self).phase is Bootstrapping && ev matches CliEvent::BootstrapFinished {
                ..
            })) ==> final(self).npm_cmd == old(self).npm_cmd && final(self).bundled_bin == old(self).bundled_bin,
            (!(old(self).phase is Installing && ev matches CliEvent::InstallFinished {
                exit_ok: true,
                ..
            })) ==> final(self).install_stdout == old(self).install_stdout
                && final(self).install_stderr == old(self).install_stderr,
            ({
                let home = old(self).home@;
                let windows = old(self).windows;
                let npm = spec_npm_text(old(self).npm_cmd);
                let prefix = spec_cli_prefix(home);
                match (old(self).phase, ev) {
                    (CliPhase::ResolvingNpm, CliEvent::SystemNpmProbed { ok }) => if ok {
                        a matches Some(CliAction::ProbeGlobalCli) && (final(self).npm_cmd
                            matches Some(n) && n@ == "npm"@) && final(self).bundled_bin is None
                    } else {
                        a matches Some(CliAction::RunBootstrap)
                    },
                    (
                        CliPhase::Bootstrapping,
                        CliEvent::BootstrapFinished { bin_dir, err },
                    ) => (match bin_dir {
                        Option::Some(bin) => {
                            &&& a matches Some(CliAction::ProbeGlobalCli)
                            &&& (final(self).npm_cmd matches Some(n) && n@ == spec_join(
                                bin@,
                                crate::bootstrap::spec_npm_name(windows),
                            ))
                            &&& final(self).bundled_bin == Some(bin)
                        },
                        Option::None => a matches Some(CliAction::Fail { msg }) && msg == err,
                    }),
                    (CliPhase::ProbingGlobalCli, CliEvent::GlobalCliProbed { ok }) => if ok {
                        a matches Some(CliAction::Finish { cli_path }) && cli_path@ == "snailer"@
                    } else {
                        a matches Some(CliAction::ProbePrefix { manifest, bin }) && manifest@
                            == spec_home_cli_manifest(home) && bin@ == spec_home_cli_bin(
                            home,
                            windows,
                        )
                    },
                    (CliPhase::ProbingPrefix, CliEvent::PrefixProbed { manifest, bin }) => if manifest
                        && bin {
                        a matches Some(CliAction::Finish { cli_path }) && cli_path@
                            == spec_home_cli_bin(home, windows)
                    } else {
                        a matches Some(CliAction::PreparePrefix {
                            prefix: p,
                            manifest: m,
                            manifest_contents: c,
                        }) && p@ == prefix && m@ == spec_join(prefix, "package.json"@) && c@
                            == "{\"private\":true}"@
                    },
                    (CliPhase::PreparingPrefix, CliEvent::PrefixPrepared { ok, err }) => if ok {
                        a matches Some(CliAction::CheckNpm { npm: n, path_prepend }) && n@ == npm
                            && path_prepend == old(self).bundled_bin
                    } else {
                        a matches Some(CliAction::Fail { msg }) && msg@
                            == "Failed to create install dir: "@ + err@
                    },
                    (
                        CliPhase::CheckingNpm,
                        CliEvent::NpmChecked { ok, launch_failed },
                    ) => if ok {
                        a matches Some(CliAction::RunInstall {
                            npm: n,
                            prefix: p,
                            path_prepend,
                            package,
                        }) && n@ == npm && p@ == prefix && path_prepend == old(self).bundled_bin
                            && package@ == "@snailer-team/snailer"@
                    } else if launch_failed {
                        a matches Some(CliAction::Fail { msg }) && msg@
                            == "npm not found and auto-install failed. Please install Node.js (which includes npm) and try again."@
                    } else {
                        a matches Some(CliAction::Fail { msg }) && msg@
                            == "npm is installed but not working. Please reinstall Node.js/npm and try again."@
                    },
                    (
                        CliPhase::Installing,
                        CliEvent::InstallFinished { exit_ok, stdout, stderr },
                    ) => if exit_ok {
                        &&& (a matches Some(CliAction::ProbeReverify { manifest, bin })
                            && manifest@ == spec_home_cli_manifest(home) && bin@
                            == spec_home_cli_bin(home, windows))
                        &&& final(self).install_stdout == Some(stdout)
                        &&& final(self).install_stderr == Some(stderr)
                    } else {
                        a matches Some(CliAction::Fail { msg }) && msg@ == spec_install_failure(
                            stdout@,
                            stderr@,
                        )
                    },
                    (CliPhase::Reverifying, CliEvent::ReverifyProbed { manifest, bin }) => if manifest
                        && bin {
                        a matches Some(CliAction::Finish { cli_path }) && cli_path@
                            == spec_home_cli_bin(home, windows)
                    } else {
                        a matches Some(CliAction::Fail { msg }) && msg@ == spec_reverify_failure(
                            manifest,
                            bin,
                            home,
                            windows,
                            old(self).install_stdout,
                            old(self).install_stderr,
                        )
                    },
                    _ => a is None,
                }
            }),
    {
        match (&self.phase, &ev) {
            (CliPhase::ResolvingNpm, CliEvent::SystemNpmProbed { ok }) => {
                if *ok {
                    self.npm_cmd = Some(String::from_str("npm"));
                    self.bundled_bin = None;
                    self.phase = CliPhase::ProbingGlobalCli;
                    Some(CliAction::ProbeGlobalCli)
                } else {
                    self.phase = CliPhase::Bootstrapping;
                    Some(CliAction::RunBootstrap)
                }
            },
            (CliPhase::Bootstrapping, CliEvent::BootstrapFinished { bin_dir, err }) => {
                match bin_dir {
                    Option::Some(bin) => {
                        let npm = path_join(
                            bin.as_str(),
                            crate::bootstrap::npm_file_name(self.windows),
                        );
                        self.npm_cmd = Some(npm);
                        self.bundled_bin = Some(bin.clone());
                        self.phase = CliPhase::ProbingGlobalCli;
                        Some(CliAction::ProbeGlobalCli)
                    },
                    Option::None => {
                        self.phase = CliPhase::Failed;
                        Some(CliAction::Fail { msg: err.clone() })
                    },
                }
            },
            (CliPhase::ProbingGlobalCli, CliEvent::GlobalCliProbed { ok }) => {
                if *ok {
                    self.phase = CliPhase::Done;
                    Some(CliAction::Finish { cli_path: String::from_str("snailer") })
                } else {
                    self.phase = CliPhase::ProbingPrefix;
                    let prefix = snailer_cli_prefix_dir(self.home.as_str());
                    let manifest = snailer_cli_manifest_path(prefix.as_str());
                    let bin = snailer_cli_bin_path(prefix.as_str(), self.windows);
                    Some(CliAction::ProbePrefix { manifest, bin })
                }
            },
            (CliPhase::ProbingPrefix, CliEvent::PrefixProbed { manifest, bin }) => {
                if snailer_cli_is_installed(*manifest, *bin) {
                    self.phase = CliPhase::Done;
                    let prefix = snailer_cli_prefix_dir(self.home.as_str());
                    let cli_path = snailer_cli_bin_path(prefix.as_str(), self.windows);
                    Some(CliAction::Finish { cli_path })
                } else {
                    self.phase = CliPhase::PreparingPrefix;
                    let prefix = snailer_cli_prefix_dir(self.home.as_str());
                    let manifest = path_join(prefix.as_str(), "package.json");
                    Some(
                        CliAction::PreparePrefix {
                            prefix,
                            manifest,
                            manifest_contents: String::from_str("{\"private\":true}"),
                        },
                    )
                }
            },
            (CliPhase::PreparingPrefix, CliEvent::PrefixPrepared { ok, err }) => {
                if *ok {
                    self.phase = CliPhase::CheckingNpm;
                    let npm = match &self.npm_cmd {
                        Option::Some(n) => n.clone(),
                        Option::None => String::from_str("npm"),
                    };
                    let path_prepend = match &self.bundled_bin {
                        Option::Some(b) => Some(b.clone()),
                        Option::None => None,
                    };
                    Some(CliAction::CheckNpm { npm, path_prepend })
                } else {
                    self.phase = CliPhase::Failed;
                    let mut msg = String::from_str("Failed to create install dir: ");
                    msg.append(err.as_str());
                    Some(CliAction::Fail { msg })
                }
            },
            (CliPhase::CheckingNpm, CliEvent::NpmChecked { ok, launch_failed }) => {
                if *ok {
                    self.phase = CliPhase::Installing;
                    let npm = match &self.npm_cmd {
                        Option::Some(n) => n.clone(),
                        Option::None => String::from_str("npm"),
                    };
                    let path_prepend = match &self.bundled_bin {
                        Option::Some(b) => Some(b.clone()),
                        Option::None => None,
                    };
                    let prefix = snailer_cli_prefix_dir(self.home.as_str());
                    Some(
                        CliAction::RunInstall {
                            npm,
                            prefix,
                            path_prepend,
                            package: String::from_str(cli_package_name()),
                        },
                    )
                } else {
                    self.phase = CliPhase::Failed;
                    let msg = if *launch_failed {
                        String::from_str(
                            "npm not found and auto-install failed. Please install Node.js (which includes npm) and try again.",
                        )
                    } else {
                        String::from_str(
                            "npm is installed but not working. Please reinstall Node.js/npm and try again.",
                        )
                    };
                    Some(CliAction::Fail { msg })
                }
            },
            (CliPhase::Installing, CliEvent::InstallFinished { exit_ok, stdout, stderr }) => {
                if *exit_ok {
                    self.phase = CliPhase::Reverifying;
                    self.install_stdout = Some(stdout.clone());
                    self.install_stderr = Some(stderr.clone());
                    let prefix = snailer_cli_prefix_dir(self.home.as_str());
                    let manifest = snailer_cli_manifest_path(prefix.as_str());
                    let bin = snailer_cli_bin_path(prefix.as_str(), self.windows);
                    Some(CliAction::ProbeReverify { manifest, bin })
                } else {
                    self.phase = CliPhase::Failed;
                    let msg = npm_install_failure_message(stdout.as_str(), stderr.as_str());
                    Some(CliAction::Fail { msg })
                }
            },
            (CliPhase::Reverifying, CliEvent::ReverifyProbed { manifest, bin }) => {
                if snailer_cli_is_installed(*manifest, *bin) {
                    self.phase = CliPhase::Done;
                    let prefix = snailer_cli_prefix_dir(self.home.as_str());
                    let cli_path = snailer_cli_bin_path(prefix.as_str(), self.windows);
                    Some(CliAction::Finish { cli_path })
                } else {
                    self.phase = CliPhase::Failed;
                    let home = self.home.clone();
                    let msg = reverify_failure_message(
                        *manifest,
                        *bin,
                        home.as_str(),
                        self.windows,
                        &self.install_stdout,
                        &self.install_stderr,
                    );
                    Some(CliAction::Fail { msg })
                }
            },
            _ => None,
        }
    }
}

/// Every transition keeps or raises the rank.
pub proof fn lemma_cli_rank_monotone(p: CliPhase, ev: CliEvent)
    ensures
        spec_cli_rank(spec_next_cli_phase(p, ev)) >= spec_cli_rank(p),
{
}

/// The phase after a whole sequence of events.
pub open spec fn spec_run_cli_phases(p: CliPhase, evs: Seq<CliEvent>) -> CliPhase
    decreases evs.len(),
{
    if evs.len() == 0 {
        p
    } else {
        spec_run_cli_phases(spec_next_cli_phase(p, evs[0]), evs.drop_first())
    }
}

/// The rank never falls over a whole run.
pub proof fn lemma_cli_rank_monotone_run(p: CliPhase, evs: Seq<CliEvent>)
    ensures
        spec_cli_rank(spec_run_cli_phases(p, evs)) >= spec_cli_rank(p),
    decreases evs.len(),
{
    if evs.len() > 0 {
        lemma_cli_rank_monotone(p, evs[0]);
        lemma_cli_rank_monotone_run(spec_next_cli_phase(p, evs[0]), evs.drop_first());
    }
}

/// Law: one run of `EnsureInstalled` performs the install at most once —
/// after the step that issues it the machine stands past the install stage
/// and never returns to it.
pub proof fn lemma_install_at_most_once(p: CliPhase, evs: Seq<CliEvent>, i: int, j: int)
    requires
        0 <= i < j < evs.len(),
        spec_emits_install(spec_run_cli_phases(p, evs.take(i)), evs[i]),
    ensures
        !spec_emits_install(spec_run_cli_phases(p, evs.take(j)), evs[j]),
    decreases j,
{
    let pi = spec_run_cli_phases(p, evs.take(i));
    assert(pi is CheckingNpm);
    let pi1 = spec_next_cli_phase(pi, evs[i]);
    assert(pi1 is Installing);
    assert(evs.take(i + 1).drop_last() =~= evs.take(i));
    assert(evs.take(i + 1).last() == evs[i]);
    lemma_run_snoc(p, evs.take(i + 1));
    assert(spec_run_cli_phases(p, evs.take(i + 1)) == pi1);
    lemma_run_split(p, evs, i + 1, j);
    let pj = spec_run_cli_phases(p, evs.take(j));
    assert(spec_cli_rank(pj) >= spec_cli_rank(pi1));
    assert(!(pj is CheckingNpm));
}

/// Running a sequence that ends in one more event is one more step.
proof fn lemma_run_snoc(p: CliPhase, evs: Seq<CliEvent>)
    requires
        evs.len() >= 1,
    ensures
        spec_run_cli_phases(p, evs) == spec_next_cli_phase(
            spec_run_cli_phases(p, evs.drop_last()),
            evs.last(),
        ),
    decreases evs.len(),
{
    if evs.len() == 1 {
        assert(evs.drop_last() =~= Seq::<CliEvent>::empty());
        assert(evs.drop_first() =~= Seq::<CliEvent>::empty());
    } else {
        lemma_run_snoc(spec_next_cli_phase(p, evs[0]), evs.drop_first());
        assert(evs.drop_first().drop_last() =~= evs.drop_last().drop_first());
        assert(evs.drop_first().last() == evs.last());
        assert(evs.drop_last()[0] == evs[0]);
        assert(spec_run_cli_phases(p, evs.drop_last()) == spec_run_cli_phases(
            spec_next_cli_phase(p, evs[0]),
            evs.drop_last().drop_first(),
        ));
    }
}

/// The phase after `j` events is the phase after `k` of them followed by the
/// rest, and its rank is at least the rank at `k`.
proof fn lemma_run_split(p: CliPhase, evs: Seq<CliEvent>, k: int, j: int)
    requires
        0 <= k <= j <= evs.len(),
    ensures
        spec_cli_rank(spec_run_cli_phases(p, evs.take(j))) >= spec_cli_rank(
            spec_run_cli_phases(p, evs.take(k)),
        ),
    decreases j - k,
{
    if k < j {
        assert(evs.take(k + 1).drop_last() =~= evs.take(k));
        assert(evs.take(k + 1).last() == evs[k]);
        lemma_run_snoc(p, evs.take(k + 1));
        lemma_cli_rank_monotone(spec_run_cli_phases(p, evs.take(k)), evs[k]);
        lemma_run_split(p, evs, k + 1, j);
    }
}

/// Law: a second `EnsureInstalled` call against a store where the first call
/// verified the installed package short-circuits — its probes answer
/// positively, it finishes at once, and no step of it runs an install.
pub proof fn lemma_second_call_short_circuits(system_npm_ok: bool)
    ensures
        ({
            let evs = seq![
                CliEvent::SystemNpmProbed { ok: system_npm_ok },
                CliEvent::GlobalCliProbed { ok: false },
                CliEvent::PrefixProbed { manifest: true, bin: true },
            ];
            &&& system_npm_ok ==> spec_run_cli_phases(CliPhase::ResolvingNpm, evs) is Done
            &&& forall|j: int|
                0 <= j < evs.len() ==> !spec_emits_install(
                    #[trigger] spec_run_cli_phases(CliPhase::ResolvingNpm, evs.take(j)),
                    evs[j],
                )
        }),
{
    let evs = seq![
        CliEvent::SystemNpmProbed { ok: system_npm_ok },
        CliEvent::GlobalCliProbed { ok: false },
        CliEvent::PrefixProbed { manifest: true, bin: true },
    ];
    assert forall|j: int|
        0 <= j < evs.len() implies !spec_emits_install(
        #[trigger] spec_run_cli_phases(CliPhase::ResolvingNpm, evs.take(j)),
        evs[j],
    ) by {
        reveal_with_fuel(spec_run_cli_phases, 4);
        if j == 0 {
            assert(evs.take(0) =~= Seq::<CliEvent>::empty());
        } else if j == 1 {
            assert(evs.take(1) =~= seq![evs[0]]);
            assert(evs.take(1).drop_first() =~= Seq::<CliEvent>::empty());
        } else {
            assert(evs.take(2) =~= seq![evs[0], evs[1]]);
            assert(evs.take(2).drop_first() =~= seq![evs[1]]);
            assert(seq![evs[1]].drop_first() =~= Seq::<CliEvent>::empty());
        }
    }
    if system_npm_ok {
        reveal_with_fuel(spec_run_cli_phases, 4);
        assert(evs.drop_first() =~= seq![evs[1], evs[2]]);
        assert(evs.drop_first().drop_first() =~= seq![evs[2]]);
        assert(seq![evs[2]].drop_first() =~= Seq::<CliEvent>::empty());
    }
}

/// `Status()` from its probes alone: which package manager is available,
/// whether the bundled runtime would be used, and where the CLI and the
/// bundled runtime are — exactly the probe results, never an install.
pub fn snailer_cli_status_from_probes(
    home: &str,
    windows: bool,
    system_npm_ok: bool,
    bundled_npm_is_file: bool,
    bundled_npm_ok: bool,
    global_cli_ok: bool,
    prefix_manifest: bool,
    prefix_bin: bool,
) -> (r: SnailerCliStatus)
    ensures
        r.npm_available == (system_npm_ok || (bundled_npm_is_file && bundled_npm_ok)),
        r.using_bundled_node == (!system_npm_ok && bundled_npm_is_file && bundled_npm_ok),
        r.installed == (global_cli_ok || (prefix_manifest && prefix_bin)),
        global_cli_ok ==> (r.cli_path matches Some(p) && p@ == "snailer"@),
        (!global_cli_ok && prefix_manifest && prefix_bin) ==> (r.cli_path matches Some(p) && p@
            == spec_home_cli_bin(home@, windows)),
        (!global_cli_ok && !(prefix_manifest && prefix_bin)) ==> r.cli_path is None,
        r.prefix_dir@ == spec_cli_prefix(home@),
        (bundled_npm_is_file && bundled_npm_ok) ==> (r.bundled_node_path matches Some(p) && p@
            == crate::paths::spec_node_bin(home@)),
        !(bundled_npm_is_file && bundled_npm_ok) ==> r.bundled_node_path is None,
{
    let bundled_ok = bundled_npm_is_file && bundled_npm_ok;
    let npm_available = system_npm_ok || bundled_ok;
    let using_bundled_node = !system_npm_ok && bundled_ok;
    let prefix = snailer_cli_prefix_dir(home);
    let bundled_node_path = if bundled_ok {
        Some(crate::paths::snailer_node_current_bin_dir(home))
    } else {
        None
    };
    if global_cli_ok {
        SnailerCliStatus {
            installed: true,
            cli_path: Some(String::from_str("snailer")),
            npm_available,
            using_bundled_node,
            bundled_node_path,
            prefix_dir: prefix,
        }
    } else if snailer_cli_is_installed(prefix_manifest, prefix_bin) {
        let cli_path = snailer_cli_bin_path(prefix.as_str(), windows);
        SnailerCliStatus {
            installed: true,
            cli_path: Some(cli_path),
            npm_available,
            using_bundled_node,
            bundled_node_path,
            prefix_dir: prefix,
        }
    } else {
        SnailerCliStatus {
            installed: false,
            cli_path: None,
            npm_available,
            using_bundled_node,
            bundled_node_path,
            prefix_dir: prefix,
        }
    }
}

} // verus!
