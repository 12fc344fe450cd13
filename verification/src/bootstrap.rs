//! Bootstrap of the scripting runtime the engine CLI depends on.
//!
//! The bootstrapper decides, step by step, how a missing runtime is probed,
//! downloaded, extracted and promoted; the application performs each emitted
//! action (a filesystem probe, an HTTPS download, an archive extraction) and
//! feeds its outcome back in. The published version index is handed in as
//! plain entries and the latest long-term-support version is selected here;
//! a lookup failure falls back to the pinned version and never fails the
//! bootstrap. A fresh install is built in a temporary sibling directory and
//! promoted by a single rename, and the machine promotes only after the
//! extracted tree has been verified: a bootstrap that fails during
//! extraction never touches a pre-existing install.

use vstd::prelude::*;
use vstd::string::StrSliceExecFns;
use vstd::string::StringExecFns;
use crate::ids::fresh_uuid;
use crate::paths::path_join;
use crate::paths::snailer_node_current_bin_dir;
use crate::paths::snailer_node_current_dir;
use crate::paths::snailer_node_root_dir;
use crate::paths::spec_join;
use crate::paths::spec_node_bin;
use crate::paths::spec_node_current;
use crate::paths::spec_node_root;
use crate::textutil::has_prefix;
use crate::textutil::spec_trim;
use crate::textutil::str_eq;
use crate::textutil::str_to_chars;
use crate::textutil::trim_str;

verus! {

/// The (OS, CPU architecture) pairs a runtime archive is published for.
pub open spec fn spec_platform_supported(os: Seq<char>, arch: Seq<char>) -> bool {
    ||| (os == "macos"@ && (arch == "aarch64"@ || arch == "x86_64"@))
    ||| (os == "linux"@ && (arch == "x86_64"@ || arch == "aarch64"@))
    ||| (os == "windows"@ && (arch == "x86_64"@ || arch == "aarch64"@))
}

/// The platform identifier in published archive names for (`os`, `arch`).
pub open spec fn spec_platform_string(os: Seq<char>, arch: Seq<char>) -> Seq<char> {
    if os == "macos"@ {
        if arch == "aarch64"@ {
            "darwin-arm64"@
        } else {
            "darwin-x64"@
        }
    } else if os == "linux"@ {
        if arch == "x86_64"@ {
            "linux-x64"@
        } else {
            "linux-arm64"@
        }
    } else {
        if arch == "x86_64"@ {
            "win-x64"@
        } else {
            "win-arm64"@
        }
    }
}

/// The error reported for a host no archive is published for.
pub open spec fn spec_unsupported_platform(os: Seq<char>, arch: Seq<char>) -> Seq<char> {
    "Unsupported platform for auto Node install: "@ + os + "/"@ + arch
}

/// Map the host platform to the published platform identifier; unsupported
/// combinations fail fast, before anything is downloaded.
pub fn node_platform_string(os: &str, arch: &str) -> (r: Result<String, String>)
    ensures
        spec_platform_supported(os@, arch@) ==> (r matches Ok(p) && p@ == spec_platform_string(
            os@,
            arch@,
        )),
        !spec_platform_supported(os@, arch@) ==> (r matches Err(m) && m@
            == spec_unsupported_platform(os@, arch@)),
{
    if str_eq(os, "macos") {
        if str_eq(arch, "aarch64") {
            Ok(String::from_str("darwin-arm64"))
        } else if str_eq(arch, "x86_64") {
            Ok(String::from_str("darwin-x64"))
        } else {
            Err(unsupported_platform_message(os, arch))
        }
    } else if str_eq(os, "linux") {
        if str_eq(arch, "x86_64") {
            Ok(String::from_str("linux-x64"))
        } else if str_eq(arch, "aarch64") {
            Ok(String::from_str("linux-arm64"))
        } else {
            Err(unsupported_platform_message(os, arch))
        }
    } else if str_eq(os, "windows") {
        if str_eq(arch, "x86_64") {
            Ok(String::from_str("win-x64"))
        } else if str_eq(arch, "aarch64") {
            Ok(String::from_str("win-arm64"))
        } else {
            Err(unsupported_platform_message(os, arch))
        }
    } else {
        Err(unsupported_platform_message(os, arch))
    }
}

fn unsupported_platform_message(os: &str, arch: &str) -> (r: String)
    ensures
        r@ == spec_unsupported_platform(os@, arch@),
{
    let mut s = String::from_str("Unsupported platform for auto Node install: ");
    s.append(os);
    s.append("/");
    s.append(arch);
    s
}

/// How the long-term-support marker of one index entry reads.
pub enum LtsMark {
    /// The member is absent: the index is malformed and the lookup fails.
    Missing,
    /// JSON `null`: not a long-term-support release.
    Null,
    /// JSON `false`: not a long-term-support release.
    False,
    /// Anything else (a release codename, or `true`): long-term support.
    Flagged,
}

/// One entry of the published version index, as plain values.
pub struct VersionIndexEntry {
    /// How the entry's `lts` member reads.
    pub lts: LtsMark,
    /// The entry's `version` member; `None` when absent or not text.
    pub version: Option<String>,
}

/// The version the index yields, scanning from entry `i`: the first entry
/// flagged as long-term support whose trimmed version starts with `v`. A
/// malformed entry (no marker, or a flagged entry without a version) ends
/// the lookup with nothing.
pub open spec fn spec_lts_choice(entries: Seq<VersionIndexEntry>, i: int) -> Option<Seq<char>>
    decreases entries.len() - i when 0 <= i
{
    if i < 0 || i >= entries.len() {
        Option::None
    } else {
        match entries[i].lts {
            LtsMark::Missing => Option::None,
            LtsMark::Null => spec_lts_choice(entries, i + 1),
            LtsMark::False => spec_lts_choice(entries, i + 1),
            LtsMark::Flagged => match entries[i].version {
                Option::None => Option::None,
                Option::Some(vs) => {
                    let v = spec_trim(vs@);
                    if v.len() >= 1 && v[0] == 'v' {
                        Option::Some(v)
                    } else {
                        spec_lts_choice(entries, i + 1)
                    }
                },
            },
        }
    }
}

/// Select the newest long-term-support version from the published index:
/// exactly the first entry whose marker is neither `null` nor `false` and
/// whose trimmed version starts with `v`.
pub fn detect_latest_lts_node_version(entries: &Vec<VersionIndexEntry>) -> (r: Option<String>)
    ensures
        (match spec_lts_choice(entries@, 0) {
            Option::Some(v) => r matches Some(s) && s@ == v,
            Option::None => r is None,
        }),
{
    let mut i: usize = 0;
    while i < entries.len()
        invariant
            i <= entries@.len(),
            spec_lts_choice(entries@, 0) == spec_lts_choice(entries@, i as int),
        decreases entries@.len() - i,
    {
        match &entries[i].lts {
            LtsMark::Missing => {
                return None;
            },
            LtsMark::Null => {},
            LtsMark::False => {},
            LtsMark::Flagged => {
                match &entries[i].version {
                    Option::None => {
                        return None;
                    },
                    Option::Some(vs) => {
                        let v = trim_str(vs.as_str());
                        let vc = str_to_chars(v.as_str());
                        if vc.len() >= 1 && vc[0] == 'v' {
                            return Some(v);
                        }
                    },
                }
            },
        }
        i = i + 1;
    }
    None
}

/// The pinned known-good runtime version used when the published index
/// cannot be read.
pub fn pinned_node_version() -> (r: String)
    ensures
        r@ == "v20.11.1"@,
{
    String::from_str("v20.11.1")
}

/// The version to install: the detected latest LTS, or the pinned fallback —
/// the fallback never fails.
pub fn choose_node_version(detected: Option<String>) -> (r: String)
    ensures
        (match detected {
            Option::Some(v) => r == v,
            Option::None => r@ == "v20.11.1"@,
        }),
{
    match detected {
        Option::Some(v) => v,
        Option::None => pinned_node_version(),
    }
}

/// The version the machine settles on after the index step: the index's
/// choice, or the pinned fallback when the fetch or the lookup failed.
pub open spec fn spec_chosen_version(entries: Option<Vec<VersionIndexEntry>>) -> Seq<char> {
    match entries {
        Option::Some(es) => match spec_lts_choice(es@, 0) {
            Option::Some(v) => v,
            Option::None => "v20.11.1"@,
        },
        Option::None => "v20.11.1"@,
    }
}

/// The URL of the published version index.
pub fn node_index_url() -> (r: String)
    ensures
        r@ == "https://nodejs.org/dist/index.json"@,
{
    String::from_str("https://nodejs.org/dist/index.json")
}

/// The archive file name for a version and platform.
pub open spec fn spec_archive_name(version: Seq<char>, platform: Seq<char>) -> Seq<char> {
    "node-"@ + version + "-"@ + platform + ".tar.gz"@
}

/// The archive file name for a version and platform.
pub fn node_archive_name(version: &str, platform: &str) -> (r: String)
    ensures
        r@ == spec_archive_name(version@, platform@),
{
    let mut s = String::from_str("node-");
    s.append(version);
    s.append("-");
    s.append(platform);
    s.append(".tar.gz");
    s
}

/// The top-level directory name the archive extracts to.
pub open spec fn spec_extracted_name(version: Seq<char>, platform: Seq<char>) -> Seq<char> {
    "node-"@ + version + "-"@ + platform
}

/// The top-level directory name the archive extracts to.
pub fn node_extracted_dir_name(version: &str, platform: &str) -> (r: String)
    ensures
        r@ == spec_extracted_name(version@, platform@),
{
    let mut s = String::from_str("node-");
    s.append(version);
    s.append("-");
    s.append(platform);
    s
}

/// The download URL of the archive for a version.
pub open spec fn spec_dist_url(version: Seq<char>, file_name: Seq<char>) -> Seq<char> {
    "https://nodejs.org/dist/"@ + version + "/"@ + file_name
}

/// The download URL of the archive for a version.
pub fn node_dist_url(version: &str, file_name: &str) -> (r: String)
    ensures
        r@ == spec_dist_url(version@, file_name@),
{
    let mut s = String::from_str("https://nodejs.org/dist/");
    s.append(version);
    s.append("/");
    s.append(file_name);
    s
}

/// The package-manager executable name on this platform.
pub open spec fn spec_npm_name(windows: bool) -> Seq<char> {
    if windows {
        "npm.cmd"@
    } else {
        "npm"@
    }
}

/// The package-manager executable name on this platform.
pub fn npm_file_name(windows: bool) -> (r: &'static str)
    ensures
        r@ == spec_npm_name(windows),
{
    if windows {
        "npm.cmd"
    } else {
        "npm"
    }
}

/// The interpreter executable name on this platform.
pub open spec fn spec_node_name(windows: bool) -> Seq<char> {
    if windows {
        "node.exe"@
    } else {
        "node"@
    }
}

/// The interpreter executable name on this platform.
pub fn node_file_name(windows: bool) -> (r: &'static str)
    ensures
        r@ == spec_node_name(windows),
{
    if windows {
        "node.exe"
    } else {
        "node"
    }
}

/// The stored chosen version as text, with the pinned default for a field
/// not yet set.
pub open spec fn spec_version_text(v: Option<String>) -> Seq<char> {
    match v {
        Option::Some(s) => s@,
        Option::None => "v20.11.1"@,
    }
}

/// The stored platform identifier as text; empty for a field not yet set.
pub open spec fn spec_platform_text(p: Option<String>) -> Seq<char> {
    match p {
        Option::Some(s) => s@,
        Option::None => Seq::empty(),
    }
}

/// The stored temporary directory as text; empty for a field not yet set.
pub open spec fn spec_tmp_text(t: Option<String>) -> Seq<char> {
    match t {
        Option::Some(s) => s@,
        Option::None => Seq::empty(),
    }
}

/// Where the bootstrap stands.
pub enum BootPhase {
    /// Nothing started yet.
    Idle,
    /// Waiting for the probe of the current install's executables.
    ProbingCurrent,
    /// Waiting for the version-index fetch.
    FetchingIndex,
    /// Waiting for the root and cache directories to be created.
    PreparingDirs,
    /// Waiting for the archive download.
    Downloading,
    /// Waiting for the archive extraction into the temporary directory.
    Extracting,
    /// Waiting for the probe of the expected extracted directory.
    CheckingExtracted,
    /// Waiting for the atomic promotion (replace `current` by one rename).
    Promoting,
    /// Waiting for the probe of the promoted package manager.
    VerifyingNpm,
    /// A usable install is in place.
    Done,
    /// The bootstrap failed; nothing further happens.
    Failed,
}

/// What the application reports back to the machine.
pub enum BootstrapEvent {
    /// Whether the current install's package manager and interpreter exist.
    CurrentProbed { npm_file: bool, node_file: bool },
    /// The fetched version index as plain entries, or `None` on any network
    /// or parse failure.
    IndexFetched { entries: Option<Vec<VersionIndexEntry>> },
    /// Whether the root and cache directories could be created.
    DirsPrepared { ok: bool, err: String },
    /// Whether the archive download completed.
    DownloadFinished { ok: bool, err: String },
    /// Whether the archive extraction exited successfully.
    ExtractFinished { ok: bool },
    /// Whether the expected extracted directory exists.
    ExtractedDirProbed { is_dir: bool },
    /// Whether the promotion rename succeeded.
    Promoted { ok: bool, err: String },
    /// Whether the promoted package manager exists.
    NpmProbed { is_file: bool },
}

/// What the application must do next.
pub enum BootstrapAction {
    /// Check whether both files exist.
    ProbeCurrent { npm: String, node: String },
    /// Fetch the version index.
    FetchIndex { url: String },
    /// Create both directories.
    PrepareDirs { root: String, cache: String },
    /// Download the archive to the cache.
    Download { url: String, dest: String },
    /// Extract the archive into the fresh temporary directory.
    Extract { archive: String, dest: String },
    /// Check that the expected extracted directory exists.
    ProbeExtractedDir { path: String },
    /// Remove any existing `current` directory and rename the extracted tree
    /// into its place — the one step that touches the live install.
    Promote { from: String, to: String },
    /// Check that the package manager exists in the promoted install.
    ProbeNpm { path: String },
    /// The install is usable; its executables are in `bin_dir`.
    Finish { bin_dir: String },
    /// The bootstrap failed.
    Fail { msg: String },
}

/// The machine's phase after seeing `ev` in phase `p`; `platform_supported`
/// is whether the host platform maps to a published archive. Events that do
/// not belong to the phase change nothing; `Done` and `Failed` absorb.
pub open spec fn spec_next_phase(p: BootPhase, ev: BootstrapEvent, platform_supported: bool) -> BootPhase {
    match (p, ev) {
        (BootPhase::ProbingCurrent, BootstrapEvent::CurrentProbed { npm_file, node_file }) => {
            if npm_file && node_file {
                BootPhase::Done
            } else {
                BootPhase::FetchingIndex
            }
        },
        (BootPhase::FetchingIndex, BootstrapEvent::IndexFetched { .. }) => {
            if platform_supported {
                BootPhase::PreparingDirs
            } else {
                BootPhase::Failed
            }
        },
        (BootPhase::PreparingDirs, BootstrapEvent::DirsPrepared { ok, .. }) => {
            if ok {
                BootPhase::Downloading
            } else {
                BootPhase::Failed
            }
        },
        (BootPhase::Downloading, BootstrapEvent::DownloadFinished { ok, .. }) => {
            if ok {
                BootPhase::Extracting
            } else {
                BootPhase::Failed
            }
        },
        (BootPhase::Extracting, BootstrapEvent::ExtractFinished { ok }) => {
            if ok {
                BootPhase::CheckingExtracted
            } else {
                BootPhase::Failed
            }
        },
        (BootPhase::CheckingExtracted, BootstrapEvent::ExtractedDirProbed { is_dir }) => {
            if is_dir {
                BootPhase::Promoting
            } else {
                BootPhase::Failed
            }
        },
        (BootPhase::Promoting, BootstrapEvent::Promoted { ok, .. }) => {
            if ok {
                BootPhase::VerifyingNpm
            } else {
                BootPhase::Failed
            }
        },
        (BootPhase::VerifyingNpm, BootstrapEvent::NpmProbed { is_file }) => {
            if is_file {
                BootPhase::Done
            } else {
                BootPhase::Failed
            }
        },
        _ => p,
    }
}

/// A step emits the promotion exactly when the extracted tree was just
/// verified.
pub open spec fn spec_emits_promote(p: BootPhase, ev: BootstrapEvent) -> bool {
    p is CheckingExtracted && ev matches BootstrapEvent::ExtractedDirProbed { is_dir: true }
}

/// `EnsureRuntime` as a step machine over probe and transfer outcomes.
pub struct RuntimeBootstrapper {
    pub home: String,
    pub os: String,
    pub arch: String,
    pub phase: BootPhase,
    /// The chosen version, once decided.
    pub version: Option<String>,
    /// The platform identifier, once mapped.
    pub platform: Option<String>,
    /// The temporary extraction directory of the run, once created. The
    /// application removes it when the run ends, whatever the outcome.
    pub tmp: Option<String>,
}

impl RuntimeBootstrapper {
    /// A bootstrapper for the given home directory and host platform.
    pub fn new(home: String, os: String, arch: String) -> (b: Self)
        ensures
            b.phase is Idle,
            b.home == home,
            b.os == os,
            b.arch == arch,
            b.tmp is None,
    {
        RuntimeBootstrapper {
            home,
            os,
            arch,
            phase: BootPhase::Idle,
            version: None,
            platform: None,
            tmp: None,
        }
    }

    /// Begin `EnsureRuntime`: first probe whether the current install
    /// already has both executables — reuse before download.
    pub fn begin(&mut self) -> (a: BootstrapAction)
        ensures
            final(self).phase is ProbingCurrent,
            final(self).version is None,
            final(self).platform is None,
            final(self).tmp is None,
            final(self).home == old(self).home,
            final(self).os == old(self).os,
            final(self).arch == old(self).arch,
            (a matches BootstrapAction::ProbeCurrent { npm, node } && npm@ == spec_join(
                spec_node_bin(old(self).home@),
                spec_npm_name(old(self).os@ == "windows"@),
            ) && node@ == spec_join(
                spec_node_bin(old(self).home@),
                spec_node_name(old(self).os@ == "windows"@),
            )),
    {
        self.phase = BootPhase::ProbingCurrent;
        self.version = None;
        self.platform = None;
        self.tmp = None;
        let bin = snailer_node_current_bin_dir(self.home.as_str());
        let windows = str_eq(self.os.as_str(), "windows");
        let npm = path_join(bin.as_str(), npm_file_name(windows));
        let node = path_join(bin.as_str(), node_file_name(windows));
        BootstrapAction::ProbeCurrent { npm, node }
    }

    /// Feed one outcome in and get the next action. The phase moves exactly
    /// as `spec_next_phase` says; every emitted action and failure message is
    /// pinned per transition, and the promotion that replaces the live
    /// install is emitted only right after the extracted tree was verified.
    #[verifier::rlimit(100)]
    pub fn step(&mut self, ev: BootstrapEvent) -> (a: Option<BootstrapAction>)
        ensures
            final(self).phase == spec_next_phase(
                old(self).phase,
                ev,
                spec_platform_supported(old(self).os@, old(self).arch@),
            ),
            final(self).home == old(self).home,
            final(self).os == old(self).os,
            final(self).arch == old(self).arch,
            (a matches Some(act) && act is Promote) <==> spec_emits_promote(old(self).phase, ev),
            (!(old(self).phase is FetchingIndex && ev matches BootstrapEvent::IndexFetched {
                ..
            })) ==> final(self).version == old(self).version && final(self).platform == old(
                self,
            ).platform,
            (!(old(self).phase is Downloading && ev matches BootstrapEvent::DownloadFinished {
                ok: true,
                ..
            })) ==> final(self).tmp == old(self).tmp,
            ({
                let home = old(self).home@;
                let os = old(self).os@;
                let arch = old(self).arch@;
                let windows = os == "windows"@;
                let ver = spec_version_text(old(self).version);
                let plat = spec_platform_text(old(self).platform);
                let cache = spec_join(spec_node_root(home), "cache"@);
                match (old(self).phase, ev) {
                    (
                        BootPhase::ProbingCurrent,
                        BootstrapEvent::CurrentProbed { npm_file, node_file },
                    ) => if npm_file && node_file {
                        a matches Some(BootstrapAction::Finish { bin_dir }) && bin_dir@
                            == spec_node_bin(home)
                    } else {
                        a matches Some(BootstrapAction::FetchIndex { url }) && url@
                            == "https://nodejs.org/dist/index.json"@
                    },
                    (BootPhase::FetchingIndex, BootstrapEvent::IndexFetched { entries }) => {
                        if spec_platform_supported(os, arch) {
                            &&& (final(self).version matches Some(v) && v@ == spec_chosen_version(
                                entries,
                            ))
                            &&& (final(self).platform matches Some(p) && p@
                                == spec_platform_string(os, arch))
                            &&& (a matches Some(BootstrapAction::PrepareDirs { root, cache: c })
                                && root@ == spec_node_root(home) && c@ == cache)
                        } else {
                            a matches Some(BootstrapAction::Fail { msg }) && msg@
                                == spec_unsupported_platform(os, arch)
                        }
                    },
                    (BootPhase::PreparingDirs, BootstrapEvent::DirsPrepared { ok, err }) => if ok {
                        a matches Some(BootstrapAction::Download { url, dest }) && url@
                            == spec_dist_url(ver, spec_archive_name(ver, plat)) && dest@
                            == spec_join(cache, spec_archive_name(ver, plat))
                    } else {
                        a matches Some(BootstrapAction::Fail { msg }) && msg@ == "mkdir failed: "@
                            + err@
                    },
                    (
                        BootPhase::Downloading,
                        BootstrapEvent::DownloadFinished { ok, err },
                    ) => if ok {
                        a matches Some(BootstrapAction::Extract { archive, dest }) && archive@
                            == spec_join(cache, spec_archive_name(ver, plat)) && (final(self).tmp
                            matches Some(t) && dest == t && has_prefix(
                            t@,
                            spec_node_root(home) + "/tmp-"@,
                        ) && t@.len() == spec_node_root(home).len() + 41)
                    } else {
                        a matches Some(BootstrapAction::Fail { msg }) && msg@
                            == "Failed to download Node.js: "@ + err@
                    },
                    (BootPhase::Extracting, BootstrapEvent::ExtractFinished { ok }) => if ok {
                        a matches Some(BootstrapAction::ProbeExtractedDir { path }) && path@
                            == spec_join(
                            spec_tmp_text(old(self).tmp),
                            spec_extracted_name(ver, plat),
                        )
                    } else {
                        a matches Some(BootstrapAction::Fail { msg }) && msg@
                            == "Failed to extract Node.js archive (tar)"@
                    },
                    (
                        BootPhase::CheckingExtracted,
                        BootstrapEvent::ExtractedDirProbed { is_dir },
                    ) => if is_dir {
                        a matches Some(BootstrapAction::Promote { from, to }) && from@
                            == spec_join(
                            spec_tmp_text(old(self).tmp),
                            spec_extracted_name(ver, plat),
                        ) && to@ == spec_node_current(home)
                    } else {
                        a matches Some(BootstrapAction::Fail { msg }) && msg@
                            == "Node.js archive extracted but expected directory was not found."@
                    },
                    (BootPhase::Promoting, BootstrapEvent::Promoted { ok, err }) => if ok {
                        a matches Some(BootstrapAction::ProbeNpm { path }) && path@ == spec_join(
                            spec_node_bin(home),
                            spec_npm_name(windows),
                        )
                    } else {
                        a matches Some(BootstrapAction::Fail { msg }) && msg@
                            == "install failed: "@ + err@
                    },
                    (BootPhase::VerifyingNpm, BootstrapEvent::NpmProbed { is_file }) => if is_file {
                        a matches Some(BootstrapAction::Finish { bin_dir }) && bin_dir@
                            == spec_node_bin(home)
                    } else {
                        a matches Some(BootstrapAction::Fail { msg }) && msg@
                            == "Node.js installed but npm was not found."@
                    },
                    _ => a is None,
                }
            }),
    {
        match (&self.phase, &ev) {
            (BootPhase::ProbingCurrent, BootstrapEvent::CurrentProbed { npm_file, node_file }) => {
                if *npm_file && *node_file {
                    self.phase = BootPhase::Done;
                    let bin = snailer_node_current_bin_dir(self.home.as_str());
                    Some(BootstrapAction::Finish { bin_dir: bin })
                } else {
                    self.phase = BootPhase::FetchingIndex;
                    Some(BootstrapAction::FetchIndex { url: node_index_url() })
                }
            },
            (BootPhase::FetchingIndex, BootstrapEvent::IndexFetched { entries }) => {
                let detected = match entries {
                    Option::Some(es) => detect_latest_lts_node_version(es),
                    Option::None => None,
                };
                let version = choose_node_version(detected);
                match node_platform_string(self.os.as_str(), self.arch.as_str()) {
                    Ok(platform) => {
                        self.version = Some(version);
                        self.platform = Some(platform);
                        self.phase = BootPhase::PreparingDirs;
                        let root = snailer_node_root_dir(self.home.as_str());
                        let cache = path_join(root.as_str(), "cache");
                        Some(BootstrapAction::PrepareDirs { root, cache })
                    },
                    Err(msg) => {
                        self.phase = BootPhase::Failed;
                        Some(BootstrapAction::Fail { msg })
                    },
                }
            },
            (BootPhase::PreparingDirs, BootstrapEvent::DirsPrepared { ok, err }) => {
                if *ok {
                    self.phase = BootPhase::Downloading;
                    let version = match &self.version {
                        Option::Some(v) => v.clone(),
                        Option::None => pinned_node_version(),
                    };
                    let platform = match &self.platform {
                        Option::Some(p) => p.clone(),
                        Option::None => String::new(),
                    };
                    let file = node_archive_name(version.as_str(), platform.as_str());
                    let url = node_dist_url(version.as_str(), file.as_str());
                    let root = snailer_node_root_dir(self.home.as_str());
                    let cache = path_join(root.as_str(), "cache");
                    let dest = path_join(cache.as_str(), file.as_str());
                    Some(BootstrapAction::Download { url, dest })
                } else {
                    self.phase = BootPhase::Failed;
                    let mut msg = String::from_str("mkdir failed: ");
                    msg.append(err.as_str());
                    Some(BootstrapAction::Fail { msg })
                }
            },
            (BootPhase::Downloading, BootstrapEvent::DownloadFinished { ok, err }) => {
                if *ok {
                    self.phase = BootPhase::Extracting;
                    let root = snailer_node_root_dir(self.home.as_str());
                    let mut tmp_name = String::from_str("tmp-");
                    let id = fresh_uuid();
                    tmp_name.append(id.as_str());
                    let tmp = path_join(root.as_str(), tmp_name.as_str());
                    proof {
                        reveal_strlit("/");
                        reveal_strlit("tmp-");
                        reveal_strlit("/tmp-");
                        assert(tmp@ =~= spec_node_root(self.home@) + "/tmp-"@ + id@);
                        assert(tmp@.len() == spec_node_root(self.home@).len() + 41);
                        assert(has_prefix(tmp@, spec_node_root(self.home@) + "/tmp-"@)) by {
                            assert((spec_node_root(self.home@) + "/tmp-"@ + id@).subrange(
                                0,
                                (spec_node_root(self.home@) + "/tmp-"@).len() as int,
                            ) =~= spec_node_root(self.home@) + "/tmp-"@);
                        }
                    }
                    self.tmp = Some(tmp.clone());
                    let version = match &self.version {
                        Option::Some(v) => v.clone(),
                        Option::None => pinned_node_version(),
                    };
                    let platform = match &self.platform {
                        Option::Some(p) => p.clone(),
                        Option::None => String::new(),
                    };
                    let file = node_archive_name(version.as_str(), platform.as_str());
                    let root2 = snailer_node_root_dir(self.home.as_str());
                    let cache = path_join(root2.as_str(), "cache");
                    let archive = path_join(cache.as_str(), file.as_str());
                    Some(BootstrapAction::Extract { archive, dest: tmp })
                } else {
                    self.phase = BootPhase::Failed;
                    let mut msg = String::from_str("Failed to download Node.js: ");
                    msg.append(err.as_str());
                    Some(BootstrapAction::Fail { msg })
                }
            },
            (BootPhase::Extracting, BootstrapEvent::ExtractFinished { ok }) => {
                if *ok {
                    self.phase = BootPhase::CheckingExtracted;
                    let tmp = match &self.tmp {
                        Option::Some(t) => t.clone(),
                        Option::None => String::new(),
                    };
                    let version = match &self.version {
                        Option::Some(v) => v.clone(),
                        Option::None => pinned_node_version(),
                    };
                    let platform = match &self.platform {
                        Option::Some(p) => p.clone(),
                        Option::None => String::new(),
                    };
                    let name = node_extracted_dir_name(version.as_str(), platform.as_str());
                    let path = path_join(tmp.as_str(), name.as_str());
                    Some(BootstrapAction::ProbeExtractedDir { path })
                } else {
                    self.phase = BootPhase::Failed;
                    Some(
                        BootstrapAction::Fail {
                            msg: String::from_str("Failed to extract Node.js archive (tar)"),
                        },
                    )
                }
            },
            (BootPhase::CheckingExtracted, BootstrapEvent::ExtractedDirProbed { is_dir }) => {
                if *is_dir {
                    self.phase = BootPhase::Promoting;
                    let tmp = match &self.tmp {
                        Option::Some(t) => t.clone(),
                        Option::None => String::new(),
                    };
                    let version = match &self.version {
                        Option::Some(v) => v.clone(),
                        Option::None => pinned_node_version(),
                    };
                    let platform = match &self.platform {
                        Option::Some(p) => p.clone(),
                        Option::None => String::new(),
                    };
                    let name = node_extracted_dir_name(version.as_str(), platform.as_str());
                    let from = path_join(tmp.as_str(), name.as_str());
                    let to = snailer_node_current_dir(self.home.as_str());
                    Some(BootstrapAction::Promote { from, to })
                } else {
                    self.phase = BootPhase::Failed;
                    Some(
                        BootstrapAction::Fail {
                            msg: String::from_str(
                                "Node.js archive extracted but expected directory was not found.",
                            ),
                        },
                    )
                }
            },
            (BootPhase::Promoting, BootstrapEvent::Promoted { ok, err }) => {
                if *ok {
                    self.phase = BootPhase::VerifyingNpm;
                    let bin = snailer_node_current_bin_dir(self.home.as_str());
                    let windows = str_eq(self.os.as_str(), "windows");
                    let npm = path_join(bin.as_str(), npm_file_name(windows));
                    Some(BootstrapAction::ProbeNpm { path: npm })
                } else {
                    self.phase = BootPhase::Failed;
                    let mut msg = String::from_str("install failed: ");
                    msg.append(err.as_str());
                    Some(BootstrapAction::Fail { msg })
                }
            },
            (BootPhase::VerifyingNpm, BootstrapEvent::NpmProbed { is_file }) => {
                if *is_file {
                    self.phase = BootPhase::Done;
                    let bin = snailer_node_current_bin_dir(self.home.as_str());
                    Some(BootstrapAction::Finish { bin_dir: bin })
                } else {
                    self.phase = BootPhase::Failed;
                    Some(
                        BootstrapAction::Fail {
                            msg: String::from_str("Node.js installed but npm was not found."),
                        },
                    )
                }
            },
            _ => None,
        }
    }

    /// The temporary extraction directory to remove when the run ends,
    /// whatever the outcome.
    pub fn cleanup_dir(&self) -> (r: &Option<String>)
        ensures
            *r == self.tmp,
    {
        &self.tmp
    }
}

/// The phase after a whole sequence of events.
pub open spec fn spec_run_phases(p: BootPhase, evs: Seq<BootstrapEvent>, ps: bool) -> BootPhase
    decreases evs.len(),
{
    if evs.len() == 0 {
        p
    } else {
        spec_run_phases(spec_next_phase(p, evs[0], ps), evs.drop_first(), ps)
    }
}

/// A failed machine stays failed and never promotes.
pub proof fn lemma_failed_is_absorbing(evs: Seq<BootstrapEvent>, ps: bool)
    ensures
        spec_run_phases(BootPhase::Failed, evs, ps) is Failed,
        forall|j: int|
            0 <= j < evs.len() ==> !spec_emits_promote(
                #[trigger] spec_run_phases(BootPhase::Failed, evs.take(j), ps),
                evs[j],
            ),
    decreases evs.len(),
{
    if evs.len() > 0 {
        assert(spec_next_phase(BootPhase::Failed, evs[0], ps) is Failed);
        lemma_failed_is_absorbing(evs.drop_first(), ps);
        assert forall|j: int|
            0 <= j < evs.len() implies !spec_emits_promote(
            #[trigger] spec_run_phases(BootPhase::Failed, evs.take(j), ps),
            evs[j],
        ) by {
            if j == 0 {
                assert(evs.take(0) =~= Seq::<BootstrapEvent>::empty());
            } else {
                assert(evs.take(j).drop_first() =~= evs.drop_first().take(j - 1));
                assert(spec_run_phases(BootPhase::Failed, evs.take(j), ps) == spec_run_phases(
                    spec_next_phase(BootPhase::Failed, evs[0], ps),
                    evs.drop_first().take(j - 1),
                    ps,
                ));
            }
        }
    }
}

/// Law: a bootstrap whose archive extraction fails goes to `Failed` at once,
/// and no later step of that run promotes anything — any pre-existing
/// `current` install is left untouched and usable, since only the promotion
/// step touches it.
pub proof fn lemma_failed_extraction_never_promotes(evs: Seq<BootstrapEvent>, ps: bool)
    requires
        evs.len() >= 1,
        evs[0] == (BootstrapEvent::ExtractFinished { ok: false }),
    ensures
        spec_run_phases(BootPhase::Extracting, evs, ps) is Failed,
        forall|j: int|
            0 <= j < evs.len() ==> !spec_emits_promote(
                #[trigger] spec_run_phases(BootPhase::Extracting, evs.take(j), ps),
                evs[j],
            ),
{
    assert(spec_next_phase(BootPhase::Extracting, evs[0], ps) is Failed);
    lemma_failed_is_absorbing(evs.drop_first(), ps);
    assert forall|j: int|
        0 <= j < evs.len() implies !spec_emits_promote(
        #[trigger] spec_run_phases(BootPhase::Extracting, evs.take(j), ps),
        evs[j],
    ) by {
        if j == 0 {
            assert(evs.take(0) =~= Seq::<BootstrapEvent>::empty());
        } else {
            assert(evs.take(j).drop_first() =~= evs.drop_first().take(j - 1));
            assert(spec_run_phases(BootPhase::Extracting, evs.take(j), ps) == spec_run_phases(
                BootPhase::Failed,
                evs.drop_first().take(j - 1),
                ps,
            ));
        }
    }
}

} // verus!
