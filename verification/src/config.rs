//! Resolution of configured values: the auth-service address, the shared
//! environment file, the home directory, the default project path, and the
//! `PATH` handed to spawned tools.
//!
//! Environment variables and settings-file contents are read by the
//! application and passed in as plain values; the cascades themselves are
//! verified.

use vstd::prelude::*;
use vstd::string::StringExecFns;
use crate::textutil::contains_substring;
use crate::textutil::has_substring;
use crate::textutil::is_blank;
use crate::textutil::spec_is_blank;
use crate::textutil::spec_trim;
use crate::textutil::trim_str;

verus! {

/// The build-time default auth address: the compiled-in value, trimmed, when
/// it is non-blank.
pub fn default_auth_addr(build_default: Option<&str>) -> (r: Option<String>)
    ensures
        (match build_default {
            Option::Some(s) => if spec_is_blank(s@) {
                r is None
            } else {
                r matches Some(v) && v@ == spec_trim(s@)
            },
            Option::None => r is None,
        }),
{
    match build_default {
        Option::Some(s) => {
            let t = trim_str(s);
            if t.as_str().unicode_len() == 0 {
                proof {
                    crate::textutil::lemma_blank_trim(s@);
                }
                None
            } else {
                proof {
                    crate::textutil::lemma_blank_trim(s@);
                }
                Some(t)
            }
        },
        Option::None => None,
    }
}

/// The effective auth-service address: the environment override when
/// non-blank, else the persisted GUI setting when non-blank, else the
/// build-time default; configured nowhere is an error.
pub fn resolve_auth_addr(
    env_addr: Option<String>,
    settings_addr: Option<String>,
    build_default: Option<&str>,
) -> (r: Result<String, String>)
    ensures
        (match env_addr {
            Option::Some(v) => !spec_is_blank(v@) ==> r == Ok::<String, String>(v),
            Option::None => true,
        }),
        ((env_addr matches Some(v) ==> spec_is_blank(v@)) ==> (match settings_addr {
            Option::Some(w) => !spec_is_blank(w@) ==> r == Ok::<String, String>(w),
            Option::None => true,
        })),
        (((env_addr matches Some(v) ==> spec_is_blank(v@)) && (settings_addr matches Some(w)
            ==> spec_is_blank(w@))) ==> (match build_default {
            Option::Some(d) => !spec_is_blank(d@) ==> (r matches Ok(a) && a@ == spec_trim(d@)),
            Option::None => true,
        })),
        ((env_addr matches Some(v) ==> spec_is_blank(v@)) && (settings_addr matches Some(w)
            ==> spec_is_blank(w@)) && (build_default matches Some(d) ==> spec_is_blank(d@)) ==> r
            is Err),
{
    match env_addr {
        Option::Some(v) => {
            if !is_blank(v.as_str()) {
                return Ok(v);
            }
        },
        Option::None => {},
    }
    match settings_addr {
        Option::Some(w) => {
            if !is_blank(w.as_str()) {
                return Ok(w);
            }
        },
        Option::None => {},
    }
    match default_auth_addr(build_default) {
        Option::Some(a) => Ok(a),
        Option::None => Err(
            String::from_str(
                "Auth server address is not configured. Set SNAILER_AUTH_ADDR (environment) or set `authAddr` in `~/.snailer/gui_settings.json` (or provide a build default).",
            ),
        ),
    }
}

/// The environment-file choice to persist: the given path when non-blank,
/// else cleared.
pub fn normalize_env_file_choice(path: Option<String>) -> (r: Option<String>)
    ensures
        (match path {
            Option::Some(p) => if spec_is_blank(p@) {
                r is None
            } else {
                r == Some(p)
            },
            Option::None => r is None,
        }),
{
    match path {
        Option::Some(p) => {
            if is_blank(p.as_str()) {
                None
            } else {
                Some(p)
            }
        },
        Option::None => None,
    }
}

/// The home directory: the home variable when non-blank; on Windows, the
/// profile variable as fallback; else the working directory; else `.`.
pub fn choose_home(
    home_env: Option<String>,
    userprofile: Option<String>,
    windows: bool,
    cwd: Option<String>,
) -> (r: String)
    ensures
        (home_env matches Some(h) ==> (!spec_is_blank(h@) ==> r == h)),
        (userprofile matches Some(u) ==> (((home_env matches Some(h) ==> spec_is_blank(h@))
            && windows && !spec_is_blank(u@)) ==> r == u)),
{
    match home_env {
        Option::Some(h) => {
            if !is_blank(h.as_str()) {
                return h;
            }
        },
        Option::None => {},
    }
    if windows {
        match userprofile {
            Option::Some(u) => {
                if !is_blank(u.as_str()) {
                    return u;
                }
            },
            Option::None => {},
        }
    }
    match cwd {
        Option::Some(c) => c,
        Option::None => String::from_str("."),
    }
}

/// The default project path: the working directory when it looks like a
/// repository, else the home directory.
pub fn choose_project_path(cwd: Option<String>, cwd_has_git: bool, home: String) -> (r: String)
    ensures
        (cwd matches Some(c) ==> (cwd_has_git ==> r == c)),
        ((cwd is None || !cwd_has_git) ==> r == home),
{
    match cwd {
        Option::Some(c) => {
            if cwd_has_git {
                c
            } else {
                home
            }
        },
        Option::None => home,
    }
}

/// A `PATH` with one directory prepended: the directory alone when the old
/// value is empty.
pub fn prepend_path(dir: &str, old_path: &str) -> (r: String)
    ensures
        old_path@.len() == 0 ==> r@ == dir@,
        old_path@.len() > 0 ==> r@ == dir@ + ":"@ + old_path@,
{
    if old_path.unicode_len() == 0 {
        String::from_str(dir)
    } else {
        let mut s = String::from_str(dir);
        s.append(":");
        s.append(old_path);
        s
    }
}

/// One step of the probe-path assembly: prepend the directory unless the
/// original `PATH` already names it.
pub open spec fn spec_path_step(current: Seq<char>, full: Seq<char>, dir: Seq<char>) -> Seq<char> {
    if has_substring(current, dir) {
        full
    } else {
        dir + ":"@ + full
    }
}

fn path_step(current: &str, full: String, dir: &str) -> (r: String)
    ensures
        r@ == spec_path_step(current@, full@, dir@),
{
    if contains_substring(current, dir) {
        full
    } else {
        let mut s = String::from_str(dir);
        s.append(":");
        s.append(full.as_str());
        s
    }
}

/// The `PATH` for launching helper tools from an application bundle, whose
/// inherited `PATH` can be bare: the common tool directories are prepended,
/// each one only when the inherited value does not already name it.
pub fn build_probe_path(current: &str) -> (r: String)
    ensures
        r@ == spec_path_step(
            current@,
            spec_path_step(
                current@,
                spec_path_step(
                    current@,
                    spec_path_step(current@, current@, "/opt/homebrew/bin"@),
                    "/usr/local/bin"@,
                ),
                "/usr/bin"@,
            ),
            "/bin"@,
        ),
{
    let mut full = String::from_str(current);
    full = path_step(current, full, "/opt/homebrew/bin");
    full = path_step(current, full, "/usr/local/bin");
    full = path_step(current, full, "/usr/bin");
    full = path_step(current, full, "/bin");
    full
}

/// The auth address as the login flows use it: exactly the resolution
/// cascade.
pub fn get_auth_addr(
    env_addr: Option<String>,
    settings_addr: Option<String>,
    build_default: Option<&str>,
) -> (r: Result<String, String>)
    ensures
        (match env_addr {
            Option::Some(v) => !spec_is_blank(v@) ==> r == Ok::<String, String>(v),
            Option::None => true,
        }),
{
    resolve_auth_addr(env_addr, settings_addr, build_default)
}

} // verus!
