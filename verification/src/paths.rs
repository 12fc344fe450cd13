//! Well-known locations under the user's home directory.
//!
//! The surrounding application resolves the home directory itself (an
//! environment lookup); every function here is a pure computation from that
//! string to a path, modelled as a string with `/` separators.

use vstd::prelude::*;
use vstd::string::StringExecFns;

verus! {

/// `join(base, leaf)` is `base` + `/` + `leaf`.
pub open spec fn spec_join(base: Seq<char>, leaf: Seq<char>) -> Seq<char> {
    base + "/"@ + leaf
}

/// `~/.snailer` for a home directory.
pub open spec fn spec_snailer_home(home: Seq<char>) -> Seq<char> {
    spec_join(home, ".snailer"@)
}

/// `~/.snailer/node`.
pub open spec fn spec_node_root(home: Seq<char>) -> Seq<char> {
    spec_join(spec_snailer_home(home), "node"@)
}

/// `~/.snailer/node/current`.
pub open spec fn spec_node_current(home: Seq<char>) -> Seq<char> {
    spec_join(spec_node_root(home), "current"@)
}

/// `~/.snailer/node/current/bin`.
pub open spec fn spec_node_bin(home: Seq<char>) -> Seq<char> {
    spec_join(spec_node_current(home), "bin"@)
}

/// `~/.snailer/npm_cli`.
pub open spec fn spec_cli_prefix(home: Seq<char>) -> Seq<char> {
    spec_join(spec_snailer_home(home), "npm_cli"@)
}

/// Append `/` and `leaf` to `base`.
pub fn path_join(base: &str, leaf: &str) -> (r: String)
    ensures
        r@ == spec_join(base@, leaf@),
{
    let mut s = String::new();
    s.append(base);
    s.append("/");
    s.append(leaf);
    s
}

/// `~/.snailer`, the root of all tool-owned state.
pub fn snailer_home_dir(home: &str) -> (r: String)
    ensures
        r@ == spec_join(home@, ".snailer"@),
{
    path_join(home, ".snailer")
}

/// `~/.snailer/gui_attachments`, where uploaded images are saved.
pub fn snailer_attachments_dir(home: &str) -> (r: String)
    ensures
        r@ == spec_join(spec_join(home@, ".snailer"@), "gui_attachments"@),
{
    let d = snailer_home_dir(home);
    path_join(d.as_str(), "gui_attachments")
}

/// `~/.snailer/npm_cli`, the user-local prefix the CLI package is installed
/// into.
pub fn snailer_cli_prefix_dir(home: &str) -> (r: String)
    ensures
        r@ == spec_join(spec_join(home@, ".snailer"@), "npm_cli"@),
{
    let d = snailer_home_dir(home);
    path_join(d.as_str(), "npm_cli")
}

/// `~/.snailer/node`, the root of bootstrapped runtime installs.
pub fn snailer_node_root_dir(home: &str) -> (r: String)
    ensures
        r@ == spec_join(spec_join(home@, ".snailer"@), "node"@),
{
    let d = snailer_home_dir(home);
    path_join(d.as_str(), "node")
}

/// `~/.snailer/node/current`, the one active runtime install.
pub fn snailer_node_current_dir(home: &str) -> (r: String)
    ensures
        r@ == spec_join(spec_join(spec_join(home@, ".snailer"@), "node"@), "current"@),
{
    let d = snailer_node_root_dir(home);
    path_join(d.as_str(), "current")
}

/// `~/.snailer/node/current/bin`, where the bootstrapped interpreter and
/// package manager live.
pub fn snailer_node_current_bin_dir(home: &str) -> (r: String)
    ensures
        r@ == spec_join(
            spec_join(spec_join(spec_join(home@, ".snailer"@), "node"@), "current"@),
            "bin"@,
        ),
{
    let d = snailer_node_current_dir(home);
    path_join(d.as_str(), "bin")
}

/// `~/.snailer/gui_settings.json`, the persisted GUI settings file.
pub fn gui_settings_path(home: &str) -> (r: String)
    ensures
        r@ == spec_join(spec_join(home@, ".snailer"@), "gui_settings.json"@),
{
    let d = snailer_home_dir(home);
    path_join(d.as_str(), "gui_settings.json")
}

/// `~/.snailer/.env`, the shared environment file handed to the engine.
pub fn shared_env_path(home: &str) -> (r: String)
    ensures
        r@ == spec_join(spec_join(home@, ".snailer"@), ".env"@),
{
    let d = snailer_home_dir(home);
    path_join(d.as_str(), ".env")
}

} // verus!
