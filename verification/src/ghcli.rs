//! Interpretation of git and GitHub CLI output.
//!
//! The subprocesses run in the application; what they print is classified
//! and reshaped here: authentication state, branch-name sanitizing, the
//! number at the end of an issue or pull-request URL, the aggregate state of
//! a set of checks, and the status summary text.

use vstd::prelude::*;
use vstd::string::StrSliceExecFns;
use vstd::string::StringExecFns;
use crate::credblob::parse_signed;
use crate::credblob::parse_i64_text;
use crate::textutil::char_is_alphanumeric;
use crate::textutil::chars_to_string;
use crate::textutil::contains_substring;
use crate::textutil::has_substring;
use crate::textutil::spec_is_alphanumeric;
use crate::textutil::spec_lower;
use crate::textutil::spec_trim;
use crate::textutil::str_eq;
use crate::textutil::str_to_chars;
use crate::textutil::subvec_chars;
use crate::textutil::to_lowercase;
use crate::textutil::trim_str;
use crate::types::GhPrCheckItem;

verus! {

/// The GitHub CLI authentication state read off `gh auth status` output:
/// `ok`, `not_logged_in`, or `unknown`, by substring match on the lowercased
/// text.
pub fn classify_gh_auth(auth_text: &str) -> (r: String)
    ensures
        ({
            let low = spec_lower(auth_text@);
            &&& ((has_substring(low, "logged in to github.com"@) || has_substring(
                low,
                "authenticated"@,
            )) ==> r@ == "ok"@)
            &&& ((!has_substring(low, "logged in to github.com"@) && !has_substring(
                low,
                "authenticated"@,
            ) && (has_substring(low, "not logged"@) || has_substring(low, "no github hosts"@)))
                ==> r@ == "not_logged_in"@)
            &&& ((!has_substring(low, "logged in to github.com"@) && !has_substring(
                low,
                "authenticated"@,
            ) && !has_substring(low, "not logged"@) && !has_substring(low, "no github hosts"@))
                ==> r@ == "unknown"@)
        }),
{
    let low = to_lowercase(auth_text);
    if contains_substring(low.as_str(), "logged in to github.com") || contains_substring(
        low.as_str(),
        "authenticated",
    ) {
        String::from_str("ok")
    } else if contains_substring(low.as_str(), "not logged") || contains_substring(
        low.as_str(),
        "no github hosts",
    ) {
        String::from_str("not_logged_in")
    } else {
        String::from_str("unknown")
    }
}

/// What one branch-name character becomes: spaces and colons become dashes,
/// quotes are dropped, anything else stays.
pub open spec fn spec_branch_char(c: char) -> Seq<char> {
    if c == ' ' || c == ':' {
        seq!['-']
    } else if c == '\'' || c == '"' {
        Seq::empty()
    } else {
        seq![c]
    }
}

/// The per-character pass of branch sanitizing.
pub open spec fn spec_branch_map(s: Seq<char>) -> Seq<char>
    decreases s.len(),
{
    if s.len() == 0 {
        Seq::empty()
    } else {
        spec_branch_map(s.drop_last()) + spec_branch_char(s.last())
    }
}

/// The suffix of `s` from `i` with every non-overlapping `..` replaced by a
/// dash.
pub open spec fn spec_dotdot(s: Seq<char>, i: int) -> Seq<char>
    decreases s.len() - i when 0 <= i
{
    if i < 0 || i >= s.len() {
        Seq::empty()
    } else if i + 1 < s.len() && s[i] == '.' && s[i + 1] == '.' {
        seq!['-'] + spec_dotdot(s, i + 2)
    } else {
        seq![s[i]] + spec_dotdot(s, i + 1)
    }
}

/// The final filter of branch sanitizing: alphanumeric characters, dashes,
/// underscores and slashes are kept.
pub open spec fn spec_branch_keep(c: char) -> bool {
    spec_is_alphanumeric(c) || c == '-' || c == '_' || c == '/'
}

/// The filtered branch name.
pub open spec fn spec_branch_filter(s: Seq<char>) -> Seq<char>
    decreases s.len(),
{
    if s.len() == 0 {
        Seq::empty()
    } else {
        spec_branch_filter(s.drop_last()) + (if spec_branch_keep(s.last()) {
            seq![s.last()]
        } else {
            Seq::empty()
        })
    }
}

/// The sanitized form of a requested branch name.
pub open spec fn spec_sanitized_branch(name: Seq<char>) -> Seq<char> {
    spec_branch_filter(spec_dotdot(spec_branch_map(spec_trim(name)), 0))
}

/// Sanitize a requested branch name: trim it, turn spaces and colons into
/// dashes, drop quotes, collapse `..`, and keep only alphanumeric
/// characters, dashes, underscores and slashes; an empty result is refused.
pub fn sanitize_branch_name(name: &str) -> (r: Result<String, String>)
    ensures
        (match r {
            Ok(b) => b@ == spec_sanitized_branch(name@) && b@.len() > 0,
            Err(m) => spec_sanitized_branch(name@).len() == 0 && m@ == "Invalid branch name"@,
        }),
{
    let t = trim_str(name);
    let tv = str_to_chars(t.as_str());
    let mut mapped: Vec<char> = Vec::new();
    let mut i: usize = 0;
    while i < tv.len()
        invariant
            tv@ == spec_trim(name@),
            i <= tv@.len(),
            mapped@ == spec_branch_map(tv@.subrange(0, i as int)),
        decreases tv@.len() - i,
    {
        proof {
            assert(tv@.subrange(0, i + 1 as int).drop_last() =~= tv@.subrange(0, i as int));
            assert(tv@.subrange(0, i + 1 as int).last() == tv@[i as int]);
        }
        let c = tv[i];
        if c == ' ' || c == ':' {
            mapped.push('-');
        } else if c == '\'' || c == '"' {
        } else {
            mapped.push(c);
        }
        proof {
            assert(mapped@ =~= spec_branch_map(tv@.subrange(0, i + 1 as int)));
        }
        i = i + 1;
    }
    proof {
        assert(tv@.subrange(0, tv@.len() as int) =~= tv@);
    }
    let mut collapsed: Vec<char> = Vec::new();
    let n = mapped.len();
    let mut j: usize = 0;
    while j < n
        invariant
            n == mapped@.len(),
            mapped@ == spec_branch_map(spec_trim(name@)),
            0 <= j <= n,
            spec_dotdot(mapped@, 0) == collapsed@ + spec_dotdot(mapped@, j as int),
        decreases n - j,
    {
        if j + 1 < n && mapped[j] == '.' && mapped[j + 1] == '.' {
            collapsed.push('-');
            j = j + 2;
        } else {
            collapsed.push(mapped[j]);
            j = j + 1;
        }
    }
    proof {
        assert(spec_dotdot(mapped@, n as int) =~= Seq::<char>::empty());
        assert(collapsed@ =~= spec_dotdot(mapped@, 0));
    }
    let mut kept: Vec<char> = Vec::new();
    let mut k: usize = 0;
    while k < collapsed.len()
        invariant
            collapsed@ == spec_dotdot(spec_branch_map(spec_trim(name@)), 0),
            k <= collapsed@.len(),
            kept@ == spec_branch_filter(collapsed@.subrange(0, k as int)),
        decreases collapsed@.len() - k,
    {
        proof {
            assert(collapsed@.subrange(0, k + 1 as int).drop_last() =~= collapsed@.subrange(
                0,
                k as int,
            ));
            assert(collapsed@.subrange(0, k + 1 as int).last() == collapsed@[k as int]);
        }
        let c = collapsed[k];
        if char_is_alphanumeric(c) || c == '-' || c == '_' || c == '/' {
            kept.push(c);
        }
        proof {
            assert(kept@ =~= spec_branch_filter(collapsed@.subrange(0, k + 1 as int)));
        }
        k = k + 1;
    }
    proof {
        assert(collapsed@.subrange(0, collapsed@.len() as int) =~= collapsed@);
    }
    if kept.len() == 0 {
        Err(String::from_str("Invalid branch name"))
    } else {
        Ok(chars_to_string(&kept))
    }
}

/// The position of the last occurrence of `c` in `s`.
pub open spec fn spec_rfind_char(s: Seq<char>, c: char) -> Option<int>
    decreases s.len(),
{
    if s.len() == 0 {
        Option::None
    } else if s.last() == c {
        Option::Some(s.len() - 1)
    } else {
        spec_rfind_char(s.drop_last(), c)
    }
}

/// What the backward character search finds.
pub proof fn lemma_rfind_char_props(s: Seq<char>, c: char)
    ensures
        (match spec_rfind_char(s, c) {
            Option::Some(i) => 0 <= i < s.len() && s[i] == c && (forall|k: int|
                i < k < s.len() ==> s[k] != c),
            Option::None => forall|k: int| 0 <= k < s.len() ==> s[k] != c,
        }),
    decreases s.len(),
{
    if s.len() > 0 && s.last() != c {
        lemma_rfind_char_props(s.drop_last(), c);
        let d = s.drop_last();
        assert(forall|k: int| 0 <= k < d.len() ==> d[k] == s[k]);
        match spec_rfind_char(d, c) {
            Option::Some(i) => {
                assert forall|k: int| i < k < s.len() implies s[k] != c by {
                    if k < s.len() - 1 {
                        assert(s[k] == d[k]);
                    } else {
                        assert(s[k] == s.last());
                    }
                }
            },
            Option::None => {
                assert forall|k: int| 0 <= k < s.len() implies s[k] != c by {
                    if k < s.len() - 1 {
                        assert(s[k] == d[k]);
                    } else {
                        assert(s[k] == s.last());
                    }
                }
            },
        }
    }
}

/// The text after the last slash of a URL (all of it when it has none).
pub open spec fn spec_trailing_segment(url: Seq<char>) -> Seq<char> {
    match spec_rfind_char(url, '/') {
        Option::Some(i) => url.subrange(i + 1, url.len() as int),
        Option::None => url,
    }
}

/// The number a created issue or pull request got, read off the end of the
/// URL the CLI printed; 0 when the trailing segment is not a number.
pub fn parse_trailing_number(url: &str) -> (r: i64)
    ensures
        (match parse_signed(spec_trailing_segment(url@)) {
            Option::Some(v) => r as int == v,
            Option::None => r == 0,
        }),
{
    let v = str_to_chars(url);
    let n = v.len();
    let mut j: usize = n;
    let mut found: Option<usize> = None;
    let mut stop = false;
    while j > 0 && !stop
        invariant
            n == v@.len(),
            v@ == url@,
            j <= n,
            found is None,
            forall|k: int| j <= k < n ==> v@[k] != '/',
            stop ==> j > 0 && v@[j - 1] == '/',
        decreases j, 1int - (if stop { 1int } else { 0int }),
    {
        if v[j - 1] == '/' {
            stop = true;
            continue;
        }
        j = j - 1;
    }
    proof {
        lemma_rfind_char_props(v@, '/');
    }
    let seg = if stop {
        proof {
            match spec_rfind_char(v@, '/') {
                Option::Some(i) => {
                    assert(i < j ==> v@[j - 1] != '/' || i == j - 1);
                    assert(i == j - 1);
                },
                Option::None => {
                    assert(v@[j - 1] != '/');
                },
            }
        }
        subvec_chars(&v, j, n)
    } else {
        proof {
            match spec_rfind_char(v@, '/') {
                Option::Some(i) => {
                    assert(v@[i] != '/');
                },
                Option::None => {},
            }
            assert(v@.subrange(0, n as int) =~= v@);
        }
        subvec_chars(&v, 0, n)
    };
    proof {
        assert(seg@ == spec_trailing_segment(url@));
    }
    match parse_i64_text(&seg) {
        Option::Some(t) => t,
        Option::None => 0,
    }
}

/// A conclusion counts as passing when it is `SUCCESS` or `success`.
pub open spec fn spec_check_passed(c: Seq<char>) -> bool {
    c == "SUCCESS"@ || c == "success"@
}

/// A conclusion counts as failing when it is `FAILURE` or `failure`.
pub open spec fn spec_check_failed(c: Seq<char>) -> bool {
    c == "FAILURE"@ || c == "failure"@
}

/// The aggregate state of a pull request's checks: `failure` when any check
/// failed, `success` when every check passed, `pending` otherwise.
pub fn aggregate_check_status(checks: &Vec<GhPrCheckItem>) -> (r: String)
    ensures
        ((exists|k: int|
            0 <= k < checks@.len() && spec_check_failed(#[trigger] checks@[k].conclusion@)) ==> r@
            == "failure"@),
        (((forall|k: int|
            0 <= k < checks@.len() ==> !spec_check_failed(#[trigger] checks@[k].conclusion@)) && (
        forall|k: int|
            0 <= k < checks@.len() ==> spec_check_passed(#[trigger] checks@[k].conclusion@)))
            ==> r@ == "success"@),
        (((forall|k: int|
            0 <= k < checks@.len() ==> !spec_check_failed(#[trigger] checks@[k].conclusion@)) && (
        exists|k: int|
            0 <= k < checks@.len() && !spec_check_passed(#[trigger] checks@[k].conclusion@)))
            ==> r@ == "pending"@),
{
    let mut all_pass = true;
    let mut any_fail = false;
    let mut i: usize = 0;
    while i < checks.len()
        invariant
            i <= checks@.len(),
            all_pass == (forall|k: int|
                0 <= k < i ==> spec_check_passed(#[trigger] checks@[k].conclusion@)),
            any_fail == (exists|k: int|
                0 <= k < i && spec_check_failed(#[trigger] checks@[k].conclusion@)),
        decreases checks@.len() - i,
    {
        let c = &checks[i].conclusion;
        let passed = str_eq(c.as_str(), "SUCCESS") || str_eq(c.as_str(), "success");
        let failed = str_eq(c.as_str(), "FAILURE") || str_eq(c.as_str(), "failure");
        all_pass = all_pass && passed;
        any_fail = any_fail || failed;
        i = i + 1;
    }
    if any_fail {
        String::from_str("failure")
    } else if all_pass {
        String::from_str("success")
    } else {
        String::from_str("pending")
    }
}

/// Whether check output means no checks have been configured or started.
pub fn pr_checks_absent(text: &str) -> (r: bool)
    ensures
        r == (crate::textutil::spec_is_blank(text@) || has_substring(text@, "no checks"@)),
{
    crate::textutil::is_blank(text) || contains_substring(text, "no checks")
}

/// Whether commit output means there was nothing to commit — not an error.
pub fn commit_had_no_changes(text: &str) -> (r: bool)
    ensures
        r == (has_substring(text@, "nothing to commit"@) || has_substring(
            text@,
            "working tree clean"@,
        )),
{
    contains_substring(text, "nothing to commit") || contains_substring(
        text,
        "working tree clean",
    )
}

/// Whether branch-creation output means the branch already exists.
pub fn branch_already_exists(text: &str) -> (r: bool)
    ensures
        r == (has_substring(text@, "already exists"@) || has_substring(text@, "already exist"@)),
{
    contains_substring(text, "already exists") || contains_substring(text, "already exist")
}

/// Whether branch-creation output rejected the name itself.
pub fn branch_name_invalid(text: &str) -> (r: bool)
    ensures
        r == has_substring(text@, "not a valid branch name"@),
{
    contains_substring(text, "not a valid branch name")
}

/// The flag a merge method maps to; anything unrecognized merges normally.
pub fn merge_method_flag(method: Option<&str>) -> (r: &'static str)
    ensures
        (match method {
            Option::Some(m) => if m@ == "rebase"@ {
                r@ == "--rebase"@
            } else if m@ == "squash"@ {
                r@ == "--squash"@
            } else {
                r@ == "--merge"@
            },
            Option::None => r@ == "--merge"@,
        }),
{
    match method {
        Option::Some(m) => {
            if str_eq(m, "rebase") {
                "--rebase"
            } else if str_eq(m, "squash") {
                "--squash"
            } else {
                "--merge"
            }
        },
        Option::None => "--merge",
    }
}

/// The status summary shown to the agent: the branch, the working-tree
/// state, the recent commits when there are any, and the first remote line
/// when there is one.
pub fn summarize_git_status(branch: &str, status: &str, log: &str, remote: &str) -> (r: String)
    ensures
        r@ == "Branch: "@ + spec_trim(branch@) + "\n"@ + (if spec_trim(status@).len() == 0 {
            "Working tree: clean\n"@
        } else {
            "Changes:\n"@ + spec_trim(status@) + "\n"@
        }) + (if spec_trim(log@).len() == 0 {
            Seq::<char>::empty()
        } else {
            "Recent commits:\n"@ + spec_trim(log@) + "\n"@
        }) + (if spec_trim(remote@).len() == 0 {
            Seq::<char>::empty()
        } else {
            "Remote: "@ + spec_trim(crate::envfile::spec_lines(remote@)[0]) + "\n"@
        }),
{
    let mut out = String::from_str("Branch: ");
    let tb = trim_str(branch);
    out.append(tb.as_str());
    out.append("\n");
    let ts = trim_str(status);
    if ts.as_str().unicode_len() == 0 {
        out.append("Working tree: clean\n");
    } else {
        out.append("Changes:\n");
        out.append(ts.as_str());
        out.append("\n");
    }
    let tl = trim_str(log);
    if tl.as_str().unicode_len() > 0 {
        out.append("Recent commits:\n");
        out.append(tl.as_str());
        out.append("\n");
    }
    let tr = trim_str(remote);
    if tr.as_str().unicode_len() > 0 {
        let lines = crate::envfile::split_lines(remote);
        proof {
            crate::envfile::lemma_split_lines_len(remote@);
        }
        let first_raw = crate::envfile::strip_cr(lines[0].as_str());
        let first = trim_str(first_raw.as_str());
        out.append("Remote: ");
        out.append(first.as_str());
        out.append("\n");
        proof {
            assert(crate::envfile::spec_lines(remote@)[0] == crate::envfile::spec_strip_cr(
                crate::envfile::spec_split_lines(remote@)[0],
            ));
        }
    }
    out
}

} // verus!
