//! Tests of git and GitHub CLI output interpretation.

use snailer_gui::ghcli::{
    aggregate_check_status, branch_already_exists, branch_name_invalid, classify_gh_auth,
    commit_had_no_changes, merge_method_flag, parse_trailing_number, pr_checks_absent,
    sanitize_branch_name, summarize_git_status,
};
use snailer_gui::types::GhPrCheckItem;

#[test]
fn auth_output_is_classified_by_substring() {
    assert_eq!(classify_gh_auth("Logged in to github.com as octocat"), "ok");
    assert_eq!(classify_gh_auth("You are AUTHENTICATED via token"), "ok");
    assert_eq!(classify_gh_auth("You are not logged into any hosts"), "not_logged_in");
    assert_eq!(classify_gh_auth("No GitHub hosts configured"), "not_logged_in");
    assert_eq!(classify_gh_auth("something else entirely"), "unknown");
}

#[test]
fn branch_names_are_sanitized() {
    assert_eq!(sanitize_branch_name("fix: crash on startup").unwrap(), "fix--crash-on-startup");
    assert_eq!(sanitize_branch_name("it's \"quoted\"").unwrap(), "its-quoted");
    assert_eq!(sanitize_branch_name("a..b").unwrap(), "a-b");
    assert_eq!(sanitize_branch_name("  feature/login  ").unwrap(), "feature/login");
    assert_eq!(sanitize_branch_name("über-fix").unwrap(), "über-fix");
    assert_eq!(sanitize_branch_name("...").unwrap(), "-");
    assert!(sanitize_branch_name("'\"'").is_err());
    assert!(sanitize_branch_name("   ").is_err());
}

#[test]
fn trailing_url_number_is_parsed_or_zero() {
    assert_eq!(parse_trailing_number("https://github.com/o/r/issues/42"), 42);
    assert_eq!(parse_trailing_number("https://github.com/o/r/pull/7"), 7);
    assert_eq!(parse_trailing_number("https://github.com/o/r/pull/abc"), 0);
    assert_eq!(parse_trailing_number("17"), 17);
    assert_eq!(parse_trailing_number(""), 0);
}

fn check(conclusion: &str) -> GhPrCheckItem {
    GhPrCheckItem {
        name: String::from("ci"),
        status: String::from("COMPLETED"),
        conclusion: String::from(conclusion),
    }
}

#[test]
fn check_aggregation_prefers_failure_then_success_then_pending() {
    assert_eq!(aggregate_check_status(&vec![check("SUCCESS"), check("success")]), "success");
    assert_eq!(aggregate_check_status(&vec![check("SUCCESS"), check("FAILURE")]), "failure");
    assert_eq!(aggregate_check_status(&vec![check("SUCCESS"), check("")]), "pending");
    assert_eq!(aggregate_check_status(&vec![]), "success");
    assert!(pr_checks_absent("   "));
    assert!(pr_checks_absent("there are no checks here"));
    assert!(!pr_checks_absent("1 check"));
}

#[test]
fn commit_and_branch_outputs_are_classified() {
    assert!(commit_had_no_changes("nothing to commit, working tree clean"));
    assert!(!commit_had_no_changes("1 file changed"));
    assert!(branch_already_exists("fatal: a branch named 'x' already exists"));
    assert!(branch_name_invalid("fatal: 'x' is not a valid branch name"));
}

#[test]
fn merge_methods_map_to_flags() {
    assert_eq!(merge_method_flag(Some("rebase")), "--rebase");
    assert_eq!(merge_method_flag(Some("squash")), "--squash");
    assert_eq!(merge_method_flag(Some("anything")), "--merge");
    assert_eq!(merge_method_flag(None), "--merge");
}

#[test]
fn status_summary_is_assembled_exactly() {
    let s = summarize_git_status(
        "main\n",
        " M src/lib.rs\n",
        "abc fix\n",
        "origin git@github.com:o/r.git (fetch)\nsecond line",
    );
    assert_eq!(
        s,
        "Branch: main\nChanges:\nM src/lib.rs\nRecent commits:\nabc fix\nRemote: origin git@github.com:o/r.git (fetch)\n"
    );
    let s = summarize_git_status("main", "", "", "");
    assert_eq!(s, "Branch: main\nWorking tree: clean\n");
}
