//! Tests of the dotenv and ignore-file text transformations.

use snailer_gui::envfile::{
    env_find_select, find_env_in_ancestors, format_env_value, gitignore_with_line,
    line_defines_key, read_env_key_from, split_lines, strip_cr, upsert_env_text, EnvSource,
};

#[test]
fn simple_values_stay_unquoted() {
    assert_eq!(format_env_value("abc123"), "abc123");
    assert_eq!(format_env_value("sk-key-42"), "sk-key-42");
}

#[test]
fn values_with_whitespace_or_comments_are_quoted_and_escaped() {
    assert_eq!(format_env_value("two words"), "\"two words\"");
    assert_eq!(format_env_value("has#hash and space"), "\"has#hash and space\"");
    assert_eq!(format_env_value("say \"hi\" now"), "\"say \\\"hi\\\" now\"");
    assert_eq!(format_env_value("back\\slash here"), "\"back\\\\slash here\"");
}

#[test]
fn line_detection_respects_comments_and_export() {
    assert!(line_defines_key("KEY=1", "KEY"));
    assert!(line_defines_key("  export KEY = 1", "KEY"));
    assert!(line_defines_key("KEY =1\r", "KEY"));
    assert!(!line_defines_key("# KEY=1", "KEY"));
    assert!(!line_defines_key("KEYS=1", "KEY"));
    assert!(!line_defines_key("", "KEY"));
}

#[test]
fn upsert_replaces_the_first_definition_in_place() {
    let existing = "# config\n  export KEY=old\nOTHER=x\nKEY=second\n";
    let out = upsert_env_text(existing, "KEY", "new");
    assert_eq!(out, "# config\n  export KEY=new\nOTHER=x\nKEY=second\n");
}

#[test]
fn upsert_appends_after_a_separating_blank_line() {
    let out = upsert_env_text("OTHER=x", "KEY", "v");
    assert_eq!(out, "OTHER=x\n\nKEY=v\n");
    let out = upsert_env_text("", "KEY", "v");
    assert_eq!(out, "\nKEY=v\n");
    let out = upsert_env_text("OTHER=x\n", "KEY", "v");
    assert_eq!(out, "OTHER=x\n\nKEY=v\n");
}

#[test]
fn upsert_trims_key_and_value_and_quotes_when_needed() {
    let out = upsert_env_text("", " KEY ", "  two words  ");
    assert_eq!(out, "\nKEY=\"two words\"\n");
}

#[test]
fn read_env_key_finds_first_nonempty_value() {
    let contents = "# comment\nXAI_API_KEY=\nXAI_API_KEY='secret'\nOTHER=1\n";
    assert_eq!(read_env_key_from(contents, "XAI_API_KEY").unwrap(), "secret");
    let contents = "KEY=\"quoted value\"\n";
    assert_eq!(read_env_key_from(contents, "KEY").unwrap(), "quoted value");
    let err = read_env_key_from("A=1\n", "MISSING").unwrap_err();
    assert_eq!(err, "MISSING not found in ~/.snailer/.env");
}

#[test]
fn gitignore_line_is_added_once() {
    let (out, changed) = gitignore_with_line("target\n", ".snailer").unwrap();
    assert!(changed);
    assert_eq!(out, "target\n.snailer\n");
    let (out2, changed2) = gitignore_with_line(out.as_str(), " .snailer ").unwrap();
    assert!(!changed2);
    assert_eq!(out2, out);
    assert!(gitignore_with_line("x\n", "   ").is_err());
}

#[test]
fn gitignore_appends_newline_to_unterminated_files() {
    let (out, changed) = gitignore_with_line("target", "dist").unwrap();
    assert!(changed);
    assert_eq!(out, "target\ndist\n");
}

#[test]
fn split_and_strip_are_exact() {
    let lines = split_lines("a\r\nb\nc");
    assert_eq!(lines, vec!["a\r", "b", "c"]);
    assert_eq!(strip_cr("a\r"), "a");
    assert_eq!(strip_cr("a"), "a");
    assert_eq!(split_lines(""), vec![""]);
}

#[test]
fn ancestor_candidates_walk_to_the_root() {
    let c = find_env_in_ancestors("/home/u/project/sub");
    assert_eq!(
        c,
        vec![
            "/home/u/project/sub/.env",
            "/home/u/project/.env",
            "/home/u/.env",
            "/home/.env",
        ]
    );
}

#[test]
fn env_find_selects_the_first_hit_in_order() {
    let sources = vec![
        EnvSource { label: String::from("SNAILER_ENV_FILE=<unset>"), found: None },
        EnvSource {
            label: String::from("projectPath/.env=/p/.env"),
            found: Some(String::from("/p/.env")),
        },
        EnvSource { label: String::from("cwd ancestors from /w"), found: None },
    ];
    let r = env_find_select(sources);
    assert!(r.found);
    assert_eq!(r.selected_path.as_deref(), Some("/p/.env"));
    assert_eq!(r.all_found_paths, vec!["/p/.env"]);
    assert_eq!(
        r.demonstrate_order,
        vec!["SNAILER_ENV_FILE=<unset>", "projectPath/.env=/p/.env"]
    );

    let none = env_find_select(vec![EnvSource { label: String::from("a"), found: None }]);
    assert!(!none.found);
    assert!(none.selected_path.is_none());
    assert_eq!(none.demonstrate_order, vec!["a"]);
    assert!(none.all_found_paths.is_empty());
}
