//! Tests of the well-known paths, the configuration cascades, the settings
//! document, the version-index walk, and the attachment rules.

use snailer_gui::attachments::{
    base64_decode, clamp_read_len, ext_from_mime, ext_from_name, plan_attachment_save,
    should_skip, AttachmentPlan,
};
use snailer_gui::config::{
    build_probe_path, choose_home, choose_project_path, default_auth_addr,
    normalize_env_file_choice, prepend_path, resolve_auth_addr,
};
use snailer_gui::jsonval::{settings_auth_addr, settings_env_file, settings_with_member};
use snailer_gui::paths::{
    gui_settings_path, shared_env_path, snailer_attachments_dir, snailer_cli_prefix_dir,
    snailer_home_dir, snailer_node_current_bin_dir, snailer_node_current_dir,
    snailer_node_root_dir,
};

#[test]
fn well_known_paths_hang_off_home() {
    assert_eq!(snailer_home_dir("/home/u"), "/home/u/.snailer");
    assert_eq!(snailer_attachments_dir("/home/u"), "/home/u/.snailer/gui_attachments");
    assert_eq!(snailer_cli_prefix_dir("/home/u"), "/home/u/.snailer/npm_cli");
    assert_eq!(snailer_node_root_dir("/home/u"), "/home/u/.snailer/node");
    assert_eq!(snailer_node_current_dir("/home/u"), "/home/u/.snailer/node/current");
    assert_eq!(snailer_node_current_bin_dir("/home/u"), "/home/u/.snailer/node/current/bin");
    assert_eq!(gui_settings_path("/home/u"), "/home/u/.snailer/gui_settings.json");
    assert_eq!(shared_env_path("/home/u"), "/home/u/.snailer/.env");
}

#[test]
fn auth_addr_resolution_order() {
    let r = resolve_auth_addr(Some(String::from("env.example")), Some(String::from("s.example")), Some("d.example"));
    assert_eq!(r.unwrap(), "env.example");
    let r = resolve_auth_addr(Some(String::from("  ")), Some(String::from("s.example")), Some("d.example"));
    assert_eq!(r.unwrap(), "s.example");
    let r = resolve_auth_addr(None, None, Some("  d.example "));
    assert_eq!(r.unwrap(), "d.example");
    let r = resolve_auth_addr(None, None, None);
    assert!(r.unwrap_err().starts_with("Auth server address is not configured."));
    assert_eq!(default_auth_addr(Some(" x ")).as_deref(), Some("x"));
    assert!(default_auth_addr(Some("  ")).is_none());
}

#[test]
fn env_file_choice_blank_means_clear() {
    assert_eq!(normalize_env_file_choice(Some(String::from("/p/.env"))).as_deref(), Some("/p/.env"));
    assert!(normalize_env_file_choice(Some(String::from("   "))).is_none());
    assert!(normalize_env_file_choice(None).is_none());
}

#[test]
fn home_and_project_path_fallbacks() {
    assert_eq!(
        choose_home(Some(String::from("/home/u")), None, false, None),
        "/home/u"
    );
    assert_eq!(
        choose_home(Some(String::from(" ")), Some(String::from("C:/u")), true, None),
        "C:/u"
    );
    assert_eq!(choose_home(None, None, false, Some(String::from("/w"))), "/w");
    assert_eq!(choose_home(None, None, false, None), ".");
    assert_eq!(
        choose_project_path(Some(String::from("/repo")), true, String::from("/home/u")),
        "/repo"
    );
    assert_eq!(
        choose_project_path(Some(String::from("/tmpdir")), false, String::from("/home/u")),
        "/home/u"
    );
}

#[test]
fn probe_path_prepends_missing_tool_dirs() {
    assert_eq!(prepend_path("/b", ""), "/b");
    assert_eq!(prepend_path("/b", "/usr/bin"), "/b:/usr/bin");
    let p = build_probe_path("/usr/bin:/bin");
    assert_eq!(p, "/usr/local/bin:/opt/homebrew/bin:/usr/bin:/bin");
    let p = build_probe_path("");
    assert_eq!(p, "/bin:/usr/bin:/usr/local/bin:/opt/homebrew/bin:");
}

#[test]
fn settings_members_are_read_and_updated() {
    let text = "{\"authAddr\":\"a.example\",\"snailerEnvFile\":\"/p/.env\",\"other\":1}";
    assert_eq!(settings_auth_addr(text).as_deref(), Some("a.example"));
    assert_eq!(settings_env_file(text).as_deref(), Some("/p/.env"));
    assert!(settings_auth_addr("{\"authAddr\":\"  \"}").is_none());
    assert!(settings_auth_addr("not json").is_none());
    assert!(settings_auth_addr("{}").is_none());

    let updated = settings_with_member(text, "authAddr", Some("b.example"));
    assert_eq!(settings_auth_addr(updated.as_str()).as_deref(), Some("b.example"));
    // Other members survive the update.
    assert_eq!(settings_env_file(updated.as_str()).as_deref(), Some("/p/.env"));
    let cleared = settings_with_member(updated.as_str(), "authAddr", None);
    assert!(settings_auth_addr(cleared.as_str()).is_none());
    // A fresh document grows from nothing.
    let fresh = settings_with_member("garbage", "authAddr", Some("c.example"));
    assert_eq!(settings_auth_addr(fresh.as_str()).as_deref(), Some("c.example"));
}

#[test]
fn image_extensions_come_from_mime_or_name() {
    assert_eq!(ext_from_mime("image/png"), Some("png"));
    assert_eq!(ext_from_mime("image/jpeg"), Some("jpg"));
    assert_eq!(ext_from_mime("image/jpg"), Some("jpg"));
    assert_eq!(ext_from_mime("image/webp"), Some("webp"));
    assert_eq!(ext_from_mime("image/gif"), Some("gif"));
    assert_eq!(ext_from_mime("image/bmp"), Some("bmp"));
    assert_eq!(ext_from_mime("image/tiff"), None);
    assert_eq!(ext_from_name("Photo.PNG").as_deref(), Some("png"));
    assert_eq!(ext_from_name("archive.tar.gz"), None);
    assert_eq!(ext_from_name("noext"), None);
}

#[test]
fn base64_decoding_goes_through_the_real_codec() {
    assert_eq!(base64_decode("aGVsbG8=").unwrap(), b"hello".to_vec());
    assert!(base64_decode("!!!").is_none());
}

#[test]
fn attachment_plans_validate_mime_size_and_extension() {
    let data = vec![1u8, 2, 3];
    match plan_attachment_save(" IMAGE/PNG ", "x.bin", Some(&data)) {
        AttachmentPlan::Save { file_name } => {
            assert!(file_name.ends_with(".png"));
            assert_eq!(file_name.chars().count(), 40);
        }
        AttachmentPlan::Reject { msg } => panic!("valid image rejected: {msg}"),
    }
    match plan_attachment_save("text/plain", "x.png", Some(&data)) {
        AttachmentPlan::Reject { msg } => assert_eq!(msg, "Only image attachments are supported."),
        _ => panic!("non-images are rejected"),
    }
    match plan_attachment_save("image/png", "x.png", None) {
        AttachmentPlan::Reject { msg } => assert_eq!(msg, "Invalid base64 payload."),
        _ => panic!("undecodable payloads are rejected"),
    }
    match plan_attachment_save("image/png", "x.png", Some(&vec![])) {
        AttachmentPlan::Reject { msg } => assert_eq!(msg, "Empty file."),
        _ => panic!("empty files are rejected"),
    }
    let big = vec![0u8; 12 * 1024 * 1024 + 1];
    match plan_attachment_save("image/png", "x.png", Some(&big)) {
        AttachmentPlan::Reject { msg } => assert_eq!(msg, "Image is too large (max 12MB)."),
        _ => panic!("oversized files are rejected"),
    }
    // MIME unknown, extension taken from the name.
    match plan_attachment_save("image/x-custom", "shot.JPEG", Some(&data)) {
        AttachmentPlan::Save { file_name } => assert!(file_name.ends_with(".jpeg")),
        _ => panic!("name extension fallback must apply"),
    }
    match plan_attachment_save("image/x-custom", "shot.bin", Some(&data)) {
        AttachmentPlan::Reject { msg } => assert_eq!(msg, "Unsupported image type."),
        _ => panic!("unknown types are rejected"),
    }
}

#[test]
fn tree_listing_skips_tool_directories() {
    for name in [".git", "node_modules", "target", "dist", "build", ".snailer", ".DS_Store"] {
        assert!(should_skip(name));
    }
    assert!(!should_skip("src"));
    assert!(!should_skip(".gitignore"));
}

#[test]
fn read_lengths_are_clamped() {
    assert_eq!(clamp_read_len(10, 4), 4);
    assert_eq!(clamp_read_len(3, 4), 3);
}
