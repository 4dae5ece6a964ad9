use screenshot::config::Config;
use screenshot::error::ScreenshotError;
use screenshot::path::ensure_unique_filename;
use screenshot::path::generate_filename;
use screenshot::path::join_path;
use screenshot::path::sanitize_filename;
use screenshot::path::validate_output_path;

fn config_with(custom: Option<&str>, format: &str, template: &str) -> Config {
    Config {
        output_directory: String::from("/tmp/shots"),
        default_format: String::from(format),
        default_quality: 90,
        filename_template: String::from(template),
        custom_filename: custom.map(String::from),
        auto_open: false,
        cleanup_after_days: None,
    }
}

#[test]
fn sanitize_replaces_forbidden() {
    assert_eq!(
        sanitize_filename("a<b>c:d\"e|f?g*h/i\\j"),
        "a_b_c_d_e_f_g_h_i_j"
    );
}

#[test]
fn sanitize_replaces_control_characters() {
    assert_eq!(sanitize_filename("a\tb\nc\u{7f}d\u{9f}e"), "a_b_c_d_e");
}

#[test]
fn sanitize_preserves_ordinary_names() {
    assert_eq!(sanitize_filename("hello-world_1.png"), "hello-world_1.png");
    assert_eq!(sanitize_filename("ünïcødé name"), "ünïcødé name");
}

#[test]
fn sanitize_is_idempotent_on_concrete_input() {
    let messy = "a<b>:c|d?e*f/g\\h\ti";
    let once = sanitize_filename(messy);
    let twice = sanitize_filename(&once);
    assert_eq!(once, twice);
}

#[test]
fn sanitize_empty_is_empty() {
    assert_eq!(sanitize_filename(""), "");
}

#[test]
fn validate_rejects_traversal() {
    let r = validate_output_path("/tmp/../etc");
    match r {
        Err(ScreenshotError::PermissionDenied(m)) => {
            assert_eq!(m, "Path traversal not allowed");
        }
        other => panic!("expected PermissionDenied, got {:?}", other),
    }
}

#[test]
fn validate_rejects_traversal_anywhere() {
    assert!(validate_output_path("..").is_err());
    assert!(validate_output_path("..foo").is_err());
    assert!(validate_output_path("foo..").is_err());
    assert!(validate_output_path("a/../b").is_err());
}

#[test]
fn validate_traversal_exit_code_is_13() {
    let e = validate_output_path("x/..").unwrap_err();
    assert_eq!(e.exit_code(), 13);
}

#[test]
fn validate_accepts_plain_paths() {
    assert!(validate_output_path("/tmp/screenshots").is_ok());
    assert!(validate_output_path("relative/dir").is_ok());
    assert!(validate_output_path("").is_ok());
    assert!(validate_output_path("a.b").is_ok());
}

#[test]
fn generate_with_custom_filename_sanitizes_and_appends_extension() {
    let config = config_with(Some("my shot/odd"), "png", "%Y%m%d");
    let name = generate_filename(&config, "screen_0").unwrap();
    assert_eq!(name, "my shot_odd.png");
}

#[test]
fn generate_with_custom_filename_ignores_template() {
    let config = config_with(Some("fixed"), "jpg", "completely %Q bogus");
    let name = generate_filename(&config, "").unwrap();
    assert_eq!(name, "fixed.jpg");
}

#[test]
fn generate_templated_name_carries_prefix_and_extension() {
    let config = config_with(None, "png", "%Y%m%d");
    let name = generate_filename(&config, "screen_0").unwrap();
    assert!(name.starts_with("screen_0_"));
    assert!(name.ends_with(".png"));
    // %Y%m%d renders as eight digits.
    assert_eq!(name.len(), "screen_0_".len() + 8 + ".png".len());
}

#[test]
fn generate_templated_name_without_prefix() {
    let config = config_with(None, "png", "shot_%H%M");
    let name = generate_filename(&config, "").unwrap();
    assert!(name.starts_with("shot_"));
    assert!(name.ends_with(".png"));
    assert!(!name.starts_with("_"));
}

#[test]
fn generate_reports_rejected_template_as_config_error() {
    // A trailing bare percent is not a complete strftime token; the
    // formatter rejects it, and the error carries the template.
    let config = config_with(None, "png", "shot_%");
    match generate_filename(&config, "") {
        Err(ScreenshotError::ConfigError(m)) => assert_eq!(m, "shot_%"),
        other => panic!("expected ConfigError, got {:?}", other),
    }
}

#[test]
fn join_path_inserts_single_slash() {
    assert_eq!(join_path("/tmp/shots", "a.png"), "/tmp/shots/a.png");
    assert_eq!(join_path("/tmp/shots/", "a.png"), "/tmp/shots/a.png");
    assert_eq!(join_path("", "a.png"), "a.png");
}

#[test]
fn ensure_unique_returns_free_path_unchanged() {
    let dir = tempfile::tempdir().unwrap();
    let path = format!("{}/nothing_here.png", dir.path().to_str().unwrap());
    let (out, _) = ensure_unique_filename(path.clone());
    assert_eq!(out, path);
}

#[test]
fn ensure_unique_appends_numeric_suffix_for_taken_path() {
    let dir = tempfile::tempdir().unwrap();
    let file = tempfile::Builder::new()
        .prefix("shot")
        .suffix(".png")
        .tempfile_in(dir.path())
        .unwrap();
    let taken = file.path().to_str().unwrap().to_string();
    let stem = file
        .path()
        .file_stem()
        .unwrap()
        .to_str()
        .unwrap()
        .to_string();
    let (out, _) = ensure_unique_filename(taken.clone());
    assert_ne!(out, taken);
    let expected = format!(
        "{}/{}_1.png",
        dir.path().to_str().unwrap(),
        stem
    );
    assert_eq!(out, expected);
    assert!(!std::path::Path::new(&out).exists());
}
