use screenshot::config::default_config;
use screenshot::config::default_screenshot_dir;
use screenshot::config::parse_format;
use screenshot::config::Config;
use screenshot::config::OutputFormat;
use screenshot::config::Platform;
use screenshot::error::ScreenshotError;

fn base_config(format: &str, quality: u8) -> Config {
    Config {
        output_directory: String::from("/tmp/shots"),
        default_format: String::from(format),
        default_quality: quality,
        filename_template: String::from("screenshot_%Y%m%d_%H%M%S"),
        custom_filename: None,
        auto_open: false,
        cleanup_after_days: None,
    }
}

#[test]
fn parse_format_recognizes_the_four_tokens() {
    assert_eq!(parse_format("png"), Some(OutputFormat::Png));
    assert_eq!(parse_format("jpg"), Some(OutputFormat::Jpeg));
    assert_eq!(parse_format("jpeg"), Some(OutputFormat::Jpeg));
    assert_eq!(parse_format("webp"), Some(OutputFormat::WebP));
}

#[test]
fn parse_format_is_case_insensitive() {
    assert_eq!(parse_format("PNG"), Some(OutputFormat::Png));
    assert_eq!(parse_format("JpEg"), Some(OutputFormat::Jpeg));
    assert_eq!(parse_format("WebP"), Some(OutputFormat::WebP));
}

#[test]
fn parse_format_rejects_everything_else() {
    assert_eq!(parse_format("gif"), None);
    assert_eq!(parse_format("png "), None);
    assert_eq!(parse_format(""), None);
}

#[test]
fn validate_accepts_known_formats_and_quality() {
    assert!(base_config("png", 1).validate().is_ok());
    assert!(base_config("JPEG", 100).validate().is_ok());
    assert!(base_config("webp", 50).validate().is_ok());
}

#[test]
fn validate_rejects_unknown_format() {
    match base_config("gif", 90).validate() {
        Err(ScreenshotError::InvalidFormat(f)) => assert_eq!(f, "gif"),
        other => panic!("expected InvalidFormat, got {:?}", other),
    }
}

#[test]
fn validate_rejects_quality_out_of_range() {
    match base_config("png", 0).validate() {
        Err(ScreenshotError::InvalidQuality(q)) => assert_eq!(q, 0),
        other => panic!("expected InvalidQuality, got {:?}", other),
    }
    match base_config("png", 101).validate() {
        Err(ScreenshotError::InvalidQuality(q)) => assert_eq!(q, 101),
        other => panic!("expected InvalidQuality, got {:?}", other),
    }
}

#[test]
fn validate_reports_format_before_quality() {
    match base_config("gif", 0).validate() {
        Err(ScreenshotError::InvalidFormat(f)) => assert_eq!(f, "gif"),
        other => panic!("expected InvalidFormat, got {:?}", other),
    }
}

#[test]
fn default_config_fields() {
    let c = default_config(Platform::Linux);
    assert_eq!(c.default_format, "png");
    assert_eq!(c.default_quality, 90);
    assert_eq!(c.filename_template, "screenshot_%Y%m%d_%H%M%S");
    assert!(c.custom_filename.is_none());
    assert!(!c.auto_open);
    assert!(c.cleanup_after_days.is_none());
    assert!(c.validate().is_ok());
}

#[test]
fn default_directory_follows_platform_conventions() {
    assert!(default_screenshot_dir(Platform::Linux).ends_with("/Pictures/Screenshots"));
    assert!(default_screenshot_dir(Platform::Windows).ends_with("/Pictures/Screenshots"));
    assert!(default_screenshot_dir(Platform::MacOs).ends_with("/Desktop"));
}

#[test]
fn exit_codes_by_error_category() {
    assert_eq!(ScreenshotError::NoScreensFound.exit_code(), 2);
    assert_eq!(ScreenshotError::ScreenNotFound(3).exit_code(), 2);
    assert_eq!(
        ScreenshotError::CaptureFailed(String::from("x")).exit_code(),
        3
    );
    assert_eq!(ScreenshotError::SaveError(String::from("x")).exit_code(), 4);
    assert_eq!(
        ScreenshotError::PermissionDenied(String::from("x")).exit_code(),
        13
    );
    assert_eq!(
        ScreenshotError::PlatformNotSupported(String::from("x")).exit_code(),
        5
    );
    assert_eq!(ScreenshotError::ImageError(String::from("x")).exit_code(), 1);
    assert_eq!(
        ScreenshotError::InvalidFormat(String::from("x")).exit_code(),
        1
    );
    assert_eq!(ScreenshotError::InvalidQuality(0).exit_code(), 1);
    assert_eq!(ScreenshotError::ConfigError(String::from("x")).exit_code(), 1);
    assert_eq!(
        ScreenshotError::ExternalCommandFailed(String::from("x")).exit_code(),
        1
    );
    assert_eq!(
        ScreenshotError::ClipboardError(String::from("x")).exit_code(),
        1
    );
}
