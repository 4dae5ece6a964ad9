//! The tool's configuration record and its shape checks: which image
//! format a request names, whether the quality lies in range, and the
//! platform's default screenshot directory.

use vstd::prelude::*;

use crate::error::ScreenshotError;
use crate::text::ascii_lower;
use crate::text::spec_lower;

verus! {

/// The encodings a request can name. WebP is recognized by the
/// configuration but deliberately unsupported by persistence.
#[derive(Debug, Clone, Copy, PartialEq, Eq, Structural)]
pub enum OutputFormat {
    Png,
    Jpeg,
    WebP,
}

/// The platforms with distinct capture behavior. Anything outside the three
/// reference platforms is `Other`.
#[derive(Debug, Clone, Copy, PartialEq, Eq, Structural)]
pub enum Platform {
    Linux,
    MacOs,
    Windows,
    Other,
}

/// The persisted configuration that drives a capture request.
#[derive(Debug)]
pub struct Config {
    pub output_directory: String,
    pub default_format: String,
    pub default_quality: u8,
    pub filename_template: String,
    pub custom_filename: Option<String>,
    pub auto_open: bool,
    pub cleanup_after_days: Option<u32>,
}

/// Which encoding a format string names, matched case-insensitively:
/// "png", "jpg"/"jpeg", "webp"; anything else is unrecognized.
pub open spec fn spec_parse_format(s: Seq<char>) -> Option<OutputFormat> {
    let l = spec_lower(s);
    if l == "png"@ {
        Some(OutputFormat::Png)
    } else if l == "jpg"@ || l == "jpeg"@ {
        Some(OutputFormat::Jpeg)
    } else if l == "webp"@ {
        Some(OutputFormat::WebP)
    } else {
        None
    }
}

/// Maps a format string to the encoding it names, case-insensitively.
pub fn parse_format(s: &str) -> (r: Option<OutputFormat>)
    ensures
        r == spec_parse_format(s@),
{
    let low = ascii_lower(s);
    if low == String::from_str("png") {
        Some(OutputFormat::Png)
    } else if low == String::from_str("jpg") || low == String::from_str("jpeg") {
        Some(OutputFormat::Jpeg)
    } else if low == String::from_str("webp") {
        Some(OutputFormat::WebP)
    } else {
        None
    }
}

impl Config {
    /// Checks the configuration's shape before any capture attempt: the
    /// format string must name a recognized encoding and the quality must
    /// lie in 1..=100. The format is checked first, as the error reported
    /// when both are wrong.
    pub fn validate(&self) -> (r: Result<(), ScreenshotError>)
        ensures
            r is Ok <==> (spec_parse_format(self.default_format@) is Some && 1
                <= self.default_quality <= 100),
            r matches Err(e) ==> ({
                ||| (spec_parse_format(self.default_format@) is None && (e matches
                ScreenshotError::InvalidFormat(f) && f@ == self.default_format@))
                ||| (spec_parse_format(self.default_format@) is Some && !(1 <= self.default_quality
                    <= 100) && (e matches ScreenshotError::InvalidQuality(q) && q
                    == self.default_quality))
            }),
    {
        match parse_format(self.default_format.as_str()) {
            None => Err(ScreenshotError::InvalidFormat(self.default_format.clone())),
            Some(_) => {
                if self.default_quality < 1 || self.default_quality > 100 {
                    Err(ScreenshotError::InvalidQuality(self.default_quality))
                } else {
                    Ok(())
                }
            },
        }
    }
}

/// Relies on dirs::home_dir: the user's home directory as the platform
/// reports it, when it exists and its path is valid Unicode.
#[verifier::external_body]
fn home_directory() -> (r: Option<String>) {
    dirs::home_dir().and_then(|p| p.to_str().map(|s| s.to_string()))
}

/// The platform's subdirectory for screenshots under the home directory.
pub open spec fn spec_default_subdir(platform: Platform) -> Seq<char> {
    match platform {
        Platform::MacOs => "/Desktop"@,
        _ => "/Pictures/Screenshots"@,
    }
}

/// The default screenshot directory: the home directory (or "." where none
/// is reported) extended by the platform's conventional picture location.
pub fn default_screenshot_dir(platform: Platform) -> (r: String)
    ensures
        exists|base: Seq<char>| r@ == base + spec_default_subdir(platform),
{
    let base = match home_directory() {
        Some(h) => h,
        None => ".".to_owned(),
    };
    let sub = match platform {
        Platform::MacOs => "/Desktop",
        _ => "/Pictures/Screenshots",
    };
    let ghost b = base@;
    let r = base.concat(sub);
    proof {
        assert(r@ == b + spec_default_subdir(platform));
    }
    r
}

/// The configuration the tool starts from when none is stored: PNG at
/// quality 90, a timestamped template, no custom filename, and the
/// platform's default screenshot directory.
pub fn default_config(platform: Platform) -> (c: Config)
    ensures
        c.default_format@ == "png"@,
        c.default_quality == 90,
        c.filename_template@ == "screenshot_%Y%m%d_%H%M%S"@,
        c.custom_filename is None,
        c.auto_open == false,
        c.cleanup_after_days is None,
        exists|base: Seq<char>| c.output_directory@ == base + spec_default_subdir(platform),
{
    Config {
        output_directory: default_screenshot_dir(platform),
        default_format: "png".to_owned(),
        default_quality: 90,
        filename_template: "screenshot_%Y%m%d_%H%M%S".to_owned(),
        custom_filename: None,
        auto_open: false,
        cleanup_after_days: None,
    }
}

} // verus!
