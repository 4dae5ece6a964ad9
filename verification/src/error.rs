//! The error taxonomy of the capture pipeline, and its mapping to process
//! exit codes.

use vstd::prelude::*;

verus! {

/// Every failure the pipeline can surface, from screen enumeration through
/// encoding and filesystem persistence to external capture tools.
#[derive(Debug, PartialEq)]
pub enum ScreenshotError {
    /// Screen enumeration returned an empty list.
    NoScreensFound,
    /// The requested screen index is out of range.
    ScreenNotFound(usize),
    /// The underlying grab or an external tool failed with no more
    /// specific cause.
    CaptureFailed(String),
    /// A filesystem write failed.
    SaveError(String),
    /// A pixel-buffer or encoding-parameter mismatch.
    ImageError(String),
    /// An unsupported or unrecognized format string.
    InvalidFormat(String),
    /// A quality value outside 1..=100.
    InvalidQuality(u8),
    /// Path traversal or a filesystem permission problem.
    PermissionDenied(String),
    /// No implementation exists for this platform and mode.
    PlatformNotSupported(String),
    /// A configuration-shape problem.
    ConfigError(String),
    /// A spawned tool could not even be launched.
    ExternalCommandFailed(String),
    /// The clipboard backend failed.
    ClipboardError(String),
}

impl ScreenshotError {
    /// The process exit code associated with each error category.
    pub fn exit_code(&self) -> (code: i32)
        ensures
            code == self.spec_exit_code(),
    {
        match self {
            ScreenshotError::NoScreensFound => 2,
            ScreenshotError::ScreenNotFound(_) => 2,
            ScreenshotError::CaptureFailed(_) => 3,
            ScreenshotError::SaveError(_) => 4,
            ScreenshotError::PermissionDenied(_) => 13,
            ScreenshotError::PlatformNotSupported(_) => 5,
            _ => 1,
        }
    }

    /// The exit-code table: screen lookup failures exit 2, capture failures 3,
    /// save failures 4, permission problems 13, unsupported platforms 5, and
    /// every other category 1.
    pub open spec fn spec_exit_code(&self) -> i32 {
        match self {
            ScreenshotError::NoScreensFound => 2,
            ScreenshotError::ScreenNotFound(_) => 2,
            ScreenshotError::CaptureFailed(_) => 3,
            ScreenshotError::SaveError(_) => 4,
            ScreenshotError::PermissionDenied(_) => 13,
            ScreenshotError::PlatformNotSupported(_) => 5,
            _ => 1,
        }
    }
}

} // verus!
