//! Verified core of a screen-capture tool: filename templating and
//! sanitization, traversal-safe destination checks, collision-avoiding
//! path selection, RGBA-to-disk image encoding, and the platform tool-chain
//! fallback policy for interactive selection and window captures.

pub mod config;
pub mod error;
pub mod path;
pub mod persist;
pub mod screens;
pub mod text;
pub mod tools;

pub use error::ScreenshotError;
