//! Error types for the wallpaper service.
use vstd::prelude::*;

verus! {

/// `std::io::Error`, carried through unchanged.
#[verifier::external_type_specification]
#[verifier::external_body]
pub struct ExIoError(std::io::Error);

/// Errors that can occur in the wallpaper service.
#[derive(Debug)]
pub enum Error {
    /// Service initialization failed.
    ServiceInitializationFailed(String),
    /// Wallpaper directory does not exist (the path as text).
    DirectoryNotFound(String),
    /// No valid image files in the specified directory (the path as text).
    NoImagesFound(String),
    /// Color extraction tool failed.
    ColorExtractionFailed {
        /// The tool that failed.
        tool: String,
        /// The failure reason.
        reason: String,
    },
    /// A color extraction tool could not be started.
    ColorExtractionCommandFailed {
        /// The tool that could not be started.
        tool: String,
        /// Why it could not be started.
        source: std::io::Error,
    },
    /// A step of putting Wayle's tool configuration in place failed.
    ConfigPathError {
        /// The step that failed.
        context: String,
        /// Why it failed.
        source: std::io::Error,
    },
    /// Failed to load an image file.
    ImageLoadFailed {
        /// Path to the image that failed to load.
        path: String,
        /// The failure reason.
        reason: String,
    },
    /// swww is not installed or not in PATH.
    SwwwNotInstalled,
    /// swww-daemon is not running.
    SwwwDaemonNotRunning,
    /// swww command failed.
    SwwwCommandFailed {
        /// The failure reason from stderr.
        reason: String,
    },
    /// I/O operation failed.
    Io(std::io::Error),
}

} // verus!
