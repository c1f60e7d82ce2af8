//! Typed errors for the playback engine, the file manager and the
//! permission checks.
//!
//! Each enum offers a `message` method that renders the error as a display
//! string; the surrounding application turns these into user-visible text.

use vstd::prelude::*;
use vstd::string::*;

verus! {

/// Errors raised by file selection, validation and metadata extraction.
#[derive(Debug, Clone)]
pub enum FileManagerError {
    FileNotFound(String),
    InvalidPath(String),
    UnsupportedFormat(String),
    PermissionDenied(String),
    IoError(String),
    MetadataError(String),
    ScanError(String),
    NoFilesSelected,
    NoValidFiles,
}

/// Errors raised by the playback engine.
#[derive(Debug, Clone)]
pub enum AudioEngineError {
    /// File open / IO failure while loading a track.
    LoadError(String),
    /// An operation needed a loaded track but none exists, or an internal
    /// guard failed.
    PlaybackError(String),
    /// The format could not be decoded.
    DecodeError(String),
    /// Reserved for format validation upstream of decoding.
    InvalidFormat(String),
    /// Output device unavailable or sink creation failure.
    DeviceError(String),
}

/// Errors raised by permission queries.
#[derive(Debug, Clone)]
pub enum PermissionError {
    StoragePermissionDenied,
    NotificationPermissionDenied,
    CheckFailed(String),
}

fn concat_msg(prefix: &str, detail: &str) -> (r: String)
    ensures
        r@ == prefix@ + detail@,
{
    let mut s = prefix.to_owned();
    s.append(detail);
    s
}

impl FileManagerError {
    /// The display string of this error.
    pub fn message(&self) -> (r: String)
        ensures
            self matches FileManagerError::FileNotFound(p) ==> r@ == "File not found: "@ + p@,
            self matches FileManagerError::InvalidPath(p) ==> r@ == "Invalid file path: "@ + p@,
            self matches FileManagerError::UnsupportedFormat(p) ==> r@ == "Unsupported file format: "@
                + p@,
            self matches FileManagerError::PermissionDenied(p) ==> r@ == "Permission denied: "@ + p@,
            self matches FileManagerError::IoError(p) ==> r@ == "IO error: "@ + p@,
            self matches FileManagerError::MetadataError(p) ==> r@ == "Failed to read metadata: "@
                + p@,
            self matches FileManagerError::ScanError(p) ==> r@ == "Directory scan failed: "@ + p@,
            self matches FileManagerError::NoFilesSelected ==> r@ == "No files selected"@,
            self matches FileManagerError::NoValidFiles ==> r@ == "No valid audio files found"@,
    {
        match self {
            FileManagerError::FileNotFound(p) => concat_msg("File not found: ", p.as_str()),
            FileManagerError::InvalidPath(p) => concat_msg("Invalid file path: ", p.as_str()),
            FileManagerError::UnsupportedFormat(p) => concat_msg(
                "Unsupported file format: ",
                p.as_str(),
            ),
            FileManagerError::PermissionDenied(p) => concat_msg("Permission denied: ", p.as_str()),
            FileManagerError::IoError(p) => concat_msg("IO error: ", p.as_str()),
            FileManagerError::MetadataError(p) => concat_msg(
                "Failed to read metadata: ",
                p.as_str(),
            ),
            FileManagerError::ScanError(p) => concat_msg("Directory scan failed: ", p.as_str()),
            FileManagerError::NoFilesSelected => "No files selected".to_owned(),
            FileManagerError::NoValidFiles => "No valid audio files found".to_owned(),
        }
    }
}

impl AudioEngineError {
    /// The display string of this error.
    pub fn message(&self) -> (r: String)
        ensures
            self matches AudioEngineError::LoadError(m) ==> r@ == "Failed to load audio: "@ + m@,
            self matches AudioEngineError::PlaybackError(m) ==> r@ == "Playback error: "@ + m@,
            self matches AudioEngineError::DecodeError(m) ==> r@ == "Decode error: "@ + m@,
            self matches AudioEngineError::InvalidFormat(m) ==> r@ == "Invalid audio format: "@
                + m@,
            self matches AudioEngineError::DeviceError(m) ==> r@ == "Audio device error: "@ + m@,
    {
        match self {
            AudioEngineError::LoadError(m) => concat_msg("Failed to load audio: ", m.as_str()),
            AudioEngineError::PlaybackError(m) => concat_msg("Playback error: ", m.as_str()),
            AudioEngineError::DecodeError(m) => concat_msg("Decode error: ", m.as_str()),
            AudioEngineError::InvalidFormat(m) => concat_msg("Invalid audio format: ", m.as_str()),
            AudioEngineError::DeviceError(m) => concat_msg("Audio device error: ", m.as_str()),
        }
    }
}

impl PermissionError {
    /// The display string of this error.
    pub fn message(&self) -> (r: String)
        ensures
            self matches PermissionError::StoragePermissionDenied ==> r@
                == "Storage permission not granted"@,
            self matches PermissionError::NotificationPermissionDenied ==> r@
                == "Notification permission not granted"@,
            self matches PermissionError::CheckFailed(m) ==> r@ == "Permission check failed: "@
                + m@,
    {
        match self {
            PermissionError::StoragePermissionDenied => "Storage permission not granted".to_owned(),
            PermissionError::NotificationPermissionDenied => {
                "Notification permission not granted".to_owned()
            },
            PermissionError::CheckFailed(m) => concat_msg("Permission check failed: ", m.as_str()),
        }
    }
}

} // verus!
