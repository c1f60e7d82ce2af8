use playback_core::errors::{AudioEngineError, FileManagerError, PermissionError};
use playback_core::media_service::{MediaMetadata, MediaService};
use playback_core::permissions::check_permissions;

#[test]
fn test_check_permissions_granted() {
    let status = check_permissions();
    assert!(status.storage);
    assert!(status.notifications);
}

#[test]
fn test_media_service_and_metadata() {
    let _service = MediaService::new();
    let m = MediaMetadata {
        title: "A Title".to_string(),
        artist: "An Artist".to_string(),
        duration: 120,
    };
    assert_eq!(m.title, "A Title");
    assert_eq!(m.artist, "An Artist");
    assert_eq!(m.duration, 120);
}

#[test]
fn test_audio_engine_error_messages() {
    assert_eq!(
        AudioEngineError::LoadError("no file".to_string()).message(),
        "Failed to load audio: no file"
    );
    assert_eq!(
        AudioEngineError::PlaybackError("No track loaded".to_string()).message(),
        "Playback error: No track loaded"
    );
    assert_eq!(
        AudioEngineError::DecodeError("bad frame".to_string()).message(),
        "Decode error: bad frame"
    );
    assert_eq!(
        AudioEngineError::InvalidFormat("not audio".to_string()).message(),
        "Invalid audio format: not audio"
    );
    assert_eq!(
        AudioEngineError::DeviceError("no device".to_string()).message(),
        "Audio device error: no device"
    );
}

#[test]
fn test_file_manager_error_messages() {
    assert_eq!(
        FileManagerError::FileNotFound("a.mp3".to_string()).message(),
        "File not found: a.mp3"
    );
    assert_eq!(
        FileManagerError::InvalidPath("x".to_string()).message(),
        "Invalid file path: x"
    );
    assert_eq!(
        FileManagerError::UnsupportedFormat("a.txt".to_string()).message(),
        "Unsupported file format: a.txt"
    );
    assert_eq!(
        FileManagerError::PermissionDenied("a.mp3".to_string()).message(),
        "Permission denied: a.mp3"
    );
    assert_eq!(
        FileManagerError::IoError("broken pipe".to_string()).message(),
        "IO error: broken pipe"
    );
    assert_eq!(
        FileManagerError::MetadataError("no tags".to_string()).message(),
        "Failed to read metadata: no tags"
    );
    assert_eq!(
        FileManagerError::ScanError("denied".to_string()).message(),
        "Directory scan failed: denied"
    );
    assert_eq!(FileManagerError::NoFilesSelected.message(), "No files selected");
    assert_eq!(FileManagerError::NoValidFiles.message(), "No valid audio files found");
}

#[test]
fn test_permission_error_messages() {
    assert_eq!(
        PermissionError::StoragePermissionDenied.message(),
        "Storage permission not granted"
    );
    assert_eq!(
        PermissionError::NotificationPermissionDenied.message(),
        "Notification permission not granted"
    );
    assert_eq!(
        PermissionError::CheckFailed("platform query failed".to_string()).message(),
        "Permission check failed: platform query failed"
    );
}
