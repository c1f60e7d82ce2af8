use playback_core::audio_engine::{AudioEngine, PlaybackState, VOLUME_FULL};
use playback_core::errors::AudioEngineError;

fn loaded_engine(path: &str, duration_ms: u64) -> AudioEngine {
    let mut e = AudioEngine::new();
    let r = e.load_track(path.to_string(), Ok(duration_ms), Ok(()));
    assert!(matches!(r, Ok(d) if d == duration_ms));
    e
}

#[test]
fn test_initial_state() {
    let e = AudioEngine::new();
    let s = e.get_state();
    assert!(!s.is_playing);
    assert_eq!(s.current_time_ms, 0);
    assert_eq!(s.duration_ms, 0);
    assert_eq!(s.volume, VOLUME_FULL);
    assert_eq!(s.current_track, None);
    assert_eq!(PlaybackState::default(), s);
}

#[test]
fn test_play_without_track_fails_unchanged() {
    let mut e = AudioEngine::new();
    let before = e.get_state();
    let r = e.play();
    assert!(matches!(r, Err(AudioEngineError::PlaybackError(_))));
    assert_eq!(e.get_state(), before);
}

#[test]
fn test_pause_without_track_fails_unchanged() {
    let mut e = AudioEngine::new();
    let before = e.get_state();
    let r = e.pause();
    assert!(matches!(r, Err(AudioEngineError::PlaybackError(_))));
    assert_eq!(e.get_state(), before);
}

#[test]
fn test_set_volume_clamps_low() {
    let mut e = AudioEngine::new();
    let s = e.set_volume(-1000);
    assert_eq!(s.volume, 0);
    assert_eq!(e.get_state().volume, 0);
}

#[test]
fn test_set_volume_clamps_high() {
    let mut e = AudioEngine::new();
    let s = e.set_volume(5000);
    assert_eq!(s.volume, VOLUME_FULL);
    assert_eq!(e.get_state().volume, VOLUME_FULL);
}

#[test]
fn test_set_volume_in_range() {
    let mut e = AudioEngine::new();
    let s = e.set_volume(300);
    assert_eq!(s.volume, 300);
}

#[test]
fn test_volume_persists_across_load() {
    let mut e = AudioEngine::new();
    e.set_volume(300);
    let r = e.load_track("a.mp3".to_string(), Ok(1000), Ok(()));
    assert!(r.is_ok());
    assert_eq!(e.get_state().volume, 300);
}

#[test]
fn test_load_updates_state() {
    let e = loaded_engine("song.mp3", 120_000);
    let s = e.get_state();
    assert!(!s.is_playing);
    assert_eq!(s.current_time_ms, 0);
    assert_eq!(s.duration_ms, 120_000);
    assert_eq!(s.current_track.as_deref(), Some("song.mp3"));
}

#[test]
fn test_load_probe_failure_is_atomic() {
    let mut e = loaded_engine("a.mp3", 9_000);
    let before = e.get_state();
    let r = e.load_track(
        "b.mp3".to_string(),
        Err(AudioEngineError::LoadError("could not open".to_string())),
        Ok(()),
    );
    assert!(matches!(r, Err(AudioEngineError::LoadError(_))));
    assert_eq!(e.get_state(), before);
    assert!(e.play().is_ok());
}

#[test]
fn test_load_commit_failure_is_atomic() {
    let mut e = loaded_engine("a.mp3", 9_000);
    let before = e.get_state();
    let r = e.load_track(
        "corrupt.mp3".to_string(),
        Ok(5_000),
        Err(AudioEngineError::DecodeError("corrupt after header".to_string())),
    );
    assert!(matches!(r, Err(AudioEngineError::DecodeError(_))));
    let after = e.get_state();
    assert_eq!(after, before);
    assert_eq!(after.current_track.as_deref(), Some("a.mp3"));
}

#[test]
fn test_load_commit_failure_with_no_prior_track() {
    let mut e = AudioEngine::new();
    let r = e.load_track(
        "corrupt.mp3".to_string(),
        Ok(5_000),
        Err(AudioEngineError::DecodeError("corrupt after header".to_string())),
    );
    assert!(r.is_err());
    assert_eq!(e.get_state().current_track, None);
    assert!(e.play().is_err());
}

#[test]
fn test_stop_idempotent() {
    let mut e = loaded_engine("a.mp3", 9_000);
    e.play().unwrap();
    let s1 = e.stop();
    let s2 = e.stop();
    assert_eq!(s1, s2);
    assert!(!s1.is_playing);
    assert_eq!(s1.current_time_ms, 0);
    assert_eq!(s1.current_track, None);
}

#[test]
fn test_stop_keeps_duration_and_volume() {
    let mut e = loaded_engine("a.mp3", 9_000);
    e.set_volume(250);
    let s = e.stop();
    assert_eq!(s.duration_ms, 9_000);
    assert_eq!(s.volume, 250);
}

#[test]
fn test_play_pause_cycle() {
    let mut e = loaded_engine("a.mp3", 9_000);
    let s = e.play().unwrap();
    assert!(s.is_playing);
    let s = e.pause().unwrap();
    assert!(!s.is_playing);
    let s = e.play().unwrap();
    assert!(s.is_playing);
}

#[test]
fn test_is_finished_reports() {
    let mut e = AudioEngine::new();
    assert!(e.is_finished(false));
    assert!(e.is_finished(true));
    e.load_track("a.mp3".to_string(), Ok(1_000), Ok(())).unwrap();
    assert!(!e.is_finished(false));
    assert!(e.is_finished(true));
}

#[test]
fn test_check_finished_sets_terminal_state() {
    let mut e = loaded_engine("a.mp3", 9_000);
    e.play().unwrap();
    assert!(!e.check_finished(false));
    assert!(e.get_state().is_playing);
    assert!(e.check_finished(true));
    let s = e.get_state();
    assert!(!s.is_playing);
    assert_eq!(s.current_time_ms, 9_000);
    assert_eq!(s.current_track.as_deref(), Some("a.mp3"));
}

#[test]
fn test_end_to_end_model() {
    let mut e = AudioEngine::new();
    let duration = e.load_track("song.mp3".to_string(), Ok(120_000), Ok(())).unwrap();
    assert!(duration > 0);
    let s = e.get_state();
    assert!(!s.is_playing);
    assert_eq!(s.current_time_ms, 0);
    assert_eq!(s.current_track.as_deref(), Some("song.mp3"));
    let s = e.play().unwrap();
    assert!(s.is_playing);
    assert!(!e.is_finished(false));
    assert!(e.is_finished(true));
    assert!(e.check_finished(true));
    let s = e.get_state();
    assert!(!s.is_playing);
    assert_eq!(s.current_time_ms, s.duration_ms);
}

#[test]
fn test_load_replaces_previous_track() {
    let mut e = loaded_engine("a.mp3", 9_000);
    e.play().unwrap();
    let r = e.load_track("b.flac".to_string(), Ok(30_000), Ok(()));
    assert_eq!(r.unwrap(), 30_000);
    let s = e.get_state();
    assert!(!s.is_playing);
    assert_eq!(s.duration_ms, 30_000);
    assert_eq!(s.current_track.as_deref(), Some("b.flac"));
}
