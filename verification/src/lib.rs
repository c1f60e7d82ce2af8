//! Playback core of a single-track audio player.
//!
//! The library owns the logical playback state and the protocol that binds a
//! decoded audio source to an output sink.  Device output, file I/O, dialogs
//! and the command transport live outside; they hand this library plain
//! values and carry out the actions its engine decides on.

pub mod audio_engine;
pub mod errors;
pub mod file_manager;
pub mod media_service;
pub mod permissions;
