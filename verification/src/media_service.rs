//! Media session integration point.
//!
//! Placeholder for platform media-session, notification and lock-screen
//! controls; the surrounding application owns the platform bindings.

use vstd::prelude::*;

verus! {

/// What a platform media session displays for the current track.
#[derive(Debug, Clone)]
pub struct MediaMetadata {
    pub title: String,
    pub artist: String,
    pub duration: i64,
}

/// Handle for the platform media session.
pub struct MediaService {}

impl MediaService {
    /// A fresh, not yet bound media service.
    pub fn new() -> MediaService {
        MediaService {  }
    }
}

} // verus!
