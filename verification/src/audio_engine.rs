//! The playback engine: a state machine over the logical playback state and
//! the sink bound to the output device.
//!
//! The engine owns the truth about what is loaded, playing and audible.  The
//! device itself, file handles and decoders live with the surrounding
//! application: it performs those outside steps and reports their outcomes
//! to the engine, which decides every transition.  Times are carried in
//! milliseconds and the volume as thousandths of full scale, so the whole
//! state is made of plain values.
//!
//! Invariants kept by every operation: the state records a current track
//! exactly when a sink exists; a playing state always has a track; the
//! volume never leaves `[0, VOLUME_FULL]` and always matches the volume last
//! applied to the sink.

use vstd::prelude::*;
use crate::errors::AudioEngineError;

verus! {

/// Full scale of the volume field: a volume `v` stands for `v / 1000.0`.
pub const VOLUME_FULL: u32 = 1000;

/// Serializable snapshot of playback, cloned on every read.
#[derive(Debug, Clone, PartialEq)]
pub struct PlaybackState {
    /// True only while a track is loaded and neither paused nor stopped.
    pub is_playing: bool,
    /// Best-effort playback position, in milliseconds.
    pub current_time_ms: u64,
    /// Total length of the loaded track in milliseconds; 0 when nothing is
    /// loaded.
    pub duration_ms: u64,
    /// Volume in thousandths of full scale, within `[0, VOLUME_FULL]`.
    pub volume: u32,
    /// Identifier of the loaded track; `None` when nothing is loaded.
    pub current_track: Option<String>,
}

/// Mathematical model of a playback snapshot.
#[verifier::ext_equal]
pub ghost struct StateModel {
    pub is_playing: bool,
    pub current_time_ms: u64,
    pub duration_ms: u64,
    pub volume: u32,
    pub track: Option<Seq<char>>,
}

/// Mathematical model of the sink bound to the output device.
#[verifier::ext_equal]
pub ghost struct SinkModel {
    /// Whether the sink is currently paused.
    pub paused: bool,
    /// Volume applied to the sink, in thousandths of full scale.
    pub volume: u32,
}

/// Mathematical model of the whole engine.
#[verifier::ext_equal]
pub ghost struct EngineModel {
    pub state: StateModel,
    pub sink: Option<SinkModel>,
}

impl View for PlaybackState {
    type V = StateModel;

    open spec fn view(&self) -> StateModel {
        StateModel {
            is_playing: self.is_playing,
            current_time_ms: self.current_time_ms,
            duration_ms: self.duration_ms,
            volume: self.volume,
            track: match self.current_track {
                Some(t) => Some(t@),
                None => None,
            },
        }
    }
}

/// The initial snapshot: nothing loaded, nothing playing, full volume.
pub open spec fn init_state() -> StateModel {
    StateModel {
        is_playing: false,
        current_time_ms: 0,
        duration_ms: 0,
        volume: VOLUME_FULL,
        track: None,
    }
}

/// The snapshot after `stop`: no track and not playing, at time zero, with
/// duration and volume kept.
pub open spec fn stopped_state(m: StateModel) -> StateModel {
    StateModel { is_playing: false, current_time_ms: 0, track: None, ..m }
}

/// A requested volume clamped into `[0, VOLUME_FULL]`.
pub open spec fn clamped_volume(v: int) -> u32 {
    if v < 0 {
        0
    } else if v > VOLUME_FULL {
        VOLUME_FULL
    } else {
        v as u32
    }
}

/// The agreement the engine maintains between state and sink.
pub open spec fn engine_inv(m: EngineModel) -> bool {
    &&& (m.state.track is Some) <==> (m.sink is Some)
    &&& m.state.is_playing ==> m.state.track is Some
    &&& m.state.volume <= VOLUME_FULL
    &&& (m.sink matches Some(sk) ==> sk.volume == m.state.volume)
    &&& (m.state.is_playing ==> (m.sink matches Some(sk) && !sk.paused))
}

impl Default for PlaybackState {
    /// The initial snapshot.
    fn default() -> (d: Self)
        ensures
            d@ =~= init_state(),
    {
        PlaybackState {
            is_playing: false,
            current_time_ms: 0,
            duration_ms: 0,
            volume: VOLUME_FULL,
            current_track: None,
        }
    }
}

/// Exact mirror of the sink the application holds against the device.
struct SinkState {
    paused: bool,
    volume: u32,
}

/// The synchronized owner of the playback state and the current sink.
///
/// Callers never see the fields: every mutation goes through an operation
/// that keeps [`engine_inv`] true.  The application holds the engine behind
/// its own exclusive guard and mirrors each decided transition onto the real
/// device sink.
pub struct AudioEngine {
    state: PlaybackState,
    sink: Option<SinkState>,
}

impl View for AudioEngine {
    type V = EngineModel;

    closed spec fn view(&self) -> EngineModel {
        EngineModel {
            state: self.state@,
            sink: match self.sink {
                Some(s) => Some(SinkModel { paused: s.paused, volume: s.volume }),
                None => None,
            },
        }
    }
}

impl AudioEngine {
    /// A fresh engine: default state, no sink.  Acquiring the device output
    /// resource is the application's first step; its failure is fatal and
    /// never reaches a constructed engine.
    pub fn new() -> (e: AudioEngine)
        ensures
            e@.state =~= init_state(),
            e@.sink is None,
            engine_inv(e@),
    {
        AudioEngine { state: PlaybackState::default(), sink: None }
    }

    /// A cloned snapshot of the playback state.
    pub fn get_state(&self) -> (s: PlaybackState)
        ensures
            s@ =~= self@.state,
    {
        PlaybackState {
            is_playing: self.state.is_playing,
            current_time_ms: self.state.current_time_ms,
            duration_ms: self.state.duration_ms,
            volume: self.state.volume,
            current_track: match &self.state.current_track {
                Some(t) => Some(t.clone()),
                None => None,
            },
        }
    }

    /// Commit or abandon a track load.
    ///
    /// The application performs the outside steps in order — open and decode
    /// the file to probe its duration (`probe`); on success create a sink at
    /// the current volume, decode the file afresh and attach the source,
    /// leaving the sink paused (`commit`) — and reports both outcomes here.
    /// The load succeeds only if every step did; any failure leaves the
    /// engine, and so the previously loaded track, exactly as it was.
    pub fn load_track(
        &mut self,
        path: String,
        probe: Result<u64, AudioEngineError>,
        commit: Result<(), AudioEngineError>,
    ) -> (r: Result<u64, AudioEngineError>)
        requires
            engine_inv(old(self)@),
        ensures
            engine_inv(final(self)@),
            probe matches Err(e) ==> r == Err::<u64, AudioEngineError>(e) && final(self)@ =~= old(
                self,
            )@,
            probe is Ok ==> (commit matches Err(e) ==> r == Err::<u64, AudioEngineError>(e)
                && final(self)@ =~= old(self)@),
            probe matches Ok(d) ==> (commit is Ok ==> r == Ok::<u64, AudioEngineError>(d)
                && final(self)@.state =~= (StateModel {
                is_playing: false,
                current_time_ms: 0,
                duration_ms: d,
                volume: old(self)@.state.volume,
                track: Some(path@),
            }) && final(self)@.sink == Some(
                SinkModel { paused: true, volume: old(self)@.state.volume },
            )),
    {
        let duration_ms = match probe {
            Ok(d) => d,
            Err(e) => {
                return Err(e);
            },
        };
        match commit {
            Ok(_) => {},
            Err(e) => {
                return Err(e);
            },
        }
        self.sink = Some(SinkState { paused: true, volume: self.state.volume });
        self.state.duration_ms = duration_ms;
        self.state.current_time_ms = 0;
        self.state.is_playing = false;
        self.state.current_track = Some(path);
        Ok(duration_ms)
    }

    /// Start or resume playback.  Fails, changing nothing, exactly when no
    /// track is loaded; otherwise the sink resumes, the state marks playing
    /// and the new snapshot is returned.
    pub fn play(&mut self) -> (r: Result<PlaybackState, AudioEngineError>)
        requires
            engine_inv(old(self)@),
        ensures
            engine_inv(final(self)@),
            old(self)@.sink is None ==> final(self)@ =~= old(self)@ && (r matches Err(e)
                && e matches AudioEngineError::PlaybackError(m) && m@ == "No track loaded"@),
            old(self)@.sink matches Some(sk) ==> final(self)@.sink == Some(
                SinkModel { paused: false, volume: sk.volume },
            ) && final(self)@.state =~= (StateModel { is_playing: true, ..old(self)@.state }) && (
            r matches Ok(s) && s@ =~= final(self)@.state),
    {
        match &mut self.sink {
            Some(sk) => {
                sk.paused = false;
            },
            None => {
                return Err(AudioEngineError::PlaybackError("No track loaded".to_owned()));
            },
        }
        self.state.is_playing = true;
        Ok(self.get_state())
    }

    /// Pause playback.  Fails, changing nothing, exactly when no track is
    /// loaded; otherwise the sink pauses, the state marks not playing and
    /// the new snapshot is returned.
    pub fn pause(&mut self) -> (r: Result<PlaybackState, AudioEngineError>)
        requires
            engine_inv(old(self)@),
        ensures
            engine_inv(final(self)@),
            old(self)@.sink is None ==> final(self)@ =~= old(self)@ && (r matches Err(e)
                && e matches AudioEngineError::PlaybackError(m) && m@ == "No track loaded"@),
            old(self)@.sink matches Some(sk) ==> final(self)@.sink == Some(
                SinkModel { paused: true, volume: sk.volume },
            ) && final(self)@.state =~= (StateModel { is_playing: false, ..old(self)@.state }) && (
            r matches Ok(s) && s@ =~= final(self)@.state),
    {
        match &mut self.sink {
            Some(sk) => {
                sk.paused = true;
            },
            None => {
                return Err(AudioEngineError::PlaybackError("No track loaded".to_owned()));
            },
        }
        self.state.is_playing = false;
        Ok(self.get_state())
    }

    /// Stop playback and discard the sink.  Idempotent: whether or not a
    /// sink existed, the state ends not playing, at time zero and with no
    /// track, while duration and volume are kept as they were.
    pub fn stop(&mut self) -> (s: PlaybackState)
        requires
            engine_inv(old(self)@),
        ensures
            engine_inv(final(self)@),
            final(self)@.sink is None,
            final(self)@.state =~= stopped_state(old(self)@.state),
            s@ =~= final(self)@.state,
    {
        self.sink = None;
        self.state.is_playing = false;
        self.state.current_time_ms = 0;
        self.state.current_track = None;
        self.get_state()
    }

    /// Set the volume, clamped into `[0, VOLUME_FULL]`.  The state's volume
    /// is updated unconditionally, so a later load picks it up; the sink, if
    /// one exists, is set to the same value.
    pub fn set_volume(&mut self, volume: i64) -> (s: PlaybackState)
        requires
            engine_inv(old(self)@),
        ensures
            engine_inv(final(self)@),
            final(self)@.state =~= (StateModel {
                volume: clamped_volume(volume as int),
                ..old(self)@.state
            }),
            final(self)@.sink == (match old(self)@.sink {
                Some(sk) => Some(SinkModel { volume: clamped_volume(volume as int), ..sk }),
                None => None,
            }),
            s@ =~= final(self)@.state,
    {
        let clamped: u32 = if volume < 0 {
            0
        } else if volume > VOLUME_FULL as i64 {
            VOLUME_FULL
        } else {
            volume as u32
        };
        match &mut self.sink {
            Some(sk) => {
                sk.volume = clamped;
            },
            None => {},
        }
        self.state.volume = clamped;
        self.get_state()
    }

    /// Whether playback is finished: no sink exists, or the sink reports
    /// that it has exhausted its source (`sink_empty`, the application's
    /// reading of the device sink).  Read-only.
    pub fn is_finished(&self, sink_empty: bool) -> (b: bool)
        ensures
            b == (self@.sink is None || sink_empty),
    {
        match &self.sink {
            Some(_) => sink_empty,
            None => true,
        }
    }

    /// Poll for completion.  When playback is finished the state is moved to
    /// its terminal snapshot — not playing, position at the full duration —
    /// and the sink is left alone; otherwise nothing changes.
    pub fn check_finished(&mut self, sink_empty: bool) -> (b: bool)
        requires
            engine_inv(old(self)@),
        ensures
            engine_inv(final(self)@),
            b == (old(self)@.sink is None || sink_empty),
            b ==> final(self)@.state =~= (StateModel {
                is_playing: false,
                current_time_ms: old(self)@.state.duration_ms,
                ..old(self)@.state
            }) && final(self)@.sink == old(self)@.sink,
            !b ==> final(self)@ =~= old(self)@,
    {
        let finished = self.is_finished(sink_empty);
        if finished {
            self.state.is_playing = false;
            self.state.current_time_ms = self.state.duration_ms;
        }
        finished
    }
}

impl Default for AudioEngine {
    /// Same as [`AudioEngine::new`].
    fn default() -> (e: Self)
        ensures
            e@.state =~= init_state(),
            e@.sink is None,
            engine_inv(e@),
    {
        AudioEngine::new()
    }
}

/// Stopping is idempotent: stopping an already stopped state changes
/// nothing, so two `stop` calls in a row yield the same snapshot.
pub proof fn lemma_stop_idempotent(m: StateModel)
    ensures
        stopped_state(stopped_state(m)) =~= stopped_state(m),
{
}

} // verus!
