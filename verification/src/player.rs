//! The playback engine: a deterministic state machine over transport state
//! (stopped / playing / paused), a sticky finished flag, the active playlist
//! index, the loaded track, elapsed position, reported duration and volume.
//! The engine owns no clock and no output device: the caller performs the
//! opening of tracks and the driving of the sink, and hands the engine the
//! outcome of an open, the current time in milliseconds, and whether the
//! sink has run out of queued audio. Every transition is specified exactly,
//! so the caller that mirrors the engine's state onto a real sink gets the
//! documented transport behaviour.

use vstd::prelude::*;

verus! {

/// The transport state commanded by the engine.
#[derive(Clone, Copy, PartialEq, Eq, Structural, Debug)]
pub enum PlayState {
    Stopped,
    Playing,
    Paused,
}

/// The errors the engine surfaces: a track that could not be opened or
/// decoded, and a seek with no track loaded.
#[derive(Clone, Copy, PartialEq, Eq, Structural, Debug)]
pub enum PlayerError {
    OpenError,
    NoActiveTrack,
}

/// What the caller's attempt to open and decode a track reported back:
/// success, with the total duration in milliseconds when the decoder knows
/// it, or failure.
#[derive(Clone, Copy, Debug)]
pub enum OpenOutcome {
    Opened(Option<u64>),
    Failed,
}

/// The volume scale: volumes are thousandths of full scale, clamped to
/// `[0, MAX_VOLUME_MILLI]` on every write.
pub const MAX_VOLUME_MILLI: u32 = 1000;

/// The playback engine's state. All fields are plain values; the caller
/// keeps the output sink in step with `state` and `volume_milli`.
pub struct MusicPlayer {
    /// The commanded transport state.
    pub state: PlayState,
    /// Sticky finished flag: set by `stop` and by an observed autonomous
    /// completion, cleared only by a successful play or seek.
    pub is_song_finished: bool,
    /// The playlist index recorded as active, if any.
    pub current_song_index: Option<usize>,
    /// The track reference last loaded, if any.
    pub current_file_path: Option<String>,
    /// The total duration the decoder reported for the loaded track, if
    /// known, in milliseconds.
    pub song_duration_ms: Option<u64>,
    /// Elapsed playback position in milliseconds: frozen while paused,
    /// advanced by position queries while playing.
    pub play_position_ms: u64,
    /// The time, in caller-supplied milliseconds, of the last position
    /// accounting.
    pub last_position_update_ms: u64,
    /// The output volume in thousandths of full scale.
    pub volume_milli: u32,
}

/// The milliseconds elapsed from `last` to `now`, zero when the clock
/// reads earlier than the last accounting.
pub open spec fn elapsed_ms(last: u64, now: u64) -> u64 {
    if now >= last {
        (now - last) as u64
    } else {
        0
    }
}

/// A position advanced by an elapsed span, saturating at the largest
/// representable value so that it never decreases.
pub open spec fn advanced_position(pos: u64, elapsed: u64) -> u64 {
    if pos + elapsed <= u64::MAX {
        (pos + elapsed) as u64
    } else {
        u64::MAX
    }
}

impl MusicPlayer {
    /// Volume never exceeds full scale.
    pub open spec fn wf(&self) -> bool {
        self.volume_milli <= MAX_VOLUME_MILLI
    }

    /// The state of a freshly created engine: stopped, not finished,
    /// nothing loaded, position zero, full volume.
    pub open spec fn spec_init() -> MusicPlayer {
        MusicPlayer {
            state: PlayState::Stopped,
            is_song_finished: false,
            current_song_index: None,
            current_file_path: None,
            song_duration_ms: None,
            play_position_ms: 0,
            last_position_update_ms: 0,
            volume_milli: MAX_VOLUME_MILLI,
        }
    }

    /// The engine after `play_file`: a successful open starts playing the
    /// track from position zero with the finished flag cleared; a failed
    /// open leaves the engine stopped and unloaded, also with position
    /// reset, so no stale playing reference survives.
    pub open spec fn spec_play_file(
        self,
        path: String,
        outcome: OpenOutcome,
        now_ms: u64,
    ) -> MusicPlayer {
        match outcome {
            OpenOutcome::Opened(duration_ms) => MusicPlayer {
                state: PlayState::Playing,
                is_song_finished: false,
                current_file_path: Some(path),
                song_duration_ms: duration_ms,
                play_position_ms: 0,
                last_position_update_ms: now_ms,
                ..self
            },
            OpenOutcome::Failed => MusicPlayer {
                state: PlayState::Stopped,
                is_song_finished: false,
                current_file_path: None,
                song_duration_ms: None,
                play_position_ms: 0,
                last_position_update_ms: now_ms,
                ..self
            },
        }
    }

    /// The engine after `stop`: transport halted and the finished flag
    /// forced, with position and loaded track left untouched.
    pub open spec fn spec_stop(self) -> MusicPlayer {
        MusicPlayer { state: PlayState::Stopped, is_song_finished: true, ..self }
    }

    /// An autonomous completion as observed by polling: the sink ran out
    /// of queued audio and playback was not explicitly paused.
    pub open spec fn spec_completed(self, sink_empty: bool) -> bool {
        sink_empty && !(self.state is Paused)
    }

    /// What `check_if_song_finished` reports: a previously recorded finish,
    /// or an autonomous completion observed now.
    pub open spec fn spec_check_result(self, sink_empty: bool) -> bool {
        self.is_song_finished || self.spec_completed(sink_empty)
    }

    /// What `is_playing` reports: not paused, audio still queued, and not
    /// finished. All three conditions are necessary.
    pub open spec fn spec_is_playing(self, sink_empty: bool) -> bool {
        !(self.state is Paused) && !sink_empty && !self.is_song_finished
    }

    /// The engine after a position query at time `now_ms`: while playing
    /// with audio queued, the position advances by the wall-clock span
    /// since the last accounting; while paused or stopped or drained it is
    /// left exactly as it was.
    pub open spec fn spec_position_after(self, now_ms: u64, sink_empty: bool) -> MusicPlayer {
        if self.state is Playing && !sink_empty {
            MusicPlayer {
                play_position_ms: advanced_position(
                    self.play_position_ms,
                    elapsed_ms(self.last_position_update_ms, now_ms),
                ),
                last_position_update_ms: now_ms,
                ..self
            }
        } else {
            self
        }
    }

    /// The position a query at time `now_ms` returns.
    pub open spec fn spec_position_result(self, now_ms: u64, sink_empty: bool) -> u64 {
        self.spec_position_after(now_ms, sink_empty).play_position_ms
    }

    /// The engine after `seek_to`: with a track loaded, the position is
    /// recorded immediately and the finished flag cleared; a paused engine
    /// stays paused, any other resumes playing. When the reload of the
    /// stream failed the engine is left stopped at the recorded position.
    /// With no track loaded nothing changes.
    pub open spec fn spec_seek(self, position_ms: u64, outcome: OpenOutcome, now_ms: u64) -> MusicPlayer {
        if self.current_file_path is None {
            self
        } else {
            match outcome {
                OpenOutcome::Opened(_) => MusicPlayer {
                    state: if self.state is Paused {
                        PlayState::Paused
                    } else {
                        PlayState::Playing
                    },
                    is_song_finished: false,
                    play_position_ms: position_ms,
                    last_position_update_ms: now_ms,
                    ..self
                },
                OpenOutcome::Failed => MusicPlayer {
                    state: PlayState::Stopped,
                    play_position_ms: position_ms,
                    last_position_update_ms: now_ms,
                    ..self
                },
            }
        }
    }

    /// A fresh engine.
    pub fn new() -> (p: MusicPlayer)
        ensures
            p == MusicPlayer::spec_init(),
            p.wf(),
    {
        MusicPlayer {
            state: PlayState::Stopped,
            is_song_finished: false,
            current_song_index: None,
            current_file_path: None,
            song_duration_ms: None,
            play_position_ms: 0,
            last_position_update_ms: 0,
            volume_milli: MAX_VOLUME_MILLI,
        }
    }

    /// Loads a track given the outcome of the caller's attempt to open it.
    /// Succeeds exactly when the open succeeded; on failure the engine is
    /// left stopped and unloaded.
    pub fn play_file(&mut self, path: String, outcome: OpenOutcome, now_ms: u64) -> (r: Result<
        (),
        PlayerError,
    >)
        ensures
            *final(self) == old(self).spec_play_file(path, outcome, now_ms),
            r == match outcome {
                OpenOutcome::Opened(_) => Ok::<(), PlayerError>(()),
                OpenOutcome::Failed => Err::<(), PlayerError>(PlayerError::OpenError),
            },
    {
        self.play_position_ms = 0;
        self.last_position_update_ms = now_ms;
        self.is_song_finished = false;
        match outcome {
            OpenOutcome::Opened(duration_ms) => {
                self.current_file_path = Some(path);
                self.song_duration_ms = duration_ms;
                self.state = PlayState::Playing;
                Ok(())
            },
            OpenOutcome::Failed => {
                self.current_file_path = None;
                self.song_duration_ms = None;
                self.state = PlayState::Stopped;
                Err(PlayerError::OpenError)
            },
        }
    }

    /// Loads a playlist item: the index is recorded as active before the
    /// open outcome is examined, so even a failed open never leaves a
    /// stale active index; then the track is loaded as by `play_file`.
    pub fn play_playlist_item(
        &mut self,
        path: String,
        index: usize,
        outcome: OpenOutcome,
        now_ms: u64,
    ) -> (r: Result<(), PlayerError>)
        ensures
            *final(self) == (MusicPlayer {
                current_song_index: Some(index),
                ..*old(self)
            }).spec_play_file(path, outcome, now_ms),
            r == match outcome {
                OpenOutcome::Opened(_) => Ok::<(), PlayerError>(()),
                OpenOutcome::Failed => Err::<(), PlayerError>(PlayerError::OpenError),
            },
    {
        self.current_song_index = Some(index);
        self.play_file(path, outcome, now_ms)
    }

    /// Reports whether the loaded track is finished, folding an observed
    /// autonomous completion into the sticky flag. Idempotent once the
    /// flag is set: any polling cadence observes a finish exactly once as
    /// a transition from false to true.
    pub fn check_if_song_finished(&mut self, sink_empty: bool) -> (r: bool)
        ensures
            r == old(self).spec_check_result(sink_empty),
            *final(self) == (MusicPlayer { is_song_finished: r, ..*old(self) }),
    {
        let completed = sink_empty && !matches!(self.state, PlayState::Paused);
        if completed {
            self.is_song_finished = true;
        }
        self.is_song_finished
    }

    /// The playlist index recorded as active, if any.
    pub fn get_current_song_index(&self) -> (r: Option<usize>)
        ensures
            r == self.current_song_index,
    {
        self.current_song_index
    }

    /// Pauses playback: only a playing engine changes, and only its
    /// transport state; the position stays at its last computed value.
    pub fn pause(&mut self)
        ensures
            old(self).state is Playing ==> *final(self) == (MusicPlayer {
                state: PlayState::Paused,
                ..*old(self)
            }),
            !(old(self).state is Playing) ==> *final(self) == *old(self),
    {
        if matches!(self.state, PlayState::Playing) {
            self.state = PlayState::Paused;
        }
    }

    /// Resumes a paused engine: position accounting restarts at `now_ms`,
    /// so the span spent paused is not counted. A non-paused engine is
    /// left unchanged.
    pub fn resume(&mut self, now_ms: u64)
        ensures
            old(self).state is Paused ==> *final(self) == (MusicPlayer {
                state: PlayState::Playing,
                last_position_update_ms: now_ms,
                ..*old(self)
            }),
            !(old(self).state is Paused) ==> *final(self) == *old(self),
    {
        if matches!(self.state, PlayState::Paused) {
            self.state = PlayState::Playing;
            self.last_position_update_ms = now_ms;
        }
    }

    /// Halts playback and forces the finished flag, leaving the position
    /// and the loaded track untouched so that current-track queries still
    /// resolve.
    pub fn stop(&mut self)
        ensures
            *final(self) == old(self).spec_stop(),
    {
        self.state = PlayState::Stopped;
        self.is_song_finished = true;
    }

    /// Whether audio is audibly playing right now, given whether the sink
    /// still has queued audio.
    pub fn is_playing(&self, sink_empty: bool) -> (r: bool)
        ensures
            r == self.spec_is_playing(sink_empty),
    {
        !matches!(self.state, PlayState::Paused) && !sink_empty && !self.is_song_finished
    }

    /// Sets the volume, clamped to full scale.
    pub fn set_volume(&mut self, volume_milli: u32)
        ensures
            *final(self) == (MusicPlayer {
                volume_milli: if volume_milli > MAX_VOLUME_MILLI {
                    MAX_VOLUME_MILLI
                } else {
                    volume_milli
                },
                ..*old(self)
            }),
            final(self).wf(),
    {
        self.volume_milli = if volume_milli > MAX_VOLUME_MILLI {
            MAX_VOLUME_MILLI
        } else {
            volume_milli
        };
    }

    /// The current volume in thousandths of full scale.
    pub fn get_volume(&self) -> (r: u32)
        ensures
            r == self.volume_milli,
    {
        self.volume_milli
    }

    /// The last duration the decoder reported for the loaded track, if
    /// known, in milliseconds.
    pub fn get_song_duration(&self) -> (r: Option<u64>)
        ensures
            r == self.song_duration_ms,
    {
        self.song_duration_ms
    }

    /// The loaded track reference, if any: what a seek will reload.
    pub fn get_current_file_path(&self) -> (r: Option<String>)
        ensures
            r == self.current_file_path,
    {
        match &self.current_file_path {
            Some(p) => Some(p.clone()),
            None => None,
        }
    }

    /// The elapsed position at time `now_ms`. While playing with audio
    /// queued, the position is advanced by the span since the last
    /// accounting and that accounting moves to `now_ms`, so repeated calls
    /// never double-count; while paused the frozen value is returned
    /// unchanged.
    pub fn get_current_position(&mut self, now_ms: u64, sink_empty: bool) -> (r: u64)
        ensures
            *final(self) == old(self).spec_position_after(now_ms, sink_empty),
            r == old(self).spec_position_result(now_ms, sink_empty),
    {
        if matches!(self.state, PlayState::Playing) && !sink_empty {
            let elapsed = now_ms.saturating_sub(self.last_position_update_ms);
            self.play_position_ms = self.play_position_ms.saturating_add(elapsed);
            self.last_position_update_ms = now_ms;
        }
        self.play_position_ms
    }

    /// Seeks to `position_ms`, given the outcome of the caller's reload of
    /// the stream. Fails with `NoActiveTrack` when nothing is loaded and
    /// with `OpenError` when the reload failed; on success the position is
    /// recorded immediately, the finished flag is cleared, and a paused
    /// engine stays paused while any other resumes playing. The caller's
    /// reload decodes from the start of the track up to the target, so a
    /// seek costs time proportional to the target position.
    pub fn seek_to(&mut self, position_ms: u64, outcome: OpenOutcome, now_ms: u64) -> (r: Result<
        (),
        PlayerError,
    >)
        ensures
            *final(self) == old(self).spec_seek(position_ms, outcome, now_ms),
            r == if old(self).current_file_path is None {
                Err::<(), PlayerError>(PlayerError::NoActiveTrack)
            } else {
                match outcome {
                    OpenOutcome::Opened(_) => Ok::<(), PlayerError>(()),
                    OpenOutcome::Failed => Err::<(), PlayerError>(PlayerError::OpenError),
                }
            },
    {
        if self.current_file_path.is_none() {
            return Err(PlayerError::NoActiveTrack);
        }
        self.play_position_ms = position_ms;
        self.last_position_update_ms = now_ms;
        match outcome {
            OpenOutcome::Opened(_) => {
                if !matches!(self.state, PlayState::Paused) {
                    self.state = PlayState::Playing;
                }
                self.is_song_finished = false;
                Ok(())
            },
            OpenOutcome::Failed => {
                self.state = PlayState::Stopped;
                Err(PlayerError::OpenError)
            },
        }
    }
}

/// After `stop`, `is_playing` reports false and `check_if_song_finished`
/// reports true, whatever the prior transport state and whatever the sink
/// observation: an explicit stop overrides any residual sink state.
pub proof fn lemma_stop_silences(p: MusicPlayer, sink_empty: bool)
    ensures
        !p.spec_stop().spec_is_playing(sink_empty),
        p.spec_stop().spec_check_result(sink_empty),
{
}

/// Position queries inside a paused span neither change the engine nor
/// drift: any two queries, at any times and under any sink observations,
/// return the frozen position.
pub proof fn lemma_paused_position_stable(
    p: MusicPlayer,
    now1_ms: u64,
    empty1: bool,
    now2_ms: u64,
    empty2: bool,
)
    requires
        p.state is Paused,
    ensures
        p.spec_position_after(now1_ms, empty1) == p,
        p.spec_position_result(now1_ms, empty1) == p.spec_position_result(now2_ms, empty2),
{
}

/// A position query never moves the position backwards, whatever the
/// clock reads: elapsed time is accounted at most once and never negative.
pub proof fn lemma_position_monotone(p: MusicPlayer, now_ms: u64, sink_empty: bool)
    ensures
        p.spec_position_result(now_ms, sink_empty) >= p.play_position_ms,
{
}

} // verus!
