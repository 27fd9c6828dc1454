//! The playback engine: the state it owns, the commands it accepts, and the
//! snapshots it publishes.
//!
//! Times are whole milliseconds. A position or a duration is a `u64`; a
//! requested seek target is an `i64`, because a caller may ask for a negative
//! position. Monotonic clock readings (`now`) are milliseconds since an origin
//! of the caller's choosing. Volume levels are whole percent, `0..=100`.

use vstd::prelude::*;
use crate::clock::{duration_as_millis, millis_stamp, since_unix_epoch, system_time_now};

verus! {

/// The loudest volume level, in percent.
pub const MAX_VOLUME: u8 = 100;

/// A published, self-contained copy of the playback state.
#[derive(Debug, PartialEq, Eq)]
pub struct AudioState {
    pub is_playing: bool,
    /// Position in the track, in milliseconds.
    pub current_time: u64,
    /// Length of the track in milliseconds, 0 when unknown.
    pub duration: u64,
    /// Volume level in percent.
    pub volume: u8,
    pub is_muted: bool,
    pub is_loading: bool,
    pub error: Option<String>,
    /// Wall-clock time of publication, milliseconds since the Unix epoch.
    pub updated_at: u64,
}

impl AudioState {
    /// The snapshot of a silent engine: nothing loaded, full volume.
    pub open spec fn silent(updated_at: u64) -> AudioState {
        AudioState {
            is_playing: false,
            current_time: 0,
            duration: 0,
            volume: MAX_VOLUME,
            is_muted: false,
            is_loading: false,
            error: None,
            updated_at,
        }
    }

    /// A snapshot never places the position past a known duration and never
    /// holds a volume above the maximum.
    pub open spec fn wf(&self) -> bool {
        &&& self.volume <= MAX_VOLUME
        &&& self.duration > 0 ==> self.current_time <= self.duration
    }

    /// The silent snapshot, stamped with the given publication time.
    pub fn new(updated_at: u64) -> (state: AudioState)
        ensures
            state == AudioState::silent(updated_at),
            state.wf(),
    {
        AudioState {
            is_playing: false,
            current_time: 0,
            duration: 0,
            volume: MAX_VOLUME,
            is_muted: false,
            is_loading: false,
            error: None,
            updated_at,
        }
    }
}

impl Clone for AudioState {
    fn clone(&self) -> (copy: AudioState)
        ensures
            copy == *self,
    {
        AudioState {
            is_playing: self.is_playing,
            current_time: self.current_time,
            duration: self.duration,
            volume: self.volume,
            is_muted: self.is_muted,
            is_loading: self.is_loading,
            error: clone_text(&self.error),
            updated_at: self.updated_at,
        }
    }
}

impl Default for AudioState {
    /// The silent snapshot, stamped with the current wall-clock time.
    fn default() -> (state: AudioState)
        ensures
            state == AudioState::silent(state.updated_at),
            state.wf(),
    {
        AudioState::new(timestamp_now())
    }
}

/// Milliseconds since the Unix epoch according to the system clock, reduced
/// to 64 bits. A clock that reads earlier than the epoch gives 0.
pub fn timestamp_now() -> (ms: u64) {
    let t = system_time_now();
    let since_epoch = match since_unix_epoch(&t) {
        Some(d) => Some(duration_as_millis(&d)),
        None => None,
    };
    millis_stamp(since_epoch)
}

/// A command for the engine. Commands are applied one at a time, in the
/// order in which they were sent.
#[derive(Clone, Debug, PartialEq, Eq)]
pub enum AudioCommand {
    /// Load the file at this path and start playing it.
    Load(String),
    Play,
    Pause,
    Stop,
    /// Move to this position, in milliseconds. Out-of-range targets are
    /// clamped.
    Seek(i64),
    /// Set the volume to this level, in percent. Out-of-range levels are
    /// clamped.
    SetVolume(i64),
    SetMuted(bool),
    /// Acknowledge that the end of the track was observed.
    MarkFinished,
    Shutdown,
}

/// The outside work that a step of the engine asks for. The engine owns no
/// device: whoever runs it performs the request on the output sink.
#[derive(Clone, Debug, PartialEq, Eq)]
pub enum SinkRequest {
    /// Leave the sink as it is.
    Nothing,
    /// Open and decode the file, build a sink at this gain, start it, and put
    /// it in place of the current sink. The outcome is reported back through
    /// [`load_file`].
    Open { path: String, gain: u8 },
    /// Open and decode the file again, skip to the position, build a sink at
    /// this gain, pause it if asked, and only then stop and replace the
    /// current sink.
    Reopen { path: String, position: u64, gain: u8, paused: bool },
    /// Resume the sink if it is paused.
    Resume,
    /// Pause the sink.
    Pause,
    /// Stop the sink and discard it.
    Stop,
    /// Set the sink's gain, in percent of full scale.
    SetGain(u8),
    /// Stop the sink and end the engine.
    Shutdown,
}

/// How an attempt to open a track ended.
#[derive(Clone, Debug, PartialEq, Eq)]
pub enum LoadOutcome {
    /// The new sink is in place. The duration is in milliseconds, 0 when the
    /// decoder and the format probe both leave it unknown.
    Loaded { duration: u64 },
    /// Opening, decoding or sink creation failed, with this message.
    Failed(String),
}

/// The step at which opening a track failed.
#[derive(Clone, Copy, Debug, PartialEq, Eq)]
pub enum LoadFailure {
    /// The file could not be opened.
    Open,
    /// The file could not be decoded.
    Decode,
    /// No sink could be created for the output device.
    Sink,
}

/// The wording of a failed load: what failed, on which file where a file
/// is at fault, and the reason as the outside reported it.
pub open spec fn load_failure_text(
    failure: LoadFailure,
    path: Seq<char>,
    reason: Seq<char>,
) -> Seq<char> {
    match failure {
        LoadFailure::Open => "Failed to open file '"@ + path + "': "@ + reason,
        LoadFailure::Decode => "Failed to decode audio '"@ + path + "': "@ + reason,
        LoadFailure::Sink => "Failed to create audio sink: "@ + reason,
    }
}

/// The sum of two readings, held at the top of the range.
pub open spec fn saturating_sum(a: u64, b: u64) -> u64 {
    if a + b > u64::MAX {
        u64::MAX
    } else {
        (a + b) as u64
    }
}

/// Milliseconds played so far: the time since the anchor `start`, plus the
/// offset accumulated before the anchor was set. A clock reading earlier
/// than the anchor counts as no time passed.
pub open spec fn elapsed_total(start: u64, offset: u64, now: u64) -> u64 {
    saturating_sum(
        if now >= start {
            (now - start) as u64
        } else {
            0
        },
        offset,
    )
}

/// A position held back to the duration, where the duration is known.
pub open spec fn clamp_to_duration(t: u64, duration: u64) -> u64 {
    if duration > 0 && t > duration {
        duration
    } else {
        t
    }
}

/// Where a seek to `position` lands: within `[0, duration]` when the
/// duration is known, at or above 0 otherwise.
pub open spec fn seek_target(position: i64, duration: u64) -> u64 {
    if position <= 0 {
        0
    } else if duration > 0 && position > duration {
        duration
    } else {
        position as u64
    }
}

/// A requested volume level held to `[0, MAX_VOLUME]`.
pub open spec fn clamp_volume(level: i64) -> u8 {
    if level <= 0 {
        0
    } else if level >= MAX_VOLUME {
        MAX_VOLUME
    } else {
        level as u8
    }
}

/// The authoritative playback state. Only the engine changes it.
#[derive(Clone, Debug, PartialEq, Eq)]
pub struct InternalState {
    pub is_playing: bool,
    pub current_time: u64,
    pub duration: u64,
    pub volume: u8,
    pub is_muted: bool,
    pub is_loading: bool,
    pub error: Option<String>,
    /// Clock reading at which playback was last anchored; set exactly while
    /// playing.
    pub start_time: Option<u64>,
    /// Milliseconds played before the anchor was set.
    pub pause_offset: u64,
    pub pre_mute_volume: u8,
    /// Path of the loaded track. A sink exists exactly while this is set.
    pub current_path: Option<String>,
}

impl InternalState {
    /// The state of a new engine: silence.
    pub open spec fn initial() -> InternalState {
        InternalState {
            is_playing: false,
            current_time: 0,
            duration: 0,
            volume: MAX_VOLUME,
            is_muted: false,
            is_loading: false,
            error: None,
            start_time: None,
            pause_offset: 0,
            pre_mute_volume: MAX_VOLUME,
            current_path: None,
        }
    }

    /// The invariants of the playback state.
    pub open spec fn wf(&self) -> bool {
        &&& self.volume <= MAX_VOLUME
        &&& self.pre_mute_volume == self.volume
        &&& self.duration > 0 ==> self.current_time <= self.duration
        &&& self.is_playing <==> self.start_time is Some
    }

    /// Whether a track is loaded.
    pub open spec fn has_track(&self) -> bool {
        self.current_path is Some
    }

    /// The gain that the sink is driven at, in percent: nothing while muted,
    /// the volume otherwise.
    pub open spec fn gain(&self) -> u8 {
        if self.is_muted {
            0
        } else {
            self.volume
        }
    }

    /// The position at clock reading `now`: reconstructed from anchor and
    /// offset while playing, the frozen position otherwise.
    pub open spec fn position_at(&self, now: u64) -> u64 {
        match self.start_time {
            Some(start) if self.is_playing => clamp_to_duration(
                elapsed_total(start, self.pause_offset, now),
                self.duration,
            ),
            _ => self.current_time,
        }
    }

    /// The snapshot that this state publishes at wall-clock time `updated_at`.
    pub open spec fn snapshot(&self, updated_at: u64) -> AudioState {
        AudioState {
            is_playing: self.is_playing,
            current_time: self.current_time,
            duration: self.duration,
            volume: self.volume,
            is_muted: self.is_muted,
            is_loading: self.is_loading,
            error: self.error,
            updated_at,
        }
    }

    /// The state with its position brought up to clock reading `now`.
    pub open spec fn refreshed(self, now: u64) -> InternalState {
        InternalState { current_time: self.position_at(now), ..self }
    }

    /// After `Load` is accepted and before its outcome is known.
    pub open spec fn after_load_begun(self) -> InternalState {
        InternalState { is_loading: true, error: None, ..self }
    }

    /// After the outcome of a `Load` is known. A failure records the message
    /// and leaves everything else, `is_playing` included, as it was.
    pub open spec fn after_load(
        self,
        path: String,
        outcome: LoadOutcome,
        now: u64,
    ) -> InternalState {
        match outcome {
            LoadOutcome::Loaded { duration } => InternalState {
                is_playing: true,
                current_time: 0,
                duration,
                is_loading: false,
                error: None,
                start_time: Some(now),
                pause_offset: 0,
                current_path: Some(path),
                ..self
            },
            LoadOutcome::Failed(message) => InternalState {
                error: Some(message),
                is_loading: false,
                ..self
            },
        }
    }

    /// After `Play`: anchored at `now` unless already playing; unchanged
    /// when no track is loaded.
    pub open spec fn after_play(self, now: u64) -> InternalState {
        if self.has_track() && !self.is_playing {
            InternalState { is_playing: true, start_time: Some(now), ..self }
        } else {
            self
        }
    }

    /// After `Pause`: the elapsed time is frozen into the offset and, held
    /// back to the duration, into the position.
    pub open spec fn after_pause(self, now: u64) -> InternalState {
        match self.start_time {
            Some(start) => InternalState {
                is_playing: false,
                start_time: None,
                pause_offset: elapsed_total(start, self.pause_offset, now),
                current_time: clamp_to_duration(
                    elapsed_total(start, self.pause_offset, now),
                    self.duration,
                ),
                ..self
            },
            None => InternalState { is_playing: false, ..self },
        }
    }

    /// After `Stop`: no track, position 0.
    pub open spec fn after_stop(self) -> InternalState {
        InternalState {
            is_playing: false,
            current_time: 0,
            start_time: None,
            pause_offset: 0,
            current_path: None,
            ..self
        }
    }

    /// After `Seek`: position and offset at the clamped target, re-anchored
    /// at `now` if playing; unchanged when no track is loaded.
    pub open spec fn after_seek(self, position: i64, now: u64) -> InternalState {
        if self.has_track() {
            InternalState {
                current_time: seek_target(position, self.duration),
                pause_offset: seek_target(position, self.duration),
                start_time: if self.is_playing {
                    Some(now)
                } else {
                    self.start_time
                },
                ..self
            }
        } else {
            self
        }
    }

    /// After `SetVolume`.
    pub open spec fn after_set_volume(self, level: i64) -> InternalState {
        InternalState {
            volume: clamp_volume(level),
            pre_mute_volume: clamp_volume(level),
            ..self
        }
    }

    /// After `SetMuted`.
    pub open spec fn after_set_muted(self, muted: bool) -> InternalState {
        InternalState { is_muted: muted, ..self }
    }

    /// After `MarkFinished`: stopped at the end of the track.
    pub open spec fn after_mark_finished(self) -> InternalState {
        InternalState {
            is_playing: false,
            current_time: self.duration,
            start_time: None,
            pause_offset: 0,
            ..self
        }
    }

    /// The state after one command, taken at clock reading `now`. For `Load`
    /// this is the state while the file is being opened.
    pub open spec fn after_command(self, command: AudioCommand, now: u64) -> InternalState {
        match command {
            AudioCommand::Load(_) => self.after_load_begun(),
            AudioCommand::Play => self.after_play(now),
            AudioCommand::Pause => self.after_pause(now),
            AudioCommand::Stop => self.after_stop(),
            AudioCommand::Seek(position) => self.after_seek(position, now),
            AudioCommand::SetVolume(level) => self.after_set_volume(level),
            AudioCommand::SetMuted(muted) => self.after_set_muted(muted),
            AudioCommand::MarkFinished => self.after_mark_finished(),
            AudioCommand::Shutdown => self,
        }
    }

    /// The outside work that one command asks for in this state.
    pub open spec fn request_for(self, command: AudioCommand) -> SinkRequest {
        match command {
            AudioCommand::Load(path) => SinkRequest::Open { path, gain: self.gain() },
            AudioCommand::Play => if self.has_track() {
                SinkRequest::Resume
            } else {
                SinkRequest::Nothing
            },
            AudioCommand::Pause => if self.has_track() {
                SinkRequest::Pause
            } else {
                SinkRequest::Nothing
            },
            AudioCommand::Stop => if self.has_track() {
                SinkRequest::Stop
            } else {
                SinkRequest::Nothing
            },
            AudioCommand::Seek(position) => match self.current_path {
                Some(path) => SinkRequest::Reopen {
                    path,
                    position: seek_target(position, self.duration),
                    gain: self.gain(),
                    paused: !self.is_playing,
                },
                None => SinkRequest::Nothing,
            },
            AudioCommand::SetVolume(level) => if self.has_track() && !self.is_muted {
                SinkRequest::SetGain(clamp_volume(level))
            } else {
                SinkRequest::Nothing
            },
            AudioCommand::SetMuted(muted) => if !self.has_track() {
                SinkRequest::Nothing
            } else if muted {
                SinkRequest::SetGain(0)
            } else {
                SinkRequest::SetGain(self.volume)
            },
            AudioCommand::MarkFinished => SinkRequest::Nothing,
            AudioCommand::Shutdown => SinkRequest::Shutdown,
        }
    }

    /// Whether the track has run out while playing: a sink exists, reports
    /// itself exhausted, and the state is playing.
    pub open spec fn finished_with(&self, sink_exhausted: Option<bool>) -> bool {
        sink_exhausted == Some(true) && self.is_playing
    }

    /// The gain that the sink is driven at, in percent.
    pub fn output_gain(&self) -> (gain: u8)
        ensures
            gain == self.gain(),
    {
        if self.is_muted {
            0
        } else {
            self.volume
        }
    }
}

impl Default for InternalState {
    fn default() -> (state: InternalState)
        ensures
            state == InternalState::initial(),
            state.wf(),
    {
        InternalState {
            is_playing: false,
            current_time: 0,
            duration: 0,
            volume: MAX_VOLUME,
            is_muted: false,
            is_loading: false,
            error: None,
            start_time: None,
            pause_offset: 0,
            pre_mute_volume: MAX_VOLUME,
            current_path: None,
        }
    }
}

/// A copy of an optional text.
pub(crate) fn clone_text(text: &Option<String>) -> (copy: Option<String>)
    ensures
        copy == *text,
{
    match text {
        Some(s) => Some(s.clone()),
        None => None,
    }
}

/// Milliseconds played so far, from anchor, offset and clock reading.
fn elapsed(start: u64, offset: u64, now: u64) -> (ms: u64)
    ensures
        ms == elapsed_total(start, offset, now),
{
    now.saturating_sub(start).saturating_add(offset)
}

/// Holds a position back to the duration, where the duration is known.
fn clamp_position(t: u64, duration: u64) -> (clamped: u64)
    ensures
        clamped == clamp_to_duration(t, duration),
{
    if duration > 0 && t > duration {
        duration
    } else {
        t
    }
}

/// Holds a requested volume level to `[0, MAX_VOLUME]`.
pub fn clamp_level(level: i64) -> (volume: u8)
    ensures
        volume == clamp_volume(level),
        volume <= MAX_VOLUME,
{
    if level <= 0 {
        0
    } else if level >= 100 {
        MAX_VOLUME
    } else {
        level as u8
    }
}

/// The duration of a track that was opened, in milliseconds: what the
/// decoder reports, else what the format probe finds, else 0 for unknown.
pub fn known_duration(decoded: Option<u64>, probed: Option<u64>) -> (duration: u64)
    ensures
        duration == match (decoded, probed) {
            (Some(d), _) => d,
            (None, Some(p)) => p,
            (None, None) => 0,
        },
{
    match decoded {
        Some(d) => d,
        None => match probed {
            Some(p) => p,
            None => 0,
        },
    }
}

/// Words the message of a failed load of the file at `path`.
pub fn load_failure_message(failure: LoadFailure, path: &str, reason: &str) -> (message: String)
    ensures
        message@ == load_failure_text(failure, path@, reason@),
{
    match failure {
        LoadFailure::Open => {
            let mut message = "Failed to open file '".to_owned();
            message.push_str(path);
            message.push_str("': ");
            message.push_str(reason);
            message
        },
        LoadFailure::Decode => {
            let mut message = "Failed to decode audio '".to_owned();
            message.push_str(path);
            message.push_str("': ");
            message.push_str(reason);
            message
        },
        LoadFailure::Sink => {
            let mut message = "Failed to create audio sink: ".to_owned();
            message.push_str(reason);
            message
        },
    }
}

/// Records the outcome of opening `path` at clock reading `now`.
///
/// On success the track plays from position 0, anchored at `now`. On
/// failure the message becomes the state's error and loading ends; nothing
/// else changes, so a track that was loaded before stays loaded.
pub fn load_file(state: &mut InternalState, path: String, outcome: LoadOutcome, now: u64)
    ensures
        *final(state) == old(state).after_load(path, outcome, now),
        old(state).wf() ==> final(state).wf(),
        !final(state).is_loading,
        outcome is Failed ==> final(state).error == Some(outcome->Failed_0),
        outcome is Loaded ==> final(state).error is None && final(state).current_time == 0,
{
    match outcome {
        LoadOutcome::Loaded { duration } => {
            state.is_playing = true;
            state.current_time = 0;
            state.duration = duration;
            state.is_loading = false;
            state.error = None;
            state.start_time = Some(now);
            state.pause_offset = 0;
            state.current_path = Some(path);
        },
        LoadOutcome::Failed(message) => {
            state.error = Some(message);
            state.is_loading = false;
        },
    }
}

/// What a seek needs from the outside: the file to open again, the position
/// to skip to, the gain of the new sink, and whether the new sink starts
/// paused.
#[derive(Clone, Debug, PartialEq, Eq)]
pub struct SeekPlan {
    pub path: String,
    pub position: u64,
    pub gain: u8,
    pub paused: bool,
}

/// Moves the position to `position`, clamped, at clock reading `now`, and
/// says what has to be done to the sink.
///
/// The state holds the new position as soon as this returns, before any
/// decoding has started. With no track loaded nothing changes and there is
/// no plan.
pub fn seek_to_position(state: &mut InternalState, position: i64, now: u64) -> (plan: Option<
    SeekPlan,
>)
    ensures
        *final(state) == old(state).after_seek(position, now),
        old(state).wf() ==> final(state).wf(),
        !old(state).has_track() ==> plan is None && *final(state) == *old(state),
        old(state).has_track() ==> plan == Some(
            (SeekPlan {
                path: old(state).current_path->0,
                position: seek_target(position, old(state).duration),
                gain: old(state).gain(),
                paused: !old(state).is_playing,
            }),
        ),
        old(state).has_track() ==> final(state).current_time == seek_target(
            position,
            old(state).duration,
        ),
{
    let path = match &state.current_path {
        Some(p) => p.clone(),
        None => {
            return None;
        },
    };
    let target: u64 = if position <= 0 {
        0
    } else {
        clamp_position(position as u64, state.duration)
    };
    let was_playing = state.is_playing;
    state.current_time = target;
    state.pause_offset = target;
    if was_playing {
        state.start_time = Some(now);
    }
    Some(SeekPlan { path, position: target, gain: state.output_gain(), paused: !was_playing })
}

/// What one refresh publishes: the snapshot and the finished flag.
#[derive(Clone, Debug, PartialEq, Eq)]
pub struct Published {
    pub snapshot: AudioState,
    pub finished: bool,
}

/// Brings the position up to clock reading `now` and derives what is to be
/// published at wall-clock time `updated_at`.
///
/// `sink_exhausted` is `None` when there is no sink, and otherwise says
/// whether the sink has run out of material. The finished flag is kept apart
/// from `is_playing`, so that an observer can tell a track that ran out from
/// one that was stopped.
pub fn sync_state(
    state: &mut InternalState,
    sink_exhausted: Option<bool>,
    now: u64,
    updated_at: u64,
) -> (published: Published)
    ensures
        *final(state) == old(state).refreshed(now),
        old(state).wf() ==> final(state).wf(),
        published.snapshot == final(state).snapshot(updated_at),
        published.finished == final(state).finished_with(sink_exhausted),
        old(state).wf() ==> published.snapshot.wf(),
{
    if state.is_playing {
        if let Some(start) = state.start_time {
            let played: u64 = elapsed(start, state.pause_offset, now);
            state.current_time = clamp_position(played, state.duration);
        }
    }
    let finished = match sink_exhausted {
        Some(exhausted) => exhausted && state.is_playing,
        None => false,
    };
    Published {
        snapshot: AudioState {
            is_playing: state.is_playing,
            current_time: state.current_time,
            duration: state.duration,
            volume: state.volume,
            is_muted: state.is_muted,
            is_loading: state.is_loading,
            error: clone_text(&state.error),
            updated_at,
        },
        finished,
    }
}

/// Applies one command at clock reading `now` and says what has to be done
/// to the sink.
///
/// `Load` only marks the state as loading; the outcome of the request comes
/// back through [`load_file`]. `Shutdown` leaves the state as it is.
pub fn apply_command(state: &mut InternalState, command: AudioCommand, now: u64) -> (request:
    SinkRequest)
    ensures
        *final(state) == old(state).after_command(command, now),
        request == old(state).request_for(command),
        old(state).wf() ==> final(state).wf(),
{
    let has_track = state.current_path.is_some();
    match command {
        AudioCommand::Load(path) => {
            state.is_loading = true;
            state.error = None;
            SinkRequest::Open { path, gain: state.output_gain() }
        },
        AudioCommand::Play => {
            if has_track {
                if !state.is_playing {
                    state.is_playing = true;
                    state.start_time = Some(now);
                }
                SinkRequest::Resume
            } else {
                SinkRequest::Nothing
            }
        },
        AudioCommand::Pause => {
            if let Some(start) = state.start_time {
                let played: u64 = elapsed(start, state.pause_offset, now);
                state.pause_offset = played;
                state.current_time = clamp_position(played, state.duration);
            }
            state.is_playing = false;
            state.start_time = None;
            if has_track {
                SinkRequest::Pause
            } else {
                SinkRequest::Nothing
            }
        },
        AudioCommand::Stop => {
            state.is_playing = false;
            state.current_time = 0;
            state.start_time = None;
            state.pause_offset = 0;
            state.current_path = None;
            if has_track {
                SinkRequest::Stop
            } else {
                SinkRequest::Nothing
            }
        },
        AudioCommand::Seek(position) => {
            match seek_to_position(state, position, now) {
                Some(plan) => SinkRequest::Reopen {
                    path: plan.path,
                    position: plan.position,
                    gain: plan.gain,
                    paused: plan.paused,
                },
                None => SinkRequest::Nothing,
            }
        },
        AudioCommand::SetVolume(level) => {
            let volume: u8 = clamp_level(level);
            state.volume = volume;
            state.pre_mute_volume = volume;
            if has_track && !state.is_muted {
                SinkRequest::SetGain(volume)
            } else {
                SinkRequest::Nothing
            }
        },
        AudioCommand::SetMuted(muted) => {
            state.is_muted = muted;
            if !has_track {
                SinkRequest::Nothing
            } else if muted {
                SinkRequest::SetGain(0)
            } else {
                SinkRequest::SetGain(state.volume)
            }
        },
        AudioCommand::MarkFinished => {
            state.is_playing = false;
            state.current_time = state.duration;
            state.start_time = None;
            state.pause_offset = 0;
            SinkRequest::Nothing
        },
        AudioCommand::Shutdown => SinkRequest::Shutdown,
    }
}

} // verus!
