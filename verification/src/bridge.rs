//! The remote-control bridge: the messages of the control protocol, the
//! forwarding of inbound commands to an engine handle, the publisher that
//! decides which notifications go out, and the supervisor that reconnects.
//!
//! The bridge owns no socket and no timer. Whoever runs it reads and writes
//! the connection, turns text into the values below and back, sleeps for the
//! intervals named here, and reports what happened.

use vstd::prelude::*;
use crate::engine::AudioPlayerHandle;
use crate::player::{clone_text, AudioCommand, AudioState};
use crate::text::{decimal_text, optional_text, push_decimal, same_optional_text, same_text};

verus! {

/// Milliseconds between two looks of the publisher at the engine.
pub const STATE_INTERVAL_MILLIS: u64 = 100;

/// Milliseconds between two keepalive pings.
pub const PING_INTERVAL_MILLIS: u64 = 30000;

/// Milliseconds between the end of one session and the next connection
/// attempt. The delay is fixed: it does not grow with the number of
/// attempts, and attempts never stop.
pub const RECONNECT_DELAY_MILLIS: u64 = 3000;

/// A change of position up to this many milliseconds is not worth an update.
pub const DEBOUNCE_MILLIS: u64 = 50;

/// The volume that the publisher assumes before its first update: no engine
/// ever reports it at start, so the first look always sends an update.
pub const UNSEEN_VOLUME: u8 = 1;

/// Payload of `audio_load`.
#[derive(Clone, Debug, PartialEq, Eq)]
pub struct LoadPayload {
    pub path: String,
}

/// Payload of `audio_seek`: the target position in milliseconds.
#[derive(Clone, Copy, Debug, PartialEq, Eq)]
pub struct SeekPayload {
    pub time: i64,
}

/// Payload of `audio_volume`: the level in percent.
#[derive(Clone, Copy, Debug, PartialEq, Eq)]
pub struct VolumePayload {
    pub level: i64,
}

/// Payload of `audio_mute`.
#[derive(Clone, Copy, Debug, PartialEq, Eq)]
pub struct MutePayload {
    pub muted: bool,
}

/// A command received over the control connection.
#[derive(Clone, Debug, PartialEq, Eq)]
#[allow(inconsistent_fields)]
pub enum ServerAudioCommand {
    Load { payload: LoadPayload },
    Play,
    Pause,
    Stop,
    Seek { payload: SeekPayload },
    Volume { payload: VolumePayload },
    Mute { payload: MutePayload },
}

/// The payload fields that an inbound message carried, each present or not.
#[derive(Clone, Debug, PartialEq, Eq)]
pub struct CommandFields {
    pub path: Option<String>,
    pub time: Option<i64>,
    pub level: Option<i64>,
    pub muted: Option<bool>,
}

/// The command that a message with tag `tag` and payload `fields` stands
/// for, if any. A tag outside the protocol, or a payload without the field
/// that the tag calls for, stands for none. Fields that the tag does not
/// call for are ignored.
pub open spec fn decoded(tag: Seq<char>, fields: CommandFields) -> Option<ServerAudioCommand> {
    if tag == "audio_load"@ {
        match fields.path {
            Some(path) => Some(ServerAudioCommand::Load { payload: LoadPayload { path } }),
            None => None,
        }
    } else if tag == "audio_play"@ {
        Some(ServerAudioCommand::Play)
    } else if tag == "audio_pause"@ {
        Some(ServerAudioCommand::Pause)
    } else if tag == "audio_stop"@ {
        Some(ServerAudioCommand::Stop)
    } else if tag == "audio_seek"@ {
        match fields.time {
            Some(time) => Some(ServerAudioCommand::Seek { payload: SeekPayload { time } }),
            None => None,
        }
    } else if tag == "audio_volume"@ {
        match fields.level {
            Some(level) => Some(ServerAudioCommand::Volume { payload: VolumePayload { level } }),
            None => None,
        }
    } else if tag == "audio_mute"@ {
        match fields.muted {
            Some(muted) => Some(ServerAudioCommand::Mute { payload: MutePayload { muted } }),
            None => None,
        }
    } else {
        None
    }
}

impl ServerAudioCommand {
    /// The engine command that this command is forwarded as.
    pub open spec fn forwarded(self) -> AudioCommand {
        match self {
            ServerAudioCommand::Load { payload } => AudioCommand::Load(payload.path),
            ServerAudioCommand::Play => AudioCommand::Play,
            ServerAudioCommand::Pause => AudioCommand::Pause,
            ServerAudioCommand::Stop => AudioCommand::Stop,
            ServerAudioCommand::Seek { payload } => AudioCommand::Seek(payload.time),
            ServerAudioCommand::Volume { payload } => AudioCommand::SetVolume(payload.level),
            ServerAudioCommand::Mute { payload } => AudioCommand::SetMuted(payload.muted),
        }
    }

    /// Decodes a message from its tag and payload fields.
    pub fn decode(tag: &str, fields: CommandFields) -> (command: Option<ServerAudioCommand>)
        ensures
            command == decoded(tag@, fields),
    {
        if same_text(tag, "audio_load") {
            match fields.path {
                Some(path) => Some(ServerAudioCommand::Load { payload: LoadPayload { path } }),
                None => None,
            }
        } else if same_text(tag, "audio_play") {
            Some(ServerAudioCommand::Play)
        } else if same_text(tag, "audio_pause") {
            Some(ServerAudioCommand::Pause)
        } else if same_text(tag, "audio_stop") {
            Some(ServerAudioCommand::Stop)
        } else if same_text(tag, "audio_seek") {
            match fields.time {
                Some(time) => Some(ServerAudioCommand::Seek { payload: SeekPayload { time } }),
                None => None,
            }
        } else if same_text(tag, "audio_volume") {
            match fields.level {
                Some(level) => Some(
                    ServerAudioCommand::Volume { payload: VolumePayload { level } },
                ),
                None => None,
            }
        } else if same_text(tag, "audio_mute") {
            match fields.muted {
                Some(muted) => Some(ServerAudioCommand::Mute { payload: MutePayload { muted } }),
                None => None,
            }
        } else {
            None
        }
    }
}

/// Forwards one inbound command to the engine, as a send that is not waited
/// for.
pub fn handle_command(player: &mut AudioPlayerHandle, command: ServerAudioCommand)
    ensures
        final(player).pending() == old(player).queue_after(command.forwarded()),
        final(player).shared() == old(player).shared(),
        final(player).connected() == old(player).connected(),
{
    match command {
        ServerAudioCommand::Load { payload } => player.send(AudioCommand::Load(payload.path)),
        ServerAudioCommand::Play => player.play(),
        ServerAudioCommand::Pause => player.pause(),
        ServerAudioCommand::Stop => player.stop(),
        ServerAudioCommand::Seek { payload } => player.seek(payload.time),
        ServerAudioCommand::Volume { payload } => player.set_volume(payload.level),
        ServerAudioCommand::Mute { payload } => player.set_muted(payload.muted),
    }
}

/// What the connection delivered.
#[derive(Clone, Debug, PartialEq, Eq)]
pub enum Inbound {
    /// A text message that decoded to a command.
    Command(ServerAudioCommand),
    /// A text message that did not decode.
    Malformed,
    /// A message that is neither text nor a close.
    Other,
    /// The peer closed the connection.
    Closed,
    /// Reading failed.
    ReadError,
}

impl Inbound {
    /// Whether the session goes on after this delivery.
    pub open spec fn keeps_session(self) -> bool {
        !(self is Closed || self is ReadError)
    }
}

/// Takes one delivery from the connection. A command is forwarded; a
/// malformed or foreign message is dropped and the session goes on; a close
/// or a read error ends the session.
pub fn on_inbound(player: &mut AudioPlayerHandle, inbound: Inbound) -> (keep_going: bool)
    ensures
        keep_going == inbound.keeps_session(),
        final(player).shared() == old(player).shared(),
        final(player).connected() == old(player).connected(),
        inbound matches Inbound::Command(command) ==> final(player).pending()
            == old(player).queue_after(command.forwarded()),
        !(inbound is Command) ==> final(player).pending() == old(player).pending(),
{
    match inbound {
        Inbound::Command(command) => {
            handle_command(player, command);
            true
        },
        Inbound::Malformed => true,
        Inbound::Other => true,
        Inbound::Closed => false,
        Inbound::ReadError => false,
    }
}

/// Payload of `audio_finished`.
#[derive(Clone, Debug, PartialEq, Eq)]
pub struct AudioFinishedPayload {
    pub reason: String,
    pub error: Option<String>,
    /// Wall-clock time of the notification, milliseconds since the Unix
    /// epoch.
    pub finished_at: u64,
}

/// A message that the bridge sends.
#[derive(Debug, PartialEq, Eq)]
pub enum OutboundMessage {
    /// `audio_controller_register`
    Register { version: String },
    /// `audio_state_update`
    StateUpdate(AudioState),
    /// `audio_finished`
    Finished(AudioFinishedPayload),
    /// `ping`
    Ping,
}

impl OutboundMessage {
    /// The tag that the message travels under.
    pub open spec fn tag_text(&self) -> Seq<char> {
        match self {
            OutboundMessage::Register { .. } => "audio_controller_register"@,
            OutboundMessage::StateUpdate(_) => "audio_state_update"@,
            OutboundMessage::Finished(_) => "audio_finished"@,
            OutboundMessage::Ping => "ping"@,
        }
    }

    /// The tag that the message travels under.
    pub fn tag(&self) -> (tag: &'static str)
        ensures
            tag@ == self.tag_text(),
    {
        match self {
            OutboundMessage::Register { .. } => "audio_controller_register",
            OutboundMessage::StateUpdate(_) => "audio_state_update",
            OutboundMessage::Finished(_) => "audio_finished",
            OutboundMessage::Ping => "ping",
        }
    }
}

/// The address of the control endpoint of the server on `server_port`: the
/// same host and path for every session, whatever the port.
pub open spec fn server_url_text(server_port: u16) -> Seq<char> {
    "ws://127.0.0.1:"@ + decimal_text(server_port as nat) + "/ws"@
}

/// The address of the control endpoint of the server on `server_port`.
pub fn server_url(server_port: u16) -> (url: String)
    ensures
        url@ == server_url_text(server_port),
{
    let mut url = "ws://127.0.0.1:".to_owned();
    push_decimal(&mut url, server_port as u64);
    url.push_str("/ws");
    url
}

/// The message that opens every session.
pub fn registration() -> (message: OutboundMessage)
    ensures
        message matches OutboundMessage::Register { version } && version@ == "1.0.0"@,
{
    OutboundMessage::Register { version: "1.0.0".to_owned() }
}

/// The keepalive message.
pub fn ping() -> (message: OutboundMessage)
    ensures
        message == OutboundMessage::Ping,
{
    OutboundMessage::Ping
}

/// Whether `payload` is the notice that a track ran out at `finished_at`.
pub open spec fn is_end_of_track(payload: AudioFinishedPayload, finished_at: u64) -> bool {
    &&& payload.reason@ == "eof"@
    &&& payload.error is None
    &&& payload.finished_at == finished_at
}

/// What the publisher remembers between two looks at the engine: whether
/// the end of the current track has been announced, and the values of the
/// last update it sent.
#[derive(Clone, Debug, PartialEq, Eq)]
pub struct StatePublisher {
    pub finished_sent: bool,
    pub prev_is_playing: bool,
    pub prev_current_time: u64,
    pub prev_duration: u64,
    pub prev_volume: u8,
    pub prev_is_muted: bool,
    pub prev_is_loading: bool,
    pub prev_error: Option<String>,
}

/// What one look of the publisher sends: the finished notice, if any, goes
/// out before the update, if any.
#[derive(Debug, PartialEq, Eq)]
pub struct Emission {
    pub finished: Option<AudioFinishedPayload>,
    pub update: Option<AudioState>,
}

/// Whether a position differs from the last one sent by more than the
/// debounce threshold.
pub open spec fn time_changed(prev: u64, current: u64) -> bool {
    if current >= prev {
        current - prev > DEBOUNCE_MILLIS
    } else {
        prev - current > DEBOUNCE_MILLIS
    }
}

impl StatePublisher {
    /// The publisher at the start of a session.
    pub open spec fn initial() -> StatePublisher {
        StatePublisher {
            finished_sent: false,
            prev_is_playing: false,
            prev_current_time: 0,
            prev_duration: 0,
            prev_volume: UNSEEN_VOLUME,
            prev_is_muted: false,
            prev_is_loading: false,
            prev_error: None,
        }
    }

    /// Whether `state` is worth an update: some field other than the
    /// position differs from the last update, the error included, or the
    /// position differs by more than the debounce threshold. Errors are
    /// compared by what they spell. The publication time plays no part: it
    /// moves with every refresh of the engine.
    pub open spec fn state_changed(&self, state: AudioState) -> bool {
        ||| state.is_playing != self.prev_is_playing
        ||| time_changed(self.prev_current_time, state.current_time)
        ||| state.duration != self.prev_duration
        ||| state.volume != self.prev_volume
        ||| state.is_muted != self.prev_is_muted
        ||| state.is_loading != self.prev_is_loading
        ||| optional_text(state.error) != optional_text(self.prev_error)
    }

    /// The snapshot that the last update carried, as far as the publisher
    /// remembers it, stamped with publication time 0.
    pub open spec fn last_sent(&self) -> AudioState {
        AudioState {
            is_playing: self.prev_is_playing,
            current_time: self.prev_current_time,
            duration: self.prev_duration,
            volume: self.prev_volume,
            is_muted: self.prev_is_muted,
            is_loading: self.prev_is_loading,
            error: self.prev_error,
            updated_at: 0,
        }
    }

    /// Whether this look announces the end of the track: the last update
    /// said playing, the engine says finished, and the end has not been
    /// announced yet.
    pub open spec fn announces(&self, is_finished: bool) -> bool {
        self.prev_is_playing && is_finished && !self.finished_sent
    }

    /// The publisher after a look at `state` and `is_finished`.
    pub open spec fn after(self, state: AudioState, is_finished: bool) -> StatePublisher {
        let finished_sent = if state.is_playing && !self.prev_is_playing {
            false
        } else {
            self.finished_sent || self.announces(is_finished)
        };
        if self.state_changed(state) {
            StatePublisher {
                finished_sent,
                prev_is_playing: state.is_playing,
                prev_current_time: state.current_time,
                prev_duration: state.duration,
                prev_volume: state.volume,
                prev_is_muted: state.is_muted,
                prev_is_loading: state.is_loading,
                prev_error: state.error,
            }
        } else {
            StatePublisher { finished_sent, ..self }
        }
    }

    /// The publisher at the start of a session.
    pub fn new() -> (publisher: StatePublisher)
        ensures
            publisher == StatePublisher::initial(),
    {
        StatePublisher {
            finished_sent: false,
            prev_is_playing: false,
            prev_current_time: 0,
            prev_duration: 0,
            prev_volume: UNSEEN_VOLUME,
            prev_is_muted: false,
            prev_is_loading: false,
            prev_error: None,
        }
    }

    /// Whether `state` is worth an update.
    pub fn has_changed(&self, state: &AudioState) -> (changed: bool)
        ensures
            changed == self.state_changed(*state),
    {
        let moved: bool = if state.current_time >= self.prev_current_time {
            state.current_time - self.prev_current_time > DEBOUNCE_MILLIS
        } else {
            self.prev_current_time - state.current_time > DEBOUNCE_MILLIS
        };
        let error_changed: bool = !same_optional_text(&state.error, &self.prev_error);
        state.is_playing != self.prev_is_playing || moved || state.duration != self.prev_duration
            || state.volume != self.prev_volume || state.is_muted != self.prev_is_muted
            || state.is_loading != self.prev_is_loading || error_changed
    }

    /// One look at the engine's snapshot and finished flag, at wall-clock
    /// time `finished_at`.
    ///
    /// The end of a track is announced once: when the last update said
    /// playing, the engine says finished, and no notice has gone out since
    /// playback last started. An update goes out exactly when the state is
    /// worth one, and carries the snapshot as it was read.
    pub fn observe(&mut self, state: AudioState, is_finished: bool, finished_at: u64) -> (emission:
        Emission)
        ensures
            *final(self) == old(self).after(state, is_finished),
            old(self).announces(is_finished) <==> emission.finished is Some,
            emission.finished matches Some(payload) ==> is_end_of_track(payload, finished_at),
            emission.update == if old(self).state_changed(state) {
                Some(state)
            } else {
                None
            },
    {
        let finished = if self.prev_is_playing && is_finished && !self.finished_sent {
            self.finished_sent = true;
            Some(AudioFinishedPayload { reason: "eof".to_owned(), error: None, finished_at })
        } else {
            None
        };
        if state.is_playing && !self.prev_is_playing {
            self.finished_sent = false;
        }
        let update = if self.has_changed(&state) {
            self.prev_is_playing = state.is_playing;
            self.prev_current_time = state.current_time;
            self.prev_duration = state.duration;
            self.prev_volume = state.volume;
            self.prev_is_muted = state.is_muted;
            self.prev_is_loading = state.is_loading;
            self.prev_error = clone_text(&state.error);
            Some(state)
        } else {
            None
        };
        Emission { finished, update }
    }
}

/// One round of the publisher against an engine handle: reads the snapshot
/// and the finished flag, and, when the end of the track is announced,
/// sends `MarkFinished` so that the engine is ready for the next track.
pub fn publish_state(
    publisher: &mut StatePublisher,
    player: &mut AudioPlayerHandle,
    finished_at: u64,
) -> (emission: Emission)
    ensures
        *final(publisher) == old(publisher).after(
            old(player).shared().current(),
            old(player).shared().finished_flag(),
        ),
        old(publisher).announces(old(player).shared().finished_flag())
            <==> emission.finished is Some,
        emission.finished matches Some(payload) ==> is_end_of_track(payload, finished_at),
        emission.update == if old(publisher).state_changed(old(player).shared().current()) {
            Some(old(player).shared().current())
        } else {
            None
        },
        final(player).shared() == old(player).shared(),
        final(player).connected() == old(player).connected(),
        final(player).pending() == if emission.finished is Some {
            old(player).queue_after(AudioCommand::MarkFinished)
        } else {
            old(player).pending()
        },
{
    let state = player.get_state();
    let is_finished = player.is_finished();
    let emission = publisher.observe(state, is_finished, finished_at);
    if emission.finished.is_some() {
        player.mark_finished();
    }
    emission
}

/// Ends a session: the engine behind the handle is told to shut down.
pub fn end_session(player: &mut AudioPlayerHandle)
    ensures
        final(player).pending() == old(player).queue_after(AudioCommand::Shutdown),
        final(player).shared() == old(player).shared(),
        final(player).connected() == old(player).connected(),
{
    player.shutdown();
}

} // verus!
