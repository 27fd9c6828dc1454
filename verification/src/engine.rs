//! The engine around the playback state: the store it publishes into, the
//! handle through which callers reach it, and the step that applies one
//! command or one idle tick.

use vstd::prelude::*;
use crate::player::{
    apply_command, load_file, seek_to_position, sync_state, AudioCommand, AudioState,
    InternalState, LoadOutcome, SinkRequest, MAX_VOLUME,
};

verus! {

/// The store of the latest published snapshot and finished flag. Whole
/// values go in and whole values come out; nothing older than the last
/// write is ever served. The snapshot in the store is always well formed:
/// its position lies within a known duration and its volume within range.
#[derive(Debug)]
pub struct SharedAudioState {
    inner: AudioState,
    finished: bool,
}

impl SharedAudioState {
    #[verifier::type_invariant]
    spec fn holds_well_formed_snapshot(&self) -> bool {
        self.inner.wf()
    }

    /// The snapshot that a read returns.
    pub closed spec fn current(&self) -> AudioState {
        self.inner
    }

    /// The finished flag that a read returns.
    pub closed spec fn finished_flag(&self) -> bool {
        self.finished
    }

    /// A store that holds the silent snapshot, stamped `updated_at`, and a
    /// cleared finished flag.
    pub fn new(updated_at: u64) -> (store: SharedAudioState)
        ensures
            store.current() == AudioState::silent(updated_at),
            !store.finished_flag(),
    {
        SharedAudioState { inner: AudioState::new(updated_at), finished: false }
    }

    /// The latest snapshot.
    pub fn get(&self) -> (state: AudioState)
        ensures
            state == self.current(),
            state.wf(),
    {
        proof {
            use_type_invariant(self);
        }
        self.inner.clone()
    }

    /// The latest finished flag.
    pub fn is_finished(&self) -> (finished: bool)
        ensures
            finished == self.finished_flag(),
    {
        self.finished
    }

    /// Replaces the snapshot.
    pub(crate) fn update(&mut self, state: AudioState)
        requires
            state.wf(),
        ensures
            final(self).current() == state,
            final(self).finished_flag() == old(self).finished_flag(),
    {
        self.inner = state;
    }

    /// Replaces the finished flag.
    pub(crate) fn set_finished(&mut self, finished: bool)
        ensures
            final(self).finished_flag() == finished,
            final(self).current() == old(self).current(),
    {
        proof {
            use_type_invariant(&*self);
        }
        self.finished = finished;
    }
}

impl Default for SharedAudioState {
    /// A store that holds the silent snapshot, stamped with the current
    /// wall-clock time.
    fn default() -> (store: SharedAudioState)
        ensures
            store.current() == AudioState::silent(store.current().updated_at),
            !store.finished_flag(),
    {
        SharedAudioState { inner: AudioState::default(), finished: false }
    }
}

/// Whether `command` is `Load` of the path spelled `path`.
pub open spec fn is_load_of(command: AudioCommand, path: Seq<char>) -> bool {
    command matches AudioCommand::Load(p) && p@ == path
}

/// The caller's side of an engine: an ordered queue of commands that the
/// engine has not taken yet, and the store that the engine publishes into.
///
/// Sending never waits and never fails: once the engine has shut down a
/// command is dropped without notice. Reading never goes through the queue.
#[derive(Debug)]
pub struct AudioPlayerHandle {
    tx: Vec<AudioCommand>,
    shared_state: SharedAudioState,
    connected: bool,
}

impl AudioPlayerHandle {
    /// The commands sent and not yet taken, oldest first.
    pub closed spec fn pending(&self) -> Seq<AudioCommand> {
        self.tx@
    }

    /// The store behind the reads.
    pub closed spec fn shared(&self) -> SharedAudioState {
        self.shared_state
    }

    /// Whether the engine still takes commands.
    pub closed spec fn connected(&self) -> bool {
        self.connected
    }

    /// The queue after `command` is sent: one longer while the engine
    /// lives, unchanged afterwards.
    pub open spec fn queue_after(&self, command: AudioCommand) -> Seq<AudioCommand> {
        if self.connected() {
            self.pending().push(command)
        } else {
            self.pending()
        }
    }

    /// Sends `command`: queued behind what is already waiting while the
    /// engine lives, dropped once it has shut down.
    pub fn send(&mut self, command: AudioCommand)
        ensures
            final(self).pending() == old(self).queue_after(command),
            final(self).shared() == old(self).shared(),
            final(self).connected() == old(self).connected(),
    {
        if self.connected {
            self.tx.push(command);
        }
    }

    /// Sends `Load` for the file at `path`.
    pub fn load(&mut self, path: &str)
        ensures
            old(self).connected() ==> final(self).pending().len() == old(self).pending().len() + 1
                && final(self).pending().drop_last() == old(self).pending()
                && is_load_of(final(self).pending().last(), path@),
            !old(self).connected() ==> final(self).pending() == old(self).pending(),
            final(self).shared() == old(self).shared(),
            final(self).connected() == old(self).connected(),
    {
        let sent = path.to_owned();
        let ghost before = self.tx@;
        self.send(AudioCommand::Load(sent));
        proof {
            if self.connected {
                assert(self.tx@.drop_last() =~= before);
            }
        }
    }

    /// Sends `Play`.
    pub fn play(&mut self)
        ensures
            final(self).pending() == old(self).queue_after(AudioCommand::Play),
            final(self).shared() == old(self).shared(),
            final(self).connected() == old(self).connected(),
    {
        self.send(AudioCommand::Play);
    }

    /// Sends `Pause`.
    pub fn pause(&mut self)
        ensures
            final(self).pending() == old(self).queue_after(AudioCommand::Pause),
            final(self).shared() == old(self).shared(),
            final(self).connected() == old(self).connected(),
    {
        self.send(AudioCommand::Pause);
    }

    /// Sends `Stop`.
    pub fn stop(&mut self)
        ensures
            final(self).pending() == old(self).queue_after(AudioCommand::Stop),
            final(self).shared() == old(self).shared(),
            final(self).connected() == old(self).connected(),
    {
        self.send(AudioCommand::Stop);
    }

    /// Sends `Seek` to `position`, in milliseconds.
    pub fn seek(&mut self, position: i64)
        ensures
            final(self).pending() == old(self).queue_after(AudioCommand::Seek(position)),
            final(self).shared() == old(self).shared(),
            final(self).connected() == old(self).connected(),
    {
        self.send(AudioCommand::Seek(position));
    }

    /// Sends `SetVolume` with `level`, in percent.
    pub fn set_volume(&mut self, level: i64)
        ensures
            final(self).pending() == old(self).queue_after(AudioCommand::SetVolume(level)),
            final(self).shared() == old(self).shared(),
            final(self).connected() == old(self).connected(),
    {
        self.send(AudioCommand::SetVolume(level));
    }

    /// Sends `SetMuted`.
    pub fn set_muted(&mut self, muted: bool)
        ensures
            final(self).pending() == old(self).queue_after(AudioCommand::SetMuted(muted)),
            final(self).shared() == old(self).shared(),
            final(self).connected() == old(self).connected(),
    {
        self.send(AudioCommand::SetMuted(muted));
    }

    /// The number of commands sent and not yet taken.
    pub fn pending_count(&self) -> (count: usize)
        ensures
            count == self.pending().len(),
    {
        self.tx.len()
    }

    /// The latest published snapshot. The queue plays no part in it.
    ///
    /// Whatever the engine has been through, the position in the snapshot
    /// lies between 0 and the duration, where the duration is known, and the
    /// volume does not exceed the maximum.
    pub fn get_state(&self) -> (state: AudioState)
        ensures
            state == self.shared().current(),
            state.wf(),
            state.duration > 0 ==> 0 <= state.current_time <= state.duration,
            state.volume <= MAX_VOLUME,
    {
        self.shared_state.get()
    }

    /// The latest published finished flag.
    pub fn is_finished(&self) -> (finished: bool)
        ensures
            finished == self.shared().finished_flag(),
    {
        self.shared_state.is_finished()
    }

    /// Sends `MarkFinished`.
    pub fn mark_finished(&mut self)
        ensures
            final(self).pending() == old(self).queue_after(AudioCommand::MarkFinished),
            final(self).shared() == old(self).shared(),
            final(self).connected() == old(self).connected(),
    {
        self.send(AudioCommand::MarkFinished);
    }

    /// Sends `Shutdown`.
    pub fn shutdown(&mut self)
        ensures
            final(self).pending() == old(self).queue_after(AudioCommand::Shutdown),
            final(self).shared() == old(self).shared(),
            final(self).connected() == old(self).connected(),
    {
        self.send(AudioCommand::Shutdown);
    }
}

/// A handle to a new engine: nothing queued, the silent snapshot published.
pub fn create_audio_player() -> (created: Result<AudioPlayerHandle, String>)
    ensures
        created is Ok,
        created->Ok_0.pending() == Seq::<AudioCommand>::empty(),
        created->Ok_0.connected(),
        !created->Ok_0.shared().finished_flag(),
        created->Ok_0.shared().current() == AudioState::silent(
            created->Ok_0.shared().current().updated_at,
        ),
{
    Ok(
        AudioPlayerHandle {
            tx: Vec::new(),
            shared_state: SharedAudioState::default(),
            connected: true,
        },
    )
}

/// The engine: the playback state and whether the engine still runs.
///
/// The engine owns no device and never waits. Whoever runs it calls
/// [`AudioPlayer::step`] whenever a command may be waiting and at least every
/// [`TICK_MILLIS`] otherwise, performs the request that comes back, and
/// reports the outcome of an `Open` through [`AudioPlayer::complete_load`].
#[derive(Debug)]
pub struct AudioPlayer {
    state: InternalState,
    running: bool,
}

/// The longest the engine goes without republishing, in milliseconds.
pub const TICK_MILLIS: u64 = 10;

/// What a step publishes.
pub enum Publication {
    /// Nothing: the store stays as it is.
    Nothing,
    /// The snapshot alone, ahead of the outside work of a seek.
    Snapshot,
    /// The snapshot and the finished flag.
    Full,
}

/// Refreshes the position and publishes snapshot and finished flag.
fn publish(
    state: &mut InternalState,
    handle: &mut AudioPlayerHandle,
    sink_exhausted: Option<bool>,
    now: u64,
    updated_at: u64,
)
    requires
        old(state).wf(),
    ensures
        *final(state) == old(state).refreshed(now),
        final(state).wf(),
        final(handle).pending() == old(handle).pending(),
        final(handle).connected() == old(handle).connected(),
        AudioPlayer::published(
            old(handle).shared(),
            final(handle).shared(),
            Publication::Full,
            *final(state),
            sink_exhausted,
            updated_at,
        ),
{
    let out = sync_state(state, sink_exhausted, now, updated_at);
    handle.shared_state.set_finished(out.finished);
    handle.shared_state.update(out.snapshot);
}

impl AudioPlayer {
    #[verifier::type_invariant]
    spec fn holds_well_formed_state(&self) -> bool {
        self.state.wf()
    }

    /// The playback state.
    pub closed spec fn state(&self) -> InternalState {
        self.state
    }

    /// Whether the engine has not shut down.
    pub closed spec fn running(&self) -> bool {
        self.running
    }

    /// The playback state after the engine has taken `command` at clock
    /// reading `now`. Every command but `Load`, `Seek` and `Shutdown` is
    /// followed by a refresh of the position.
    pub open spec fn state_after(
        state: InternalState,
        command: AudioCommand,
        now: u64,
    ) -> InternalState {
        let applied = state.after_command(command, now);
        match command {
            AudioCommand::Load(_) | AudioCommand::Seek(_) | AudioCommand::Shutdown => applied,
            _ => applied.refreshed(now),
        }
    }

    /// What the engine publishes after taking `command` in `state`.
    pub open spec fn publication_for(state: InternalState, command: AudioCommand) -> Publication {
        match command {
            AudioCommand::Load(_) | AudioCommand::Shutdown => Publication::Nothing,
            AudioCommand::Seek(_) => if state.has_track() {
                Publication::Snapshot
            } else {
                Publication::Nothing
            },
            _ => Publication::Full,
        }
    }

    /// Whether `after` is the store `before` once `state` has been published
    /// in the given way at wall-clock time `updated_at`.
    pub open spec fn published(
        before: SharedAudioState,
        after: SharedAudioState,
        publication: Publication,
        state: InternalState,
        sink_exhausted: Option<bool>,
        updated_at: u64,
    ) -> bool {
        match publication {
            Publication::Nothing => after == before,
            Publication::Snapshot => after.current() == state.snapshot(updated_at)
                && after.finished_flag() == before.finished_flag(),
            Publication::Full => after.current() == state.snapshot(updated_at)
                && after.finished_flag() == state.finished_with(sink_exhausted),
        }
    }

    /// A new engine: silent and running.
    pub fn new() -> (player: AudioPlayer)
        ensures
            player.state() == InternalState::initial(),
            player.running(),
            player.state().wf(),
    {
        AudioPlayer { state: InternalState::default(), running: true }
    }

    /// Whether the engine has not shut down.
    pub fn is_running(&self) -> (running: bool)
        ensures
            running == self.running(),
    {
        self.running
    }

    /// The gain that the sink is driven at, in percent.
    pub fn output_gain(&self) -> (gain: u8)
        ensures
            gain == self.state().gain(),
    {
        self.state.output_gain()
    }

    /// The playback state is taken out for the length of a turn, so that the
    /// functions of the playback state can work on it, and put back at the
    /// end. In between the engine holds the silent state.
    fn take_state(&mut self) -> (state: InternalState)
        ensures
            state == old(self).state(),
            state.wf(),
            final(self).state() == InternalState::initial(),
            final(self).running() == old(self).running(),
    {
        proof {
            use_type_invariant(&*self);
        }
        let mut state = InternalState::default();
        std::mem::swap(&mut self.state, &mut state);
        state
    }

    /// One turn of the engine at clock reading `now` and wall-clock time
    /// `updated_at`.
    ///
    /// With a command waiting, the oldest one is taken and applied, and what
    /// comes back is the request to perform on the sink. `Load` publishes
    /// nothing yet; `Seek` with a track loaded publishes the new position
    /// at once; `Shutdown` ends the engine and disconnects the handle; every
    /// other command refreshes the position and publishes snapshot and
    /// finished flag. With nothing waiting, the turn is an idle tick: the
    /// position is refreshed and published. An engine that has shut down
    /// does nothing.
    ///
    /// `sink_exhausted` is `None` when there is no sink, and otherwise says
    /// whether the sink has run out of material.
    pub fn step(
        &mut self,
        handle: &mut AudioPlayerHandle,
        sink_exhausted: Option<bool>,
        now: u64,
        updated_at: u64,
    ) -> (request: SinkRequest)
        ensures
            final(self).state().wf(),
            !old(self).running() ==> {
                &&& request == SinkRequest::Nothing
                &&& *final(self) == *old(self)
                &&& *final(handle) == *old(handle)
            },
            old(self).running() && old(handle).pending().len() == 0 ==> {
                &&& request == SinkRequest::Nothing
                &&& final(self).running()
                &&& final(self).state() == old(self).state().refreshed(now)
                &&& final(handle).pending() == old(handle).pending()
                &&& final(handle).connected() == old(handle).connected()
                &&& AudioPlayer::published(
                    old(handle).shared(),
                    final(handle).shared(),
                    Publication::Full,
                    final(self).state(),
                    sink_exhausted,
                    updated_at,
                )
            },
            old(self).running() && old(handle).pending().len() > 0 ==> {
                let command = old(handle).pending()[0];
                &&& request == old(self).state().request_for(command)
                &&& final(self).state() == AudioPlayer::state_after(old(self).state(), command, now)
                &&& final(self).running() == !(command is Shutdown)
                &&& final(handle).pending() == old(handle).pending().subrange(
                    1,
                    old(handle).pending().len() as int,
                )
                &&& final(handle).connected() == (old(handle).connected() && !(command is Shutdown))
                &&& AudioPlayer::published(
                    old(handle).shared(),
                    final(handle).shared(),
                    AudioPlayer::publication_for(old(self).state(), command),
                    final(self).state(),
                    sink_exhausted,
                    updated_at,
                )
            },
    {
        proof {
            use_type_invariant(&*self);
        }
        if !self.running {
            return SinkRequest::Nothing;
        }
        let mut state = self.take_state();
        let request = if handle.tx.len() == 0 {
            publish(&mut state, handle, sink_exhausted, now, updated_at);
            SinkRequest::Nothing
        } else {
            let command = handle.tx.remove(0);
            match command {
                AudioCommand::Load(path) => {
                    apply_command(&mut state, AudioCommand::Load(path), now)
                },
                AudioCommand::Seek(position) => {
                    match seek_to_position(&mut state, position, now) {
                        Some(plan) => {
                            let out = sync_state(&mut state, None, now, updated_at);
                            handle.shared_state.update(out.snapshot);
                            SinkRequest::Reopen {
                                path: plan.path,
                                position: plan.position,
                                gain: plan.gain,
                                paused: plan.paused,
                            }
                        },
                        None => SinkRequest::Nothing,
                    }
                },
                AudioCommand::Shutdown => {
                    self.running = false;
                    handle.connected = false;
                    SinkRequest::Shutdown
                },
                other => {
                    let request = apply_command(&mut state, other, now);
                    publish(&mut state, handle, sink_exhausted, now, updated_at);
                    request
                },
            }
        };
        self.state = state;
        request
    }

    /// Takes in the outcome of the `Open` request for `path`, refreshes the
    /// position and publishes snapshot and finished flag.
    ///
    /// `sink_exhausted` describes the sink that is in place after the
    /// attempt. An engine that has shut down does nothing.
    pub fn complete_load(
        &mut self,
        handle: &mut AudioPlayerHandle,
        path: String,
        outcome: LoadOutcome,
        sink_exhausted: Option<bool>,
        now: u64,
        updated_at: u64,
    )
        ensures
            final(self).state().wf(),
            final(self).running() == old(self).running(),
            final(handle).pending() == old(handle).pending(),
            final(handle).connected() == old(handle).connected(),
            !old(self).running() ==> *final(self) == *old(self) && *final(handle) == *old(handle),
            old(self).running() ==> {
                &&& final(self).state()
                    == old(self).state().after_load(path, outcome, now).refreshed(now)
                &&& AudioPlayer::published(
                    old(handle).shared(),
                    final(handle).shared(),
                    Publication::Full,
                    final(self).state(),
                    sink_exhausted,
                    updated_at,
                )
                &&& !final(handle).shared().current().is_loading
                &&& outcome is Failed ==> final(handle).shared().current().error == Some(
                    outcome->Failed_0,
                )
            },
    {
        proof {
            use_type_invariant(&*self);
        }
        if !self.running {
            return ;
        }
        let mut state = self.take_state();
        load_file(&mut state, path, outcome, now);
        publish(&mut state, handle, sink_exhausted, now, updated_at);
        self.state = state;
    }
}

} // verus!
