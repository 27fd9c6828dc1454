//! Laws of the engine and of the publisher, proved from the transition
//! functions that the executable code is held to.

use vstd::prelude::*;
use crate::bridge::{StatePublisher, DEBOUNCE_MILLIS};
use crate::text::optional_text;
use crate::engine::{AudioPlayer, Publication};
use crate::player::{
    clamp_to_duration, saturating_sum, seek_target, AudioCommand, AudioState, InternalState,
    LoadOutcome, SinkRequest,
};

verus! {

/// One thing that the engine takes in, with the clock reading at which it
/// does.
pub enum EngineInput {
    /// A command from the queue.
    Command { command: AudioCommand, now: u64 },
    /// An idle tick.
    Tick { now: u64 },
    /// The outcome of opening the file at `path`.
    LoadDone { path: String, outcome: LoadOutcome, now: u64 },
}

/// The playback state after the engine has taken `input`.
pub open spec fn after_input(state: InternalState, input: EngineInput) -> InternalState {
    match input {
        EngineInput::Command { command, now } => AudioPlayer::state_after(state, command, now),
        EngineInput::Tick { now } => state.refreshed(now),
        EngineInput::LoadDone { path, outcome, now } => {
            state.after_load(path, outcome, now).refreshed(now)
        },
    }
}

/// The playback state after the engine has taken `inputs`, first to last.
pub open spec fn after_inputs(state: InternalState, inputs: Seq<EngineInput>) -> InternalState
    decreases inputs.len(),
{
    if inputs.len() == 0 {
        state
    } else {
        after_input(after_inputs(state, inputs.drop_last()), inputs.last())
    }
}

/// Whether `input` puts a new track in place: it is the outcome of a load
/// that succeeded.
pub open spec fn puts_track_in_place(input: EngineInput) -> bool {
    input matches EngineInput::LoadDone { outcome, .. } && outcome is Loaded
}

/// Whether no input of the run puts a new track in place.
pub open spec fn no_track_change(inputs: Seq<EngineInput>) -> bool {
    forall|i: int| 0 <= i < inputs.len() ==> !puts_track_in_place(#[trigger] inputs[i])
}

/// Whatever the engine takes in, in whatever order, the playback state
/// keeps its invariants: the volume stays in range, the anchor is set
/// exactly while playing, and the position of every published snapshot
/// lies within the duration, where the duration is known.
pub proof fn lemma_invariants_hold_throughout(
    state: InternalState,
    inputs: Seq<EngineInput>,
    updated_at: u64,
)
    requires
        state.wf(),
    ensures
        after_inputs(state, inputs).wf(),
        after_inputs(state, inputs).snapshot(updated_at).wf(),
    decreases inputs.len(),
{
    if inputs.len() > 0 {
        lemma_invariants_hold_throughout(state, inputs.drop_last(), updated_at);
    }
}

/// Whatever commands and idle ticks follow one another on a track of known
/// duration, and whatever loads fail in between, the duration stays what it
/// is and the position stays within the track: every state on the way
/// publishes a position between 0 and the duration.
pub proof fn lemma_position_within_duration(
    state: InternalState,
    inputs: Seq<EngineInput>,
    updated_at: u64,
)
    requires
        state.wf(),
        state.duration > 0,
        no_track_change(inputs),
    ensures
        after_inputs(state, inputs).duration == state.duration,
        0 <= after_inputs(state, inputs).snapshot(updated_at).current_time <= state.duration,
    decreases inputs.len(),
{
    lemma_invariants_hold_throughout(state, inputs, updated_at);
    if inputs.len() > 0 {
        let earlier = inputs.drop_last();
        assert forall|i: int| 0 <= i < earlier.len() implies !puts_track_in_place(
            #[trigger] earlier[i],
        ) by {
            assert(earlier[i] == inputs[i]);
        }
        lemma_position_within_duration(state, earlier, updated_at);
        assert(!puts_track_in_place(inputs[inputs.len() - 1]));
    }
}

/// A seek on a loaded track shows at once: the state that is published
/// ahead of the outside work already holds the clamped target.
pub proof fn lemma_seek_shows_at_once(
    state: InternalState,
    position: i64,
    now: u64,
    updated_at: u64,
)
    requires
        state.wf(),
        state.has_track(),
    ensures
        AudioPlayer::publication_for(state, AudioCommand::Seek(position)) == Publication::Snapshot,
        AudioPlayer::state_after(state, AudioCommand::Seek(position), now).snapshot(
            updated_at,
        ).current_time == seek_target(position, state.duration),
        0 <= seek_target(position, state.duration),
        state.duration > 0 ==> seek_target(position, state.duration) <= state.duration,
{
}

/// Muting and unmuting leave the stored volume alone, and unmuting asks for
/// exactly the gain that the volume stands for: the gain from before the
/// mute, if the state was not muted then.
pub proof fn lemma_mute_round_trip(state: InternalState, now_muted: u64, now_unmuted: u64)
    requires
        state.wf(),
    ensures
        ({
            let muted = AudioPlayer::state_after(state, AudioCommand::SetMuted(true), now_muted);
            let unmuted = AudioPlayer::state_after(
                muted,
                AudioCommand::SetMuted(false),
                now_unmuted,
            );
            &&& muted.volume == state.volume
            &&& muted.gain() == 0
            &&& unmuted.volume == state.volume
            &&& unmuted.gain() == state.volume
            &&& !state.is_muted ==> unmuted.gain() == state.gain()
            &&& state.has_track() ==> muted.request_for(AudioCommand::SetMuted(false))
                == SinkRequest::SetGain(state.volume)
        }),
{
}

/// While a track plays, the position follows the clock: `later`
/// milliseconds after a seek it stands that far behind the target, held
/// back to the duration where the duration is known.
pub proof fn lemma_position_follows_clock(
    state: InternalState,
    position: i64,
    now: u64,
    later: u64,
)
    requires
        state.wf(),
        state.has_track(),
        state.is_playing,
        now + later <= u64::MAX,
    ensures
        ({
            let sought = state.after_seek(position, now);
            let target = seek_target(position, state.duration);
            &&& sought.position_at(now) == target
            &&& sought.position_at((now + later) as u64) == clamp_to_duration(
                saturating_sum(later, target),
                state.duration,
            )
        }),
{
}

/// A pause holds the position: a track that is paused while it plays stops
/// where the clock had brought it, does not move for as long as it stays
/// paused, and resumes from where it was paused, whatever time has passed
/// in between.
pub proof fn lemma_pause_holds_position(
    state: InternalState,
    paused_at: u64,
    idle_at: u64,
    resumed_at: u64,
)
    requires
        state.wf(),
        state.has_track(),
        state.is_playing,
    ensures
        ({
            let paused = state.after_pause(paused_at);
            let resumed = paused.refreshed(idle_at).after_play(resumed_at);
            &&& paused.current_time == state.position_at(paused_at)
            &&& paused.refreshed(idle_at) == paused
            &&& resumed.is_playing
            &&& resumed.position_at(resumed_at) == paused.current_time
        }),
{
}

/// `MarkFinished` is an acknowledgement that can be repeated: a second one
/// changes nothing.
pub proof fn lemma_mark_finished_is_idempotent(state: InternalState, first: u64, second: u64)
    requires
        state.wf(),
    ensures
        ({
            let marked = AudioPlayer::state_after(state, AudioCommand::MarkFinished, first);
            &&& !marked.is_playing
            &&& marked.current_time == state.duration
            &&& AudioPlayer::state_after(marked, AudioCommand::MarkFinished, second) == marked
            &&& !marked.finished_with(Some(true))
        }),
{
}

/// The gain that a request sets on a sink, if it sets one.
pub open spec fn requested_gain(request: SinkRequest) -> Option<u8> {
    match request {
        SinkRequest::Open { gain, .. } => Some(gain),
        SinkRequest::Reopen { gain, .. } => Some(gain),
        SinkRequest::SetGain(gain) => Some(gain),
        _ => None,
    }
}

/// Whenever a command has a gain set on a sink, it is the gain of the state
/// that the command leaves behind: nothing while that state is muted,
/// whatever its volume, and the volume otherwise.
pub proof fn lemma_sink_gain_follows_state(state: InternalState, command: AudioCommand, now: u64)
    ensures
        requested_gain(state.request_for(command)) matches Some(gain) ==> {
            &&& gain == state.after_command(command, now).gain()
            &&& state.after_command(command, now).is_muted ==> gain == 0
        },
{
}

/// A load that fails is recorded and nothing more: the message becomes the
/// error, loading ends, and the track, the position, the volume and
/// `is_playing` stay as they were. The state still obeys its invariants, so
/// every later command is taken as usual.
pub proof fn lemma_failed_load_is_recorded(
    state: InternalState,
    path: String,
    message: String,
    now: u64,
)
    requires
        state.wf(),
    ensures
        ({
            let failed = state.after_load(path, LoadOutcome::Failed(message), now);
            &&& failed.error == Some(message)
            &&& !failed.is_loading
            &&& failed.wf()
            &&& failed == (InternalState { error: Some(message), is_loading: false, ..state })
        }),
{
}

/// After `Stop` the position is 0, and a `Seek` that follows with no load
/// in between changes nothing, asks for nothing and publishes nothing.
pub proof fn lemma_seek_after_stop(
    state: InternalState,
    position: i64,
    now_stop: u64,
    now_seek: u64,
)
    ensures
        ({
            let stopped = AudioPlayer::state_after(state, AudioCommand::Stop, now_stop);
            &&& stopped.current_time == 0
            &&& !stopped.has_track()
            &&& AudioPlayer::state_after(stopped, AudioCommand::Seek(position), now_seek) == stopped
            &&& stopped.request_for(AudioCommand::Seek(position)) == SinkRequest::Nothing
            &&& AudioPlayer::publication_for(stopped, AudioCommand::Seek(position))
                == Publication::Nothing
        }),
{
}

/// Whether `state` agrees with the publisher's last update in every field
/// but the position.
pub open spec fn only_position_may_differ(publisher: StatePublisher, state: AudioState) -> bool {
    &&& state.is_playing == publisher.prev_is_playing
    &&& state.duration == publisher.prev_duration
    &&& state.volume == publisher.prev_volume
    &&& state.is_muted == publisher.prev_is_muted
    &&& state.is_loading == publisher.prev_is_loading
    &&& optional_text(state.error) == optional_text(publisher.prev_error)
}

/// The debounce: while nothing but the position differs from the last
/// update, an update goes out exactly when the position has moved by more
/// than the threshold, in either direction; as soon as any other field
/// differs, the error among them, an update goes out. The publication time
/// is no such field.
pub proof fn lemma_debounce(publisher: StatePublisher, state: AudioState)
    ensures
        only_position_may_differ(publisher, state) ==> (publisher.state_changed(state) <==> (
        state.current_time - publisher.prev_current_time > DEBOUNCE_MILLIS
            || publisher.prev_current_time - state.current_time > DEBOUNCE_MILLIS)),
        !only_position_may_differ(publisher, state) ==> publisher.state_changed(state),
        publisher.state_changed(state) ==> publisher.after(state, false).prev_current_time
            == state.current_time,
        !publisher.state_changed(state) ==> publisher.after(state, false).prev_current_time
            == publisher.prev_current_time,
        optional_text(state.error) != optional_text(publisher.prev_error)
            ==> publisher.state_changed(state),
        !publisher.state_changed(
            AudioState { updated_at: state.updated_at, ..publisher.last_sent() },
        ),
{
}

/// A failure reaches the observer: once a load has failed, the next look
/// of a publisher whose last update carried no error, or another one, sends
/// an update, and the update carries the message of the failure.
pub proof fn lemma_failure_is_reported(
    publisher: StatePublisher,
    state: InternalState,
    path: String,
    message: String,
    now: u64,
    updated_at: u64,
    is_finished: bool,
)
    requires
        optional_text(publisher.prev_error) != Some(message@),
    ensures
        ({
            let failed = state.after_load(path, LoadOutcome::Failed(message), now).refreshed(now);
            let seen = failed.snapshot(updated_at);
            &&& seen.error == Some(message)
            &&& publisher.state_changed(seen)
            &&& publisher.after(seen, is_finished).prev_error == Some(message)
        }),
{
}

/// One look of the publisher at the engine.
pub struct Look {
    pub state: AudioState,
    pub is_finished: bool,
}

/// Whether no look of the run sees playback start: at no look does the
/// snapshot say playing while the last update said not playing.
pub open spec fn no_start_seen(publisher: StatePublisher, looks: Seq<Look>) -> bool
    decreases looks.len(),
{
    if looks.len() == 0 {
        true
    } else {
        &&& !(looks[0].state.is_playing && !publisher.prev_is_playing)
        &&& no_start_seen(
            publisher.after(looks[0].state, looks[0].is_finished),
            looks.drop_first(),
        )
    }
}

/// The number of finished notices that go out over a run of looks.
pub open spec fn notices_sent(publisher: StatePublisher, looks: Seq<Look>) -> nat
    decreases looks.len(),
{
    if looks.len() == 0 {
        0
    } else {
        let here: nat = if publisher.announces(looks[0].is_finished) {
            1
        } else {
            0
        };
        here + notices_sent(
            publisher.after(looks[0].state, looks[0].is_finished),
            looks.drop_first(),
        )
    }
}

/// Once the end of a track has been announced, no further notice goes out
/// for as long as no look sees playback start, however often the engine
/// still says finished.
pub proof fn lemma_no_second_notice(publisher: StatePublisher, looks: Seq<Look>)
    requires
        publisher.finished_sent,
        no_start_seen(publisher, looks),
    ensures
        notices_sent(publisher, looks) == 0,
    decreases looks.len(),
{
    if looks.len() > 0 {
        lemma_no_second_notice(
            publisher.after(looks[0].state, looks[0].is_finished),
            looks.drop_first(),
        );
    }
}

/// A track that runs out while playing is announced exactly once: the look
/// that first sees it finished sends the notice, and the looks after it send
/// none for as long as no look sees playback start.
pub proof fn lemma_one_notice_per_track(publisher: StatePublisher, looks: Seq<Look>)
    requires
        publisher.prev_is_playing,
        !publisher.finished_sent,
        looks.len() > 0,
        looks[0].is_finished,
        no_start_seen(publisher, looks),
    ensures
        publisher.announces(looks[0].is_finished),
        notices_sent(publisher, looks) == 1,
{
    lemma_no_second_notice(
        publisher.after(looks[0].state, looks[0].is_finished),
        looks.drop_first(),
    );
}

} // verus!
