use audio_controller::engine::{create_audio_player, AudioPlayer, AudioPlayerHandle, SharedAudioState};
use audio_controller::player::{
    apply_command, clamp_level, load_file, seek_to_position, sync_state, timestamp_now,
    AudioCommand, AudioState, InternalState, LoadOutcome, SeekPlan, SinkRequest, MAX_VOLUME,
};

fn loaded(duration: u64, now: u64) -> InternalState {
    let mut state = InternalState::default();
    let request = apply_command(&mut state, AudioCommand::Load("track.mp3".to_string()), now);
    assert_eq!(request, SinkRequest::Open { path: "track.mp3".to_string(), gain: 100 });
    load_file(&mut state, "track.mp3".to_string(), LoadOutcome::Loaded { duration }, now);
    state
}

fn session() -> (AudioPlayer, AudioPlayerHandle) {
    (AudioPlayer::new(), create_audio_player().unwrap())
}

fn session_with_track(duration: u64, now: u64) -> (AudioPlayer, AudioPlayerHandle) {
    let (mut player, mut handle) = session();
    handle.load("track.mp3");
    let request = player.step(&mut handle, None, now, 1);
    assert_eq!(request, SinkRequest::Open { path: "track.mp3".to_string(), gain: 100 });
    player.complete_load(
        &mut handle,
        "track.mp3".to_string(),
        LoadOutcome::Loaded { duration },
        Some(false),
        now,
        2,
    );
    (player, handle)
}

#[test]
fn default_state_is_silence() {
    let state = InternalState::default();
    assert!(!state.is_playing);
    assert_eq!(state.current_time, 0);
    assert_eq!(state.duration, 0);
    assert_eq!(state.volume, 100);
    assert_eq!(state.pre_mute_volume, 100);
    assert!(!state.is_muted);
    assert!(!state.is_loading);
    assert_eq!(state.error, None);
    assert_eq!(state.start_time, None);
    assert_eq!(state.pause_offset, 0);
    assert_eq!(state.current_path, None);
    assert_eq!(MAX_VOLUME, 100);
}

#[test]
fn default_snapshot_is_silence_with_a_timestamp() {
    let state = AudioState::default();
    assert_eq!(state, AudioState::new(state.updated_at));
    assert!(!state.is_playing);
    assert_eq!(state.volume, 100);
    assert_eq!(state.error, None);
    // Any clock that is not set before 2001 reads above this.
    assert!(state.updated_at > 978_307_200_000);
}

#[test]
fn timestamp_is_in_milliseconds() {
    let a = timestamp_now();
    let b = timestamp_now();
    assert!(a > 978_307_200_000);
    assert!(a < u64::MAX / 1_000);
    assert!(a.abs_diff(b) < 60_000);
}

#[test]
fn load_success_starts_playing_from_zero() {
    let state = loaded(180_000, 500);
    assert!(state.is_playing);
    assert_eq!(state.current_time, 0);
    assert_eq!(state.duration, 180_000);
    assert!(!state.is_loading);
    assert_eq!(state.error, None);
    assert_eq!(state.start_time, Some(500));
    assert_eq!(state.pause_offset, 0);
    assert_eq!(state.current_path, Some("track.mp3".to_string()));
}

#[test]
fn load_marks_loading_until_the_outcome_is_known() {
    let mut state = InternalState::default();
    state.error = Some("old".to_string());
    apply_command(&mut state, AudioCommand::Load("a.mp3".to_string()), 0);
    assert!(state.is_loading);
    assert_eq!(state.error, None);
    assert!(!state.is_playing);
}

#[test]
fn load_of_a_missing_file_sets_the_error_and_ends_loading() {
    let (mut player, mut handle) = session();
    handle.load("/does/not/exist");
    let request = player.step(&mut handle, None, 0, 1);
    assert_eq!(request, SinkRequest::Open { path: "/does/not/exist".to_string(), gain: 100 });
    let message = "Failed to open file '/does/not/exist': not found".to_string();
    player.complete_load(
        &mut handle,
        "/does/not/exist".to_string(),
        LoadOutcome::Failed(message.clone()),
        None,
        5,
        6,
    );
    let state = handle.get_state();
    assert_eq!(state.error, Some(message));
    assert!(!state.is_loading);
    assert!(!state.is_playing);
    assert!(player.is_running());

    // The engine still takes commands.
    handle.set_volume(40);
    assert_eq!(player.step(&mut handle, None, 10, 11), SinkRequest::Nothing);
    assert_eq!(handle.get_state().volume, 40);
}

#[test]
fn failed_load_leaves_playing_as_it_was() {
    let mut state = loaded(60_000, 0);
    apply_command(&mut state, AudioCommand::Load("b.mp3".to_string()), 1_000);
    load_file(&mut state, "b.mp3".to_string(), LoadOutcome::Failed("bad".to_string()), 1_000);
    assert!(state.is_playing);
    assert_eq!(state.error, Some("bad".to_string()));
    assert!(!state.is_loading);
    assert_eq!(state.current_path, Some("track.mp3".to_string()));
    assert_eq!(state.duration, 60_000);
}

#[test]
fn seek_then_play_scenario() {
    let (mut player, mut handle) = session_with_track(180_000, 1_000);
    handle.seek(90_000);
    let request = player.step(&mut handle, Some(false), 1_200, 3);
    assert_eq!(
        request,
        SinkRequest::Reopen {
            path: "track.mp3".to_string(),
            position: 90_000,
            gain: 100,
            paused: false,
        }
    );
    assert_eq!(handle.get_state().current_time, 90_000);

    handle.play();
    assert_eq!(player.step(&mut handle, Some(false), 1_200, 4), SinkRequest::Resume);
    assert_eq!(player.step(&mut handle, Some(false), 6_200, 5), SinkRequest::Nothing);
    let t = handle.get_state().current_time;
    assert_eq!(t, 95_000);
    assert!(t >= 94_800 && t <= 95_200);
}

#[test]
fn seek_is_clamped_to_the_track() {
    let mut state = loaded(180_000, 0);
    let plan = seek_to_position(&mut state, -5, 10);
    assert_eq!(state.current_time, 0);
    assert_eq!(
        plan,
        Some(SeekPlan { path: "track.mp3".to_string(), position: 0, gain: 100, paused: false })
    );
    seek_to_position(&mut state, 999_999, 20);
    assert_eq!(state.current_time, 180_000);
    assert_eq!(state.pause_offset, 180_000);
    seek_to_position(&mut state, 180_000, 30);
    assert_eq!(state.current_time, 180_000);
    seek_to_position(&mut state, 1, 40);
    assert_eq!(state.current_time, 1);
    assert_eq!(state.start_time, Some(40));
}

#[test]
fn seek_with_unknown_duration_only_clamps_below() {
    let mut state = loaded(0, 0);
    seek_to_position(&mut state, 7_000_000, 10);
    assert_eq!(state.current_time, 7_000_000);
    seek_to_position(&mut state, i64::MIN, 10);
    assert_eq!(state.current_time, 0);
    seek_to_position(&mut state, i64::MAX, 10);
    assert_eq!(state.current_time, i64::MAX as u64);
}

#[test]
fn seek_while_paused_plans_a_paused_sink() {
    let mut state = loaded(180_000, 0);
    apply_command(&mut state, AudioCommand::Pause, 1_000);
    apply_command(&mut state, AudioCommand::SetMuted(true), 1_000);
    let plan = seek_to_position(&mut state, 30_000, 2_000).unwrap();
    assert!(plan.paused);
    assert_eq!(plan.gain, 0);
    assert_eq!(plan.position, 30_000);
    assert_eq!(state.start_time, None);
    assert!(!state.is_playing);
    assert_eq!(state.current_time, 30_000);
}

#[test]
fn position_stays_within_the_track() {
    let (mut player, mut handle) = session_with_track(10_000, 0);
    let mut now = 0;
    for round in 0..40u64 {
        now += 700;
        match round % 4 {
            0 => handle.pause(),
            1 => handle.seek(round as i64 * 900 - 4_000),
            2 => handle.play(),
            _ => {}
        }
        player.step(&mut handle, Some(false), now, round);
        let t = handle.get_state().current_time;
        assert!(t <= 10_000, "position {} at round {}", t, round);
    }
}

#[test]
fn pause_freezes_the_position() {
    let mut state = loaded(180_000, 1_000);
    let request = apply_command(&mut state, AudioCommand::Pause, 3_500);
    assert_eq!(request, SinkRequest::Pause);
    assert!(!state.is_playing);
    assert_eq!(state.start_time, None);
    assert_eq!(state.pause_offset, 2_500);
    assert_eq!(state.current_time, 2_500);
    let out = sync_state(&mut state, Some(false), 9_000, 1);
    assert_eq!(out.snapshot.current_time, 2_500);

    let request = apply_command(&mut state, AudioCommand::Play, 10_000);
    assert_eq!(request, SinkRequest::Resume);
    assert_eq!(state.start_time, Some(10_000));
    let out = sync_state(&mut state, Some(false), 10_400, 2);
    assert_eq!(out.snapshot.current_time, 2_900);
}

#[test]
fn pause_past_the_end_holds_the_position_at_the_duration() {
    let mut state = loaded(5_000, 0);
    apply_command(&mut state, AudioCommand::Pause, 8_000);
    assert_eq!(state.current_time, 5_000);
    assert_eq!(state.pause_offset, 8_000);
}

#[test]
fn playing_position_is_held_at_the_duration() {
    let mut state = loaded(5_000, 0);
    let out = sync_state(&mut state, Some(true), 60_000, 7);
    assert_eq!(out.snapshot.current_time, 5_000);
    assert_eq!(out.snapshot.updated_at, 7);
    assert!(out.finished);
}

#[test]
fn clock_before_the_anchor_counts_as_no_time() {
    let mut state = loaded(5_000, 1_000);
    let out = sync_state(&mut state, Some(false), 400, 1);
    assert_eq!(out.snapshot.current_time, 0);
}

#[test]
fn elapsed_time_saturates() {
    let mut state = loaded(0, 0);
    seek_to_position(&mut state, i64::MAX, 0);
    let out = sync_state(&mut state, Some(false), u64::MAX, 1);
    assert_eq!(out.snapshot.current_time, u64::MAX);
}

#[test]
fn play_without_a_track_does_nothing() {
    let mut state = InternalState::default();
    let request = apply_command(&mut state, AudioCommand::Play, 100);
    assert_eq!(request, SinkRequest::Nothing);
    assert_eq!(state, InternalState::default());
}

#[test]
fn stop_resets_and_a_following_seek_changes_nothing() {
    let (mut player, mut handle) = session_with_track(180_000, 0);
    handle.stop();
    assert_eq!(player.step(&mut handle, Some(false), 2_000, 10), SinkRequest::Stop);
    let stopped = handle.get_state();
    assert_eq!(stopped.current_time, 0);
    assert!(!stopped.is_playing);
    assert_eq!(stopped.updated_at, 10);

    handle.seek(50_000);
    assert_eq!(player.step(&mut handle, None, 3_000, 11), SinkRequest::Nothing);
    assert_eq!(handle.get_state(), stopped);
}

#[test]
fn stop_clears_the_track() {
    let mut state = loaded(180_000, 0);
    apply_command(&mut state, AudioCommand::Seek(10_000), 5);
    let request = apply_command(&mut state, AudioCommand::Stop, 10);
    assert_eq!(request, SinkRequest::Stop);
    assert_eq!(state.current_time, 0);
    assert_eq!(state.pause_offset, 0);
    assert_eq!(state.start_time, None);
    assert_eq!(state.current_path, None);
    assert!(!state.is_playing);
    assert_eq!(state.duration, 180_000);
    let before = state.clone();
    assert_eq!(seek_to_position(&mut state, 1_000, 20), None);
    assert_eq!(state, before);
}

#[test]
fn volume_is_clamped() {
    assert_eq!(clamp_level(150), 100);
    assert_eq!(clamp_level(100), 100);
    assert_eq!(clamp_level(99), 99);
    assert_eq!(clamp_level(1), 1);
    assert_eq!(clamp_level(0), 0);
    assert_eq!(clamp_level(-3), 0);
    assert_eq!(clamp_level(i64::MAX), 100);
    assert_eq!(clamp_level(i64::MIN), 0);

    let mut state = loaded(1_000, 0);
    assert_eq!(apply_command(&mut state, AudioCommand::SetVolume(150), 0), SinkRequest::SetGain(100));
    assert_eq!(state.volume, 100);
    assert_eq!(apply_command(&mut state, AudioCommand::SetVolume(-3), 0), SinkRequest::SetGain(0));
    assert_eq!(state.volume, 0);
    assert_eq!(apply_command(&mut state, AudioCommand::SetVolume(35), 0), SinkRequest::SetGain(35));
    assert_eq!(state.volume, 35);
    assert_eq!(state.pre_mute_volume, 35);
}

#[test]
fn volume_while_muted_is_stored_and_not_applied() {
    let mut state = loaded(1_000, 0);
    apply_command(&mut state, AudioCommand::SetMuted(true), 0);
    assert_eq!(apply_command(&mut state, AudioCommand::SetVolume(20), 0), SinkRequest::Nothing);
    assert_eq!(state.volume, 20);
    assert_eq!(state.output_gain(), 0);
    assert_eq!(apply_command(&mut state, AudioCommand::SetMuted(false), 0), SinkRequest::SetGain(20));
    assert_eq!(state.output_gain(), 20);
}

#[test]
fn mute_round_trip_keeps_volume_and_gain() {
    let mut state = loaded(1_000, 0);
    apply_command(&mut state, AudioCommand::SetVolume(64), 0);
    let gain_before = state.output_gain();
    assert_eq!(gain_before, 64);
    assert_eq!(apply_command(&mut state, AudioCommand::SetMuted(true), 1), SinkRequest::SetGain(0));
    assert_eq!(state.volume, 64);
    assert!(state.is_muted);
    assert_eq!(state.output_gain(), 0);
    assert_eq!(apply_command(&mut state, AudioCommand::SetMuted(false), 2), SinkRequest::SetGain(64));
    assert_eq!(state.volume, 64);
    assert!(!state.is_muted);
    assert_eq!(state.output_gain(), gain_before);
}

#[test]
fn mute_without_a_track_asks_nothing_of_the_sink() {
    let mut state = InternalState::default();
    assert_eq!(apply_command(&mut state, AudioCommand::SetMuted(true), 0), SinkRequest::Nothing);
    assert!(state.is_muted);
    let request = apply_command(&mut state, AudioCommand::Load("a.mp3".to_string()), 0);
    assert_eq!(request, SinkRequest::Open { path: "a.mp3".to_string(), gain: 0 });
}

#[test]
fn mark_finished_parks_at_the_end() {
    let mut state = loaded(5_000, 0);
    let request = apply_command(&mut state, AudioCommand::MarkFinished, 9_000);
    assert_eq!(request, SinkRequest::Nothing);
    assert!(!state.is_playing);
    assert_eq!(state.current_time, 5_000);
    assert_eq!(state.start_time, None);
    assert_eq!(state.pause_offset, 0);
    let again = state.clone();
    apply_command(&mut state, AudioCommand::MarkFinished, 9_500);
    assert_eq!(state, again);
    let out = sync_state(&mut state, Some(true), 10_000, 1);
    assert!(!out.finished);
}

#[test]
fn finished_needs_an_exhausted_sink_and_playing() {
    let mut state = loaded(5_000, 0);
    assert!(!sync_state(&mut state, None, 1, 1).finished);
    assert!(!sync_state(&mut state, Some(false), 2, 1).finished);
    assert!(sync_state(&mut state, Some(true), 3, 1).finished);
    apply_command(&mut state, AudioCommand::Pause, 4);
    assert!(!sync_state(&mut state, Some(true), 5, 1).finished);
}

#[test]
fn shutdown_ends_the_engine_and_later_sends_are_dropped() {
    let (mut player, mut handle) = session_with_track(5_000, 0);
    let before = handle.get_state();
    handle.shutdown();
    handle.play();
    assert_eq!(player.step(&mut handle, Some(false), 100, 50), SinkRequest::Shutdown);
    assert!(!player.is_running());
    assert_eq!(handle.get_state(), before);
    assert_eq!(player.step(&mut handle, Some(false), 200, 51), SinkRequest::Nothing);
    handle.stop();
    handle.seek(5);
    assert_eq!(player.step(&mut handle, Some(false), 300, 52), SinkRequest::Nothing);
    assert_eq!(handle.get_state(), before);
}

#[test]
fn commands_are_applied_in_send_order() {
    let (mut player, mut handle) = session_with_track(100_000, 0);
    handle.set_volume(10);
    handle.set_volume(20);
    handle.set_muted(true);
    handle.pause();
    assert_eq!(player.step(&mut handle, Some(false), 1, 1), SinkRequest::SetGain(10));
    assert_eq!(handle.get_state().volume, 10);
    assert_eq!(player.step(&mut handle, Some(false), 2, 2), SinkRequest::SetGain(20));
    assert_eq!(player.step(&mut handle, Some(false), 3, 3), SinkRequest::SetGain(0));
    assert_eq!(player.step(&mut handle, Some(false), 4, 4), SinkRequest::Pause);
    assert_eq!(player.step(&mut handle, Some(false), 5, 5), SinkRequest::Nothing);
    let state = handle.get_state();
    assert_eq!(state.volume, 20);
    assert!(state.is_muted);
    assert!(!state.is_playing);
    assert_eq!(state.current_time, 4);
    assert_eq!(state.updated_at, 5);
}

#[test]
fn idle_tick_republishes_the_position() {
    let (mut player, mut handle) = session_with_track(100_000, 1_000);
    assert_eq!(player.step(&mut handle, Some(false), 1_010, 3), SinkRequest::Nothing);
    assert_eq!(handle.get_state().current_time, 10);
    assert_eq!(player.step(&mut handle, Some(false), 1_020, 4), SinkRequest::Nothing);
    assert_eq!(handle.get_state().current_time, 20);
    assert_eq!(handle.get_state().updated_at, 4);
    assert!(!handle.is_finished());
    player.step(&mut handle, Some(true), 1_030, 5);
    assert!(handle.is_finished());
}

#[test]
fn load_publishes_only_when_the_outcome_is_known() {
    let (mut player, mut handle) = session();
    let before = handle.get_state();
    handle.load("a.mp3");
    player.step(&mut handle, None, 0, 77);
    assert_eq!(handle.get_state(), before);
    player.complete_load(
        &mut handle,
        "a.mp3".to_string(),
        LoadOutcome::Loaded { duration: 0 },
        Some(false),
        0,
        78,
    );
    let state = handle.get_state();
    assert!(state.is_playing);
    assert_eq!(state.duration, 0);
    assert_eq!(state.updated_at, 78);
    assert_eq!(player.output_gain(), 100);
}

#[test]
fn new_handle_reads_silence() {
    let handle = create_audio_player().unwrap();
    let state = handle.get_state();
    assert_eq!(state, AudioState::new(state.updated_at));
    assert!(!handle.is_finished());
}

#[test]
fn store_serves_the_last_write() {
    let store = SharedAudioState::new(5);
    assert_eq!(store.get(), AudioState::new(5));
    assert!(!store.is_finished());
    let fresh = SharedAudioState::default();
    assert!(!fresh.is_finished());
    assert_eq!(fresh.get().volume, 100);

    let (mut player, mut handle) = session_with_track(9_000, 0);
    player.step(&mut handle, Some(false), 100, 6);
    let first = handle.get_state();
    assert_eq!(first.updated_at, 6);
    assert_eq!(handle.get_state(), first);
    player.step(&mut handle, Some(true), 200, 7);
    let second = handle.get_state();
    assert_eq!(second.updated_at, 7);
    assert_eq!(second.current_time, 200);
    assert!(handle.is_finished());
    assert_eq!(handle.get_state(), second);
}

#[test]
fn mark_finished_through_the_handle() {
    let (mut player, mut handle) = session_with_track(5_000, 0);
    player.step(&mut handle, Some(true), 6_000, 1);
    assert!(handle.is_finished());
    handle.mark_finished();
    assert_eq!(player.step(&mut handle, Some(true), 6_100, 2), SinkRequest::Nothing);
    assert!(!handle.is_finished());
    let state = handle.get_state();
    assert!(!state.is_playing);
    assert_eq!(state.current_time, 5_000);
}
