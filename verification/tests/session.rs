//! The supervisor's state machine: the premature-finish guard, the
//! watchdog, auto-buffering, seeks, and the pause-timer discipline.

use castru::supervisor::{
    Action, IdleReason, LoadOutcome, MediaStatusEvent, PlaybackStatus, RemotePlayerState,
    SupervisorState,
};
use castru::tui::TuiCommand;

fn playing_event(time_ms: u64) -> MediaStatusEvent {
    MediaStatusEvent {
        media_session_id: 7,
        player_state: RemotePlayerState::Playing,
        idle_reason: None,
        current_time_ms: time_ms,
        volume_permille: None,
        muted: None,
    }
}

fn finished_event(time_ms: u64) -> MediaStatusEvent {
    MediaStatusEvent {
        media_session_id: 7,
        player_state: RemotePlayerState::Idle,
        idle_reason: Some(IdleReason::Finished),
        current_time_ms: time_ms,
        volume_permille: None,
        muted: None,
    }
}

fn outcome(transcoding: bool, offset_ms: u64, duration_ms: Option<u64>) -> LoadOutcome {
    LoadOutcome {
        is_transcoding: transcoding,
        seek_offset_ms: offset_ms,
        duration_ms,
        video_codec: None,
        audio_codec: None,
        torrent_active: false,
    }
}

#[test]
fn premature_finished_enters_waiting_and_reloads_later() {
    // a 30-minute source; the encoder dies after three minutes
    let mut s = SupervisorState::new(2, false, 0);
    s.on_load_applied(0, true, outcome(true, 0, Some(1_800_000)));
    let a = s.on_media_status(1_000, &playing_event(180_000));
    assert_eq!(a, Action::Stay);
    assert_eq!(s.status, PlaybackStatus::Playing);
    assert_eq!(s.current_time_ms, 180_000);

    let a = s.on_media_status(2_000, &finished_event(180_000));
    // far from the end: no playlist advance, Waiting with the timer set
    assert_eq!(a, Action::Stay);
    assert_eq!(s.status, PlaybackStatus::Waiting);
    assert_eq!(s.current_idx, 0);
    assert_eq!(s.pause_start_at_ms, Some(2_000));

    // ten seconds later the watchdog reloads at the same position
    let a = s.on_watchdog_tick(12_001);
    assert_eq!(a, Action::Load { index: 0, start_ms: 180_000 });
    assert_eq!(s.pause_start_at_ms, Some(12_001));
}

#[test]
fn true_finished_advances_the_playlist() {
    let mut s = SupervisorState::new(2, false, 0);
    s.on_load_applied(0, true, outcome(false, 0, Some(180_000)));
    s.on_media_status(1_000, &playing_event(175_000));
    let a = s.on_media_status(2_000, &finished_event(175_000));
    assert_eq!(a, Action::Load { index: 1, start_ms: 0 });
    assert_eq!(s.current_idx, 1);
}

#[test]
fn finished_wraps_only_when_looping() {
    let mut s = SupervisorState::new(1, false, 0);
    s.on_load_applied(0, true, outcome(false, 0, Some(60_000)));
    let a = s.on_media_status(1_000, &finished_event(59_000));
    assert_eq!(a, Action::Stay);

    let mut looping = SupervisorState::new(1, true, 0);
    looping.on_load_applied(0, true, outcome(false, 0, Some(60_000)));
    let a = looping.on_media_status(1_000, &finished_event(59_000));
    assert_eq!(a, Action::Load { index: 0, start_ms: 0 });
}

#[test]
fn current_time_never_runs_backwards_on_reports() {
    let mut s = SupervisorState::new(1, false, 0);
    s.on_load_applied(0, true, outcome(false, 0, Some(600_000)));
    s.on_media_status(1_000, &playing_event(120_000));
    assert_eq!(s.current_time_ms, 120_000);
    // a stale report cannot pull the clock back
    s.on_media_status(2_000, &playing_event(115_000));
    assert_eq!(s.current_time_ms, 120_000);
}

#[test]
fn pause_timer_survives_until_resume() {
    let mut s = SupervisorState::new(1, false, 0);
    s.on_load_applied(0, true, outcome(false, 0, Some(600_000)));
    s.on_media_status(500, &playing_event(1_000));
    let a = s.on_user_command(5_000, TuiCommand::Pause);
    assert_eq!(a, Action::SendPause { media_session_id: 7 });
    assert_eq!(s.status, PlaybackStatus::Waiting);
    assert_eq!(s.pause_start_at_ms, Some(5_000));

    // a buffering report keeps the timer
    let mut ev = playing_event(1_000);
    ev.player_state = RemotePlayerState::Buffering;
    s.on_media_status(6_000, &ev);
    assert!(s.pause_start_at_ms.is_some());

    // a PLAYING report clears it
    s.on_media_status(7_000, &playing_event(1_200));
    assert_eq!(s.pause_start_at_ms, None);
}

#[test]
fn seek_offset_nonzero_only_while_transcoding() {
    let mut s = SupervisorState::new(1, false, 0);
    s.on_load_applied(0, true, outcome(true, 30_000, Some(600_000)));
    assert!(s.is_transcoding);
    assert_eq!(s.seek_offset_ms, 30_000);
    assert_eq!(s.current_time_ms, 30_000);
    // switching to a direct stream clears the offset
    s.on_load_applied(1_000, true, outcome(false, 0, Some(600_000)));
    assert!(!s.is_transcoding);
    assert_eq!(s.seek_offset_ms, 0);
}

#[test]
fn transcoded_times_are_offset_by_the_encoder_start() {
    let mut s = SupervisorState::new(1, false, 0);
    s.on_load_applied(0, true, outcome(true, 150_000, Some(600_000)));
    // the remote clock restarted at zero; 5 s in means 155 s overall
    s.on_media_status(1_000, &playing_event(5_000));
    assert_eq!(s.current_time_ms, 155_000);
}

#[test]
fn seek_forward_while_transcoding_respawns_the_encoder() {
    let mut s = SupervisorState::new(1, false, 0);
    s.on_load_applied(0, true, outcome(true, 0, Some(600_000)));
    s.on_media_status(1_000, &playing_event(120_000));
    assert_eq!(s.current_time_ms, 120_000);
    let a = s.on_user_command(2_000, TuiCommand::SeekForward(30));
    assert_eq!(a, Action::Load { index: 0, start_ms: 150_000 });
    // the caller reloads; applying the outcome moves the clocks
    s.on_load_applied(3_000, true, outcome(true, 150_000, Some(600_000)));
    assert_eq!(s.seek_offset_ms, 150_000);
    assert_eq!(s.current_time_ms, 150_000);
}

#[test]
fn plain_seek_sends_an_absolute_seek() {
    let mut s = SupervisorState::new(1, false, 0);
    s.on_load_applied(0, true, outcome(false, 0, Some(600_000)));
    s.on_media_status(1_000, &playing_event(100_000));
    let a = s.on_user_command(2_000, TuiCommand::SeekBackward(15));
    assert_eq!(a, Action::SendSeek { media_session_id: 7, position_ms: 85_000 });
    assert_eq!(s.current_time_ms, 85_000);
}

#[test]
fn watchdog_reloads_after_a_stall() {
    let mut s = SupervisorState::new(1, false, 0);
    s.on_load_applied(0, true, outcome(false, 0, Some(600_000)));
    s.on_media_status(1_000, &playing_event(50_000));
    assert_eq!(s.status, PlaybackStatus::Playing);
    // within the stall limit: nothing
    assert_eq!(s.on_watchdog_tick(30_000), Action::Stay);
    // past it: reload at the current position
    assert_eq!(
        s.on_watchdog_tick(31_002),
        Action::Load { index: 0, start_ms: 50_000 }
    );
}

#[test]
fn auto_buffering_pauses_on_underrun_and_resumes_with_margin() {
    let mut s = SupervisorState::new(1, false, 0);
    let mut o = outcome(false, 0, Some(1_000_000));
    o.torrent_active = true;
    s.on_load_applied(0, true, o);
    s.on_media_status(1_000, &playing_event(500_000));
    assert_eq!(s.status, PlaybackStatus::Playing);

    // played half, downloaded 50.2%: margin 0.2% < 0.5% -> pause
    let a = s.on_progress_tick(2_000, Some((502, 1_000)));
    assert_eq!(a, Action::SendPause { media_session_id: 7 });
    assert_eq!(s.status, PlaybackStatus::Buffering);

    // still thin: stay buffering
    let a = s.on_progress_tick(3_000, Some((512, 1_000)));
    assert_eq!(a, Action::Stay);

    // margin above 2% -> play again
    let a = s.on_progress_tick(4_000, Some((530, 1_000)));
    assert_eq!(a, Action::SendPlay { media_session_id: 7 });
    assert_eq!(s.status, PlaybackStatus::Playing);
}

#[test]
fn auto_buffering_resumes_on_completion() {
    let mut s = SupervisorState::new(1, false, 0);
    let mut o = outcome(false, 0, Some(1_000_000));
    o.torrent_active = true;
    s.on_load_applied(0, true, o);
    s.on_media_status(1_000, &playing_event(990_000));
    let a = s.on_progress_tick(2_000, Some((990, 1_000)));
    assert_eq!(a, Action::SendPause { media_session_id: 7 });
    // the download finishing resumes playback even with no margin
    let a = s.on_progress_tick(3_000, Some((1_000, 1_000)));
    assert_eq!(a, Action::SendPlay { media_session_id: 7 });
}

#[test]
fn volume_steps_clamp_to_scale() {
    let mut s = SupervisorState::new(1, false, 0);
    assert_eq!(s.volume_permille, 1000);
    let a = s.on_user_command(0, TuiCommand::VolumeUp);
    assert_eq!(a, Action::SendSetVolume { permille: 1000 });
    let a = s.on_user_command(0, TuiCommand::VolumeDown);
    assert_eq!(a, Action::SendSetVolume { permille: 950 });
    let a = s.on_user_command(0, TuiCommand::ToggleMute);
    assert_eq!(a, Action::SendSetMute { muted: true });
}

#[test]
fn late_probe_results_merge_into_state() {
    let mut s = SupervisorState::new(1, false, 0);
    let mut o = outcome(false, 0, None);
    o.torrent_active = true;
    s.on_load_applied(0, true, o);
    assert_eq!(s.total_duration_ms, None);
    s.on_probe_completed(Some(600_000), Some("h264".to_string()), Some("aac".to_string()));
    assert_eq!(s.total_duration_ms, Some(600_000));
    assert_eq!(s.video_codec.as_deref(), Some("h264"));
    assert_eq!(s.audio_codec.as_deref(), Some("aac"));
    // a later empty probe changes nothing
    s.on_probe_completed(None, None, None);
    assert_eq!(s.total_duration_ms, Some(600_000));
}

#[test]
fn reconnect_failure_falls_back_to_idle() {
    let mut s = SupervisorState::new(1, false, 0);
    let a = s.on_user_command(0, TuiCommand::Reconnect);
    assert_eq!(a, Action::ReopenTransport);
    assert_eq!(s.status, PlaybackStatus::Reconnecting);
    s.on_reconnect_result(false);
    assert_eq!(s.status, PlaybackStatus::Idle);
}

#[test]
fn stop_keeps_the_session_but_ends_playback() {
    let mut s = SupervisorState::new(3, false, 0);
    s.on_media_status(500, &playing_event(1_000));
    let a = s.on_user_command(1_000, TuiCommand::Stop);
    assert_eq!(a, Action::SendPause { media_session_id: 7 });
    assert_eq!(s.status, PlaybackStatus::Finished);
    assert!(!s.torrent_active);
}

#[test]
fn paused_during_self_induced_buffering_stays_buffering() {
    let mut s = SupervisorState::new(1, false, 0);
    let mut o = outcome(false, 0, Some(1_000_000));
    o.torrent_active = true;
    s.on_load_applied(0, true, o);
    s.on_media_status(1_000, &playing_event(500_000));
    s.on_progress_tick(2_000, Some((502, 1_000)));
    assert_eq!(s.status, PlaybackStatus::Buffering);
    // the device acknowledges our pause; we keep showing Buffering
    let mut ev = playing_event(500_000);
    ev.player_state = RemotePlayerState::Paused;
    s.on_media_status(3_000, &ev);
    assert_eq!(s.status, PlaybackStatus::Buffering);
}

#[test]
fn toggle_resume_clears_the_pause_timer() {
    let mut s = SupervisorState::new(1, false, 0);
    s.on_media_status(500, &playing_event(1_000));
    s.on_user_command(5_000, TuiCommand::TogglePlay);
    assert_eq!(s.status, PlaybackStatus::Waiting);
    assert_eq!(s.pause_start_at_ms, Some(5_000));
    // the timer is set only while Waiting: toggling back clears it
    let a = s.on_user_command(6_000, TuiCommand::TogglePlay);
    assert_eq!(a, Action::SendPlay { media_session_id: 7 });
    assert_eq!(s.status, PlaybackStatus::Playing);
    assert_eq!(s.pause_start_at_ms, None);
}

#[test]
fn receiver_status_reconciles_the_volume_mirror() {
    let mut s = SupervisorState::new(1, false, 0);
    s.on_media_status(500, &playing_event(1_000));
    let time_before = s.current_time_ms;
    s.on_receiver_status(Some(250), Some(true));
    assert_eq!(s.volume_permille, 250);
    assert!(s.is_muted);
    // nothing else moved
    assert_eq!(s.current_time_ms, time_before);
    assert_eq!(s.status, PlaybackStatus::Playing);
    // a missing member keeps the mirror; a loud one clamps
    s.on_receiver_status(None, Some(false));
    assert_eq!(s.volume_permille, 250);
    assert!(!s.is_muted);
    s.on_receiver_status(Some(5000), None);
    assert_eq!(s.volume_permille, 1000);
}
