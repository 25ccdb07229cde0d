//! The frame renderer, time displays, torrent decisions and options.

use castru::config::Config;
use castru::discovery::CastDevice;
use castru::server::{growing_read_step, piece_index, GrowingReadStep};
use castru::torrent::{
    file_offset_of, is_video_file, select_video_file, TorrentConfig, TorrentError,
    TorrentFileEntry, WarmupDecision, WarmupState,
};
use castru::tui::{
    format_duration, get_animation_frames, get_static_frame, render_progress_bar,
    render_projector_frame, TuiController,
};

#[test]
fn test_render_projector_frame_output_dimensions() {
    let width = 80;
    let height = 24;
    let frame = 0;
    let output = render_projector_frame(frame, width, height);

    assert_eq!(output.len(), height);
    // We verify that at least one line has content (the art)
    assert!(output.iter().any(|line| !line.is_empty()));
}

#[test]
fn test_render_projector_frame_cycling() {
    let f0 = render_projector_frame(0, 80, 24);
    let f1 = render_projector_frame(1, 80, 24);

    // Frames should be different
    assert_ne!(f0, f1, "Frame 0 and Frame 1 should differ");
}

#[test]
fn animation_wraps_every_four_frames() {
    let _ = TuiController::new();
    assert_eq!(render_projector_frame(2, 80, 24), get_animation_frames(6, 80, 24));
    assert_eq!(get_static_frame(80, 24), render_projector_frame(0, 80, 24));
}

#[test]
fn durations_format_with_hours_only_when_needed() {
    assert_eq!(format_duration(0), "00:00");
    assert_eq!(format_duration(65), "01:05");
    assert_eq!(format_duration(3600), "01:00:00");
    assert_eq!(format_duration(3725), "01:02:05");
}

#[test]
fn progress_bar_fills_by_played_share() {
    assert_eq!(render_progress_bar(0, Some(100_000), 12), "░░░░░░░░░░");
    assert_eq!(render_progress_bar(50_000, Some(100_000), 12), "█████░░░░░");
    assert_eq!(render_progress_bar(200_000, Some(100_000), 12), "██████████");
    assert_eq!(render_progress_bar(10, None, 6), "[    ]");
    assert_eq!(render_progress_bar(10, Some(100), 1), "");
}

#[test]
fn video_files_pick_by_extension_without_case() {
    assert!(is_video_file("Movie.MKV"));
    assert!(is_video_file("a/b/c.mp4"));
    assert!(!is_video_file("track.mp3"));
    assert!(!is_video_file("mp4"));
}

#[test]
fn largest_video_file_wins() {
    let files = vec![
        TorrentFileEntry { path: "readme.txt".to_string(), length: 5_000_000 },
        TorrentFileEntry { path: "sample.mp4".to_string(), length: 10 },
        TorrentFileEntry { path: "feature.mkv".to_string(), length: 700 },
        TorrentFileEntry { path: "extra.mov".to_string(), length: 700 },
    ];
    assert_eq!(select_video_file(&files), Some(2));
    assert_eq!(file_offset_of(&files, 2), Some(5_000_010));
    let none = vec![TorrentFileEntry { path: "a.txt".to_string(), length: 9 }];
    assert_eq!(select_video_file(&none), None);
}

#[test]
fn warmup_gate_opens_at_three_percent_or_ten_mebibytes() {
    // the torrent warm-up scenario: 100 MiB total, 1 MiB pieces
    let total: u64 = 100 * 1024 * 1024;
    let mut w = WarmupState::begin(0);
    let (d, probe) = w.step(200, 1024 * 1024, total);
    assert_eq!(d, WarmupDecision::KeepWaiting);
    assert!(!probe);
    // five mebibytes and a bit: the background probe fires, once
    let (d, probe) = w.step(400, 6 * 1024 * 1024, total);
    assert_eq!(d, WarmupDecision::Ready); // 6% is past the 3% gate
    assert!(probe);
    let (_, probe_again) = w.step(600, 7 * 1024 * 1024, total);
    assert!(!probe_again);
}

#[test]
fn warmup_stalls_after_thirty_seconds_without_progress() {
    let total: u64 = 1000 * 1024 * 1024;
    let mut w = WarmupState::begin(0);
    let (d, _) = w.step(200, 1024 * 1024, total);
    assert_eq!(d, WarmupDecision::KeepWaiting);
    let (d, _) = w.step(15_000, 1024 * 1024, total);
    assert_eq!(d, WarmupDecision::KeepWaiting);
    let (d, _) = w.step(30_300, 1024 * 1024, total);
    assert_eq!(d, WarmupDecision::Stalled);
}

#[test]
fn growing_reads_wait_for_the_writer() {
    assert!(matches!(growing_read_step(100, 0, 1000), GrowingReadStep::Deliver));
    assert!(matches!(growing_read_step(0, 1000, 1000), GrowingReadStep::Eof));
    assert!(matches!(growing_read_step(0, 500, 1000), GrowingReadStep::WaitRetry));
    assert_eq!(piece_index(3 * 1024 * 1024, 5 * 1024 * 1024, 1024 * 1024), 8);
}

#[test]
fn torrent_defaults_and_errors() {
    let c = TorrentConfig::default();
    assert!(c.download_dir.is_none());
    assert!(!c.keep_files);
    assert_eq!(
        TorrentError::NoVideoFound.message(),
        "no video file found in torrent"
    );
    assert_eq!(TorrentError::Engine("timed out".to_string()).message(), "timed out");
}

#[test]
fn cast_options_parse_like_the_command_line() {
    let args: Vec<String> = [
        "--myip", "192.168.1.50", "--port", "8888", "--subtitles", "sub.srt", "--volume",
        "0.5", "--loop", "--quiet", "video.mp4", "second.mkv",
    ]
        .iter()
        .map(|s| s.to_string())
        .collect();
    let c = Config::parse(&args);
    assert_eq!(c.myip.as_deref(), Some("192.168.1.50"));
    assert_eq!(c.port, Some(8888));
    assert_eq!(c.subtitles.as_deref(), Some("sub.srt"));
    assert_eq!(c.volume_permille, Some(500));
    assert!(c.loop_playlist);
    assert!(c.quiet);
    assert_eq!(c.inputs, vec!["video.mp4", "second.mkv"]);

    let none = Config::parse(&vec!["video.mp4".to_string()]);
    assert_eq!(none.port, None);
    assert_eq!(none.volume_permille, None);
    assert!(!none.loop_playlist);
    assert!(!none.quiet);
    assert_eq!(none.inputs, vec!["video.mp4"]);

    // a flag value that cannot be read is consumed and ignored
    let odd = Config::parse(&vec!["--port".to_string(), "70000".to_string(), "a".to_string()]);
    assert_eq!(odd.port, None);
    assert_eq!(odd.inputs, vec!["a"]);
}

#[test]
fn direct_devices_use_the_default_port() {
    let d = CastDevice::direct("10.0.0.5".to_string());
    assert_eq!(d.ip, "10.0.0.5");
    assert_eq!(d.port, 8009);
    assert_eq!(d.friendly_name, "Direct Connect");
    let d2 = d.clone();
    assert_eq!(d2.uuid, "Unknown");
}

#[test]
fn warmup_opens_exactly_at_three_percent() {
    // small enough that three per cent comes before ten mebibytes
    let total: u64 = 100 * 1024 * 1024;
    let mut w = WarmupState::begin(0);
    // one byte short of three per cent: not yet
    let (d, _) = w.step(200, total * 3 / 100 - 1, total);
    assert_eq!(d, WarmupDecision::KeepWaiting);
    // exactly three per cent: the share threshold opens
    let (d, _) = w.step(400, total * 3 / 100, total);
    assert_eq!(d, WarmupDecision::Ready);
}

#[test]
fn warmup_opens_at_ten_mebibytes_of_a_huge_file() {
    let total: u64 = 100 * 1024 * 1024 * 1024;
    let mut w = WarmupState::begin(0);
    let (d, _) = w.step(200, 10 * 1024 * 1024 - 1, total);
    assert_eq!(d, WarmupDecision::KeepWaiting);
    let (d, _) = w.step(400, 10 * 1024 * 1024, total);
    assert_eq!(d, WarmupDecision::Ready);
}
