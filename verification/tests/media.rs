//! Probe reading, the transcoding decision, load planning and the
//! protocol payloads.

use castru::client::{
    connect_message, heartbeat_ping_message, launch_app_message, media_message, next_backoff_ms,
    set_mute_message, set_volume_message, RequestIdGen,
};
use castru::load::{classify_source, plan_file_load, subtitle_track, MediaSource};
use castru::protocol::media::{
    classify_media_status, parse_media_status, MediaInformation, MediaRequest, MediaTrack,
};
use castru::protocol::receiver::{classify_application, find_application, parse_receiver_status};
use castru::supervisor::{IdleReason, RemotePlayerState};
use castru::transcode::{
    build_encoder_args, classify_probe_stream, needs_transcoding, parse_probe_json,
    MediaProbeResult, TranscodeConfig,
};

fn probe(video: Option<&str>, pix: Option<&str>, profile: Option<&str>, audio: Option<&str>)
    -> MediaProbeResult {
    MediaProbeResult {
        video_codec: video.map(|s| s.to_string()),
        video_profile: profile.map(|s| s.to_string()),
        pix_fmt: pix.map(|s| s.to_string()),
        audio_codec: audio.map(|s| s.to_string()),
        duration_ms: None,
    }
}

#[test]
fn supported_codecs_play_directly() {
    // the direct-IP scenario: h264 + yuv420p + aac means no encoder
    let p = probe(Some("h264"), Some("yuv420p"), None, Some("aac"));
    assert!(!needs_transcoding(&p));
    let plan = plan_file_load("/tmp/a.mp4", &p, "http://10.0.0.9:41234", 0);
    assert!(!plan.is_transcoding);
    assert_eq!(plan.content_id, "http://10.0.0.9:41234");
    assert_eq!(plan.content_type, "video/mp4");
    assert_eq!(plan.seek_offset_ms, 0);
    assert_eq!(plan.play_position_ms, 0);
}

#[test]
fn unsupported_codecs_go_through_the_encoder() {
    // the transcode scenario: hevc video and ac3 audio
    let p = probe(Some("hevc"), None, None, Some("ac3"));
    assert!(needs_transcoding(&p));
    let plan = plan_file_load("/tmp/a.mp4", &p, "http://10.0.0.9:41234", 0);
    assert!(plan.is_transcoding);
    assert_eq!(plan.content_type, "video/mp4");
    assert_eq!(plan.content_id, "http://10.0.0.9:41234/?t=0");
    assert_eq!(plan.seek_offset_ms, 0);
    assert_eq!(plan.play_position_ms, 0);
}

#[test]
fn ten_bit_video_and_odd_profiles_need_the_encoder() {
    assert!(needs_transcoding(&probe(Some("h264"), Some("yuv420p10le"), None, Some("aac"))));
    assert!(needs_transcoding(&probe(Some("h264"), None, Some("High 4:2:2"), Some("aac"))));
    assert!(!needs_transcoding(&probe(Some("h264"), None, Some("High"), Some("mp3"))));
    assert!(!needs_transcoding(&probe(None, None, None, None)));
    assert!(needs_transcoding(&probe(None, None, None, Some("opus"))));
}

#[test]
fn encoder_args_seek_only_when_started_late() {
    let cfg = TranscodeConfig {
        input_path: "/tmp/in.mkv".to_string(),
        start_time_ms: 0,
        target_video_codec: "libx264".to_string(),
        target_audio_codec: "aac".to_string(),
    };
    let args = build_encoder_args(&cfg);
    assert_eq!(
        args,
        vec![
            "-i", "/tmp/in.mkv", "-c:v", "libx264", "-pix_fmt", "yuv420p", "-preset",
            "ultrafast", "-c:a", "aac", "-f", "mp4", "-movflags",
            "frag_keyframe+empty_moov+default_base_moof", "pipe:1",
        ]
    );

    // the mid-transcode seek: a fresh encoder starting 150 s in
    let seeked = TranscodeConfig { start_time_ms: 150_000, ..cfg };
    let args = build_encoder_args(&seeked);
    assert_eq!(&args[..2], &["-ss", "150"]);
    let fractional = TranscodeConfig { start_time_ms: 90_500, ..seeked };
    assert_eq!(&build_encoder_args(&fractional)[..2], &["-ss", "90.500"]);
}

#[test]
fn probe_json_reduces_to_the_first_streams() {
    let text = r#"{
        "streams": [
            {"codec_type": "video", "codec_name": "hevc", "profile": "Main 10", "pix_fmt": "yuv420p10le"},
            {"codec_type": "audio", "codec_name": "ac3"},
            {"codec_type": "audio", "codec_name": "aac"}
        ],
        "format": {"duration": "600.000000"}
    }"#;
    let p = parse_probe_json(text).unwrap();
    assert_eq!(p.video_codec.as_deref(), Some("hevc"));
    assert_eq!(p.video_profile.as_deref(), Some("Main 10"));
    assert_eq!(p.pix_fmt.as_deref(), Some("yuv420p10le"));
    assert_eq!(p.audio_codec.as_deref(), Some("ac3"));
    assert_eq!(p.duration_ms, Some(600_000));
    assert!(needs_transcoding(&p));
}

#[test]
fn probe_json_without_streams_is_an_error() {
    assert!(parse_probe_json("not json").is_err());
    assert!(parse_probe_json("{}").is_err());
    assert!(parse_probe_json(r#"{"streams": [{"codec_name": "aac"}]}"#).is_err());
    let ok = parse_probe_json(r#"{"streams": []}"#).unwrap();
    assert_eq!(ok.video_codec, None);
    assert_eq!(ok.duration_ms, None);
}

#[test]
fn inputs_classify_by_shape_then_disk() {
    assert!(matches!(classify_source("magnet:?xt=urn:btih:abc", false), MediaSource::Magnet(_)));
    assert!(matches!(classify_source("show.torrent", false), MediaSource::TorrentFile(_)));
    assert!(matches!(classify_source("/tmp/a.mp4", true), MediaSource::FilePath(_)));
    assert!(matches!(
        classify_source("http://example.invalid/a.mp4", false),
        MediaSource::Url(_)
    ));
}

#[test]
fn load_payload_spells_out_the_media() {
    let media = MediaInformation {
        content_id: "http://10.0.0.9:41234".to_string(),
        stream_type: "BUFFERED".to_string(),
        content_type: "video/mp4".to_string(),
        metadata: None,
        tracks: None,
    };
    let req = MediaRequest::Load {
        request_id: 2,
        session_id: "transport-1".to_string(),
        media,
        autoplay: true,
        current_time_ms: 0,
        active_track_ids: None,
    };
    let m = media_message("transport-1", &req);
    assert_eq!(m.namespace, "urn:x-cast:com.google.cast.media");
    assert_eq!(m.destination_id, "transport-1");
    assert_eq!(
        m.payload_utf8.as_deref(),
        Some(
            "{\"type\":\"LOAD\",\"requestId\":2,\"sessionId\":\"transport-1\",\"media\":{\"contentId\":\"http://10.0.0.9:41234\",\"streamType\":\"BUFFERED\",\"contentType\":\"video/mp4\"},\"autoplay\":true,\"currentTime\":0}"
        )
    );
}

#[test]
fn load_payload_names_the_subtitle_track() {
    let track: MediaTrack = subtitle_track("http://10.0.0.9:41234");
    let media = MediaInformation {
        content_id: "http://10.0.0.9:41234".to_string(),
        stream_type: "BUFFERED".to_string(),
        content_type: "video/mp4".to_string(),
        metadata: None,
        tracks: Some(vec![track]),
    };
    let req = MediaRequest::Load {
        request_id: 3,
        session_id: "transport-1".to_string(),
        media,
        autoplay: true,
        current_time_ms: 0,
        active_track_ids: Some(vec![1]),
    };
    let m = media_message("transport-1", &req);
    let p = m.payload_utf8.unwrap();
    assert!(p.contains(
        "\"tracks\":[{\"trackId\":1,\"type\":\"TEXT\",\"trackContentId\":\"http://10.0.0.9:41234/subtitle\",\"trackContentType\":\"text/vtt\",\"name\":\"Subtitle\",\"language\":\"en\",\"subtype\":\"SUBTITLES\"}]"
    ));
    assert!(p.ends_with(",\"activeTrackIds\":[1]}"));
}

#[test]
fn control_payloads_carry_the_session() {
    let m = media_message("t-1", &MediaRequest::Pause { request_id: 9, media_session_id: 4 });
    assert_eq!(
        m.payload_utf8.as_deref(),
        Some("{\"type\":\"PAUSE\",\"requestId\":9,\"mediaSessionId\":4}")
    );
    let m = media_message(
        "t-1",
        &MediaRequest::Seek {
            request_id: 10,
            media_session_id: 4,
            current_time_ms: 85_000,
            resume_state: None,
        },
    );
    assert_eq!(
        m.payload_utf8.as_deref(),
        Some("{\"type\":\"SEEK\",\"requestId\":10,\"mediaSessionId\":4,\"currentTime\":85}")
    );
}

#[test]
fn receiver_payloads_quote_and_escape() {
    let m = launch_app_message(1, "CC1AD845");
    assert_eq!(
        m.payload_utf8.as_deref(),
        Some("{\"type\":\"LAUNCH\",\"appId\":\"CC1AD845\",\"requestId\":1}")
    );
    let m = launch_app_message(2, "we\"ird");
    assert_eq!(
        m.payload_utf8.as_deref(),
        Some("{\"type\":\"LAUNCH\",\"appId\":\"we\\\"ird\",\"requestId\":2}")
    );
    let m = set_volume_message(3, 550);
    assert_eq!(
        m.payload_utf8.as_deref(),
        Some("{\"type\":\"SET_VOLUME\",\"requestId\":3,\"volume\":{\"level\":0.550}}")
    );
    let m = set_mute_message(4, true);
    assert_eq!(
        m.payload_utf8.as_deref(),
        Some("{\"type\":\"SET_VOLUME\",\"requestId\":4,\"volume\":{\"muted\":true}}")
    );
    let m = connect_message("receiver-0");
    assert_eq!(m.payload_utf8.as_deref(), Some("{\"type\":\"CONNECT\"}"));
    let m = heartbeat_ping_message();
    assert_eq!(m.payload_utf8.as_deref(), Some("{\"type\":\"PING\"}"));
    assert_eq!(m.namespace, "urn:x-cast:com.google.cast.tp.heartbeat");
}

#[test]
fn media_status_payload_reads_back() {
    let payload = r#"{
        "type": "MEDIA_STATUS",
        "requestId": 0,
        "status": [{
            "mediaSessionId": 7,
            "playbackRate": 1.0,
            "playerState": "IDLE",
            "currentTime": 180.5,
            "supportedMediaCommands": 15,
            "idleReason": "FINISHED",
            "volume": {"level": 0.5, "muted": false}
        }]
    }"#;
    let ev = parse_media_status(payload).unwrap();
    assert_eq!(ev.media_session_id, 7);
    assert_eq!(ev.player_state, RemotePlayerState::Idle);
    assert_eq!(ev.idle_reason, Some(IdleReason::Finished));
    assert_eq!(ev.current_time_ms, 180_500);
    assert_eq!(ev.volume_permille, Some(500));
    assert_eq!(ev.muted, Some(false));
    assert!(parse_media_status("{\"type\":\"OTHER\"}").is_none());
}

#[test]
fn receiver_status_payload_reads_back() {
    let payload = r#"{
        "type": "RECEIVER_STATUS",
        "requestId": 1,
        "status": {
            "applications": [{
                "appId": "CC1AD845",
                "displayName": "Default Media Receiver",
                "sessionId": "abc",
                "transportId": "transport-1",
                "statusText": "Ready",
                "isIdleScreen": false
            }],
            "volume": {"level": 1.0, "muted": false}
        }
    }"#;
    let st = parse_receiver_status(payload).unwrap();
    assert_eq!(st.applications.len(), 1);
    assert_eq!(st.volume_permille, Some(1000));
    let idx = find_application(&st.applications, "CC1AD845").unwrap();
    assert_eq!(st.applications[idx].transport_id, "transport-1");
    assert!(find_application(&st.applications, "OTHER").is_none());
}

#[test]
fn request_ids_count_up_and_backoff_doubles_to_a_cap() {
    let mut g = RequestIdGen::new();
    assert_eq!(g.fresh(), 1);
    assert_eq!(g.fresh(), 2);
    assert_eq!(g.fresh(), 3);
    assert_eq!(next_backoff_ms(1000), 2000);
    assert_eq!(next_backoff_ms(16000), 30000);
    assert_eq!(next_backoff_ms(30000), 30000);
}

#[test]
fn exotic_number_texts_do_not_pass_for_times() {
    let payload = r#"{
        "type": "MEDIA_STATUS",
        "requestId": 0,
        "status": [{
            "mediaSessionId": 1,
            "playerState": "PLAYING",
            "currentTime": 1e300
        }]
    }"#;
    // an astronomic clock reading is unreadable rather than wrapped
    assert!(parse_media_status(payload).is_none());
    let sane = r#"{
        "type": "MEDIA_STATUS",
        "requestId": 0,
        "status": [{
            "mediaSessionId": 1,
            "playerState": "PLAYING",
            "currentTime": 0
        }]
    }"#;
    assert_eq!(parse_media_status(sane).unwrap().current_time_ms, 0);
}

#[test]
fn status_words_classify_exactly() {
    let chars = |s: &str| s.chars().collect::<Vec<char>>();
    let ev = classify_media_status(
        7,
        &chars("PLAYING"),
        None,
        &chars("180.5"),
        Some(&chars("0.5")),
        Some(false),
    )
    .unwrap();
    assert_eq!(ev.player_state, RemotePlayerState::Playing);
    assert_eq!(ev.current_time_ms, 180_500);
    assert_eq!(ev.volume_permille, Some(500));
    assert_eq!(ev.muted, Some(false));

    let idle = classify_media_status(
        7,
        &chars("IDLE"),
        Some(&chars("INTERRUPTED")),
        &chars("0"),
        None,
        None,
    )
    .unwrap();
    assert_eq!(idle.player_state, RemotePlayerState::Idle);
    assert_eq!(idle.idle_reason, Some(IdleReason::Interrupted));

    // an unknown word is no event; an unknown reason is no reason
    assert!(classify_media_status(7, &chars("LOADING"), None, &chars("0"), None, None).is_none());
    let odd = classify_media_status(
        7,
        &chars("PAUSED"),
        Some(&chars("SLEEPY")),
        &chars("1"),
        None,
        None,
    )
    .unwrap();
    assert_eq!(odd.idle_reason, None);

    // a session id outside 32 bits, or an unreadable clock, is no event
    assert!(classify_media_status(1 << 40, &chars("PLAYING"), None, &chars("0"), None, None)
        .is_none());
    assert!(classify_media_status(7, &chars("PLAYING"), None, &chars("1e3"), None, None)
        .is_none());

    // a loud level clamps into scale
    let loud =
        classify_media_status(7, &chars("PLAYING"), None, &chars("0"), Some(&chars("1.5")), None)
            .unwrap();
    assert_eq!(loud.volume_permille, Some(1000));
}

#[test]
fn application_records_need_all_their_members() {
    let s = |t: &str| Some(t.to_string());
    let a = classify_application(
        s("CC1AD845"),
        s("Default Media Receiver"),
        s("abc"),
        s("transport-1"),
        s("Ready"),
        Some(false),
    )
    .unwrap();
    assert_eq!(a.app_id, "CC1AD845");
    assert_eq!(a.transport_id, "transport-1");
    assert!(!a.is_idle_screen);
    assert!(classify_application(s("x"), s("y"), s("z"), None, s("t"), Some(true)).is_none());
    assert!(classify_application(None, s("y"), s("z"), s("w"), s("t"), Some(true)).is_none());
}

#[test]
fn probe_streams_need_kind_and_codec() {
    let s = |t: &str| Some(t.to_string());
    let ok = classify_probe_stream(s("video"), s("hevc"), s("Main 10"), None).unwrap();
    assert_eq!(ok.codec_type, "video");
    assert_eq!(ok.codec_name, "hevc");
    assert_eq!(ok.profile.as_deref(), Some("Main 10"));
    assert_eq!(ok.pix_fmt, None);
    let e = classify_probe_stream(None, s("hevc"), None, None).unwrap_err();
    assert_eq!(e.message(), "stream without codec_type");
    let e = classify_probe_stream(s("video"), None, None, None).unwrap_err();
    assert_eq!(e.message(), "stream without codec_name");
}
