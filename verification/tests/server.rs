//! Range parsing, content types, headers, and the subtitle conversion.

use castru::server::{
    build_stream_header, chunk_size_line, chunk_terminator, extract_range_header, get_mime_type,
    parse_range, plan_range_response, transcode_header, StreamConfig, StreamSource,
};
use castru::subtitles::srt_to_vtt;

#[test]
fn test_mime_type_detection() {
    assert_eq!(get_mime_type("video.mp4"), "video/mp4");
    assert_eq!(get_mime_type("song.mp3"), "audio/mpeg");
    assert_eq!(get_mime_type("image.jpg"), "image/jpeg");
    assert_eq!(get_mime_type("unknown.xyz"), "application/octet-stream");
}

#[test]
fn test_range_parsing() {
    let size = 1000;
    assert_eq!(parse_range(Some("0-499"), size), (0, 499));
    assert_eq!(parse_range(Some("500-"), size), (500, 999));
    assert_eq!(parse_range(Some("-500"), size), (500, 999));
    assert_eq!(parse_range(None, size), (0, 999));
}

#[test]
fn range_end_clamped_to_file() {
    assert_eq!(parse_range(Some("0-9999"), 1000), (0, 999));
}

#[test]
fn unreadable_range_falls_back_to_whole_file() {
    assert_eq!(parse_range(Some("abc"), 1000), (0, 999));
    assert_eq!(parse_range(Some("-abc"), 1000), (0, 999));
    assert_eq!(parse_range(Some("12"), 1000), (0, 999));
}

#[test]
fn backwards_range_serves_whole_file_as_full_response() {
    let (partial, start, end) = plan_range_response(Some("900-100"), 1000);
    assert!(!partial);
    assert_eq!((start, end), (0, 999));
    let (partial2, s2, e2) = plan_range_response(Some("100-900"), 1000);
    assert!(partial2);
    assert_eq!((s2, e2), (100, 900));
}

#[test]
fn mime_uses_last_component_and_last_dot() {
    assert_eq!(get_mime_type("/a.mkv/movie.webm"), "video/webm");
    assert_eq!(get_mime_type("archive.tar.gz"), "application/octet-stream");
    assert_eq!(get_mime_type(".hidden"), "application/octet-stream");
    assert_eq!(get_mime_type("noext"), "application/octet-stream");
    assert_eq!(get_mime_type("music.flac"), "audio/flac");
    assert_eq!(get_mime_type("clip.m4v"), "video/mp4");
}

#[test]
fn range_header_extracted_and_trimmed() {
    let req = "GET / HTTP/1.1\r\nHost: x\r\nRange: bytes=0-499 \r\n\r\n";
    assert_eq!(extract_range_header(req), Some("0-499".to_string()));
    let req2 = "GET / HTTP/1.1\r\nHost: x\r\n\r\n";
    assert_eq!(extract_range_header(req2), None);
}

#[test]
fn stream_headers_spell_out_the_range() {
    let h = build_stream_header(true, "video/mp4", 0, 499, 1000);
    assert_eq!(
        h,
        "HTTP/1.1 206 Partial Content \r\nContent-Type: video/mp4\r\nContent-Length: 500\r\nContent-Range: bytes 0-499/1000\r\nConnection: keep-alive\r\nAccept-Ranges: bytes\r\n\r\n"
    );
    let f = build_stream_header(false, "audio/mpeg", 0, 999, 1000);
    assert!(f.starts_with("HTTP/1.1 200 OK \r\n"));
    assert!(f.contains("Content-Length: 1000\r\n"));
    assert!(transcode_header().contains("Transfer-Encoding: chunked"));
}

#[test]
fn chunk_lines_are_hex_sized() {
    assert_eq!(chunk_size_line(65536), "10000\r\n");
    assert_eq!(chunk_size_line(26), "1A\r\n");
    assert_eq!(chunk_terminator(), "0\r\n\r\n");
}

#[test]
fn default_stream_config_buffers_sixteen_megabyte_chunks() {
    let c = StreamConfig::default();
    assert_eq!(c.chunk_size, 1024 * 1024);
    assert_eq!(c.buffer_capacity, 16);
}

#[test]
fn stream_source_reports_its_path_and_size() {
    let s = StreamSource::Static { path: "/tmp/a.mp4".to_string() };
    assert_eq!(s.get_path(), "/tmp/a.mp4");
    assert_eq!(s.total_size(), None);
    let g = StreamSource::Growing {
        path: "/tmp/t/file.mkv".to_string(),
        total_size: 1234,
        file_offset: 10,
        piece_length: 4,
    };
    assert_eq!(g.total_size(), Some(1234));
}

#[test]
fn test_srt_to_vtt_basic() {
    let srt = "1\n00:00:20,000 --> 00:00:24,400\nHello World\n\n2\n00:00:24,600 --> 00:00:27,800\nFoo Bar";
    let vtt = srt_to_vtt(srt);

    assert!(vtt.starts_with("WEBVTT"));
    assert!(vtt.contains("00:00:20.000 --> 00:00:24.400"));
    assert!(vtt.contains("Hello World"));
}

#[test]
fn srt_commas_change_only_on_timing_lines() {
    let srt = "1\n00:00:01,000 --> 00:00:02,000\nwell, hello\n";
    let vtt = srt_to_vtt(srt);
    assert!(vtt.starts_with("WEBVTT\n\n"));
    assert!(vtt.contains("00:00:01.000 --> 00:00:02.000"));
    // the cue text keeps its comma
    assert!(vtt.contains("well, hello"));
}

#[test]
fn range_header_found_among_many_lines() {
    let req = "GET / HTTP/1.1\r\nAccept: */*\r\nrange: bytes=0-1\r\nRange: bytes=7-9\r\nHost: x\r\n\r\n";
    // header names match exactly; the lower-case line is passed over
    assert_eq!(extract_range_header(req), Some("7-9".to_string()));
}

#[test]
fn unicode_subtitles_survive_conversion() {
    let srt = "1\n00:00:01,000 --> 00:00:02,000\nna\u{ef}ve caf\u{e9}, \u{4f60}\u{597d}\n";
    let vtt = srt_to_vtt(srt);
    assert!(vtt.contains("00:00:01.000 --> 00:00:02.000"));
    assert!(vtt.contains("na\u{ef}ve caf\u{e9}, \u{4f60}\u{597d}"));
}

#[test]
fn invalid_range_values_answer_a_full_response() {
    // outside the grammar: no dash, stray letters, double dash
    assert_eq!(plan_range_response(Some("abc"), 1000), (false, 0, 999));
    assert_eq!(plan_range_response(Some("12"), 1000), (false, 0, 999));
    assert_eq!(plan_range_response(Some("12x-45"), 1000), (false, 0, 999));
    assert_eq!(plan_range_response(Some("1-2-3"), 1000), (false, 0, 999));
    assert_eq!(plan_range_response(Some("-"), 1000), (false, 0, 999));
    // inside it: the three accepted shapes
    assert_eq!(plan_range_response(Some("0-499"), 1000), (true, 0, 499));
    assert_eq!(plan_range_response(Some("500-"), 1000), (true, 500, 999));
    assert_eq!(plan_range_response(Some("-500"), 1000), (true, 500, 999));
}
