//! The transcoding decision and the encoder invocation it leads to.  The
//! device plays H.264 8-bit video and AAC/MP3 audio; anything else goes
//! through the external encoder, whose argument list is built here.  The
//! prober's JSON output is reduced to a `MediaProbeResult` of plain
//! values.

use vstd::prelude::*;
use vstd::string::*;

use crate::error::CastError;
use crate::json::{json_as_array, json_get, json_parse, json_string_member};
use crate::text::{
    chars_eq, chars_is_lit, chars_of, contains_lit, contains_seq, format_secs, parse_millis,
    spec_secs_repr, string_of,
};

verus! {

/// What the prober reported about a media file.
pub struct MediaProbeResult {
    pub video_codec: Option<String>,
    pub video_profile: Option<String>,
    pub pix_fmt: Option<String>,
    pub audio_codec: Option<String>,
    pub duration_ms: Option<u64>,
}

/// The mathematical model of a probe result.
pub struct ProbeModel {
    pub video_codec: Option<Seq<char>>,
    pub video_profile: Option<Seq<char>>,
    pub pix_fmt: Option<Seq<char>>,
    pub audio_codec: Option<Seq<char>>,
    pub duration_ms: Option<u64>,
}

impl View for MediaProbeResult {
    type V = ProbeModel;

    open spec fn view(&self) -> ProbeModel {
        ProbeModel {
            video_codec: match self.video_codec {
                Some(ref s) => Some(s@),
                None => None,
            },
            video_profile: match self.video_profile {
                Some(ref s) => Some(s@),
                None => None,
            },
            pix_fmt: match self.pix_fmt {
                Some(ref s) => Some(s@),
                None => None,
            },
            audio_codec: match self.audio_codec {
                Some(ref s) => Some(s@),
                None => None,
            },
            duration_ms: self.duration_ms,
        }
    }
}

/// The device's hard compatibility limits: transcode when the video is
/// not H.264, or is flagged as 10/12-bit, or carries a High 10/4:2:2/
/// 4:4:4 profile, or the audio is neither AAC nor MP3.
pub open spec fn spec_needs_transcoding(p: ProbeModel) -> bool {
    (match p.video_codec {
        Some(v) => v != "h264"@ || (match p.pix_fmt {
            Some(f) => contains_seq(f, "10le"@) || contains_seq(f, "12le"@) || contains_seq(
                f,
                "10be"@,
            ),
            None => false,
        }) || (match p.video_profile {
            Some(pr) => contains_seq(pr, "High 10"@) || contains_seq(pr, "High 4:2:2"@)
                || contains_seq(pr, "High 4:4:4"@),
            None => false,
        }),
        None => false,
    }) || (match p.audio_codec {
        Some(a) => a != "aac"@ && a != "mp3"@,
        None => false,
    })
}

/// Decides whether the encoder must run for this media.
pub fn needs_transcoding(probe: &MediaProbeResult) -> (r: bool)
    ensures
        r == spec_needs_transcoding(probe@),
{
    let mut video_bad = false;
    match &probe.video_codec {
        Some(v) => {
            let vc = chars_of(v.as_str());
            if !chars_is_lit(&vc, "h264") {
                video_bad = true;
            }
            if !video_bad {
                match &probe.pix_fmt {
                    Some(f) => {
                        let fc = chars_of(f.as_str());
                        if contains_lit(&fc, "10le") || contains_lit(&fc, "12le")
                            || contains_lit(&fc, "10be") {
                            video_bad = true;
                        }
                    },
                    None => {},
                }
            }
            if !video_bad {
                match &probe.video_profile {
                    Some(p) => {
                        let pc = chars_of(p.as_str());
                        if contains_lit(&pc, "High 10") || contains_lit(&pc, "High 4:2:2")
                            || contains_lit(&pc, "High 4:4:4") {
                            video_bad = true;
                        }
                    },
                    None => {},
                }
            }
        },
        None => {},
    }
    if video_bad {
        return true;
    }
    match &probe.audio_codec {
        Some(a) => {
            let ac = chars_of(a.as_str());
            if !chars_is_lit(&ac, "aac") && !chars_is_lit(&ac, "mp3") {
                return true;
            }
        },
        None => {},
    }
    false
}

/// What to hand the encoder: the input, where to start, and the target
/// codecs.
pub struct TranscodeConfig {
    pub input_path: String,
    pub start_time_ms: u64,
    pub target_video_codec: String,
    pub target_audio_codec: String,
}

/// The encoder's argument list: an optional start seek, the input, the
/// target codecs with 8-bit pixels and the fastest preset, and fragmented
/// MP4 on its standard output.
pub open spec fn spec_encoder_args(
    input: Seq<char>,
    start_ms: u64,
    vcodec: Seq<char>,
    acodec: Seq<char>,
) -> Seq<Seq<char>> {
    let base = seq![
        "-i"@,
        input,
        "-c:v"@,
        vcodec,
        "-pix_fmt"@,
        "yuv420p"@,
        "-preset"@,
        "ultrafast"@,
        "-c:a"@,
        acodec,
        "-f"@,
        "mp4"@,
        "-movflags"@,
        "frag_keyframe+empty_moov+default_base_moof"@,
        "pipe:1"@,
    ];
    if start_ms > 0 {
        seq!["-ss"@, spec_secs_repr(start_ms)] + base
    } else {
        base
    }
}

/// Builds the encoder's argument list.
pub fn build_encoder_args(config: &TranscodeConfig) -> (r: Vec<String>)
    ensures
        r.deep_view() == spec_encoder_args(
            config.input_path@,
            config.start_time_ms,
            config.target_video_codec@,
            config.target_audio_codec@,
        ),
{
    let mut r: Vec<String> = Vec::new();
    if config.start_time_ms > 0 {
        r.push(String::from_str("-ss"));
        let secs = format_secs(config.start_time_ms);
        r.push(string_of(&secs));
    }
    r.push(String::from_str("-i"));
    r.push(config.input_path.clone());
    r.push(String::from_str("-c:v"));
    r.push(config.target_video_codec.clone());
    r.push(String::from_str("-pix_fmt"));
    r.push(String::from_str("yuv420p"));
    r.push(String::from_str("-preset"));
    r.push(String::from_str("ultrafast"));
    r.push(String::from_str("-c:a"));
    r.push(config.target_audio_codec.clone());
    r.push(String::from_str("-f"));
    r.push(String::from_str("mp4"));
    r.push(String::from_str("-movflags"));
    r.push(String::from_str("frag_keyframe+empty_moov+default_base_moof"));
    r.push(String::from_str("pipe:1"));
    proof {
        assert(r.deep_view() =~~= spec_encoder_args(
            config.input_path@,
            config.start_time_ms,
            config.target_video_codec@,
            config.target_audio_codec@,
        ));
    }
    r
}

/// One stream of the prober's report.
#[derive(Debug)]
pub struct ProbeStream {
    pub codec_type: String,
    pub codec_name: String,
    pub profile: Option<String>,
    pub pix_fmt: Option<String>,
}

/// The mathematical model of one probed stream.
pub struct ProbeStreamModel {
    pub codec_type: Seq<char>,
    pub codec_name: Seq<char>,
    pub profile: Option<Seq<char>>,
    pub pix_fmt: Option<Seq<char>>,
}

impl View for ProbeStream {
    type V = ProbeStreamModel;

    open spec fn view(&self) -> ProbeStreamModel {
        ProbeStreamModel {
            codec_type: self.codec_type@,
            codec_name: self.codec_name@,
            profile: match self.profile {
                Some(ref s) => Some(s@),
                None => None,
            },
            pix_fmt: match self.pix_fmt {
                Some(ref s) => Some(s@),
                None => None,
            },
        }
    }
}

impl DeepView for ProbeStream {
    type V = ProbeStreamModel;

    open spec fn deep_view(&self) -> ProbeStreamModel {
        self.view()
    }
}

/// The first stream of the given kind, in report order.
pub open spec fn first_stream_of(ss: Seq<ProbeStreamModel>, kind: Seq<char>) -> Option<
    ProbeStreamModel,
>
    decreases ss.len(),
{
    if ss.len() == 0 {
        None
    } else if ss[0].codec_type == kind {
        Some(ss[0])
    } else {
        first_stream_of(ss.subrange(1, ss.len() as int), kind)
    }
}

/// Position of the first stream of the given kind.
fn find_first_kind(streams: &Vec<ProbeStream>, kind: &str) -> (r: Option<usize>)
    ensures
        match r {
            Some(i) => i < streams@.len() && first_stream_of(streams.deep_view(), kind@) == Some(
                streams.deep_view()[i as int],
            ),
            None => first_stream_of(streams.deep_view(), kind@) is None,
        },
{
    let kc = chars_of(kind);
    let ghost dv = streams.deep_view();
    proof {
        assert(dv.subrange(0, dv.len() as int) =~= dv);
    }
    let mut i: usize = 0;
    while i < streams.len()
        invariant
            i <= streams@.len(),
            dv == streams.deep_view(),
            dv.len() == streams@.len(),
            kc@ == kind@,
            first_stream_of(dv, kind@) == first_stream_of(
                dv.subrange(i as int, dv.len() as int),
                kind@,
            ),
        decreases streams@.len() - i,
    {
        let ghost cur = dv.subrange(i as int, dv.len() as int);
        let ct = chars_of(streams[i].codec_type.as_str());
        if chars_eq(&ct, &kc) {
            proof {
                assert(cur[0] == dv[i as int]);
                assert(first_stream_of(cur, kind@) == Some(dv[i as int]));
            }
            return Some(i);
        }
        proof {
            assert(cur[0] == dv[i as int]);
            assert(cur.subrange(1, cur.len() as int) =~= dv.subrange(
                i as int + 1,
                dv.len() as int,
            ));
        }
        i = i + 1;
    }
    proof {
        assert(dv.subrange(i as int, dv.len() as int) =~= Seq::<ProbeStreamModel>::empty());
    }
    None
}

/// Reduces the probed streams to the fields the caster needs: the first
/// video stream's codec, profile and pixel format, and the first audio
/// stream's codec.
pub fn summarize_probe(streams: &Vec<ProbeStream>, duration_ms: Option<u64>) -> (r:
    MediaProbeResult)
    ensures
        r@.duration_ms == duration_ms,
        match first_stream_of(streams.deep_view(), "video"@) {
            Some(s) => r@.video_codec == Some(s.codec_name) && r@.video_profile == s.profile
                && r@.pix_fmt == s.pix_fmt,
            None => r@.video_codec is None && r@.video_profile is None && r@.pix_fmt is None,
        },
        match first_stream_of(streams.deep_view(), "audio"@) {
            Some(s) => r@.audio_codec == Some(s.codec_name),
            None => r@.audio_codec is None,
        },
{
    let mut video_codec: Option<String> = None;
    let mut video_profile: Option<String> = None;
    let mut pix_fmt: Option<String> = None;
    let mut audio_codec: Option<String> = None;
    match find_first_kind(streams, "video") {
        Some(i) => {
            let s = &streams[i];
            video_codec = Some(s.codec_name.clone());
            video_profile = match &s.profile {
                Some(p) => Some(p.clone()),
                None => None,
            };
            pix_fmt = match &s.pix_fmt {
                Some(p) => Some(p.clone()),
                None => None,
            };
        },
        None => {},
    }
    match find_first_kind(streams, "audio") {
        Some(i) => {
            audio_codec = Some(streams[i].codec_name.clone());
        },
        None => {},
    }
    MediaProbeResult { video_codec, video_profile, pix_fmt, audio_codec, duration_ms }
}

/// Accepts one probed stream from its extracted members: the stream's
/// kind and codec name must be there; the profile and pixel format come
/// along when present.  A missing or non-text required member is the
/// `Probe` error that names it.
pub fn classify_probe_stream(
    codec_type: Option<String>,
    codec_name: Option<String>,
    profile: Option<String>,
    pix_fmt: Option<String>,
) -> (r: Result<ProbeStream, CastError>)
    ensures
        r is Ok <==> (codec_type is Some && codec_name is Some),
        r matches Ok(s) ==> s@.codec_type == codec_type.unwrap()@ && s@.codec_name
            == codec_name.unwrap()@ && s@.profile == (match profile {
            Some(p) => Some(p@),
            None => None,
        }) && s@.pix_fmt == (match pix_fmt {
            Some(p) => Some(p@),
            None => None,
        }),
        r matches Err(e) ==> e is Probe && e.spec_message() == (if codec_type is None {
            "stream without codec_type"@
        } else {
            "stream without codec_name"@
        }),
{
    let codec_type = match codec_type {
        Some(t) => t,
        None => {
            return Err(CastError::Probe(String::from_str("stream without codec_type")));
        },
    };
    let codec_name = match codec_name {
        Some(n) => n,
        None => {
            return Err(CastError::Probe(String::from_str("stream without codec_name")));
        },
    };
    Ok(ProbeStream { codec_type, codec_name, profile, pix_fmt })
}

/// Reads the prober's JSON report.  The report must hold a `streams`
/// array; the optional `profile`, `pix_fmt` and `format.duration`
/// members count as absent when missing or not text.  The JSON tree is
/// opaque, so this only extracts members through the trusted accessors;
/// what each stream's members become is fixed by the contract of
/// `classify_probe_stream`, the duration by `parse_millis`, and the
/// reduction of the streams by `summarize_probe`, which this calls.
pub fn parse_probe_json(text: &str) -> (r: Result<MediaProbeResult, CastError>) {
    let root = match json_parse(text) {
        Some(v) => v,
        None => {
            return Err(CastError::Probe(String::from_str("prober output is not JSON")));
        },
    };
    let streams_v = match json_get(&root, "streams") {
        Some(v) => v,
        None => {
            return Err(CastError::Probe(String::from_str("prober output lists no streams")));
        },
    };
    let arr = match json_as_array(streams_v) {
        Some(a) => a,
        None => {
            return Err(CastError::Probe(String::from_str("prober output lists no streams")));
        },
    };
    let mut streams: Vec<ProbeStream> = Vec::new();
    let mut i: usize = 0;
    while i < arr.len()
        decreases arr@.len() - i,
    {
        let st = &arr[i];
        let record = classify_probe_stream(
            json_string_member(st, "codec_type"),
            json_string_member(st, "codec_name"),
            json_string_member(st, "profile"),
            json_string_member(st, "pix_fmt"),
        );
        match record {
            Ok(stream) => streams.push(stream),
            Err(e) => {
                return Err(e);
            },
        }
        i = i + 1;
    }
    let duration_ms: Option<u64> = match json_get(&root, "format") {
        Some(f) => match json_string_member(f, "duration") {
            Some(ds) => {
                let dc = chars_of(ds.as_str());
                parse_millis(&dc)
            },
            None => None,
        },
        None => None,
    };
    Ok(summarize_probe(&streams, duration_ms))
}

} // verus!
