//! From a playlist entry to a LOAD: classifying the user's inputs,
//! and planning what each entry means for the HTTP server and the
//! remote — which URL the device fetches, with which content type,
//! whether the encoder runs, and where the clocks start.

use vstd::prelude::*;
use vstd::string::*;

use crate::server::{get_mime_type, spec_mime};
use crate::text::{
    append_chars, append_lit, chars_of, ends_with_lit, format_secs, is_prefix, is_suffix,
    spec_secs_repr, starts_with_lit, string_of,
};
use crate::transcode::{needs_transcoding, spec_needs_transcoding, MediaProbeResult};
use crate::protocol::media::MediaTrack;

verus! {

/// One playlist entry, as classified from the user's input.
pub enum MediaSource {
    /// A remote URL the device fetches itself.
    Url(String),
    /// A local file, served (and possibly transcoded) by us.
    FilePath(String),
    /// A magnet link for the torrent engine.
    Magnet(String),
    /// A torrent file on disk.
    TorrentFile(String),
}

impl Clone for MediaSource {
    fn clone(&self) -> (r: Self)
        ensures
            r.spec_input() == self.spec_input(),
            r is Url <==> self is Url,
            r is FilePath <==> self is FilePath,
            r is Magnet <==> self is Magnet,
            r is TorrentFile <==> self is TorrentFile,
    {
        match self {
            MediaSource::Url(s) => MediaSource::Url(s.clone()),
            MediaSource::FilePath(s) => MediaSource::FilePath(s.clone()),
            MediaSource::Magnet(s) => MediaSource::Magnet(s.clone()),
            MediaSource::TorrentFile(s) => MediaSource::TorrentFile(s.clone()),
        }
    }
}

impl MediaSource {
    /// The text the entry was classified from.
    pub open spec fn spec_input(&self) -> Seq<char> {
        match self {
            MediaSource::Url(s) => s@,
            MediaSource::FilePath(s) => s@,
            MediaSource::Magnet(s) => s@,
            MediaSource::TorrentFile(s) => s@,
        }
    }
}

/// The ordered entries of one run.
pub struct Playlist {
    pub queue: Vec<MediaSource>,
    pub repeat: bool,
}

/// Classifies one input: a `magnet:?` prefix makes a magnet, a
/// `.torrent` suffix a torrent file, an existing path a local file, and
/// anything else a URL.  Whether the path exists on disk is the
/// caller's finding.
pub fn classify_source(input: &str, exists_on_disk: bool) -> (r: MediaSource)
    ensures
        r.spec_input() == input@,
        is_prefix(input@, "magnet:?"@) ==> r is Magnet,
        (!is_prefix(input@, "magnet:?"@) && is_suffix(input@, ".torrent"@)) ==> r is TorrentFile,
        (!is_prefix(input@, "magnet:?"@) && !is_suffix(input@, ".torrent"@) && exists_on_disk)
            ==> r is FilePath,
        (!is_prefix(input@, "magnet:?"@) && !is_suffix(input@, ".torrent"@) && !exists_on_disk)
            ==> r is Url,
{
    let v = chars_of(input);
    if starts_with_lit(&v, 0, "magnet:?") {
        MediaSource::Magnet(input.to_owned())
    } else if ends_with_lit(&v, ".torrent") {
        MediaSource::TorrentFile(input.to_owned())
    } else if exists_on_disk {
        MediaSource::FilePath(input.to_owned())
    } else {
        MediaSource::Url(input.to_owned())
    }
}

/// What loading one entry means locally and remotely.
pub struct LoadPlan {
    /// What the device is told to fetch.
    pub content_id: String,
    /// The content type named in the LOAD.
    pub content_type: String,
    /// Whether the encoder must run.
    pub is_transcoding: bool,
    /// How far the encoder was fast-forwarded.
    pub seek_offset_ms: u64,
    /// The position the remote starts at.
    pub play_position_ms: u64,
}

/// Plans the load of a local file: the probe decides between serving
/// the file as it is (the device seeks; the clock starts at the given
/// position) and spawning the encoder (the device streams from its
/// clock's zero; the offset keeps our clock right).
pub fn plan_file_load(path: &str, probe: &MediaProbeResult, server_base: &str, start_ms: u64) -> (r:
    LoadPlan)
    ensures
        r.is_transcoding == spec_needs_transcoding(probe@),
        r.is_transcoding ==> r.content_id@ == server_base@ + "/?t="@ + spec_secs_repr(start_ms)
            && r.content_type@ == "video/mp4"@ && r.seek_offset_ms == start_ms
            && r.play_position_ms == 0,
        !r.is_transcoding ==> r.content_id@ == server_base@ && r.content_type@ == spec_mime(path@)
            && r.seek_offset_ms == 0 && r.play_position_ms == start_ms,
{
    if needs_transcoding(probe) {
        let mut url: Vec<char> = Vec::new();
        append_lit(&mut url, server_base);
        append_lit(&mut url, "/?t=");
        let secs = format_secs(start_ms);
        append_chars(&mut url, &secs);
        LoadPlan {
            content_id: string_of(&url),
            content_type: String::from_str("video/mp4"),
            is_transcoding: true,
            seek_offset_ms: start_ms,
            play_position_ms: 0,
        }
    } else {
        LoadPlan {
            content_id: server_base.to_owned(),
            content_type: String::from_str(get_mime_type(path)),
            is_transcoding: false,
            seek_offset_ms: 0,
            play_position_ms: start_ms,
        }
    }
}

/// Plans the load of a remote URL: the device fetches it directly.
pub fn plan_url_load(url: &str, start_ms: u64) -> (r: LoadPlan)
    ensures
        r.content_id@ == url@,
        r.content_type@ == "video/mp4"@,
        !r.is_transcoding,
        r.seek_offset_ms == 0,
        r.play_position_ms == start_ms,
{
    LoadPlan {
        content_id: url.to_owned(),
        content_type: String::from_str("video/mp4"),
        is_transcoding: false,
        seek_offset_ms: 0,
        play_position_ms: start_ms,
    }
}

/// Plans the load of a torrent's file, once its growing copy is being
/// served: the device fetches our server, typed by the file's name.
pub fn plan_torrent_load(file_path: &str, server_base: &str, start_ms: u64) -> (r: LoadPlan)
    ensures
        r.content_id@ == server_base@,
        r.content_type@ == spec_mime(file_path@),
        !r.is_transcoding,
        r.seek_offset_ms == 0,
        r.play_position_ms == start_ms,
{
    LoadPlan {
        content_id: server_base.to_owned(),
        content_type: String::from_str(get_mime_type(file_path)),
        is_transcoding: false,
        seek_offset_ms: 0,
        play_position_ms: start_ms,
    }
}

/// The subtitle side track a LOAD names when a subtitle file is
/// configured: our server's `/subtitle` path, as WebVTT.
pub fn subtitle_track(server_base: &str) -> (r: MediaTrack)
    ensures
        r.track_id == 1,
        r.track_type@ == "TEXT"@,
        r.track_content_id matches Some(u) && u@ == server_base@ + "/subtitle"@,
        r.track_content_type matches Some(t) && t@ == "text/vtt"@,
        r.name matches Some(n) && n@ == "Subtitle"@,
        r.language matches Some(l) && l@ == "en"@,
        r.subtype matches Some(s) && s@ == "SUBTITLES"@,
{
    let mut url: Vec<char> = Vec::new();
    append_lit(&mut url, server_base);
    append_lit(&mut url, "/subtitle");
    MediaTrack {
        track_id: 1,
        track_type: String::from_str("TEXT"),
        track_content_id: Some(string_of(&url)),
        track_content_type: Some(String::from_str("text/vtt")),
        name: Some(String::from_str("Subtitle")),
        language: Some(String::from_str("en")),
        subtype: Some(String::from_str("SUBTITLES")),
    }
}

} // verus!
