//! The media-session namespace: loading content and driving playback,
//! and the MEDIA_STATUS response the supervisor feeds on.  Times in the
//! structs are milliseconds; on the wire they are seconds, written with
//! a fraction only when one is there.

use vstd::prelude::*;
use vstd::string::*;

use crate::json::{json_as_array, json_as_bool, json_as_str, json_get, json_number_member_text,
    json_parse, json_string_member};
use crate::protocol::receiver::{spec_volume_permille_of, volume_permille_of};
use crate::supervisor::{IdleReason, MediaStatusEvent, RemotePlayerState};
use crate::text::{
    append_chars, append_json_string, append_lit, chars_is_lit, chars_of, format_i32,
    format_secs, parse_millis, spec_i32_repr, spec_json_string, spec_secs_repr, string_of,
};

verus! {

/// One media item as a LOAD names it.
pub struct MediaInformation {
    pub content_id: String,
    pub stream_type: String,
    pub content_type: String,
    pub metadata: Option<MediaMetadata>,
    pub tracks: Option<Vec<MediaTrack>>,
}

/// One side track, such as subtitles.
pub struct MediaTrack {
    pub track_id: i32,
    pub track_type: String,
    pub track_content_id: Option<String>,
    pub track_content_type: Option<String>,
    pub name: Option<String>,
    pub language: Option<String>,
    pub subtype: Option<String>,
}

/// Descriptive metadata for a media item.
pub struct MediaMetadata {
    pub metadata_type: i32,
    pub title: Option<String>,
    pub subtitle: Option<String>,
    pub images: Option<Vec<Image>>,
}

/// One artwork reference.
pub struct Image {
    pub url: String,
    pub height: Option<i32>,
    pub width: Option<i32>,
}

/// A request to the media session.
pub enum MediaRequest {
    GetStatus { request_id: i32, media_session_id: Option<i32> },
    Seek { request_id: i32, media_session_id: i32, current_time_ms: u64, resume_state: Option<String> },
    Load {
        request_id: i32,
        session_id: String,
        media: MediaInformation,
        autoplay: bool,
        current_time_ms: u64,
        active_track_ids: Option<Vec<i32>>,
    },
    Play { request_id: i32, media_session_id: i32 },
    Pause { request_id: i32, media_session_id: i32 },
    Stop { request_id: i32, media_session_id: i32 },
}

/// The namespace URN these messages travel under.
pub fn namespace() -> (r: &'static str)
    ensures
        r@ == "urn:x-cast:com.google.cast.media"@,
{
    "urn:x-cast:com.google.cast.media"
}

/// An optional string member with the given JSON key: nothing when
/// unset, `,"key":"value"` when set.
pub open spec fn spec_opt_str_member(key: Seq<char>, v: Option<Seq<char>>) -> Seq<char> {
    match v {
        Some(s) => seq![','] + seq!['"'] + key + seq!['"'] + seq![':'] + spec_json_string(s),
        None => Seq::<char>::empty(),
    }
}

/// A nullable string member value.
pub open spec fn spec_nullable_str(v: Option<Seq<char>>) -> Seq<char> {
    match v {
        Some(s) => spec_json_string(s),
        None => "null"@,
    }
}

/// A nullable number member value.
pub open spec fn spec_nullable_i32(v: Option<i32>) -> Seq<char> {
    match v {
        Some(n) => spec_i32_repr(n),
        None => "null"@,
    }
}

/// One track, in JSON: the id and kind always, the optional members
/// only when set.
pub open spec fn spec_track_json(t: TrackModel) -> Seq<char> {
    "{\"trackId\":"@ + spec_i32_repr(t.track_id) + ",\"type\":"@ + spec_json_string(t.track_type)
        + spec_opt_str_member("trackContentId"@, t.track_content_id) + spec_opt_str_member(
        "trackContentType"@,
        t.track_content_type,
    ) + spec_opt_str_member("name"@, t.name) + spec_opt_str_member("language"@, t.language)
        + spec_opt_str_member("subtype"@, t.subtype) + "}"@
}

/// One artwork reference, in JSON.
pub open spec fn spec_image_json(im: ImageModel) -> Seq<char> {
    "{\"url\":"@ + spec_json_string(im.url) + ",\"height\":"@ + spec_nullable_i32(im.height)
        + ",\"width\":"@ + spec_nullable_i32(im.width) + "}"@
}

/// JSON array elements joined with commas.
pub open spec fn spec_joined(items: Seq<Seq<char>>) -> Seq<char>
    decreases items.len(),
{
    if items.len() == 0 {
        Seq::<char>::empty()
    } else if items.len() == 1 {
        items[0]
    } else {
        spec_joined(items.drop_last()) + seq![','] + items.last()
    }
}

/// The metadata object, in JSON: every member written, unset ones null.
pub open spec fn spec_metadata_json(m: MetadataModel) -> Seq<char> {
    "{\"metadataType\":"@ + spec_i32_repr(m.metadata_type) + ",\"title\":"@ + spec_nullable_str(
        m.title,
    ) + ",\"subtitle\":"@ + spec_nullable_str(m.subtitle) + ",\"images\":"@ + (match m.images {
        Some(ims) => seq!['['] + spec_joined(ims.map_values(|im: ImageModel| spec_image_json(im)))
            + seq![']'],
        None => "null"@,
    }) + "}"@
}

/// The media object of a LOAD, in JSON.
pub open spec fn spec_media_json(m: MediaModel) -> Seq<char> {
    "{\"contentId\":"@ + spec_json_string(m.content_id) + ",\"streamType\":"@ + spec_json_string(
        m.stream_type,
    ) + ",\"contentType\":"@ + spec_json_string(m.content_type) + (match m.metadata {
        Some(md) => ",\"metadata\":"@ + spec_metadata_json(md),
        None => Seq::<char>::empty(),
    }) + (match m.tracks {
        Some(ts) => ",\"tracks\":["@ + spec_joined(
            ts.map_values(|t: TrackModel| spec_track_json(t)),
        ) + seq![']'],
        None => Seq::<char>::empty(),
    }) + "}"@
}

/// The JSON payload of a media request.
pub open spec fn spec_media_payload(r: MediaRequestModel) -> Seq<char> {
    match r {
        MediaRequestModel::GetStatus { request_id, media_session_id } => match media_session_id {
            Some(m) => "{\"type\":\"GET_STATUS\",\"requestId\":"@ + spec_i32_repr(request_id)
                + ",\"mediaSessionId\":"@ + spec_i32_repr(m) + "}"@,
            None => "{\"type\":\"GET_STATUS\",\"requestId\":"@ + spec_i32_repr(request_id) + "}"@,
        },
        MediaRequestModel::Seek { request_id, media_session_id, current_time_ms, resume_state } => "{\"type\":\"SEEK\",\"requestId\":"@
            + spec_i32_repr(request_id) + ",\"mediaSessionId\":"@ + spec_i32_repr(
            media_session_id,
        ) + ",\"currentTime\":"@ + spec_secs_repr(current_time_ms) + (match resume_state {
            Some(s) => ",\"resumeState\":"@ + spec_json_string(s),
            None => Seq::<char>::empty(),
        }) + "}"@,
        MediaRequestModel::Load {
            request_id,
            session_id,
            media,
            autoplay,
            current_time_ms,
            active_track_ids,
        } => "{\"type\":\"LOAD\",\"requestId\":"@ + spec_i32_repr(request_id) + ",\"sessionId\":"@
            + spec_json_string(session_id) + ",\"media\":"@ + spec_media_json(media)
            + ",\"autoplay\":"@ + (if autoplay {
            "true"@
        } else {
            "false"@
        }) + ",\"currentTime\":"@ + spec_secs_repr(current_time_ms) + (match active_track_ids {
            Some(ids) => ",\"activeTrackIds\":["@ + spec_joined(
                ids.map_values(|n: i32| spec_i32_repr(n)),
            ) + seq![']'],
            None => Seq::<char>::empty(),
        }) + "}"@,
        MediaRequestModel::Play { request_id, media_session_id } => "{\"type\":\"PLAY\",\"requestId\":"@
            + spec_i32_repr(request_id) + ",\"mediaSessionId\":"@ + spec_i32_repr(
            media_session_id,
        ) + "}"@,
        MediaRequestModel::Pause { request_id, media_session_id } => "{\"type\":\"PAUSE\",\"requestId\":"@
            + spec_i32_repr(request_id) + ",\"mediaSessionId\":"@ + spec_i32_repr(
            media_session_id,
        ) + "}"@,
        MediaRequestModel::Stop { request_id, media_session_id } => "{\"type\":\"STOP\",\"requestId\":"@
            + spec_i32_repr(request_id) + ",\"mediaSessionId\":"@ + spec_i32_repr(
            media_session_id,
        ) + "}"@,
    }
}

/// Model of one track.
pub struct TrackModel {
    pub track_id: i32,
    pub track_type: Seq<char>,
    pub track_content_id: Option<Seq<char>>,
    pub track_content_type: Option<Seq<char>>,
    pub name: Option<Seq<char>>,
    pub language: Option<Seq<char>>,
    pub subtype: Option<Seq<char>>,
}

/// Model of one artwork reference.
pub struct ImageModel {
    pub url: Seq<char>,
    pub height: Option<i32>,
    pub width: Option<i32>,
}

/// Model of the metadata object.
pub struct MetadataModel {
    pub metadata_type: i32,
    pub title: Option<Seq<char>>,
    pub subtitle: Option<Seq<char>>,
    pub images: Option<Seq<ImageModel>>,
}

/// Model of a media item.
pub struct MediaModel {
    pub content_id: Seq<char>,
    pub stream_type: Seq<char>,
    pub content_type: Seq<char>,
    pub metadata: Option<MetadataModel>,
    pub tracks: Option<Seq<TrackModel>>,
}

/// Model of a media request.
pub enum MediaRequestModel {
    GetStatus { request_id: i32, media_session_id: Option<i32> },
    Seek { request_id: i32, media_session_id: i32, current_time_ms: u64, resume_state: Option<Seq<char>> },
    Load {
        request_id: i32,
        session_id: Seq<char>,
        media: MediaModel,
        autoplay: bool,
        current_time_ms: u64,
        active_track_ids: Option<Seq<i32>>,
    },
    Play { request_id: i32, media_session_id: i32 },
    Pause { request_id: i32, media_session_id: i32 },
    Stop { request_id: i32, media_session_id: i32 },
}

impl View for MediaTrack {
    type V = TrackModel;

    open spec fn view(&self) -> TrackModel {
        TrackModel {
            track_id: self.track_id,
            track_type: self.track_type@,
            track_content_id: match self.track_content_id {
                Some(ref s) => Some(s@),
                None => None,
            },
            track_content_type: match self.track_content_type {
                Some(ref s) => Some(s@),
                None => None,
            },
            name: match self.name {
                Some(ref s) => Some(s@),
                None => None,
            },
            language: match self.language {
                Some(ref s) => Some(s@),
                None => None,
            },
            subtype: match self.subtype {
                Some(ref s) => Some(s@),
                None => None,
            },
        }
    }
}

impl DeepView for MediaTrack {
    type V = TrackModel;

    open spec fn deep_view(&self) -> TrackModel {
        self.view()
    }
}

impl View for Image {
    type V = ImageModel;

    open spec fn view(&self) -> ImageModel {
        ImageModel { url: self.url@, height: self.height, width: self.width }
    }
}

impl DeepView for Image {
    type V = ImageModel;

    open spec fn deep_view(&self) -> ImageModel {
        self.view()
    }
}

impl View for MediaMetadata {
    type V = MetadataModel;

    open spec fn view(&self) -> MetadataModel {
        MetadataModel {
            metadata_type: self.metadata_type,
            title: match self.title {
                Some(ref s) => Some(s@),
                None => None,
            },
            subtitle: match self.subtitle {
                Some(ref s) => Some(s@),
                None => None,
            },
            images: match self.images {
                Some(ref v) => Some(v.deep_view()),
                None => None,
            },
        }
    }
}

impl View for MediaInformation {
    type V = MediaModel;

    open spec fn view(&self) -> MediaModel {
        MediaModel {
            content_id: self.content_id@,
            stream_type: self.stream_type@,
            content_type: self.content_type@,
            metadata: match self.metadata {
                Some(ref m) => Some(m@),
                None => None,
            },
            tracks: match self.tracks {
                Some(ref v) => Some(v.deep_view()),
                None => None,
            },
        }
    }
}

impl View for MediaRequest {
    type V = MediaRequestModel;

    open spec fn view(&self) -> MediaRequestModel {
        match self {
            MediaRequest::GetStatus { request_id, media_session_id } => MediaRequestModel::GetStatus {
                request_id: *request_id,
                media_session_id: *media_session_id,
            },
            MediaRequest::Seek { request_id, media_session_id, current_time_ms, resume_state } => MediaRequestModel::Seek {
                request_id: *request_id,
                media_session_id: *media_session_id,
                current_time_ms: *current_time_ms,
                resume_state: match resume_state {
                    Some(s) => Some(s@),
                    None => None,
                },
            },
            MediaRequest::Load {
                request_id,
                session_id,
                media,
                autoplay,
                current_time_ms,
                active_track_ids,
            } => MediaRequestModel::Load {
                request_id: *request_id,
                session_id: session_id@,
                media: media@,
                autoplay: *autoplay,
                current_time_ms: *current_time_ms,
                active_track_ids: match active_track_ids {
                    Some(v) => Some(v@),
                    None => None,
                },
            },
            MediaRequest::Play { request_id, media_session_id } => MediaRequestModel::Play {
                request_id: *request_id,
                media_session_id: *media_session_id,
            },
            MediaRequest::Pause { request_id, media_session_id } => MediaRequestModel::Pause {
                request_id: *request_id,
                media_session_id: *media_session_id,
            },
            MediaRequest::Stop { request_id, media_session_id } => MediaRequestModel::Stop {
                request_id: *request_id,
                media_session_id: *media_session_id,
            },
        }
    }
}

proof fn lemma_joined_take_succ(items: Seq<Seq<char>>, i: int)
    requires
        1 <= i < items.len(),
    ensures
        spec_joined(items.take(i + 1)) == spec_joined(items.take(i)) + seq![','] + items[i],
{
    assert(items.take(i + 1).drop_last() =~= items.take(i));
    assert(items.take(i + 1).last() == items[i]);
}

#[verifier::rlimit(100)]
fn append_track_json(out: &mut Vec<char>, t: &MediaTrack)
    ensures
        final(out)@ == old(out)@ + spec_track_json(t@),
{
    append_lit(out, "{\"trackId\":");
    let num = format_i32(t.track_id);
    append_chars(out, &num);
    append_lit(out, ",\"type\":");
    append_json_string(out, t.track_type.as_str());
    append_opt_member(out, "trackContentId", &t.track_content_id);
    append_opt_member(out, "trackContentType", &t.track_content_type);
    append_opt_member(out, "name", &t.name);
    append_opt_member(out, "language", &t.language);
    append_opt_member(out, "subtype", &t.subtype);
    append_lit(out, "}");
    proof {
        assert(final(out)@ =~= old(out)@ + spec_track_json(t@));
    }
}

/// Appends an optional string member.
fn append_opt_member(out: &mut Vec<char>, key: &str, v: &Option<String>)
    ensures
        final(out)@ == old(out)@ + spec_opt_str_member(
            key@,
            match v {
                Some(s) => Some(s@),
                None => None,
            },
        ),
{
    match v {
        Some(s) => {
            out.push(',');
            out.push('"');
            append_lit(out, key);
            out.push('"');
            out.push(':');
            append_json_string(out, s.as_str());
            proof {
                assert(final(out)@ =~= old(out)@ + spec_opt_str_member(key@, Some(s@)));
            }
        },
        None => {},
    }
}

/// Appends one artwork reference in JSON.
fn append_image_json(out: &mut Vec<char>, im: &Image)
    ensures
        final(out)@ == old(out)@ + spec_image_json(im@),
{
    append_lit(out, "{\"url\":");
    append_json_string(out, im.url.as_str());
    append_lit(out, ",\"height\":");
    match im.height {
        Some(h) => {
            let num = format_i32(h);
            append_chars(out, &num);
        },
        None => {
            append_lit(out, "null");
        },
    }
    append_lit(out, ",\"width\":");
    match im.width {
        Some(w) => {
            let num = format_i32(w);
            append_chars(out, &num);
        },
        None => {
            append_lit(out, "null");
        },
    }
    append_lit(out, "}");
    proof {
        assert(final(out)@ =~= old(out)@ + spec_image_json(im@));
    }
}

/// Appends the artwork array in JSON.
#[verifier::loop_isolation(false)]
#[verifier::rlimit(100)]
fn append_images_array(out: &mut Vec<char>, ims: &Vec<Image>)
    ensures
        final(out)@ == old(out)@ + seq!['['] + spec_joined(
            ims.deep_view().map_values(|x: ImageModel| spec_image_json(x)),
        ) + seq![']'],
{
    out.push('[');
    let ghost models = ims.deep_view().map_values(|x: ImageModel| spec_image_json(x));
    let ghost mid = out@;
    let mut i: usize = 0;
    while i < ims.len()
        invariant
            i <= ims@.len(),
            models == ims.deep_view().map_values(|x: ImageModel| spec_image_json(x)),
            models.len() == ims@.len(),
            out@ == mid + spec_joined(models.take(i as int)),
        decreases ims@.len() - i,
    {
        if i > 0 {
            out.push(',');
        }
        append_image_json(out, &ims[i]);
        proof {
            assert(models[i as int] == spec_image_json(ims.deep_view()[i as int]));
            if i == 0 {
                assert(models.take(1int) =~= seq![models[0int]]);
                assert(spec_joined(models.take(1int)) == models[0int]);
            } else {
                lemma_joined_take_succ(models, i as int);
            }
            assert(out@ =~= mid + spec_joined(models.take(i as int + 1)));
        }
        i = i + 1;
    }
    out.push(']');
    proof {
        assert(models.take(models.len() as int) =~= models);
        assert(final(out)@ =~= old(out)@ + seq!['['] + spec_joined(models) + seq![']']);
    }
}

/// Appends the metadata object in JSON.
#[verifier::loop_isolation(false)]
#[verifier::rlimit(100)]
fn append_metadata_json(out: &mut Vec<char>, m: &MediaMetadata)
    ensures
        final(out)@ == old(out)@ + spec_metadata_json(m@),
{
    let ghost g = old(out)@;
    append_lit(out, "{\"metadataType\":");
    let num = format_i32(m.metadata_type);
    append_chars(out, &num);
    proof {
        assert(out@ == g + "{\"metadataType\":"@ + spec_i32_repr(m.metadata_type));
    }
    append_lit(out, ",\"title\":");
    match &m.title {
        Some(t) => append_json_string(out, t.as_str()),
        None => append_lit(out, "null"),
    }
    let ghost g2 = g + "{\"metadataType\":"@ + spec_i32_repr(m.metadata_type) + ",\"title\":"@
        + spec_nullable_str(m@.title);
    proof {
        assert(out@ == g2);
    }
    append_lit(out, ",\"subtitle\":");
    match &m.subtitle {
        Some(t) => append_json_string(out, t.as_str()),
        None => append_lit(out, "null"),
    }
    let ghost g3 = g2 + ",\"subtitle\":"@ + spec_nullable_str(m@.subtitle);
    proof {
        assert(out@ == g3);
    }
    append_lit(out, ",\"images\":");
    match &m.images {
        Some(ims) => {
            append_images_array(out, ims);
        },
        None => {
            append_lit(out, "null");
        },
    }
    let ghost g4 = g3 + ",\"images\":"@ + (match m@.images {
        Some(ims) => seq!['['] + spec_joined(ims.map_values(|im: ImageModel| spec_image_json(im)))
            + seq![']'],
        None => "null"@,
    });
    proof {
        assert(out@ =~= g4);
    }
    append_lit(out, "}");
    proof {
        assert(final(out)@ == g4 + "}"@);
        assert(final(out)@ =~= old(out)@ + spec_metadata_json(m@));
    }
}

/// Appends the track array in JSON.
#[verifier::loop_isolation(false)]
#[verifier::rlimit(100)]
fn append_tracks_array(out: &mut Vec<char>, ts: &Vec<MediaTrack>)
    ensures
        final(out)@ == old(out)@ + ",\"tracks\":["@ + spec_joined(
            ts.deep_view().map_values(|x: TrackModel| spec_track_json(x)),
        ) + seq![']'],
{
    append_lit(out, ",\"tracks\":[");
    let ghost models = ts.deep_view().map_values(|x: TrackModel| spec_track_json(x));
    let ghost mid = out@;
    let mut i: usize = 0;
    while i < ts.len()
        invariant
            i <= ts@.len(),
            models == ts.deep_view().map_values(|x: TrackModel| spec_track_json(x)),
            models.len() == ts@.len(),
            out@ == mid + spec_joined(models.take(i as int)),
        decreases ts@.len() - i,
    {
        if i > 0 {
            out.push(',');
        }
        append_track_json(out, &ts[i]);
        proof {
            assert(models[i as int] == spec_track_json(ts.deep_view()[i as int]));
            if i == 0 {
                assert(models.take(1int) =~= seq![models[0int]]);
                assert(spec_joined(models.take(1int)) == models[0int]);
            } else {
                lemma_joined_take_succ(models, i as int);
            }
            assert(out@ =~= mid + spec_joined(models.take(i as int + 1)));
        }
        i = i + 1;
    }
    out.push(']');
    proof {
        assert(models.take(models.len() as int) =~= models);
        assert(final(out)@ =~= old(out)@ + ",\"tracks\":["@ + spec_joined(models) + seq![']']);
    }
}

/// Appends the media object in JSON.
#[verifier::loop_isolation(false)]
#[verifier::rlimit(100)]
fn append_media_json(out: &mut Vec<char>, m: &MediaInformation)
    ensures
        final(out)@ == old(out)@ + spec_media_json(m@),
{
    let ghost g = old(out)@;
    append_lit(out, "{\"contentId\":");
    append_json_string(out, m.content_id.as_str());
    proof {
        assert(out@ == g + "{\"contentId\":"@ + spec_json_string(m@.content_id));
    }
    append_lit(out, ",\"streamType\":");
    append_json_string(out, m.stream_type.as_str());
    proof {
        assert(out@ == g + "{\"contentId\":"@ + spec_json_string(m@.content_id)
            + ",\"streamType\":"@ + spec_json_string(m@.stream_type));
    }
    append_lit(out, ",\"contentType\":");
    append_json_string(out, m.content_type.as_str());
    let ghost g3 = g + "{\"contentId\":"@ + spec_json_string(m@.content_id)
        + ",\"streamType\":"@ + spec_json_string(m@.stream_type) + ",\"contentType\":"@
        + spec_json_string(m@.content_type);
    proof {
        assert(out@ == g3);
    }
    match &m.metadata {
        Some(md) => {
            append_lit(out, ",\"metadata\":");
            append_metadata_json(out, md);
        },
        None => {},
    }
    let ghost g4 = g3 + (match m@.metadata {
        Some(md) => ",\"metadata\":"@ + spec_metadata_json(md),
        None => Seq::<char>::empty(),
    });
    proof {
        assert(out@ =~= g4);
    }
    match &m.tracks {
        Some(ts) => {
            append_tracks_array(out, ts);
        },
        None => {},
    }
    let ghost g5 = g4 + (match m@.tracks {
        Some(ts) => ",\"tracks\":["@ + spec_joined(
            ts.map_values(|t: TrackModel| spec_track_json(t)),
        ) + seq![']'],
        None => Seq::<char>::empty(),
    });
    proof {
        assert(out@ =~= g5);
    }
    append_lit(out, "}");
    proof {
        assert(final(out)@ == g5 + "}"@);
        assert(final(out)@ =~= old(out)@ + spec_media_json(m@));
    }
}

/// Writes the JSON payload of a media request.
#[verifier::loop_isolation(false)]
#[verifier::rlimit(100)]
pub fn media_payload(r: &MediaRequest) -> (s: String)
    ensures
        s@ == spec_media_payload(r@),
{
    let mut out: Vec<char> = Vec::new();
    match r {
        MediaRequest::GetStatus { request_id, media_session_id } => {
            append_lit(&mut out, "{\"type\":\"GET_STATUS\",\"requestId\":");
            let num = format_i32(*request_id);
            append_chars(&mut out, &num);
            match media_session_id {
                Some(m) => {
                    append_lit(&mut out, ",\"mediaSessionId\":");
                    let mnum = format_i32(*m);
                    append_chars(&mut out, &mnum);
                },
                None => {},
            }
            append_lit(&mut out, "}");
        },
        MediaRequest::Seek { request_id, media_session_id, current_time_ms, resume_state } => {
            append_lit(&mut out, "{\"type\":\"SEEK\",\"requestId\":");
            let num = format_i32(*request_id);
            append_chars(&mut out, &num);
            append_lit(&mut out, ",\"mediaSessionId\":");
            let mnum = format_i32(*media_session_id);
            append_chars(&mut out, &mnum);
            append_lit(&mut out, ",\"currentTime\":");
            let secs = format_secs(*current_time_ms);
            append_chars(&mut out, &secs);
            match resume_state {
                Some(rs) => {
                    append_lit(&mut out, ",\"resumeState\":");
                    append_json_string(&mut out, rs.as_str());
                },
                None => {},
            }
            append_lit(&mut out, "}");
        },
        MediaRequest::Load {
            request_id,
            session_id,
            media,
            autoplay,
            current_time_ms,
            active_track_ids,
        } => {
            append_lit(&mut out, "{\"type\":\"LOAD\",\"requestId\":");
            let num = format_i32(*request_id);
            append_chars(&mut out, &num);
            append_lit(&mut out, ",\"sessionId\":");
            append_json_string(&mut out, session_id.as_str());
            append_lit(&mut out, ",\"media\":");
            append_media_json(&mut out, media);
            append_lit(&mut out, ",\"autoplay\":");
            if *autoplay {
                append_lit(&mut out, "true");
            } else {
                append_lit(&mut out, "false");
            }
            append_lit(&mut out, ",\"currentTime\":");
            let secs = format_secs(*current_time_ms);
            append_chars(&mut out, &secs);
            match active_track_ids {
                Some(ids) => {
                    append_lit(&mut out, ",\"activeTrackIds\":[");
                    let ghost models = ids@.map_values(|n: i32| spec_i32_repr(n));
                    let ghost mid = out@;
                    let mut i: usize = 0;
                    while i < ids.len()
                        invariant
                            i <= ids@.len(),
                            models == ids@.map_values(|n: i32| spec_i32_repr(n)),
                            models.len() == ids@.len(),
                            out@ == mid + spec_joined(models.take(i as int)),
                        decreases ids@.len() - i,
                    {
                        if i > 0 {
                            out.push(',');
                        }
                        let inum = format_i32(ids[i]);
                        append_chars(&mut out, &inum);
                        proof {
                            if i == 0 {
                                assert(models.take(1int) =~= seq![models[0int]]);
                                assert(spec_joined(models.take(1int)) == models[0int]);
                            } else {
                                lemma_joined_take_succ(models, i as int);
                            }
                            assert(out@ =~= mid + spec_joined(models.take(i as int + 1)));
                        }
                        i = i + 1;
                    }
                    out.push(']');
                    proof {
                        assert(models.take(models.len() as int) =~= models);
                    }
                },
                None => {},
            }
            append_lit(&mut out, "}");
        },
        MediaRequest::Play { request_id, media_session_id } => {
            append_lit(&mut out, "{\"type\":\"PLAY\",\"requestId\":");
            let num = format_i32(*request_id);
            append_chars(&mut out, &num);
            append_lit(&mut out, ",\"mediaSessionId\":");
            let mnum = format_i32(*media_session_id);
            append_chars(&mut out, &mnum);
            append_lit(&mut out, "}");
        },
        MediaRequest::Pause { request_id, media_session_id } => {
            append_lit(&mut out, "{\"type\":\"PAUSE\",\"requestId\":");
            let num = format_i32(*request_id);
            append_chars(&mut out, &num);
            append_lit(&mut out, ",\"mediaSessionId\":");
            let mnum = format_i32(*media_session_id);
            append_chars(&mut out, &mnum);
            append_lit(&mut out, "}");
        },
        MediaRequest::Stop { request_id, media_session_id } => {
            append_lit(&mut out, "{\"type\":\"STOP\",\"requestId\":");
            let num = format_i32(*request_id);
            append_chars(&mut out, &num);
            append_lit(&mut out, ",\"mediaSessionId\":");
            let mnum = format_i32(*media_session_id);
            append_chars(&mut out, &mnum);
            append_lit(&mut out, "}");
        },
    }
    proof {
        assert(out@ =~= spec_media_payload(r@));
    }
    string_of(&out)
}

/// The player state a report's word names; anything else is unknown.
pub open spec fn spec_player_state_of(s: Seq<char>) -> Option<RemotePlayerState> {
    if s == "PLAYING"@ {
        Some(RemotePlayerState::Playing)
    } else if s == "PAUSED"@ {
        Some(RemotePlayerState::Paused)
    } else if s == "BUFFERING"@ {
        Some(RemotePlayerState::Buffering)
    } else if s == "IDLE"@ {
        Some(RemotePlayerState::Idle)
    } else {
        None
    }
}

/// The idle reason a report's word names; anything else counts as none
/// given.
pub open spec fn spec_idle_reason_of(s: Seq<char>) -> Option<IdleReason> {
    if s == "FINISHED"@ {
        Some(IdleReason::Finished)
    } else if s == "ERROR"@ {
        Some(IdleReason::Error)
    } else if s == "INTERRUPTED"@ {
        Some(IdleReason::Interrupted)
    } else if s == "CANCELLED"@ {
        Some(IdleReason::Cancelled)
    } else {
        None
    }
}

/// The event a status entry's extracted members denote: the session id
/// must fit, the player-state word must be known, and the reported time
/// must read as a plain decimal; the idle reason maps by its word, the
/// volume level by `spec_volume_permille_of`.
pub open spec fn spec_classify_media_status(
    media_session_id: i64,
    player_state: Seq<char>,
    idle_reason: Option<Seq<char>>,
    current_time_text: Seq<char>,
    volume_level_text: Option<Seq<char>>,
    muted: Option<bool>,
) -> Option<MediaStatusEvent> {
    if media_session_id < -0x8000_0000 || media_session_id > 0x7FFF_FFFF {
        None
    } else {
        match spec_player_state_of(player_state) {
            None => None,
            Some(state) => if !(crate::text::wf_decimal(current_time_text)
                && crate::text::spec_millis(current_time_text) < 0x1_0000_0000_0000_0000) {
                None
            } else {
                Some(
                    MediaStatusEvent {
                        media_session_id: media_session_id as i32,
                        player_state: state,
                        idle_reason: match idle_reason {
                            Some(w) => spec_idle_reason_of(w),
                            None => None,
                        },
                        current_time_ms: crate::text::spec_millis(current_time_text) as u64,
                        volume_permille: spec_volume_permille_of(volume_level_text),
                        muted,
                    },
                )
            },
        }
    }
}

/// Turns one status entry's extracted members into the supervisor's
/// event, exactly as `spec_classify_media_status` says.
pub fn classify_media_status(
    media_session_id: i64,
    player_state: &Vec<char>,
    idle_reason: Option<&Vec<char>>,
    current_time_text: &Vec<char>,
    volume_level_text: Option<&Vec<char>>,
    muted: Option<bool>,
) -> (r: Option<MediaStatusEvent>)
    ensures
        r == spec_classify_media_status(
            media_session_id,
            player_state@,
            match idle_reason {
                Some(v) => Some(v@),
                None => None,
            },
            current_time_text@,
            match volume_level_text {
                Some(v) => Some(v@),
                None => None,
            },
            muted,
        ),
{
    if media_session_id < -2147483648i64 || media_session_id > 2147483647i64 {
        return None;
    }
    let state = if chars_is_lit(player_state, "PLAYING") {
        RemotePlayerState::Playing
    } else if chars_is_lit(player_state, "PAUSED") {
        RemotePlayerState::Paused
    } else if chars_is_lit(player_state, "BUFFERING") {
        RemotePlayerState::Buffering
    } else if chars_is_lit(player_state, "IDLE") {
        RemotePlayerState::Idle
    } else {
        return None;
    };
    let current_time_ms = match parse_millis(current_time_text) {
        Some(ms) => ms,
        None => {
            return None;
        },
    };
    let reason = match idle_reason {
        Some(w) => {
            if chars_is_lit(w, "FINISHED") {
                Some(IdleReason::Finished)
            } else if chars_is_lit(w, "ERROR") {
                Some(IdleReason::Error)
            } else if chars_is_lit(w, "INTERRUPTED") {
                Some(IdleReason::Interrupted)
            } else if chars_is_lit(w, "CANCELLED") {
                Some(IdleReason::Cancelled)
            } else {
                None
            }
        },
        None => None,
    };
    Some(
        MediaStatusEvent {
            media_session_id: media_session_id as i32,
            player_state: state,
            idle_reason: reason,
            current_time_ms,
            volume_permille: volume_permille_of(volume_level_text),
            muted,
        },
    )
}

/// Reads a MEDIA_STATUS payload into the event the supervisor consumes.
/// `None` when the payload is not a MEDIA_STATUS carrying at least one
/// status entry with a session id, a known player state and a current
/// time; the optional idle reason and volume come along when readable.
/// The JSON tree is opaque, so this only extracts members through the
/// trusted accessors; what the extracted values become is fixed by the
/// contract of `classify_media_status`.
pub fn parse_media_status(payload: &str) -> (r: Option<MediaStatusEvent>) {
    let root = match json_parse(payload) {
        Some(v) => v,
        None => {
            return None;
        },
    };
    match json_get(&root, "type") {
        Some(t) => match json_as_str(t) {
            Some(s) => {
                let tv = chars_of(s);
                if !chars_is_lit(&tv, "MEDIA_STATUS") {
                    return None;
                }
            },
            None => {
                return None;
            },
        },
        None => {
            return None;
        },
    }
    let status_arr = match json_get(&root, "status") {
        Some(s) => match json_as_array(s) {
            Some(a) => a,
            None => {
                return None;
            },
        },
        None => {
            return None;
        },
    };
    if status_arr.len() == 0 {
        return None;
    }
    let st = &status_arr[0];
    let media_session_id: i64 = match json_get(st, "mediaSessionId") {
        Some(v) => match crate::json::json_as_i64(v) {
            Some(n) => n,
            None => {
                return None;
            },
        },
        None => {
            return None;
        },
    };
    let player_state: Vec<char> = match json_string_member(st, "playerState") {
        Some(w) => chars_of(w.as_str()),
        None => {
            return None;
        },
    };
    let current_time_text: Vec<char> = match json_number_member_text(st, "currentTime") {
        Some(t) => chars_of(t.as_str()),
        None => {
            return None;
        },
    };
    let idle_reason: Option<Vec<char>> = match json_string_member(st, "idleReason") {
        Some(w) => Some(chars_of(w.as_str())),
        None => None,
    };
    let mut volume_level_text: Option<Vec<char>> = None;
    let mut muted: Option<bool> = None;
    match json_get(st, "volume") {
        Some(vol) => {
            volume_level_text = match json_number_member_text(vol, "level") {
                Some(t) => Some(chars_of(t.as_str())),
                None => None,
            };
            match json_get(vol, "muted") {
                Some(m) => {
                    muted = json_as_bool(m);
                },
                None => {},
            }
        },
        None => {},
    }
    classify_media_status(
        media_session_id,
        &player_state,
        idle_reason.as_ref(),
        &current_time_text,
        volume_level_text.as_ref(),
        muted,
    )
}

} // verus!
