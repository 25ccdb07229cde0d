//! The platform-receiver namespace: launching and stopping
//! applications, platform-wide volume, and the RECEIVER_STATUS response
//! with the running applications and their transport ids.

use vstd::prelude::*;
use vstd::string::*;

use crate::json::{json_as_array, json_as_bool, json_as_str, json_get, json_number_member_text,
    json_parse, json_string_member};
use crate::text::{
    append_chars, append_json_string, append_lit, chars_eq, chars_of, format_i32,
    format_millis_full, parse_millis, spec_i32_repr, spec_json_string, spec_millis_repr_full,
    string_of,
};

verus! {

/// A platform volume setting: an absolute level in permille, a mute
/// flag, or both.
#[derive(Clone, Copy, Debug, PartialEq, Eq, Structural)]
pub struct Volume {
    pub level_permille: Option<u32>,
    pub muted: Option<bool>,
}

/// A request to the platform receiver.
pub enum ReceiverRequest {
    /// Start the application with this id.
    Launch { app_id: String, request_id: i32 },
    /// Ask for the receiver's status.
    GetStatus { request_id: i32 },
    /// Set the platform volume.
    SetVolume { request_id: i32, volume: Volume },
    /// Stop the application session with this id.
    Stop { request_id: i32, session_id: String },
}

/// The namespace URN these messages travel under.
pub fn namespace() -> (r: &'static str)
    ensures
        r@ == "urn:x-cast:com.google.cast.receiver"@,
{
    "urn:x-cast:com.google.cast.receiver"
}

/// A boolean, in JSON.
pub open spec fn spec_bool_json(b: bool) -> Seq<char> {
    if b {
        "true"@
    } else {
        "false"@
    }
}

/// A volume object, in JSON: only the set members appear; the level is
/// written as a fraction of one with three decimals.
pub open spec fn spec_volume_json(v: Volume) -> Seq<char> {
    match (v.level_permille, v.muted) {
        (Some(l), Some(m)) => "{\"level\":"@ + spec_millis_repr_full(l as u64) + ",\"muted\":"@
            + spec_bool_json(m) + "}"@,
        (Some(l), None) => "{\"level\":"@ + spec_millis_repr_full(l as u64) + "}"@,
        (None, Some(m)) => "{\"muted\":"@ + spec_bool_json(m) + "}"@,
        (None, None) => "{}"@,
    }
}

/// The JSON payload of a receiver request.
pub open spec fn spec_receiver_payload(r: ReceiverRequest) -> Seq<char> {
    match r {
        ReceiverRequest::Launch { app_id, request_id } => "{\"type\":\"LAUNCH\",\"appId\":"@
            + spec_json_string(app_id@) + ",\"requestId\":"@ + spec_i32_repr(request_id) + "}"@,
        ReceiverRequest::GetStatus { request_id } => "{\"type\":\"GET_STATUS\",\"requestId\":"@
            + spec_i32_repr(request_id) + "}"@,
        ReceiverRequest::SetVolume { request_id, volume } => "{\"type\":\"SET_VOLUME\",\"requestId\":"@
            + spec_i32_repr(request_id) + ",\"volume\":"@ + spec_volume_json(volume) + "}"@,
        ReceiverRequest::Stop { request_id, session_id } => "{\"type\":\"STOP\",\"requestId\":"@
            + spec_i32_repr(request_id) + ",\"sessionId\":"@ + spec_json_string(session_id@)
            + "}"@,
    }
}

/// Writes the JSON payload of a receiver request.
pub fn receiver_payload(r: &ReceiverRequest) -> (s: String)
    ensures
        s@ == spec_receiver_payload(*r),
{
    let mut out: Vec<char> = Vec::new();
    match r {
        ReceiverRequest::Launch { app_id, request_id } => {
            append_lit(&mut out, "{\"type\":\"LAUNCH\",\"appId\":");
            append_json_string(&mut out, app_id.as_str());
            append_lit(&mut out, ",\"requestId\":");
            let mut num = format_i32(*request_id);
            append_chars(&mut out, &num);
            append_lit(&mut out, "}");
        },
        ReceiverRequest::GetStatus { request_id } => {
            append_lit(&mut out, "{\"type\":\"GET_STATUS\",\"requestId\":");
            let mut num = format_i32(*request_id);
            append_chars(&mut out, &num);
            append_lit(&mut out, "}");
        },
        ReceiverRequest::SetVolume { request_id, volume } => {
            append_lit(&mut out, "{\"type\":\"SET_VOLUME\",\"requestId\":");
            let num = format_i32(*request_id);
            append_chars(&mut out, &num);
            append_lit(&mut out, ",\"volume\":");
            append_volume_json(&mut out, volume);
            append_lit(&mut out, "}");
        },
        ReceiverRequest::Stop { request_id, session_id } => {
            append_lit(&mut out, "{\"type\":\"STOP\",\"requestId\":");
            let num = format_i32(*request_id);
            append_chars(&mut out, &num);
            append_lit(&mut out, ",\"sessionId\":");
            append_json_string(&mut out, session_id.as_str());
            append_lit(&mut out, "}");
        },
    }
    proof {
        assert(out@ =~= spec_receiver_payload(*r));
    }
    string_of(&out)
}

/// Appends a volume object in JSON.
fn append_volume_json(out: &mut Vec<char>, v: &Volume)
    ensures
        final(out)@ == old(out)@ + spec_volume_json(*v),
{
    match (v.level_permille, v.muted) {
        (Some(l), Some(m)) => {
            append_lit(out, "{\"level\":");
            let frac = format_millis_full(l as u64);
            append_chars(out, &frac);
            append_lit(out, ",\"muted\":");
            if m {
                append_lit(out, "true");
            } else {
                append_lit(out, "false");
            }
            append_lit(out, "}");
        },
        (Some(l), None) => {
            append_lit(out, "{\"level\":");
            let frac = format_millis_full(l as u64);
            append_chars(out, &frac);
            append_lit(out, "}");
        },
        (None, Some(m)) => {
            append_lit(out, "{\"muted\":");
            if m {
                append_lit(out, "true");
            } else {
                append_lit(out, "false");
            }
            append_lit(out, "}");
        },
        (None, None) => {
            append_lit(out, "{}");
        },
    }
    proof {
        assert(final(out)@ =~= old(out)@ + spec_volume_json(*v));
    }
}

/// One running application as a RECEIVER_STATUS reports it.
pub struct Application {
    pub app_id: String,
    pub display_name: String,
    pub session_id: String,
    pub transport_id: String,
    pub status_text: String,
    pub is_idle_screen: bool,
}

/// What a RECEIVER_STATUS told us, as plain values.
pub struct ReceiverStatusInfo {
    pub applications: Vec<Application>,
    pub volume_permille: Option<u32>,
    pub muted: Option<bool>,
}

/// The permille mirror of a reported volume level: the level text read
/// in thousandths of one and clamped into scale; unreadable text counts
/// as unreported.
pub open spec fn spec_volume_permille_of(t: Option<Seq<char>>) -> Option<u32> {
    match t {
        Some(s) => if crate::text::wf_decimal(s) && crate::text::spec_millis(s)
            < 0x1_0000_0000_0000_0000 {
            if crate::text::spec_millis(s) > 1000 {
                Some(1000u32)
            } else {
                Some(crate::text::spec_millis(s) as u32)
            }
        } else {
            None
        },
        None => None,
    }
}

/// Reads a reported volume level into permille.
pub fn volume_permille_of(t: Option<&Vec<char>>) -> (r: Option<u32>)
    ensures
        r == spec_volume_permille_of(
            match t {
                Some(v) => Some(v@),
                None => None,
            },
        ),
{
    match t {
        Some(v) => match parse_millis(v) {
            Some(pm) => Some(
                if pm > 1000 {
                    1000
                } else {
                    pm as u32
                },
            ),
            None => None,
        },
        None => None,
    }
}

/// Builds one application record from its extracted members: every one
/// of the six must be there, exactly as the report's record type
/// demands, and each lands in its field unchanged.
pub fn classify_application(
    app_id: Option<String>,
    display_name: Option<String>,
    session_id: Option<String>,
    transport_id: Option<String>,
    status_text: Option<String>,
    is_idle_screen: Option<bool>,
) -> (r: Option<Application>)
    ensures
        r is Some <==> (app_id is Some && display_name is Some && session_id is Some
            && transport_id is Some && status_text is Some && is_idle_screen is Some),
        r matches Some(a) ==> a.app_id@ == app_id.unwrap()@ && a.display_name@
            == display_name.unwrap()@ && a.session_id@ == session_id.unwrap()@
            && a.transport_id@ == transport_id.unwrap()@ && a.status_text@
            == status_text.unwrap()@ && a.is_idle_screen == is_idle_screen.unwrap(),
{
    match (app_id, display_name, session_id, transport_id, status_text, is_idle_screen) {
        (Some(app_id), Some(display_name), Some(session_id), Some(transport_id), Some(
            status_text,
        ), Some(is_idle_screen)) => Some(
            Application {
                app_id,
                display_name,
                session_id,
                transport_id,
                status_text,
                is_idle_screen,
            },
        ),
        _ => None,
    }
}

/// Reads a RECEIVER_STATUS payload.  `None` when the payload is not a
/// RECEIVER_STATUS with a request id and well-formed applications; a
/// missing application list counts as empty, and a volume without a
/// readable level or mute flag leaves those unset.  The JSON tree is
/// opaque, so this only extracts members through the trusted accessors;
/// what the extracted values become is fixed by the contracts of
/// `classify_application` and `volume_permille_of`.
pub fn parse_receiver_status(payload: &str) -> (r: Option<ReceiverStatusInfo>) {
    let root = match json_parse(payload) {
        Some(v) => v,
        None => {
            return None;
        },
    };
    match json_get(&root, "type") {
        Some(t) => match json_as_str(t) {
            Some(s) => {
                let tv = chars_of(s);
                let expect = chars_of("RECEIVER_STATUS");
                if !chars_eq(&tv, &expect) {
                    return None;
                }
            },
            None => {
                return None;
            },
        },
        None => {
            return None;
        },
    }
    if json_get(&root, "requestId").is_none() {
        return None;
    }
    let status = match json_get(&root, "status") {
        Some(s) => s,
        None => {
            return None;
        },
    };
    let mut applications: Vec<Application> = Vec::new();
    match json_get(status, "applications") {
        Some(apps_v) => {
            let apps = match json_as_array(apps_v) {
                Some(a) => a,
                None => {
                    return None;
                },
            };
            let mut i: usize = 0;
            while i < apps.len()
                decreases apps@.len() - i,
            {
                let app = &apps[i];
                let is_idle_screen = match json_get(app, "isIdleScreen") {
                    Some(v) => json_as_bool(v),
                    None => None,
                };
                let record = classify_application(
                    json_string_member(app, "appId"),
                    json_string_member(app, "displayName"),
                    json_string_member(app, "sessionId"),
                    json_string_member(app, "transportId"),
                    json_string_member(app, "statusText"),
                    is_idle_screen,
                );
                match record {
                    Some(a) => applications.push(a),
                    None => {
                        return None;
                    },
                }
                i = i + 1;
            }
        },
        None => {},
    }
    let mut volume_permille: Option<u32> = None;
    let mut muted: Option<bool> = None;
    match json_get(status, "volume") {
        Some(vol) => {
            let level_text: Option<Vec<char>> = match json_number_member_text(vol, "level") {
                Some(txt) => Some(chars_of(txt.as_str())),
                None => None,
            };
            volume_permille = volume_permille_of(level_text.as_ref());
            match json_get(vol, "muted") {
                Some(m) => {
                    muted = json_as_bool(m);
                },
                None => {},
            }
        },
        None => {},
    }
    Some(ReceiverStatusInfo { applications, volume_permille, muted })
}

/// The position of the first running application with the given id.
pub fn find_application(apps: &Vec<Application>, app_id: &str) -> (r: Option<usize>)
    ensures
        match r {
            Some(i) => i < apps@.len() && apps@[i as int].app_id@ == app_id@ && (forall|j: int|
                0 <= j < i ==> apps@[j].app_id@ != app_id@),
            None => forall|j: int| 0 <= j < apps@.len() ==> apps@[j].app_id@ != app_id@,
        },
{
    let target = chars_of(app_id);
    let mut i: usize = 0;
    while i < apps.len()
        invariant
            i <= apps@.len(),
            target@ == app_id@,
            forall|j: int| 0 <= j < i ==> apps@[j].app_id@ != app_id@,
        decreases apps@.len() - i,
    {
        let cand = chars_of(apps[i].app_id.as_str());
        if chars_eq(&cand, &target) {
            return Some(i);
        }
        i = i + 1;
    }
    None
}

} // verus!
