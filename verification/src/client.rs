//! The wire client's verified half: the events it broadcasts, the
//! request-id counter, the reconnect backoff, and the construction of
//! every outgoing message.  The socket, the TLS session and the channel
//! plumbing live with the caller, which frames these messages with the
//! codec and writes them out.

use vstd::prelude::*;
use vstd::string::*;

use crate::proto::CastMessage;
use crate::protocol::connection::{spec_connection_payload, connection_payload, Connection};
use crate::protocol::heartbeat::{spec_heartbeat_payload, heartbeat_payload, Heartbeat};
use crate::protocol::media::{spec_media_payload, media_payload, MediaRequest};
use crate::protocol::receiver::{
    spec_receiver_payload, receiver_payload, ReceiverRequest, Volume,
};

verus! {

/// The sender id every message of ours carries.
pub fn sender_id() -> (r: &'static str)
    ensures
        r@ == "sender-0"@,
{
    "sender-0"
}

/// The platform receiver's address.
pub fn platform_receiver_id() -> (r: &'static str)
    ensures
        r@ == "receiver-0"@,
{
    "receiver-0"
}

/// One text frame the device sent, as handed to subscribers.
pub struct CastEvent {
    pub namespace: String,
    pub payload: String,
}

impl Clone for CastEvent {
    fn clone(&self) -> (r: Self)
        ensures
            r.namespace@ == self.namespace@,
            r.payload@ == self.payload@,
    {
        CastEvent { namespace: self.namespace.clone(), payload: self.payload.clone() }
    }
}

/// Hands out one fresh request id per request, counting up and wrapping
/// back to one.
pub struct RequestIdGen {
    pub next: i32,
}

impl RequestIdGen {
    /// A counter starting at one.
    pub fn new() -> (r: Self)
        ensures
            r.next == 1,
    {
        RequestIdGen { next: 1 }
    }

    /// The next id: ids repeat only after the whole positive range.
    pub fn fresh(&mut self) -> (r: i32)
        requires
            old(self).next >= 1,
        ensures
            r == old(self).next,
            final(self).next == (if old(self).next == i32::MAX {
                1i32
            } else {
                (old(self).next + 1) as i32
            }),
            final(self).next >= 1,
    {
        let r = self.next;
        if self.next == i32::MAX {
            self.next = 1;
        } else {
            self.next = self.next + 1;
        }
        r
    }
}

/// The first delay after a failed connection attempt.
pub const INITIAL_BACKOFF_MS: u64 = 1000;

/// The cap the reconnect delay doubles up to.
pub const BACKOFF_CAP_MS: u64 = 30000;

/// The reconnect delay after one more failure: doubled, capped.
pub fn next_backoff_ms(cur: u64) -> (r: u64)
    ensures
        r == (if 2 * cur > BACKOFF_CAP_MS {
            BACKOFF_CAP_MS as int
        } else {
            2 * cur
        }),
{
    if cur > BACKOFF_CAP_MS / 2 {
        BACKOFF_CAP_MS
    } else {
        2 * cur
    }
}

/// A text message on the given namespace from our sender id.
fn text_message(destination_id: &str, namespace: &'static str, payload: String) -> (m: CastMessage)
    ensures
        m@.protocol_version == 0,
        m@.source_id == "sender-0"@,
        m@.destination_id == destination_id@,
        m@.namespace == namespace@,
        m@.payload_type == 0,
        m@.payload_utf8 == Some(payload@),
        m@.payload_binary is None,
{
    CastMessage {
        protocol_version: 0,
        source_id: String::from_str(sender_id()),
        destination_id: destination_id.to_owned(),
        namespace: String::from_str(namespace),
        payload_type: 0,
        payload_utf8: Some(payload),
        payload_binary: None,
    }
}

/// The keepalive PING, addressed to the platform receiver.
pub fn heartbeat_ping_message() -> (m: CastMessage)
    ensures
        m@.destination_id == "receiver-0"@,
        m@.namespace == "urn:x-cast:com.google.cast.tp.heartbeat"@,
        m@.payload_utf8 == Some(spec_heartbeat_payload(Heartbeat::Ping)),
        m@.payload_type == 0 && m@.protocol_version == 0 && m@.source_id == "sender-0"@
            && m@.payload_binary is None,
{
    text_message(
        platform_receiver_id(),
        crate::protocol::heartbeat::namespace(),
        heartbeat_payload(&Heartbeat::Ping),
    )
}

/// The transport CONNECT to the given destination.
pub fn connect_message(destination_id: &str) -> (m: CastMessage)
    ensures
        m@.destination_id == destination_id@,
        m@.namespace == "urn:x-cast:com.google.cast.tp.connection"@,
        m@.payload_utf8 == Some(spec_connection_payload(Connection::Connect)),
        m@.payload_type == 0 && m@.protocol_version == 0 && m@.source_id == "sender-0"@
            && m@.payload_binary is None,
{
    text_message(
        destination_id,
        crate::protocol::connection::namespace(),
        connection_payload(&Connection::Connect),
    )
}

/// A receiver-namespace request, addressed to the platform receiver.
pub fn receiver_message(request: &ReceiverRequest) -> (m: CastMessage)
    ensures
        m@.destination_id == "receiver-0"@,
        m@.namespace == "urn:x-cast:com.google.cast.receiver"@,
        m@.payload_utf8 == Some(spec_receiver_payload(*request)),
        m@.payload_type == 0 && m@.protocol_version == 0 && m@.source_id == "sender-0"@
            && m@.payload_binary is None,
{
    text_message(
        platform_receiver_id(),
        crate::protocol::receiver::namespace(),
        receiver_payload(request),
    )
}

/// The LAUNCH of an application.
pub fn launch_app_message(request_id: i32, app_id: &str) -> (m: CastMessage)
    ensures
        m@.destination_id == "receiver-0"@,
        m@.namespace == "urn:x-cast:com.google.cast.receiver"@,
        m@.payload_utf8 == Some(
            "{\"type\":\"LAUNCH\",\"appId\":"@ + crate::text::spec_json_string(app_id@)
                + ",\"requestId\":"@ + crate::text::spec_i32_repr(request_id) + "}"@,
        ),
        m@.payload_type == 0 && m@.protocol_version == 0 && m@.source_id == "sender-0"@
            && m@.payload_binary is None,
{
    let req = ReceiverRequest::Launch { app_id: app_id.to_owned(), request_id };
    receiver_message(&req)
}

/// A SET_VOLUME with an absolute level.
pub fn set_volume_message(request_id: i32, level_permille: u32) -> (m: CastMessage)
    ensures
        m@.namespace == "urn:x-cast:com.google.cast.receiver"@,
        m@.payload_utf8 == Some(
            spec_receiver_payload(
                ReceiverRequest::SetVolume {
                    request_id,
                    volume: Volume { level_permille: Some(level_permille), muted: None },
                },
            ),
        ),
{
    receiver_message(
        &ReceiverRequest::SetVolume {
            request_id,
            volume: Volume { level_permille: Some(level_permille), muted: None },
        },
    )
}

/// A SET_VOLUME with a mute flag.
pub fn set_mute_message(request_id: i32, muted: bool) -> (m: CastMessage)
    ensures
        m@.namespace == "urn:x-cast:com.google.cast.receiver"@,
        m@.payload_utf8 == Some(
            spec_receiver_payload(
                ReceiverRequest::SetVolume {
                    request_id,
                    volume: Volume { level_permille: None, muted: Some(muted) },
                },
            ),
        ),
{
    receiver_message(
        &ReceiverRequest::SetVolume {
            request_id,
            volume: Volume { level_permille: None, muted: Some(muted) },
        },
    )
}

/// A media-namespace request, addressed to an application transport.
pub fn media_message(destination_id: &str, request: &MediaRequest) -> (m: CastMessage)
    ensures
        m@.destination_id == destination_id@,
        m@.namespace == "urn:x-cast:com.google.cast.media"@,
        m@.payload_utf8 == Some(spec_media_payload(request@)),
        m@.payload_type == 0 && m@.protocol_version == 0 && m@.source_id == "sender-0"@
            && m@.payload_binary is None,
{
    text_message(
        destination_id,
        crate::protocol::media::namespace(),
        media_payload(request),
    )
}

} // verus!
