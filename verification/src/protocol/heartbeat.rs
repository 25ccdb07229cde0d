//! The keepalive namespace: the client pings every few seconds and the
//! device pongs back.

use vstd::prelude::*;
use vstd::string::*;

verus! {

/// A keepalive message.
#[derive(Clone, Copy, Debug, PartialEq, Eq, Structural)]
pub enum Heartbeat {
    Ping,
    Pong,
}

/// The namespace URN these messages travel under.
pub fn namespace() -> (r: &'static str)
    ensures
        r@ == "urn:x-cast:com.google.cast.tp.heartbeat"@,
{
    "urn:x-cast:com.google.cast.tp.heartbeat"
}

/// The JSON payload of a keepalive message.
pub open spec fn spec_heartbeat_payload(h: Heartbeat) -> Seq<char> {
    match h {
        Heartbeat::Ping => "{\"type\":\"PING\"}"@,
        Heartbeat::Pong => "{\"type\":\"PONG\"}"@,
    }
}

/// Writes the JSON payload of a keepalive message.
pub fn heartbeat_payload(h: &Heartbeat) -> (r: String)
    ensures
        r@ == spec_heartbeat_payload(*h),
{
    match h {
        Heartbeat::Ping => String::from_str("{\"type\":\"PING\"}"),
        Heartbeat::Pong => String::from_str("{\"type\":\"PONG\"}"),
    }
}

} // verus!
