//! The transport-lifecycle namespace: `CONNECT` opens a virtual
//! connection to a receiver or application transport, `CLOSE` ends it.

use vstd::prelude::*;
use vstd::string::*;

use crate::text::string_of;

verus! {

/// A transport-lifecycle message.
#[derive(Clone, Copy, Debug, PartialEq, Eq, Structural)]
pub enum Connection {
    Connect,
    Close,
}

/// The namespace URN these messages travel under.
pub fn namespace() -> (r: &'static str)
    ensures
        r@ == "urn:x-cast:com.google.cast.tp.connection"@,
{
    "urn:x-cast:com.google.cast.tp.connection"
}

/// The JSON payload of a transport-lifecycle message.
pub open spec fn spec_connection_payload(c: Connection) -> Seq<char> {
    match c {
        Connection::Connect => "{\"type\":\"CONNECT\"}"@,
        Connection::Close => "{\"type\":\"CLOSE\"}"@,
    }
}

/// Writes the JSON payload of a transport-lifecycle message.
pub fn connection_payload(c: &Connection) -> (r: String)
    ensures
        r@ == spec_connection_payload(*c),
{
    match c {
        Connection::Connect => String::from_str("{\"type\":\"CONNECT\"}"),
        Connection::Close => String::from_str("{\"type\":\"CLOSE\"}"),
    }
}

} // verus!
