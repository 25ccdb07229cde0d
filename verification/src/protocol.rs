//! The message families of the wire protocol, one module per namespace:
//! transport lifecycle, keepalive, platform receiver control, and the
//! media session.  Each module holds the message types, the exact JSON
//! payload each one serializes to, and — where the device answers — the
//! reader that turns a payload back into plain values.

pub mod connection;
pub mod heartbeat;
pub mod media;
pub mod receiver;
