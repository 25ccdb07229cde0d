//! The library's error kinds.  Each carries a human-readable description;
//! transport and protocol plumbing in the callers maps its own failures
//! into these before handing control back to verified code.

use vstd::prelude::*;

verus! {

/// Everything that can go wrong between the playlist and the device.
#[derive(Debug)]
pub enum CastError {
    /// A socket, file or pipe failed.
    Io(String),
    /// The TLS handshake or session failed.
    Tls(String),
    /// A wire frame did not hold a well-formed message.
    Decode(String),
    /// A message was too large to frame.
    Encode(String),
    /// A JSON payload could not be read.
    Json(String),
    /// The device broke the protocol's promises (or a timeout expired).
    Protocol(String),
    /// The HTTP serving layer failed.
    Streaming(String),
    /// The terminal could not be driven.
    Tui(String),
    /// The media prober failed or produced unreadable output.
    Probe(String),
    /// The encoder child could not be spawned or supervised.
    Transcoding(String),
}

impl CastError {
    /// The description carried by the error.
    pub fn message(&self) -> (r: &String)
        ensures
            r@ == self.spec_message(),
    {
        match self {
            CastError::Io(s) => s,
            CastError::Tls(s) => s,
            CastError::Decode(s) => s,
            CastError::Encode(s) => s,
            CastError::Json(s) => s,
            CastError::Protocol(s) => s,
            CastError::Streaming(s) => s,
            CastError::Tui(s) => s,
            CastError::Probe(s) => s,
            CastError::Transcoding(s) => s,
        }
    }

    /// The description carried by the error, as a character sequence.
    pub open spec fn spec_message(&self) -> Seq<char> {
        match self {
            CastError::Io(s) => s@,
            CastError::Tls(s) => s@,
            CastError::Decode(s) => s@,
            CastError::Encode(s) => s@,
            CastError::Json(s) => s@,
            CastError::Protocol(s) => s@,
            CastError::Streaming(s) => s@,
            CastError::Tui(s) => s@,
            CastError::Probe(s) => s@,
            CastError::Transcoding(s) => s@,
        }
    }
}

} // verus!
