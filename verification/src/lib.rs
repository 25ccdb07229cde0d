//! A library for casting local media to Google-Cast devices on the LAN.
//!
//! The crate holds the verified core of a command-line caster: the framed
//! wire codec, the JSON payload builders and readers for the protocol
//! namespaces, the HTTP range/header logic, the transcoding decision, the
//! torrent file selection and warm-up gate, and the session supervisor's
//! state machine.  Network, terminal and child-process plumbing live with
//! the callers; every function here is plain values in, plain values out.

pub mod client;
pub mod codec;
pub mod config;
pub mod discovery;
pub mod error;
pub mod json;
pub mod load;
pub mod proto;
pub mod protocol;
pub mod server;
pub mod subtitles;
pub mod supervisor;
pub mod text;
pub mod torrent;
pub mod transcode;
pub mod tui;

pub use error::CastError;
