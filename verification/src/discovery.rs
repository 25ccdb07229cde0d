//! What discovery yields: one record per Cast device resolved on the
//! LAN.  The service browsing itself (the mDNS daemon, the `fn`/`md`/
//! `id` TXT properties, the address and SRV port) runs with the caller,
//! which fills in these plain fields.

use vstd::prelude::*;
use vstd::string::*;

verus! {

/// The service type Cast devices announce themselves under.
pub fn service_type() -> (r: &'static str)
    ensures
        r@ == "_googlecast._tcp.local."@,
{
    "_googlecast._tcp.local."
}

/// The wire port Cast devices listen on by default.
pub const DEFAULT_CAST_PORT: u16 = 8009;

/// How long a scan browses before giving up, in milliseconds.
pub const DISCOVERY_TIMEOUT_MS: u64 = 10000;

/// One discovered device.
pub struct CastDevice {
    /// Address of the device, in text form.
    pub ip: String,
    /// Port number (usually 8009).
    pub port: u16,
    /// Friendly name (e.g. a room name).
    pub friendly_name: String,
    /// Model name.
    pub model_name: String,
    /// Unique id of the device.
    pub uuid: String,
}

impl Clone for CastDevice {
    fn clone(&self) -> (r: Self)
        ensures
            r.ip@ == self.ip@,
            r.port == self.port,
            r.friendly_name@ == self.friendly_name@,
            r.model_name@ == self.model_name@,
            r.uuid@ == self.uuid@,
    {
        CastDevice {
            ip: self.ip.clone(),
            port: self.port,
            friendly_name: self.friendly_name.clone(),
            model_name: self.model_name.clone(),
            uuid: self.uuid.clone(),
        }
    }
}

impl CastDevice {
    /// The record used when the user names an address directly and
    /// discovery is skipped.
    pub fn direct(ip: String) -> (r: Self)
        ensures
            r.ip@ == ip@,
            r.port == DEFAULT_CAST_PORT,
            r.friendly_name@ == "Direct Connect"@,
            r.model_name@ == "Unknown"@,
            r.uuid@ == "Unknown"@,
    {
        CastDevice {
            ip,
            port: DEFAULT_CAST_PORT,
            friendly_name: String::from_str("Direct Connect"),
            model_name: String::from_str("Unknown"),
            uuid: String::from_str("Unknown"),
        }
    }
}

} // verus!
