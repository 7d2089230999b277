//! The single mutable slot holding the selected target device.
//!
//! The hosting application guards one `DeviceStore` with its own lock and
//! copies the target out before any network exchange, so the lock is never
//! held during I/O.

use crate::error::Error;
use crate::json::copy_bytes;
use vstd::prelude::*;

verus! {

/// The port a device listens on when none is given.
pub const DEFAULT_PORT: u16 = 30000;

/// The view of an optional byte vector.
pub open spec fn opt_bytes(o: Option<Vec<u8>>) -> Option<Seq<u8>> {
    match o {
        Some(v) => Some(v@),
        None => None,
    }
}

/// The selected target device: a host (absent until a device is selected)
/// and a port.
pub struct DeviceStore {
    pub host: Option<Vec<u8>>,
    pub port: u16,
}

impl DeviceStore {
    /// A store with no device selected and the default port.
    pub fn new() -> (r: DeviceStore)
        ensures
            r.host is None,
            r.port == DEFAULT_PORT,
    {
        DeviceStore { host: None, port: DEFAULT_PORT }
    }

    /// Overwrites the stored target; an omitted port becomes the default.
    pub fn set_device(&mut self, host: Vec<u8>, port: Option<u16>)
        ensures
            opt_bytes(final(self).host) == Some(host@),
            final(self).port == (match port {
                Some(p) => p,
                None => DEFAULT_PORT,
            }),
    {
        self.host = Some(host);
        self.port = match port {
            Some(p) => p,
            None => DEFAULT_PORT,
        };
    }

    /// A snapshot of the stored target.
    pub fn get_device(&self) -> (r: (Option<Vec<u8>>, u16))
        ensures
            opt_bytes(r.0) == opt_bytes(self.host),
            r.1 == self.port,
    {
        let h = match &self.host {
            Some(v) => Some(copy_bytes(v)),
            None => None,
        };
        (h, self.port)
    }

    /// The target to use for an exchange; a configuration error when no
    /// device has been selected yet, before any network attempt.
    pub fn require_target(&self) -> (r: Result<(Vec<u8>, u16), Error>)
        ensures
            match self.host {
                Some(h) => (match r {
                    Ok((hh, p)) => hh@ == h@ && p == self.port,
                    Err(_) => false,
                }),
                None => r matches Err(e) && e is Configuration,
            },
    {
        match &self.host {
            Some(v) => Ok((copy_bytes(v), self.port)),
            None => Err(Error::Configuration),
        }
    }
}

} // verus!
