//! Persistent configuration: the OSC section of the settings file.
use vstd::prelude::*;
use crate::text::string_of;

verus! {

/// OSC configuration.
#[derive(Debug, Clone)]
pub struct OscConfig {
    /// UDP port to listen on.
    pub port: u16,
    /// Whether OSC is enabled.
    pub enabled: bool,
    /// Base address prefix (e.g. `/rustjay`).
    pub base_address: String,
}

impl Default for OscConfig {
    /// Port 9000, disabled, base address `/rustjay`.
    fn default() -> (r: Self)
        ensures
            r.port == 9000,
            !r.enabled,
            r.base_address@ == "/rustjay"@,
    {
        OscConfig { port: 9000, enabled: false, base_address: string_of("/rustjay") }
    }
}

} // verus!
