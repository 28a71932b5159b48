//! Syphon input bookkeeping.
//!
//! Syphon shares GPU textures between applications on macOS. On the other
//! platforms a receiver keeps the requested server name but never connects
//! and never receives a frame, and discovery finds no server.
use vstd::prelude::*;
use crate::text::string_of;

verus! {

/// A Syphon receiver: the server it was asked to follow and the size of
/// the last frame.
pub struct SyphonInputReceiver {
    pub server_name: Option<String>,
    pub resolution: (u32, u32),
}

impl SyphonInputReceiver {
    /// No server, 1920x1080.
    pub fn new() -> (r: Self)
        ensures
            r.server_name is None,
            r.resolution == (1920u32, 1080u32),
    {
        SyphonInputReceiver { server_name: None, resolution: (1920, 1080) }
    }

    /// Follow the server `server_name`.
    pub fn connect(&mut self, server_name: &str) -> (r: Result<(), ()>)
        ensures
            r is Ok,
            final(self).server_name matches Some(n) && n@ == server_name@,
            final(self).resolution == old(self).resolution,
    {
        if self.is_connected() {
            self.disconnect();
        }
        self.server_name = Some(string_of(server_name));
        Ok(())
    }

    /// Follow the server with the given UUID (and name).
    pub fn connect_by_uuid(&mut self, server_uuid: &str, server_name: &str) -> (r: Result<(), ()>)
        ensures
            r is Ok,
            final(self).server_name matches Some(n) && n@ == server_name@,
            final(self).resolution == old(self).resolution,
    {
        if self.is_connected() {
            self.disconnect();
        }
        self.server_name = Some(string_of(server_name));
        Ok(())
    }

    /// Whether a new frame arrived: never on this platform.
    pub fn try_receive_texture(&mut self) -> (r: bool)
        ensures
            !r,
            final(self).server_name == old(self).server_name,
            final(self).resolution == old(self).resolution,
    {
        false
    }

    /// Stop following the server.
    pub fn disconnect(&mut self)
        ensures
            final(self).server_name is None,
            final(self).resolution == old(self).resolution,
    {
        self.server_name = None;
    }

    /// Whether a server is connected: never on this platform.
    pub fn is_connected(&self) -> (r: bool)
        ensures
            !r,
    {
        false
    }

    /// Size of the last frame.
    pub fn resolution(&self) -> (r: (u32, u32))
        ensures
            r == self.resolution,
    {
        self.resolution
    }
}

/// Syphon server discovery.
pub struct SyphonDiscovery;

impl SyphonDiscovery {
    /// A discovery handle.
    pub fn new() -> (r: Self) {
        SyphonDiscovery
    }
}

} // verus!
