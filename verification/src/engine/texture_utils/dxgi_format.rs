//! DXGI format numbers used by the Spout shared-texture protocol.
use vstd::prelude::*;

verus! {

/// `B8G8R8A8_UNORM`: standard BGRA, 8 bits per channel.
pub const B8G8R8A8_UNORM: u32 = 87;

/// `R8G8B8A8_UNORM`: standard RGBA, 8 bits per channel.
pub const R8G8B8A8_UNORM: u32 = 28;

/// `B8G8R8A8_UNORM_SRGB`: BGRA with sRGB gamma.
pub const B8G8R8A8_UNORM_SRGB: u32 = 91;

} // verus!
