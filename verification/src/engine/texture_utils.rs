//! Row-pitch arithmetic for texture copies.
//!
//! Copies between textures and buffers need a row pitch that is a multiple
//! of 256 bytes; BGRA8 textures use four bytes per pixel.
use vstd::prelude::*;

pub mod dxgi_format;

verus! {

/// The smallest multiple of `alignment` that is at least `value`.
pub open spec fn spec_align_to(value: int, alignment: int) -> int {
    ((value + alignment - 1) / alignment) * alignment
}

/// Align a value up to the next multiple of `alignment`.
///
/// The sum `value + alignment - 1` must fit in a `u32`, as must the result,
/// and `alignment` must be positive (the division would fail otherwise).
pub fn align_to(value: u32, alignment: u32) -> (r: u32)
    requires
        alignment > 0,
        value + alignment - 1 <= u32::MAX,
    ensures
        r == spec_align_to(value as int, alignment as int),
        r >= value,
        r % alignment == 0,
        r < value + alignment,
{
    let sum: u32 = value + (alignment - 1);
    let q: u32 = sum / alignment;
    proof {
        lemma_align_facts(value as int, alignment as int);
        assert(q * alignment <= sum) by (nonlinear_arith)
            requires q == sum / alignment, alignment > 0, sum >= 0;
    }
    q * alignment
}

/// Facts about [`spec_align_to`]: it is a multiple of the alignment, not
/// below the value, and less than one alignment above it.
pub proof fn lemma_align_facts(value: int, alignment: int)
    requires
        value >= 0,
        alignment > 0,
    ensures
        spec_align_to(value, alignment) >= value,
        spec_align_to(value, alignment) < value + alignment,
        spec_align_to(value, alignment) % alignment == 0,
        spec_align_to(value, alignment) <= value + alignment - 1,
{
    let s = value + alignment - 1;
    let q = s / alignment;
    let r = s % alignment;
    assert(s == q * alignment + r && 0 <= r < alignment) by (nonlinear_arith)
        requires s >= 0, alignment > 0, q == s / alignment, r == s % alignment;
    assert((q * alignment) % alignment == 0) by (nonlinear_arith)
        requires alignment > 0, q >= 0;
}

/// Bytes per BGRA8 pixel.
pub const BYTES_PER_PIXEL: u32 = 4;

/// Row-pitch alignment required by texture/buffer copies.
pub const ROW_ALIGNMENT: u32 = 256;

/// The 256-byte aligned row pitch of a BGRA8 row of `width` pixels.
pub open spec fn spec_aligned_row_pitch_bgra(width: int) -> int {
    spec_align_to(width * 4, 256)
}

/// Row pitch in bytes of a BGRA8 texture `width` pixels wide, rounded up to
/// a multiple of 256 bytes as texture copies require.
pub fn aligned_row_pitch_bgra(width: u32) -> (r: u32)
    requires
        width * 4 + 255 <= u32::MAX,
    ensures
        r == spec_aligned_row_pitch_bgra(width as int),
        r % 256 == 0,
        width * 4 <= r < width * 4 + 256,
{
    align_to(width * BYTES_PER_PIXEL, ROW_ALIGNMENT)
}

/// Row pitch in bytes of a BGRA8 row without alignment.
pub fn unaligned_row_pitch_bgra(width: u32) -> (r: u32)
    requires
        width * 4 <= u32::MAX,
    ensures
        r == width * 4,
{
    width * 4
}

/// Padding bytes at the end of each aligned BGRA8 row.
pub fn row_padding_bytes(width: u32) -> (r: u32)
    requires
        width * 4 + 255 <= u32::MAX,
    ensures
        r == spec_aligned_row_pitch_bgra(width as int) - width * 4,
        r < 256,
{
    aligned_row_pitch_bgra(width) - unaligned_row_pitch_bgra(width)
}

} // verus!
