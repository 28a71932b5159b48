use rustjay::engine::texture_utils::{
    align_to, aligned_row_pitch_bgra, dxgi_format, row_padding_bytes, unaligned_row_pitch_bgra,
};

#[test]
fn test_align_to() {
    assert_eq!(align_to(0, 256), 0);
    assert_eq!(align_to(1, 256), 256);
    assert_eq!(align_to(255, 256), 256);
    assert_eq!(align_to(256, 256), 256);
    assert_eq!(align_to(257, 256), 512);
    assert_eq!(align_to(512, 256), 512);
    assert_eq!(align_to(7680, 256), 7680); // 1920*4
}

#[test]
fn test_aligned_row_pitch_bgra() {
    // Common resolutions
    assert_eq!(aligned_row_pitch_bgra(1920), 7680); // 1080p - already aligned
    assert_eq!(aligned_row_pitch_bgra(1280), 5120); // 720p - already aligned
    assert_eq!(aligned_row_pitch_bgra(3840), 15360); // 4K - already aligned

    // Non-aligned cases
    assert_eq!(aligned_row_pitch_bgra(100), 512); // 400 -> 512
    assert_eq!(aligned_row_pitch_bgra(1000), 4096); // 4000 -> 4096
}

#[test]
fn test_dxgi_constants() {
    assert_eq!(dxgi_format::B8G8R8A8_UNORM, 87);
    assert_eq!(dxgi_format::R8G8B8A8_UNORM, 28);
}

#[test]
fn align_to_other_alignments() {
    assert_eq!(align_to(100, 256), 256);
    assert_eq!(align_to(10, 4), 12);
    assert_eq!(align_to(7, 1), 7);
    assert_eq!(align_to(u32::MAX - 255, 256), u32::MAX - 255);
}

#[test]
fn row_pitch_padding() {
    assert_eq!(unaligned_row_pitch_bgra(1000), 4000);
    assert_eq!(row_padding_bytes(1000), 96);
    assert_eq!(row_padding_bytes(1920), 0);
    assert_eq!(row_padding_bytes(1), 252);
    assert_eq!(dxgi_format::B8G8R8A8_UNORM_SRGB, 91);
}
