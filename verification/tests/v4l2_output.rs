use rustjay::output::v4l2_output::{
    bgra_to_yuyv, rgb_to_yuv, V4l2FrameError, V4l2FrameWriter, WriteOutcome, WriteVerdict,
};

#[test]
fn black_bgra_maps_to_black_yuyv() {
    let bgra = vec![0u8; 4 * 4]; // 2x2 BGRA, all zero
    let mut yuyv = vec![0u8; 4 * 2];
    bgra_to_yuyv(&bgra, &mut yuyv, 2, 2);
    // Y ~16, U/V ~128 for black in limited-range BT.601
    for row in 0..2 {
        let base = row * 4;
        assert_eq!(yuyv[base], 16);
        assert_eq!(yuyv[base + 2], 16);
        assert_eq!(yuyv[base + 1], 128);
        assert_eq!(yuyv[base + 3], 128);
    }
}

#[test]
fn white_bgra_maps_to_near_white_luma() {
    // One row, two pixels, pure white (BGRA = 255,255,255,255)
    let bgra = vec![255u8; 2 * 4];
    let mut yuyv = vec![0u8; 2 * 2];
    bgra_to_yuyv(&bgra, &mut yuyv, 2, 1);
    // Y ~235 for white in limited-range BT.601
    assert!(yuyv[0] >= 234 && yuyv[0] <= 236);
    assert!(yuyv[2] >= 234 && yuyv[2] <= 236);
}

#[test]
fn rgb_to_yuv_exact_values() {
    assert_eq!(rgb_to_yuv(0, 0, 0), (16, 128, 128));
    assert_eq!(rgb_to_yuv(255, 255, 255), (235, 128, 128));
    // pure red: Y = ((66*255+128)>>8)+16 = 82, Cb = ((-38*255+128)>>8)+128 = 90,
    // Cr = ((112*255+128)>>8)+128 = 240
    assert_eq!(rgb_to_yuv(255, 0, 0), (82, 90, 240));
    // pure blue: Y = 41, Cb = 240, Cr = 110
    assert_eq!(rgb_to_yuv(0, 0, 255), (41, 240, 110));
}

#[test]
fn chroma_is_averaged_over_pixel_pairs() {
    // One row: a red pixel then a blue pixel (BGRA order).
    let bgra = vec![0u8, 0, 255, 255, 255, 0, 0, 255];
    let mut yuyv = vec![0u8; 4];
    bgra_to_yuyv(&bgra, &mut yuyv, 2, 1);
    assert_eq!(yuyv, vec![82, 165, 41, 175]);
}

#[test]
fn extra_input_bytes_are_ignored() {
    let mut bgra = vec![0u8; 2 * 4];
    bgra.extend_from_slice(&[255u8; 8]);
    let mut yuyv = vec![7u8; 4];
    bgra_to_yuyv(&bgra, &mut yuyv, 2, 1);
    assert_eq!(yuyv, vec![16, 128, 16, 128]);
}

#[test]
fn writer_converts_checks_size_and_reopens() {
    let mut w = V4l2FrameWriter::new(2, 1);
    assert_eq!(w.resolution(), (2, 1));
    assert_eq!(w.frame_bytes().len(), 4);
    assert_eq!(w.convert(&[0u8; 7]), Err(V4l2FrameError::FrameTooSmall { got: 7, expected: 8 }));
    assert_eq!(w.convert(&[0u8, 0, 0, 255, 0, 0, 0, 255]), Ok(()));
    assert_eq!(w.frame_bytes(), &[16, 128, 16, 128]);
    assert!(!w.needs_reopen(2, 1));
    assert!(w.needs_reopen(4, 1));
    w.resized(4, 2);
    assert_eq!(w.resolution(), (4, 2));
    assert_eq!(w.frame_bytes().len(), 16);
}

#[test]
fn transient_write_errors_warn_once() {
    let mut w = V4l2FrameWriter::new(2, 2);
    assert_eq!(w.write_result(WriteOutcome::Transient), WriteVerdict::ContinueWarn);
    assert_eq!(w.write_result(WriteOutcome::Transient), WriteVerdict::Continue);
    assert_eq!(w.write_result(WriteOutcome::Written), WriteVerdict::Continue);
    assert_eq!(w.write_result(WriteOutcome::Transient), WriteVerdict::ContinueWarn);
    assert_eq!(w.write_result(WriteOutcome::Failed), WriteVerdict::Error);
}

#[test]
fn too_small_frame_is_refused_at_any_width() {
    let mut w = V4l2FrameWriter::new(3, 1);
    assert_eq!(w.convert(&[0u8; 4]), Err(V4l2FrameError::FrameTooSmall { got: 4, expected: 12 }));
}

#[test]
fn lone_pixel_of_odd_width_keeps_its_luma_and_chroma() {
    // 1x1 pure blue (BGRA): two output bytes, Y then U of that pixel.
    let bgra = vec![255u8, 0, 0, 255];
    let mut yuyv = vec![0u8; 2];
    bgra_to_yuyv(&bgra, &mut yuyv, 1, 1);
    assert_eq!(yuyv, vec![41, 240]);
}

#[test]
fn writer_converts_odd_width_rows() {
    // 3x1: red, blue, then a lone red pixel.
    let mut w = V4l2FrameWriter::new(3, 1);
    let frame = [0u8, 0, 255, 255, 255, 0, 0, 255, 0, 0, 255, 255];
    assert_eq!(w.convert(&frame), Ok(()));
    assert_eq!(w.frame_bytes(), &[82, 165, 41, 175, 82, 90]);
}
