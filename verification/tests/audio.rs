use rustjay::audio::fft::{AudioConfig, AudioOutput, DEFAULT_FFT_SIZE, F32_HALF_BITS, F32_ONE_BITS};
use rustjay::audio::frames::push_and_take_frames;

#[test]
fn samples_are_cut_into_whole_frames() {
    let mut pending: Vec<i32> = vec![1, 2];
    let frames = push_and_take_frames(&mut pending, &[3, 4, 5, 6, 7], 3);
    assert_eq!(frames, vec![vec![1, 2, 3], vec![4, 5, 6]]);
    assert_eq!(pending, vec![7]);
    let frames = push_and_take_frames(&mut pending, &[8], 3);
    assert!(frames.is_empty());
    assert_eq!(pending, vec![7, 8]);
    let frames = push_and_take_frames(&mut pending, &[9], 3);
    assert_eq!(frames, vec![vec![7, 8, 9]]);
    assert!(pending.is_empty());
}

#[test]
fn float_samples_keep_their_order() {
    let mut pending: Vec<f32> = Vec::new();
    let block: Vec<f32> = (0..2500).map(|i| i as f32).collect();
    let frames = push_and_take_frames(&mut pending, &block, 1024);
    assert_eq!(frames.len(), 2);
    assert_eq!(frames[1][0], 1024.0);
    assert_eq!(pending.len(), 2500 - 2048);
    assert_eq!(pending[0], 2048.0);
}

#[test]
fn analysis_values_start_cleared() {
    let mut out = AudioOutput::new();
    assert_eq!(out.fft, [0u32; 8]);
    assert_eq!((out.volume, out.beat, out.beat_phase), (0, false, 0));
    out.fft[3] = 1.0f32.to_bits();
    out.beat = true;
    out.reset();
    assert_eq!(out.fft, [0u32; 8]);
    assert!(!out.beat);
    assert_eq!(f32::from_bits(out.volume), 0.0);
}

#[test]
fn analysis_config_defaults() {
    let c = AudioConfig::new();
    assert_eq!(c.amplitude, F32_ONE_BITS);
    assert_eq!(f32::from_bits(c.amplitude), 1.0);
    assert_eq!(f32::from_bits(c.smoothing), 0.5);
    assert_eq!(c.smoothing, F32_HALF_BITS);
    assert!(c.normalize);
    assert!(!c.pink_noise_shaping);
    assert_eq!(DEFAULT_FFT_SIZE, 4096);
}

#[test]
fn beat_flag_is_taken_once() {
    let mut out = AudioOutput::new();
    out.beat = true;
    out.volume = 7;
    assert!(out.take_beat());
    assert!(!out.take_beat());
    assert_eq!(out.volume, 7);
}
