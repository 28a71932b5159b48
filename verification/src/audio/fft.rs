//! Values exchanged with the real-time audio callback.
//!
//! Every floating-point quantity travels as its IEEE-754 bit pattern in a
//! `u32`. The types here hold those values as plain fields, so that what
//! `new`, `reset` and `take_beat` leave behind is stated; sharing them
//! between the callback and the main thread (through atomics) is left to
//! the holder.
use vstd::prelude::*;

verus! {

/// Bit pattern of `0.0f32`.
pub const F32_ZERO_BITS: u32 = 0;

/// Bit pattern of `0.5f32`.
pub const F32_HALF_BITS: u32 = 0x3F00_0000;

/// Bit pattern of `1.0f32`.
pub const F32_ONE_BITS: u32 = 0x3F80_0000;

/// Default FFT size of the analysis.
pub const DEFAULT_FFT_SIZE: usize = 4096;

/// Analysis results written by the callback and read by the main thread:
/// eight band levels, the volume and the beat phase (as `f32` bit patterns)
/// and the beat flag.
pub struct AudioOutput {
    pub fft: [u32; 8],
    pub volume: u32,
    /// Set by the callback; cleared when the main thread reads it.
    pub beat: bool,
    pub beat_phase: u32,
}

impl AudioOutput {
    /// Whether every level is `0.0` and no beat is pending.
    pub open spec fn is_cleared(&self) -> bool {
        &&& forall|i: int| 0 <= i < 8 ==> self.fft@[i] == F32_ZERO_BITS
        &&& self.volume == F32_ZERO_BITS
        &&& !self.beat
        &&& self.beat_phase == F32_ZERO_BITS
    }

    /// All levels `0.0`, no beat.
    pub fn new() -> (r: Self)
        ensures
            r.is_cleared(),
    {
        AudioOutput {
            fft: [F32_ZERO_BITS, F32_ZERO_BITS, F32_ZERO_BITS, F32_ZERO_BITS, F32_ZERO_BITS,
                F32_ZERO_BITS, F32_ZERO_BITS, F32_ZERO_BITS],
            volume: F32_ZERO_BITS,
            beat: false,
            beat_phase: F32_ZERO_BITS,
        }
    }

    /// Whether a beat was detected since the last call; the flag is
    /// cleared.
    pub fn take_beat(&mut self) -> (beat: bool)
        ensures
            beat == old(self).beat,
            !final(self).beat,
            final(self).fft == old(self).fft,
            final(self).volume == old(self).volume,
            final(self).beat_phase == old(self).beat_phase,
    {
        let beat = self.beat;
        self.beat = false;
        beat
    }

    /// Clear every level and the beat flag (done when a device starts or
    /// stops).
    pub fn reset(&mut self)
        ensures
            final(self).is_cleared(),
    {
        self.fft = [F32_ZERO_BITS, F32_ZERO_BITS, F32_ZERO_BITS, F32_ZERO_BITS, F32_ZERO_BITS,
            F32_ZERO_BITS, F32_ZERO_BITS, F32_ZERO_BITS];
        self.volume = F32_ZERO_BITS;
        self.beat = false;
        self.beat_phase = F32_ZERO_BITS;
    }
}

/// Analysis settings written by the main thread and read by the callback:
/// amplitude and smoothing (as `f32` bit patterns) and two switches.
pub struct AudioConfig {
    pub amplitude: u32,
    pub smoothing: u32,
    pub normalize: bool,
    pub pink_noise_shaping: bool,
}

impl AudioConfig {
    /// Amplitude `1.0`, smoothing `0.5`, normalisation on, pink-noise
    /// shaping off.
    pub fn new() -> (r: Self)
        ensures
            r.amplitude == F32_ONE_BITS,
            r.smoothing == F32_HALF_BITS,
            r.normalize,
            !r.pink_noise_shaping,
    {
        AudioConfig {
            amplitude: F32_ONE_BITS,
            smoothing: F32_HALF_BITS,
            normalize: true,
            pink_noise_shaping: false,
        }
    }
}

} // verus!
