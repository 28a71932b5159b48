//! Audio analysis: the values exchanged between the real-time analysis
//! callback and the main thread.
pub mod fft;
pub mod frames;
