//! Verified core logic of the RustJay video mixer: texture layout
//! arithmetic, pixel-format conversion, device enumeration, the frame
//! queues and state machines of the inputs and outputs, the MIDI, OSC and
//! preset controllers, and the decisions of the application loop.

pub mod audio;
pub mod config;
pub mod control;
pub mod engine;
pub mod input;
pub mod midi;
pub mod ndi_runtime;
pub mod osc;
pub mod output;
pub mod panels;
pub mod presets;
pub mod shared;
pub mod text;
pub mod v4l2_devices;
pub mod web;
