//! GPU-side helpers that do not touch the GPU itself.
pub mod texture_utils;
