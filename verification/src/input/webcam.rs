//! Webcam capture configuration and frame conversion.
//!
//! Capture runs on a dedicated thread that converts each RGB frame to BGRA
//! and then waits one frame interval.
use vstd::prelude::*;
use crate::text::{decimal, push_char, push_decimal, push_str};

verus! {

/// A webcam frame (BGRA pixels).
pub struct WebcamFrame {
    pub width: u32,
    pub height: u32,
    /// BGRA pixel data.
    pub data: Vec<u8>,
    pub timestamp: std::time::Instant,
}

/// Errors of the webcam configuration.
#[derive(Debug, Clone, Copy, PartialEq, Eq)]
pub enum WebcamError {
    /// The capture could not be configured.
    Unavailable,
}

/// What a capture thread is asked to open: device, size and frame rate.
#[derive(Debug, Clone, Copy, PartialEq, Eq)]
pub struct CaptureRequest {
    pub device_index: usize,
    pub width: u32,
    pub height: u32,
    pub fps: u32,
}

/// Webcam capture configuration; the capture itself runs on its own
/// thread.
pub struct WebcamCapture {
    pub device_index: usize,
    pub width: u32,
    pub height: u32,
    pub fps: u32,
    pub running: bool,
}

impl WebcamCapture {
    /// A stopped capture of device `device_index` at the requested size and
    /// rate.
    pub fn new(device_index: usize, width: u32, height: u32, fps: u32) -> (r: Result<
        Self,
        WebcamError,
    >)
        ensures
            r matches Ok(c) && c.device_index == device_index && c.width == width && c.height
                == height && c.fps == fps && !c.running,
    {
        Ok(WebcamCapture { device_index, width, height, fps, running: false })
    }

    /// Mark the capture running and return what the capture thread must
    /// open.
    pub fn start(&mut self) -> (req: CaptureRequest)
        ensures
            req == (CaptureRequest {
                device_index: old(self).device_index,
                width: old(self).width,
                height: old(self).height,
                fps: old(self).fps,
            }),
            final(self).running,
            final(self).device_index == old(self).device_index,
            final(self).width == old(self).width,
            final(self).height == old(self).height,
            final(self).fps == old(self).fps,
    {
        self.running = true;
        CaptureRequest {
            device_index: self.device_index,
            width: self.width,
            height: self.height,
            fps: self.fps,
        }
    }

    /// Mark the capture stopped.
    pub fn stop(&mut self) -> (r: Result<(), WebcamError>)
        ensures
            r is Ok,
            !final(self).running,
            final(self).device_index == old(self).device_index,
            final(self).width == old(self).width,
            final(self).height == old(self).height,
            final(self).fps == old(self).fps,
    {
        self.running = false;
        Ok(())
    }
}

/// The BGRA encoding of the complete RGB pixels of `rgb`: each `R G B`
/// triple becomes `B G R 255`; trailing bytes that do not form a pixel are
/// dropped.
pub open spec fn spec_rgb_to_bgra(rgb: Seq<u8>) -> Seq<u8> {
    Seq::new(
        ((rgb.len() / 3) * 4) as nat,
        |i: int|
            {
                let p = (i / 4) * 3;
                let c = i % 4;
                if c == 0 {
                    rgb[p + 2]
                } else if c == 1 {
                    rgb[p + 1]
                } else if c == 2 {
                    rgb[p]
                } else {
                    255u8
                }
            },
    )
}

/// Convert packed RGB pixels to BGRA with an opaque alpha channel.
pub fn rgb_to_bgra(rgb: &[u8]) -> (bgra: Vec<u8>)
    ensures
        bgra@ == spec_rgb_to_bgra(rgb@),
{
    let len: usize = rgb.len();
    let n: usize = len / 3;
    assert(3 * n <= len);
    let mut out: Vec<u8> = Vec::new();
    let mut k: usize = 0;
    while k < n
        invariant
            k <= n,
            len == rgb@.len(),
            n == rgb@.len() / 3,
            3 * n <= len,
            out@.len() == 4 * k,
            forall|i: int| 0 <= i < 4 * k ==> #[trigger] out@[i] == spec_rgb_to_bgra(rgb@)[i],
        decreases n - k,
    {
        let p: usize = k * 3;
        out.push(rgb[p + 2]);
        out.push(rgb[p + 1]);
        out.push(rgb[p]);
        out.push(255);
        proof {
            assert forall|i: int| 0 <= i < 4 * (k + 1) implies #[trigger] out@[i]
                == spec_rgb_to_bgra(rgb@)[i] by {
                if i >= 4 * k {
                    assert(i / 4 == k);
                    assert(i % 4 == i - 4 * k);
                }
            }
        }
        k = k + 1;
    }
    proof {
        assert(out@ =~= spec_rgb_to_bgra(rgb@));
    }
    out
}

/// Milliseconds to wait between frames at `fps` frames per second.
pub fn frame_interval_ms(fps: u32) -> (ms: u64)
    requires
        fps > 0,
    ensures
        ms == 1000int / (fps as int),
{
    1000 / fps as u64
}

/// `index: name (description)`, the label of a camera in the device list.
pub fn camera_label(index: usize, human_name: &str, description: &str) -> (r: String)
    ensures
        r@ == decimal(index as nat) + seq![':', ' '] + human_name@ + seq![' ', '('] + description@
            + seq![')'],
{
    let mut r = String::new();
    push_decimal(&mut r, index as u64);
    push_char(&mut r, ':');
    push_char(&mut r, ' ');
    push_str(&mut r, human_name);
    push_char(&mut r, ' ');
    push_char(&mut r, '(');
    push_str(&mut r, description);
    push_char(&mut r, ')');
    proof {
        assert(r@ =~= decimal(index as nat) + seq![':', ' '] + human_name@ + seq![' ', '(']
            + description@ + seq![')']);
    }
    r
}

/// The label of the camera at `index` with the given name and description.
pub open spec fn spec_camera_label(index: int, human_name: Seq<char>, description: Seq<char>) -> Seq<
    char,
> {
    decimal(index as nat) + seq![':', ' '] + human_name + seq![' ', '('] + description + seq![')']
}

/// The device list of the cameras found, each given by its name and
/// description: one label per camera, numbered from 0 in the order found.
pub fn camera_labels(cameras: &[(String, String)]) -> (r: Vec<String>)
    ensures
        r@.len() == cameras@.len(),
        forall|i: int|
            0 <= i < cameras@.len() ==> (#[trigger] r@[i])@ == spec_camera_label(
                i,
                cameras@[i].0@,
                cameras@[i].1@,
            ),
{
    let mut out: Vec<String> = Vec::new();
    let mut i: usize = 0;
    while i < cameras.len()
        invariant
            i <= cameras@.len(),
            out@.len() == i,
            forall|j: int|
                0 <= j < i ==> (#[trigger] out@[j])@ == spec_camera_label(
                    j,
                    cameras@[j].0@,
                    cameras@[j].1@,
                ),
        decreases cameras@.len() - i,
    {
        let label = camera_label(i, cameras[i].0.as_str(), cameras[i].1.as_str());
        out.push(label);
        i = i + 1;
    }
    out
}

} // verus!
