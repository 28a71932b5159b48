//! NDI output: the sender handle and the checks made before a frame is
//! queued for sending.
//!
//! Frames are queued on a bounded queue of two; a full queue drops the
//! frame. The send thread (run by the application with the parts handed
//! out by [`NdiOutputSender::new`]) clocks video and sends BGRA frames
//! when alpha is included, BGRX otherwise.
use vstd::prelude::*;
use std::sync::Arc;
use std::sync::atomic::AtomicBool;
use crate::shared::channel::{bounded, clone_sender, new_flag, read_flag, set_flag, share_flag, try_send, Offer};
use crate::text::string_of;

verus! {

/// A frame queued for the NDI send thread (BGRA or BGRX bytes).
pub struct FrameData {
    pub width: u32,
    pub height: u32,
    pub data: Vec<u8>,
    pub has_alpha: bool,
    pub timestamp: std::time::Instant,
}

/// Errors creating an NDI sender.
#[derive(Debug, Clone, Copy, PartialEq, Eq)]
pub enum NdiOutputError {
    /// Width or height is zero.
    InvalidDimensions,
}

/// What became of a submitted frame.
#[derive(Debug, Clone, Copy, PartialEq, Eq)]
pub enum SubmitOutcome {
    /// The frame is queued for sending.
    Queued,
    /// The frame's size differs from the sender's; it is dropped.
    SizeMismatch,
    /// The frame has no data; it is dropped.
    Empty,
    /// The queue is full; the frame is dropped.
    QueueFull,
    /// The send thread is gone; the frame is dropped.
    Disconnected,
}

/// Pixel layout sent over NDI.
#[derive(Debug, Clone, Copy, PartialEq, Eq)]
pub enum PixelLayout {
    Bgra,
    Bgrx,
}

/// The frame queued for sending: a copy of the BGRA bytes with their
/// size, the alpha setting and the time stamp.
pub fn frame_for(
    bgra_data: &[u8],
    width: u32,
    height: u32,
    has_alpha: bool,
    timestamp: std::time::Instant,
) -> (f: FrameData)
    ensures
        f.data@ == bgra_data@,
        f.width == width,
        f.height == height,
        f.has_alpha == has_alpha,
        f.timestamp == timestamp,
{
    FrameData { width, height, data: vstd::slice::slice_to_vec(bgra_data), has_alpha, timestamp }
}

/// What the queue's answer means for a submitted frame: taken means
/// queued; a full queue or a gone send thread drops it.
pub fn outcome_of(offer: Offer<FrameData>) -> (r: SubmitOutcome)
    ensures
        r == match offer {
            Offer::Sent => SubmitOutcome::Queued,
            Offer::Full(_) => SubmitOutcome::QueueFull,
            Offer::Disconnected(_) => SubmitOutcome::Disconnected,
        },
{
    match offer {
        Offer::Sent => SubmitOutcome::Queued,
        Offer::Full(_) => SubmitOutcome::QueueFull,
        Offer::Disconnected(_) => SubmitOutcome::Disconnected,
    }
}

/// Frames the queue to the send thread holds.
pub const SEND_QUEUE_CAPACITY: usize = 2;

/// What the send thread runs on: the receiving end of the frame queue and
/// the flag that keeps it running.
pub struct SendThreadParts {
    pub frame_rx: crossbeam::channel::Receiver<FrameData>,
    pub running: Arc<AtomicBool>,
}

/// A handle on an NDI send thread. Clones share the thread; only the
/// owning handle stops it.
pub struct NdiOutputSender {
    name: String,
    width: u32,
    height: u32,
    include_alpha: bool,
    frame_tx: crossbeam::channel::Sender<FrameData>,
    running: Arc<AtomicBool>,
    is_owner: bool,
}

impl NdiOutputSender {
    pub closed spec fn spec_name(&self) -> Seq<char> {
        self.name@
    }

    pub closed spec fn spec_width(&self) -> u32 {
        self.width
    }

    pub closed spec fn spec_height(&self) -> u32 {
        self.height
    }

    pub closed spec fn spec_include_alpha(&self) -> bool {
        self.include_alpha
    }

    pub closed spec fn spec_is_owner(&self) -> bool {
        self.is_owner
    }

    /// A sender for `width` x `height` frames, refused when either is zero;
    /// with it come the parts its send thread runs on. The sender owns the
    /// thread and starts out running.
    pub fn new(name: &str, width: u32, height: u32, include_alpha: bool) -> (r: Result<
        (Self, SendThreadParts),
        NdiOutputError,
    >)
        ensures
            (width == 0 || height == 0) <==> r is Err,
            r matches Err(e) ==> e == NdiOutputError::InvalidDimensions,
            r matches Ok((s, _)) ==> {
                &&& s.spec_name() == name@
                &&& s.spec_width() == width
                &&& s.spec_height() == height
                &&& s.spec_include_alpha() == include_alpha
                &&& s.spec_is_owner()
            },
    {
        if width == 0 || height == 0 {
            return Err(NdiOutputError::InvalidDimensions);
        }
        let (frame_tx, frame_rx) = bounded(SEND_QUEUE_CAPACITY);
        let running = new_flag(true);
        let parts = SendThreadParts { frame_rx, running: share_flag(&running) };
        let sender = NdiOutputSender {
            name: string_of(name),
            width,
            height,
            include_alpha,
            frame_tx,
            running,
            is_owner: true,
        };
        Ok((sender, parts))
    }

    /// The stream name.
    pub fn name(&self) -> (r: &str)
        ensures
            r@ == self.spec_name(),
    {
        self.name.as_str()
    }

    /// The frame size the sender accepts.
    pub fn resolution(&self) -> (r: (u32, u32))
        ensures
            r == (self.spec_width(), self.spec_height()),
    {
        (self.width, self.height)
    }

    /// The pixel layout of the sent frames.
    pub fn pixel_layout(&self) -> (r: PixelLayout)
        ensures
            r == (if self.spec_include_alpha() {
                PixelLayout::Bgra
            } else {
                PixelLayout::Bgrx
            }),
    {
        if self.include_alpha {
            PixelLayout::Bgra
        } else {
            PixelLayout::Bgrx
        }
    }

    /// Submit a BGRA frame for sending. A frame whose size differs from the
    /// sender's is dropped first, then an empty one; any other is offered
    /// to the queue as [`frame_for`] builds it (a copy of its bytes with the
    /// sender's alpha setting, stamped with the current time), which takes
    /// it unless it is full or the send thread is gone.
    pub fn submit_frame(&self, bgra_data: &[u8], width: u32, height: u32) -> (r: SubmitOutcome)
        ensures
            (width != self.spec_width() || height != self.spec_height()) ==> r
                == SubmitOutcome::SizeMismatch,
            (width == self.spec_width() && height == self.spec_height() && bgra_data@.len() == 0)
                ==> r == SubmitOutcome::Empty,
            (width == self.spec_width() && height == self.spec_height() && bgra_data@.len() != 0)
                ==> (r == SubmitOutcome::Queued || r == SubmitOutcome::QueueFull || r
                == SubmitOutcome::Disconnected),
    {
        if width != self.width || height != self.height {
            return SubmitOutcome::SizeMismatch;
        }
        if bgra_data.len() == 0 {
            return SubmitOutcome::Empty;
        }
        let frame = frame_for(bgra_data, width, height, self.include_alpha, crate::shared::clock::now());
        outcome_of(try_send(&self.frame_tx, frame))
    }

    /// Whether stopping this handle stops the send thread: only the
    /// owning handle (the one `new` returned) does.
    pub fn stop_stops_thread(&self) -> (r: bool)
        ensures
            r == self.spec_is_owner(),
    {
        self.is_owner
    }

    /// Stop the send thread; a clone leaves it running. Returns whether
    /// the thread was told to stop.
    pub fn stop(&mut self) -> (stopped: bool)
        ensures
            stopped == old(self).spec_is_owner(),
            final(self).spec_name() == old(self).spec_name(),
            final(self).spec_width() == old(self).spec_width(),
            final(self).spec_height() == old(self).spec_height(),
            final(self).spec_include_alpha() == old(self).spec_include_alpha(),
            final(self).spec_is_owner() == old(self).spec_is_owner(),
    {
        if !self.is_owner {
            return false;
        }
        set_flag(&self.running, false);
        true
    }

    /// Whether the send thread is still meant to run. Any handle may have
    /// stopped it, so nothing is stated of the answer.
    pub fn is_running(&self) -> (r: bool) {
        read_flag(&self.running)
    }

    /// A further handle on the same send thread; it does not own it.
    pub fn clone_handle(&self) -> (r: Self)
        ensures
            r.spec_name() == self.spec_name(),
            r.spec_width() == self.spec_width(),
            r.spec_height() == self.spec_height(),
            r.spec_include_alpha() == self.spec_include_alpha(),
            !r.spec_is_owner(),
    {
        NdiOutputSender {
            name: string_of(self.name.as_str()),
            width: self.width,
            height: self.height,
            include_alpha: self.include_alpha,
            frame_tx: clone_sender(&self.frame_tx),
            running: share_flag(&self.running),
            is_owner: false,
        }
    }
}

} // verus!
