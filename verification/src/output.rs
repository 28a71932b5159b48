//! Video outputs: output commands, the double-buffered GPU readback ring,
//! and the per-output frame handling (NDI, Spout, V4L2 loopback).
//!
//! GPU readback never blocks the render thread: each frame a copy is
//! submitted into the current staging slot and the previous slot, which
//! has had a whole frame to finish, is harvested.
use vstd::prelude::*;
use crate::output::ndi_output::{NdiOutputError, NdiOutputSender, SendThreadParts, SubmitOutcome};

pub mod ndi_output;
pub mod spout_output;
pub mod v4l2_output;

verus! {

/// Commands for output stream control.
#[derive(Debug, Clone, PartialEq, Eq)]
pub enum OutputCommand {
    Idle,
    StartNdi,
    StopNdi,
    StartV4l2 { device_path: String },
    StopV4l2,
    ResizeOutput,
}

/// Number of staging slots of the readback ring.
pub const READBACK_SLOTS: usize = 2;

/// A submitted copy: the staging buffer (and whatever signals its
/// completion) and the frame size.
pub struct PendingCopy<B> {
    pub buffer: B,
    pub width: u32,
    pub height: u32,
}

/// Double-buffered ring of staging slots for GPU-to-CPU readback.
pub struct ReadbackRing<B> {
    slots: Vec<Option<PendingCopy<B>>>,
    current: usize,
}

/// The abstract ring: the frame sizes pending in each slot and the slot
/// written next.
pub struct RingModel {
    pub slots: Seq<Option<(u32, u32)>>,
    pub current: int,
}

/// The size of an optional pending copy.
pub open spec fn pending_size<B>(p: Option<PendingCopy<B>>) -> Option<(u32, u32)> {
    match p {
        Some(c) => Some((c.width, c.height)),
        None => None,
    }
}

/// The copy held by an optional slot, as a sequence of zero or one.
pub open spec fn slot_copies<B>(p: Option<PendingCopy<B>>) -> Seq<PendingCopy<B>> {
    match p {
        Some(c) => seq![c],
        None => Seq::empty(),
    }
}

/// The copies pending in the two slots, slot 0 first.
pub open spec fn present_copies<B>(slots: Seq<Option<PendingCopy<B>>>) -> Seq<PendingCopy<B>> {
    slot_copies(slots[0]) + slot_copies(slots[1])
}

/// The slot harvested this frame: the one written one frame earlier.
pub open spec fn previous_slot(current: int) -> int {
    (current + READBACK_SLOTS - 1) % (READBACK_SLOTS as int)
}

/// The ring after a copy of size `size` is submitted: it takes the current
/// slot (dropping what was pending there) and the next slot becomes
/// current.
pub open spec fn ring_submit(r: RingModel, size: (u32, u32)) -> RingModel {
    RingModel {
        slots: r.slots.update(r.current, Some(size)),
        current: (r.current + 1) % (READBACK_SLOTS as int),
    }
}

/// The ring after the previous slot is harvested: that slot is free.
pub open spec fn ring_harvest(r: RingModel) -> RingModel {
    RingModel { slots: r.slots.update(previous_slot(r.current), None), current: r.current }
}

/// The copy a harvest hands out: what is pending in the previous slot.
pub open spec fn ring_harvested(r: RingModel) -> Option<(u32, u32)> {
    r.slots[previous_slot(r.current)]
}

impl<B> ReadbackRing<B> {
    /// Well-formed: two slots and a current index among them.
    pub closed spec fn wf(&self) -> bool {
        self.slots@.len() == READBACK_SLOTS && self.current < READBACK_SLOTS
    }

    /// The copies pending in each slot, buffers included.
    pub closed spec fn copies(&self) -> Seq<Option<PendingCopy<B>>> {
        self.slots@
    }

    /// The abstract ring.
    pub closed spec fn model(&self) -> RingModel {
        RingModel {
            slots: Seq::new(READBACK_SLOTS as nat, |i: int| pending_size(self.slots@[i])),
            current: self.current as int,
        }
    }

    /// An empty ring writing slot 0 first.
    pub fn new() -> (r: Self)
        ensures
            r.wf(),
            r.model().current == 0,
            r.model().slots == seq![None::<(u32, u32)>, None],
            r.copies() == seq![None::<PendingCopy<B>>, None],
    {
        let mut slots: Vec<Option<PendingCopy<B>>> = Vec::new();
        slots.push(None);
        slots.push(None);
        let r = ReadbackRing { slots, current: 0 };
        assert(r.model().slots =~= seq![None::<(u32, u32)>, None]);
        assert(r.copies() =~= seq![None::<PendingCopy<B>>, None]);
        r
    }

    /// Whether the previous slot holds a copy (its completion can then be
    /// checked with [`Self::previous_buffer`]).
    pub fn previous_pending(&self) -> (r: bool)
        requires
            self.wf(),
        ensures
            r == (ring_harvested(self.model()) is Some),
    {
        let prev = (self.current + READBACK_SLOTS - 1) % READBACK_SLOTS;
        self.slots[prev].is_some()
    }

    /// The staging buffer pending in the previous slot, if any.
    pub fn previous_buffer(&self) -> (r: Option<&B>)
        requires
            self.wf(),
        ensures
            r is Some == (ring_harvested(self.model()) is Some),
            r == match self.copies()[previous_slot(self.model().current)] {
                Some(p) => Some(&p.buffer),
                None => None,
            },
    {
        let prev = (self.current + READBACK_SLOTS - 1) % READBACK_SLOTS;
        match &self.slots[prev] {
            Some(p) => Some(&p.buffer),
            None => None,
        }
    }

    /// Take the copy pending in the previous slot (once it has completed).
    pub fn harvest_previous(&mut self) -> (r: Option<PendingCopy<B>>)
        requires
            old(self).wf(),
        ensures
            final(self).wf(),
            pending_size(r) == ring_harvested(old(self).model()),
            final(self).model() == ring_harvest(old(self).model()),
            r == old(self).copies()[previous_slot(old(self).model().current)],
            final(self).copies() == old(self).copies().update(
                previous_slot(old(self).model().current),
                None,
            ),
    {
        let prev = (self.current + READBACK_SLOTS - 1) % READBACK_SLOTS;
        let mut taken: Option<PendingCopy<B>> = None;
        self.slots.set_and_swap(prev, &mut taken);
        proof {
            assert(self.model().slots =~= ring_harvest(old(self).model()).slots);
        }
        taken
    }

    /// Put a new copy into the current slot and advance. Returns the copy
    /// that was still pending there (the GPU fell a frame behind), which
    /// is dropped.
    pub fn submit(&mut self, copy: PendingCopy<B>) -> (dropped: Option<PendingCopy<B>>)
        requires
            old(self).wf(),
        ensures
            final(self).wf(),
            pending_size(dropped) == old(self).model().slots[old(self).model().current],
            final(self).model() == ring_submit(old(self).model(), (copy.width, copy.height)),
            dropped == old(self).copies()[old(self).model().current],
            final(self).copies() == old(self).copies().update(old(self).model().current, Some(copy)),
    {
        let size = (copy.width, copy.height);
        let mut slot: Option<PendingCopy<B>> = Some(copy);
        let cur = self.current;
        self.slots.set_and_swap(cur, &mut slot);
        self.current = (self.current + 1) % READBACK_SLOTS;
        proof {
            assert(self.model().slots =~= ring_submit(old(self).model(), size).slots);
        }
        slot
    }

    /// Take every pending copy (on shutdown or when the outputs stop).
    pub fn drain(&mut self) -> (r: Vec<PendingCopy<B>>)
        requires
            old(self).wf(),
        ensures
            final(self).wf(),
            final(self).model().slots == seq![None::<(u32, u32)>, None],
            final(self).model().current == old(self).model().current,
            final(self).copies() == seq![None::<PendingCopy<B>>, None],
            r@ == present_copies(old(self).copies()),
    {
        let mut out: Vec<PendingCopy<B>> = Vec::new();
        let mut i: usize = 0;
        while i < READBACK_SLOTS
            invariant
                i <= READBACK_SLOTS,
                self.slots@.len() == READBACK_SLOTS,
                self.current < READBACK_SLOTS,
                self.current == old(self).current,
                old(self).slots@.len() == READBACK_SLOTS,
                forall|j: int| 0 <= j < i ==> #[trigger] self.slots@[j] is None,
                forall|j: int| i <= j < READBACK_SLOTS ==> #[trigger] self.slots@[j] == old(self).slots@[j],
                i == 0 ==> out@ == Seq::<PendingCopy<B>>::empty(),
                i == 1 ==> out@ == slot_copies(old(self).slots@[0]),
                i == 2 ==> out@ == present_copies(old(self).slots@),
            decreases READBACK_SLOTS - i,
        {
            let mut taken: Option<PendingCopy<B>> = None;
            let ghost before = out@;
            self.slots.set_and_swap(i, &mut taken);
            proof {
                assert(taken == old(self).slots@[i as int]);
            }
            match taken {
                Some(p) => out.push(p),
                None => {},
            }
            proof {
                assert(out@ =~= before + slot_copies(old(self).slots@[i as int]));
                if i == 1 {
                    assert(before == slot_copies(old(self).slots@[0]));
                    assert(out@ =~= present_copies(old(self).slots@));
                }
                if i == 0 {
                    assert(out@ =~= slot_copies(old(self).slots@[0]));
                }
            }
            i = i + 1;
        }
        proof {
            assert(self.model().slots =~= seq![None::<(u32, u32)>, None]);
            assert(self.copies() =~= seq![None::<PendingCopy<B>>, None]);
        }
        out
    }
}

/// A copy submitted this frame is the one harvested in the next frame:
/// after a submit, the previous slot is the one just written.
pub proof fn lemma_submit_then_harvest(r: RingModel, size: (u32, u32))
    requires
        r.slots.len() == READBACK_SLOTS,
        0 <= r.current < READBACK_SLOTS,
    ensures
        ring_harvested(ring_submit(r, size)) == Some(size),
{
}

/// The very copy submitted in one frame (its buffer included) is the one
/// the next frame's harvest takes: after a submit at slot `current`, the
/// previous slot of the advanced ring holds it.
pub proof fn lemma_submitted_copy_is_harvested<B>(
    copies: Seq<Option<PendingCopy<B>>>,
    current: int,
    copy: PendingCopy<B>,
)
    requires
        copies.len() == READBACK_SLOTS,
        0 <= current < READBACK_SLOTS,
    ensures
        copies.update(current, Some(copy))[previous_slot((current + 1) % (READBACK_SLOTS as int))]
            == Some(copy),
{
}

/// Harvesting frees the slot: a second harvest in the same frame finds
/// nothing.
pub proof fn lemma_harvest_once(r: RingModel)
    requires
        r.slots.len() == READBACK_SLOTS,
        0 <= r.current < READBACK_SLOTS,
    ensures
        ring_harvested(ring_harvest(r)) is None,
{
}

/// In steady state (harvest, then submit, each frame) the copy of frame
/// `n` is delivered in frame `n + 1`: after submitting `a` and then
/// harvesting and submitting `b`, the next harvest yields `b` and the
/// harvest in between yielded `a`.
pub proof fn lemma_frames_arrive_in_order(r: RingModel, a: (u32, u32), b: (u32, u32))
    requires
        r.slots.len() == READBACK_SLOTS,
        0 <= r.current < READBACK_SLOTS,
    ensures
        ring_harvested(ring_submit(r, a)) == Some(a),
        ring_harvested(ring_submit(ring_harvest(ring_submit(r, a)), b)) == Some(b),
{
}

/// The active outputs and the readback ring they share.
///
/// The CPU-path outputs (NDI, V4L2 loopback) need the rendered frame read
/// back from the GPU; the V4L2 device is held as `L`, the staging buffers
/// as `B`.
pub struct OutputManager<L, B> {
    ndi_output: Option<NdiOutputSender>,
    v4l2_output: Option<L>,
    readback: ReadbackRing<B>,
    frame_count: u64,
}

impl<L, B> OutputManager<L, B> {
    pub closed spec fn spec_ndi_active(&self) -> bool {
        self.ndi_output is Some
    }

    pub closed spec fn spec_v4l2_active(&self) -> bool {
        self.v4l2_output is Some
    }

    /// The frame size the NDI output accepts (when active).
    pub closed spec fn spec_ndi_resolution(&self) -> (u32, u32) {
        match self.ndi_output {
            Some(s) => (s.spec_width(), s.spec_height()),
            None => (0u32, 0u32),
        }
    }

    pub closed spec fn spec_frame_count(&self) -> u64 {
        self.frame_count
    }

    pub closed spec fn spec_ring(&self) -> RingModel {
        self.readback.model()
    }

    /// The copies pending in the ring, buffers included.
    pub closed spec fn spec_copies(&self) -> Seq<Option<PendingCopy<B>>> {
        self.readback.copies()
    }

    /// Well-formed: the ring is.
    pub closed spec fn wf(&self) -> bool {
        self.readback.wf()
    }

    /// No output, an empty ring, no frame yet.
    pub fn new() -> (r: Self)
        ensures
            r.wf(),
            !r.spec_ndi_active(),
            !r.spec_v4l2_active(),
            r.spec_frame_count() == 0,
            r.spec_ring().slots == seq![None::<(u32, u32)>, None],
            r.spec_ring().current == 0,
    {
        OutputManager {
            ndi_output: None,
            v4l2_output: None,
            readback: ReadbackRing::new(),
            frame_count: 0,
        }
    }

    /// Start NDI output (replacing a running one); refused for a zero
    /// width or height. Hands out the parts the send thread runs on.
    /// The output then accepts `width` x `height` frames.
    pub fn start_ndi(&mut self, name: &str, width: u32, height: u32, include_alpha: bool) -> (r:
        Result<SendThreadParts, NdiOutputError>)
        requires
            old(self).wf(),
        ensures
            final(self).wf(),
            r is Err <==> (width == 0 || height == 0),
            r is Ok ==> final(self).spec_ndi_active() && final(self).spec_ndi_resolution() == (
                width,
                height,
            ),
            r is Err ==> final(self).spec_ndi_active() == old(self).spec_ndi_active()
                && final(self).spec_ndi_resolution() == old(self).spec_ndi_resolution(),
            final(self).spec_v4l2_active() == old(self).spec_v4l2_active(),
            final(self).spec_ring() == old(self).spec_ring(),
            final(self).spec_frame_count() == old(self).spec_frame_count(),
    {
        match NdiOutputSender::new(name, width, height, include_alpha) {
            Ok((sender, parts)) => {
                let previous = self.ndi_output.take();
                self.ndi_output = Some(sender);
                match previous {
                    Some(mut old_sender) => {
                        old_sender.stop();
                    },
                    None => {},
                }
                Ok(parts)
            },
            Err(e) => Err(e),
        }
    }

    /// Stop NDI output. Returns whether it was active.
    pub fn stop_ndi(&mut self) -> (was_active: bool)
        requires
            old(self).wf(),
        ensures
            final(self).wf(),
            was_active == old(self).spec_ndi_active(),
            !final(self).spec_ndi_active(),
            final(self).spec_v4l2_active() == old(self).spec_v4l2_active(),
            final(self).spec_ring() == old(self).spec_ring(),
            final(self).spec_frame_count() == old(self).spec_frame_count(),
    {
        match self.ndi_output.take() {
            Some(mut sender) => {
                sender.stop();
                true
            },
            None => false,
        }
    }

    /// Start V4L2 loopback output on an opened device (replacing a running
    /// one, which is handed back).
    pub fn start_v4l2(&mut self, output: L) -> (previous: Option<L>)
        requires
            old(self).wf(),
        ensures
            final(self).wf(),
            previous is Some == old(self).spec_v4l2_active(),
            final(self).spec_v4l2_active(),
            final(self).spec_ndi_active() == old(self).spec_ndi_active(),
            final(self).spec_ring() == old(self).spec_ring(),
            final(self).spec_frame_count() == old(self).spec_frame_count(),
    {
        let previous = self.v4l2_output.take();
        self.v4l2_output = Some(output);
        previous
    }

    /// Stop V4L2 output, handing the device back to be closed.
    pub fn stop_v4l2(&mut self) -> (r: Option<L>)
        requires
            old(self).wf(),
        ensures
            final(self).wf(),
            r is Some == old(self).spec_v4l2_active(),
            !final(self).spec_v4l2_active(),
            final(self).spec_ndi_active() == old(self).spec_ndi_active(),
            final(self).spec_ring() == old(self).spec_ring(),
            final(self).spec_frame_count() == old(self).spec_frame_count(),
    {
        self.v4l2_output.take()
    }

    /// Whether NDI output is active.
    pub fn is_ndi_active(&self) -> (r: bool)
        ensures
            r == self.spec_ndi_active(),
    {
        self.ndi_output.is_some()
    }

    /// Whether V4L2 loopback output is active.
    pub fn is_v4l2_active(&self) -> (r: bool)
        ensures
            r == self.spec_v4l2_active(),
    {
        self.v4l2_output.is_some()
    }

    /// The V4L2 device, when active, to write a frame to.
    pub fn v4l2_output(&mut self) -> (r: Option<&mut L>)
        ensures
            r is Some == old(self).spec_v4l2_active(),
    {
        self.v4l2_output.as_mut()
    }

    /// Whether a CPU-path output (NDI, V4L2) needs the frame read back.
    pub fn needs_readback(&self) -> (r: bool)
        ensures
            r == (self.spec_ndi_active() || self.spec_v4l2_active()),
    {
        self.ndi_output.is_some() || self.v4l2_output.is_some()
    }

    /// Frames submitted so far.
    pub fn frame_count(&self) -> (r: u64)
        ensures
            r == self.spec_frame_count(),
    {
        self.frame_count
    }

    /// A frame was rendered: count it and say whether it must be read back
    /// (harvest the previous copy, then submit a copy of this frame).
    pub fn begin_frame(&mut self) -> (readback: bool)
        requires
            old(self).wf(),
            old(self).spec_frame_count() < u64::MAX,
        ensures
            final(self).wf(),
            final(self).spec_frame_count() == old(self).spec_frame_count() + 1,
            readback == (old(self).spec_ndi_active() || old(self).spec_v4l2_active()),
            final(self).spec_ndi_active() == old(self).spec_ndi_active(),
            final(self).spec_v4l2_active() == old(self).spec_v4l2_active(),
            final(self).spec_ring() == old(self).spec_ring(),
    {
        self.frame_count = self.frame_count + 1;
        self.needs_readback()
    }

    /// The readback ring, for checking whether the previous copy has
    /// completed.
    pub fn readback(&self) -> (r: &ReadbackRing<B>)
        ensures
            r.model() == self.spec_ring(),
            r.copies() == self.spec_copies(),
            self.wf() ==> r.wf(),
    {
        &self.readback
    }

    /// Take the previous frame's copy (once it has completed).
    pub fn harvest_previous(&mut self) -> (r: Option<PendingCopy<B>>)
        requires
            old(self).wf(),
        ensures
            final(self).wf(),
            pending_size(r) == ring_harvested(old(self).spec_ring()),
            final(self).spec_ring() == ring_harvest(old(self).spec_ring()),
            r == old(self).spec_copies()[previous_slot(old(self).spec_ring().current)],
            final(self).spec_copies() == old(self).spec_copies().update(
                previous_slot(old(self).spec_ring().current),
                None,
            ),
            final(self).spec_ndi_active() == old(self).spec_ndi_active(),
            final(self).spec_v4l2_active() == old(self).spec_v4l2_active(),
            final(self).spec_frame_count() == old(self).spec_frame_count(),
    {
        self.readback.harvest_previous()
    }

    /// Hand a read-back frame to the NDI output, when active. Returns what
    /// became of it there (`None` without NDI output); see
    /// [`NdiOutputSender::submit_frame`].
    pub fn deliver_to_ndi(&self, data: &[u8], width: u32, height: u32) -> (r: Option<
        SubmitOutcome,
    >)
        ensures
            !self.spec_ndi_active() ==> r is None,
            self.spec_ndi_active() && (width, height) != self.spec_ndi_resolution() ==> r == Some(
                SubmitOutcome::SizeMismatch,
            ),
            self.spec_ndi_active() && (width, height) == self.spec_ndi_resolution()
                && data@.len() == 0 ==> r == Some(SubmitOutcome::Empty),
            self.spec_ndi_active() && (width, height) == self.spec_ndi_resolution()
                && data@.len() != 0 ==> (r == Some(SubmitOutcome::Queued) || r == Some(
                SubmitOutcome::QueueFull,
            ) || r == Some(SubmitOutcome::Disconnected)),
    {
        match &self.ndi_output {
            Some(sender) => Some(sender.submit_frame(data, width, height)),
            None => None,
        }
    }

    /// Submit this frame's copy into the ring. Returns the copy still
    /// pending in that slot, which is dropped.
    pub fn submit_copy(&mut self, copy: PendingCopy<B>) -> (dropped: Option<PendingCopy<B>>)
        requires
            old(self).wf(),
        ensures
            final(self).wf(),
            pending_size(dropped) == old(self).spec_ring().slots[old(self).spec_ring().current],
            final(self).spec_ring() == ring_submit(old(self).spec_ring(), (copy.width, copy.height)),
            dropped == old(self).spec_copies()[old(self).spec_ring().current],
            final(self).spec_copies() == old(self).spec_copies().update(
                old(self).spec_ring().current,
                Some(copy),
            ),
            final(self).spec_ndi_active() == old(self).spec_ndi_active(),
            final(self).spec_v4l2_active() == old(self).spec_v4l2_active(),
            final(self).spec_frame_count() == old(self).spec_frame_count(),
    {
        self.readback.submit(copy)
    }

    /// Take every pending copy (while the GPU device is still alive).
    pub fn drain_readback(&mut self) -> (r: Vec<PendingCopy<B>>)
        requires
            old(self).wf(),
        ensures
            final(self).wf(),
            final(self).spec_ring().slots == seq![None::<(u32, u32)>, None],
            r@ == present_copies(old(self).spec_copies()),
            final(self).spec_ndi_active() == old(self).spec_ndi_active(),
            final(self).spec_v4l2_active() == old(self).spec_v4l2_active(),
            final(self).spec_frame_count() == old(self).spec_frame_count(),
    {
        self.readback.drain()
    }

    /// Stop every output; the V4L2 device, if any, is handed back to be
    /// closed.
    pub fn shutdown(&mut self) -> (v4l2: Option<L>)
        requires
            old(self).wf(),
        ensures
            final(self).wf(),
            !final(self).spec_ndi_active(),
            !final(self).spec_v4l2_active(),
            v4l2 is Some == old(self).spec_v4l2_active(),
            final(self).spec_ring() == old(self).spec_ring(),
    {
        self.stop_ndi();
        self.stop_v4l2()
    }
}

} // verus!
