//! NDI input: source selection, the receive loop's failure rule, and the
//! render-loop side of a receiver (its frame queue and the flags shared
//! with the receive thread).
//!
//! A receiver looks for its source among the announced ones for up to ten
//! seconds, polling every 100 ms; a source matches when either name
//! contains the other. While receiving, 50 capture errors in a row mean
//! the source is lost.
use vstd::prelude::*;
use std::sync::Arc;
use std::sync::atomic::AtomicBool;
use crate::shared::channel::{bounded, clone_sender, is_empty, new_flag, read_flag, set_flag, share_flag, take_waiting, try_send, Offer};
use crate::text::string_of;

verus! {

/// Information about an available NDI source.
#[derive(Debug, Clone)]
pub struct NdiSourceInfo {
    pub name: String,
    pub url: String,
}

/// A received NDI video frame (BGRA pixels).
pub struct NdiFrame {
    pub width: u32,
    pub height: u32,
    /// BGRA pixel data.
    pub data: Vec<u8>,
    pub timestamp: std::time::Instant,
}

/// How long a receiver looks for its source, in seconds.
pub const SOURCE_SEARCH_TIMEOUT_SECS: u64 = 10;

/// Capture errors in a row after which the source counts as lost.
pub const MAX_CONSECUTIVE_ERRORS: u32 = 50;

/// Whether `needle` occurs in `hay` at position `i`.
pub open spec fn occurs_at(hay: Seq<char>, needle: Seq<char>, i: int) -> bool {
    0 <= i && i + needle.len() <= hay.len() && hay.subrange(i, i + needle.len()) == needle
}

/// Whether `needle` occurs in `hay`.
pub open spec fn contains_str(hay: Seq<char>, needle: Seq<char>) -> bool {
    exists|i: int| occurs_at(hay, needle, i)
}

/// Whether `needle` is a substring of `hay`.
pub fn str_contains(hay: &str, needle: &str) -> (r: bool)
    ensures
        r == contains_str(hay@, needle@),
{
    let n = needle.unicode_len();
    let m = hay.unicode_len();
    if n > m {
        proof {
            assert forall|i: int| !occurs_at(hay@, needle@, i) by {}
        }
        return false;
    }
    let mut i: usize = 0;
    while i <= m - n
        invariant
            n <= m,
            n == needle@.len(),
            m == hay@.len(),
            i <= m - n + 1,
            forall|j: int| 0 <= j < i ==> !occurs_at(hay@, needle@, j),
        decreases m - n + 1 - i,
    {
        let mut k: usize = 0;
        let mut same = true;
        while k < n && same
            invariant
                k <= n,
                i + n <= m,
                n == needle@.len(),
                m == hay@.len(),
                same ==> forall|t: int| 0 <= t < k ==> hay@[i + t] == needle@[t],
                !same ==> k > 0 && hay@[i + k - 1] != needle@[k - 1],
            decreases n - k, if same { 1int } else { 0int },
        {
            if hay.get_char(i + k) != needle.get_char(k) {
                same = false;
            }
            k = k + 1;
        }
        if same {
            assert(hay@.subrange(i as int, i + n) =~= needle@);
            assert(occurs_at(hay@, needle@, i as int));
            return true;
        }
        proof {
            assert(hay@.subrange(i as int, i + n)[k - 1] != needle@[k - 1]);
        }
        i = i + 1;
    }
    proof {
        assert forall|j: int| !occurs_at(hay@, needle@, j) by {
            if 0 <= j && j + n <= m {
                assert(j < i);
            }
        }
    }
    false
}

/// Whether an announced source name matches the requested one: either
/// contains the other.
pub open spec fn spec_source_matches(found: Seq<char>, wanted: Seq<char>) -> bool {
    contains_str(found, wanted) || contains_str(wanted, found)
}

/// Whether the announced source `found` is the one requested as `wanted`.
pub fn source_matches(found: &str, wanted: &str) -> (r: bool)
    ensures
        r == spec_source_matches(found@, wanted@),
{
    str_contains(found, wanted) || str_contains(wanted, found)
}

/// The first announced source that matches `wanted`, if any.
pub fn find_source(sources: &[String], wanted: &str) -> (r: Option<usize>)
    ensures
        match r {
            Some(i) => i < sources@.len() && spec_source_matches(sources@[i as int]@, wanted@)
                && forall|j: int|
                0 <= j < i ==> !spec_source_matches(#[trigger] sources@[j]@, wanted@),
            None => forall|j: int|
                0 <= j < sources@.len() ==> !spec_source_matches(#[trigger] sources@[j]@, wanted@),
        },
{
    let mut i: usize = 0;
    while i < sources.len()
        invariant
            i <= sources@.len(),
            forall|j: int| 0 <= j < i ==> !spec_source_matches(#[trigger] sources@[j]@, wanted@),
        decreases sources@.len() - i,
    {
        if source_matches(sources[i].as_str(), wanted) {
            return Some(i);
        }
        i = i + 1;
    }
    None
}

/// Error bookkeeping of a receive loop.
pub struct ReceiveHealth {
    pub consecutive_errors: u32,
}

impl ReceiveHealth {
    /// No error yet.
    pub fn new() -> (r: Self)
        ensures
            r.consecutive_errors == 0,
    {
        ReceiveHealth { consecutive_errors: 0 }
    }

    /// A frame arrived: the error run ends.
    pub fn frame_received(&mut self)
        ensures
            final(self).consecutive_errors == 0,
    {
        self.consecutive_errors = 0;
    }

    /// A capture failed. Returns whether the source is now lost: after
    /// [`MAX_CONSECUTIVE_ERRORS`] failures in a row.
    pub fn capture_failed(&mut self) -> (lost: bool)
        requires
            old(self).consecutive_errors < MAX_CONSECUTIVE_ERRORS,
        ensures
            final(self).consecutive_errors == old(self).consecutive_errors + 1,
            lost == (final(self).consecutive_errors >= MAX_CONSECUTIVE_ERRORS),
    {
        self.consecutive_errors = self.consecutive_errors + 1;
        self.consecutive_errors >= MAX_CONSECUTIVE_ERRORS
    }

    /// Account for one capture attempt (see [`capture_step`]). Returns
    /// whether the source is now lost: the error run reached
    /// [`MAX_CONSECUTIVE_ERRORS`]. The loop ends there, so the run is below
    /// that bound on every call.
    pub fn on_capture(&mut self, event: CaptureEvent) -> (lost: bool)
        requires
            old(self).consecutive_errors < MAX_CONSECUTIVE_ERRORS,
        ensures
            final(self).consecutive_errors == capture_step(
                old(self).consecutive_errors as int,
                event,
            ),
            lost == (final(self).consecutive_errors >= MAX_CONSECUTIVE_ERRORS),
    {
        match event {
            CaptureEvent::Frame => {
                self.frame_received();
                false
            },
            CaptureEvent::NoFrame => false,
            CaptureEvent::Error => self.capture_failed(),
        }
    }
}

/// What the receive thread does after one round of looking for its source.
#[derive(Debug, Clone, Copy, PartialEq, Eq)]
pub enum SearchStep {
    /// Connect to the announced source at this index.
    Connect(usize),
    /// Poll again.
    Continue,
    /// Stop looking: the source counts as lost.
    SourceLost,
}

/// One round of the source search. While [`keep_searching`] holds, the
/// sources announced by this round's poll (`None` when the poll failed)
/// are looked through for the first match; the search goes on when none
/// matches. Once it does not hold (stopped, or the ten seconds are over)
/// the source is lost.
pub fn search_step(running: bool, elapsed_secs: u64, polled: Option<&[String]>, wanted: &str) -> (s:
    SearchStep)
    ensures
        (s == SearchStep::SourceLost) == !(running && elapsed_secs < SOURCE_SEARCH_TIMEOUT_SECS),
        s matches SearchStep::Connect(i) ==> (polled matches Some(srcs) && i < srcs@.len()
            && spec_source_matches(srcs@[i as int]@, wanted@) && forall|j: int|
            0 <= j < i ==> !spec_source_matches(#[trigger] srcs@[j]@, wanted@)),
        s == SearchStep::Continue ==> (match polled {
            Some(srcs) => forall|j: int|
                0 <= j < srcs@.len() ==> !spec_source_matches(#[trigger] srcs@[j]@, wanted@),
            None => true,
        }),
{
    if !keep_searching(running, elapsed_secs) {
        return SearchStep::SourceLost;
    }
    match polled {
        Some(srcs) => match find_source(srcs, wanted) {
            Some(i) => SearchStep::Connect(i),
            None => SearchStep::Continue,
        },
        None => SearchStep::Continue,
    }
}

/// The outcome of one capture attempt of the receive loop.
#[derive(Debug, Clone, Copy, PartialEq, Eq)]
pub enum CaptureEvent {
    /// A frame arrived.
    Frame,
    /// The wait ended without a frame.
    NoFrame,
    /// The capture failed.
    Error,
}

/// The error run after `event`, from a run of `errors`: a frame ends it,
/// an empty wait keeps it, a failure lengthens it.
pub open spec fn capture_step(errors: int, event: CaptureEvent) -> int {
    match event {
        CaptureEvent::Frame => 0,
        CaptureEvent::NoFrame => errors,
        CaptureEvent::Error => errors + 1,
    }
}

/// The error run after a sequence of capture events, from none.
pub open spec fn capture_run(events: Seq<CaptureEvent>) -> int
    decreases events.len(),
{
    if events.len() == 0 {
        0
    } else {
        capture_step(capture_run(events.drop_last()), events.last())
    }
}

/// The failures since the last frame: the events after the last
/// [`CaptureEvent::Frame`] (all of them if none came) that are
/// [`CaptureEvent::Error`].
pub open spec fn errors_since_last_frame(events: Seq<CaptureEvent>) -> int
    decreases events.len(),
{
    if events.len() == 0 {
        0
    } else if events.last() == CaptureEvent::Frame {
        0
    } else if events.last() == CaptureEvent::Error {
        errors_since_last_frame(events.drop_last()) + 1
    } else {
        errors_since_last_frame(events.drop_last())
    }
}

/// The error run that [`ReceiveHealth::on_capture`] keeps, event by event
/// from [`ReceiveHealth::new`], counts the failed captures since the last
/// frame; empty waits neither count nor end the run.
pub proof fn lemma_capture_run_counts_errors_since_last_frame(events: Seq<CaptureEvent>)
    ensures
        capture_run(events) == errors_since_last_frame(events),
    decreases events.len(),
{
    if events.len() > 0 {
        lemma_capture_run_counts_errors_since_last_frame(events.drop_last());
    }
}

/// A receive loop that starts from no error and meets only failures and
/// empty waits has an error run of exactly its failures, so it has lost
/// the source exactly when they reach [`MAX_CONSECUTIVE_ERRORS`]; a frame
/// after them starts the count again from zero.
pub proof fn lemma_error_run_loses_source(events: Seq<CaptureEvent>)
    requires
        forall|i: int| 0 <= i < events.len() ==> #[trigger] events[i] != CaptureEvent::Frame,
    ensures
        capture_run(events) == events.filter(|e: CaptureEvent| e == CaptureEvent::Error).len(),
        (capture_run(events) >= MAX_CONSECUTIVE_ERRORS) == (events.filter(
            |e: CaptureEvent| e == CaptureEvent::Error,
        ).len() >= MAX_CONSECUTIVE_ERRORS),
        capture_run(events.push(CaptureEvent::Frame)) == 0,
    decreases events.len(),
{
    let f = |e: CaptureEvent| e == CaptureEvent::Error;
    if events.len() > 0 {
        let init = events.drop_last();
        assert forall|i: int| 0 <= i < init.len() implies #[trigger] init[i] != CaptureEvent::Frame by {
            assert(init[i] == events[i]);
        }
        lemma_error_run_loses_source(init);
        assert(events =~= init.push(events.last()));
        init.lemma_filter_push(events.last(), f);
        assert(events.last() == events[events.len() - 1]);
    }
    assert(events.push(CaptureEvent::Frame).drop_last() =~= events);
}

/// The latest of the frames taken from the queue (the last, as they come
/// oldest first); `None` when none was taken.
pub fn latest_of(frames: Vec<NdiFrame>) -> (r: Option<NdiFrame>)
    ensures
        frames@.len() == 0 ==> r is None,
        frames@.len() > 0 ==> r == Some(frames@.last()),
{
    let mut frames = frames;
    frames.pop()
}

/// Frames the queue from the receive thread holds.
pub const RECEIVE_QUEUE_CAPACITY: usize = 5;

/// The resolution a receiver reports before its first frame.
pub const INITIAL_WIDTH: u32 = 1920;
pub const INITIAL_HEIGHT: u32 = 1080;

/// Errors starting an NDI receiver.
#[derive(Debug, Clone, Copy, PartialEq, Eq)]
pub enum NdiReceiverError {
    /// The receiver was started already.
    AlreadyStarted,
}

/// What the receive thread runs on: the source it looks for, the sending
/// end of the frame queue and the flags it reads and sets.
pub struct ReceiveThreadParts {
    pub source_name: String,
    pub frame_tx: crossbeam::channel::Sender<NdiFrame>,
    pub running: Arc<AtomicBool>,
    pub source_lost: Arc<AtomicBool>,
}

/// Whether the receive thread keeps looking for its source: while it is
/// meant to run and fewer than [`SOURCE_SEARCH_TIMEOUT_SECS`] seconds
/// have passed. A search that ends without a matching source (see
/// [`find_source`]) marks the source as lost.
pub fn keep_searching(running: bool, elapsed_secs: u64) -> (r: bool)
    ensures
        r == (running && elapsed_secs < SOURCE_SEARCH_TIMEOUT_SECS),
{
    running && elapsed_secs < SOURCE_SEARCH_TIMEOUT_SECS
}

/// What became of a captured frame offered to the render loop.
#[derive(Debug, Clone, Copy, PartialEq, Eq)]
pub enum FrameDelivery {
    /// The frame is queued.
    Queued,
    /// The queue (five frames) is full; the frame is dropped.
    DroppedFull,
    /// The render loop's receiver is gone; the frame is dropped.
    Disconnected,
}

/// The frame handed to the render loop: a copy of the captured pixels
/// with their size and capture time.
pub fn ndi_frame_for(width: u32, height: u32, data: &[u8], timestamp: std::time::Instant) -> (f:
    NdiFrame)
    ensures
        f.width == width,
        f.height == height,
        f.data@ == data@,
        f.timestamp == timestamp,
{
    NdiFrame { width, height, data: vstd::slice::slice_to_vec(data), timestamp }
}

/// What became of a frame, by the queue's answer to the offer.
pub open spec fn spec_delivery_of<T>(offer: Offer<T>) -> FrameDelivery {
    match offer {
        Offer::Sent => FrameDelivery::Queued,
        Offer::Full(_) => FrameDelivery::DroppedFull,
        Offer::Disconnected(_) => FrameDelivery::Disconnected,
    }
}

/// What became of a frame, by the queue's answer to the offer: queued,
/// or dropped because the queue is full or its receiving end is gone.
pub fn delivery_of<T>(offer: &Offer<T>) -> (r: FrameDelivery)
    ensures
        r == spec_delivery_of(*offer),
{
    match offer {
        Offer::Sent => FrameDelivery::Queued,
        Offer::Full(_) => FrameDelivery::DroppedFull,
        Offer::Disconnected(_) => FrameDelivery::Disconnected,
    }
}

impl ReceiveThreadParts {
    /// Offer a captured frame to the render loop without blocking, as
    /// [`ndi_frame_for`] builds it, and report what became of it (see
    /// [`delivery_of`]). Which answer the queue gives depends on how far
    /// the render loop has drained it, so the answer itself is not stated.
    pub fn deliver_frame(
        &self,
        width: u32,
        height: u32,
        data: &[u8],
        timestamp: std::time::Instant,
    ) -> (r: FrameDelivery) {
        let frame = ndi_frame_for(width, height, data, timestamp);
        let offer = try_send(&self.frame_tx, frame);
        delivery_of(&offer)
    }
}

/// The render-loop side of an NDI receiver: the frame queue, the flags
/// shared with the receive thread and the resolution of the last frame.
pub struct NdiReceiver {
    source_name: String,
    started: bool,
    frame_tx: crossbeam::channel::Sender<NdiFrame>,
    frame_rx: crossbeam::channel::Receiver<NdiFrame>,
    running: Arc<AtomicBool>,
    source_lost: Arc<AtomicBool>,
    resolution: (u32, u32),
}

impl NdiReceiver {
    pub closed spec fn spec_source_name(&self) -> Seq<char> {
        self.source_name@
    }

    pub closed spec fn spec_started(&self) -> bool {
        self.started
    }

    pub closed spec fn spec_resolution(&self) -> (u32, u32) {
        self.resolution
    }

    /// A receiver for `source_name`, not started, reporting 1920 x 1080.
    pub fn new(source_name: &str) -> (r: Self)
        ensures
            r.spec_source_name() == source_name@,
            !r.spec_started(),
            r.spec_resolution() == (INITIAL_WIDTH, INITIAL_HEIGHT),
    {
        let (frame_tx, frame_rx) = bounded(RECEIVE_QUEUE_CAPACITY);
        NdiReceiver {
            source_name: string_of(source_name),
            started: false,
            frame_tx,
            frame_rx,
            running: new_flag(false),
            source_lost: new_flag(false),
            resolution: (INITIAL_WIDTH, INITIAL_HEIGHT),
        }
    }

    /// The source this receiver looks for.
    pub fn source_name(&self) -> (r: &str)
        ensures
            r@ == self.spec_source_name(),
    {
        self.source_name.as_str()
    }

    /// Whether the receive thread was started (and not stopped since).
    pub fn is_started(&self) -> (r: bool)
        ensures
            r == self.spec_started(),
    {
        self.started
    }

    /// Start receiving: refused when started already; otherwise the flags
    /// are reset (running, source not lost) and the parts for the receive
    /// thread are handed out.
    pub fn start(&mut self) -> (r: Result<ReceiveThreadParts, NdiReceiverError>)
        ensures
            old(self).spec_started() ==> r == Err::<ReceiveThreadParts, NdiReceiverError>(
                NdiReceiverError::AlreadyStarted,
            ),
            !old(self).spec_started() ==> (r matches Ok(p) && p.source_name@
                == old(self).spec_source_name()),
            final(self).spec_started(),
            final(self).spec_source_name() == old(self).spec_source_name(),
            final(self).spec_resolution() == old(self).spec_resolution(),
    {
        if self.started {
            return Err(NdiReceiverError::AlreadyStarted);
        }
        set_flag(&self.running, true);
        set_flag(&self.source_lost, false);
        self.started = true;
        Ok(
            ReceiveThreadParts {
                source_name: string_of(self.source_name.as_str()),
                frame_tx: clone_sender(&self.frame_tx),
                running: share_flag(&self.running),
                source_lost: share_flag(&self.source_lost),
            },
        )
    }

    /// Tell the receive thread to stop. Returns whether one was started
    /// (the caller then waits for it to end).
    pub fn stop(&mut self) -> (was_started: bool)
        ensures
            was_started == old(self).spec_started(),
            !final(self).spec_started(),
            final(self).spec_source_name() == old(self).spec_source_name(),
            final(self).spec_resolution() == old(self).spec_resolution(),
    {
        set_flag(&self.running, false);
        let was_started = self.started;
        self.started = false;
        was_started
    }

    /// Whether the source was lost: the receive thread sets the flag when
    /// its search gives up ([`search_step`]) or its error run reaches the
    /// bound ([`ReceiveHealth::on_capture`]). Another thread sets it at
    /// any moment, so the value read is not stated.
    pub fn is_source_lost(&self) -> (r: bool) {
        read_flag(&self.source_lost)
    }

    /// Take every frame waiting in the queue and return the latest (see
    /// [`latest_of`]); the reported resolution becomes that frame's. With
    /// no frame waiting nothing changes.
    pub fn get_latest_frame(&mut self) -> (r: Option<NdiFrame>)
        ensures
            r matches Some(f) ==> final(self).spec_resolution() == (f.width, f.height),
            r is None ==> final(self).spec_resolution() == old(self).spec_resolution(),
            final(self).spec_started() == old(self).spec_started(),
            final(self).spec_source_name() == old(self).spec_source_name(),
    {
        let frames = take_waiting(&self.frame_rx);
        let latest = latest_of(frames);
        match &latest {
            Some(f) => {
                self.resolution = (f.width, f.height);
            },
            None => {},
        }
        latest
    }

    /// Whether a frame is waiting in the queue right now. The receive
    /// thread fills the queue at any moment, so the answer is not stated.
    pub fn has_frame(&self) -> (r: bool) {
        !is_empty(&self.frame_rx)
    }

    /// The resolution of the last frame taken (1920 x 1080 before any).
    pub fn resolution(&self) -> (r: (u32, u32))
        ensures
            r == self.spec_resolution(),
    {
        self.resolution
    }

    /// Whether the receive thread was started and is still meant to run.
    pub fn is_running(&self) -> (r: bool)
        ensures
            r ==> self.spec_started(),
    {
        self.started && read_flag(&self.running)
    }
}

} // verus!
