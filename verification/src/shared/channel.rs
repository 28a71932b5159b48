//! Bounded frame queues between the capture and send threads and the
//! render loop, and the shared flags that stop those threads.
//!
//! The queues are `crossbeam` channels. Another thread fills or drains the
//! other end, so what a single call finds in a queue is never stated; only
//! what holds of every outcome is.
use vstd::prelude::*;
use std::sync::Arc;
use std::sync::atomic::AtomicBool;

verus! {

/// `crossbeam::channel::Sender`, the sending end of a queue.
#[verifier::external_type_specification]
#[verifier::external_body]
#[verifier::reject_recursive_types(T)]
pub struct ExSender<T>(crossbeam::channel::Sender<T>);

/// `crossbeam::channel::Receiver`, the receiving end of a queue.
#[verifier::external_type_specification]
#[verifier::external_body]
#[verifier::reject_recursive_types(T)]
pub struct ExReceiver<T>(crossbeam::channel::Receiver<T>);

/// What became of a message offered to a queue without blocking.
pub enum Offer<T> {
    /// The message is in the queue.
    Sent,
    /// The queue is full; the message is handed back.
    Full(T),
    /// The receiving end is gone; the message is handed back.
    Disconnected(T),
}

/// `crossbeam::channel::bounded`: a queue holding at most `cap` messages.
/// (The crate panics only for a capacity too large to allocate.)
#[verifier::external_body]
pub(crate) fn bounded<T>(cap: usize) -> (crossbeam::channel::Sender<T>, crossbeam::channel::Receiver<
    T,
>)
    requires
        1 <= cap <= 64,
{
    crossbeam::channel::bounded(cap)
}

/// `Sender::try_send`: offer `msg` without blocking. When it is refused
/// (queue full, or receiver gone) the very message comes back; whether it
/// is refused depends on the other thread.
#[verifier::external_body]
pub(crate) fn try_send<T>(tx: &crossbeam::channel::Sender<T>, msg: T) -> (r: Offer<T>)
    ensures
        match r {
            Offer::Sent => true,
            Offer::Full(m) => m == msg,
            Offer::Disconnected(m) => m == msg,
        },
{
    match tx.try_send(msg) {
        Ok(()) => Offer::Sent,
        Err(crossbeam::channel::TrySendError::Full(m)) => Offer::Full(m),
        Err(crossbeam::channel::TrySendError::Disconnected(m)) => Offer::Disconnected(m),
    }
}

/// `Receiver::try_iter`, collected: every message waiting now, oldest
/// first (taking stops at an empty or disconnected queue). What is
/// waiting depends on the other thread, so nothing is stated of it.
#[verifier::external_body]
pub(crate) fn take_waiting<T>(rx: &crossbeam::channel::Receiver<T>) -> (r: Vec<T>) {
    rx.try_iter().collect()
}

/// `Receiver::is_empty`: whether no message is waiting right now.
#[verifier::external_body]
pub(crate) fn is_empty<T>(rx: &crossbeam::channel::Receiver<T>) -> (r: bool) {
    rx.is_empty()
}

/// `Sender::clone`: a further sending end of the same queue.
#[verifier::external_body]
pub(crate) fn clone_sender<T>(tx: &crossbeam::channel::Sender<T>) -> (r: crossbeam::channel::Sender<
    T,
>) {
    tx.clone()
}

/// `Arc::clone`: a further handle on the same shared flag.
#[verifier::external_body]
pub(crate) fn share_flag(flag: &Arc<AtomicBool>) -> (r: Arc<AtomicBool>) {
    Arc::clone(flag)
}

/// A new shared flag holding `value`.
pub(crate) fn new_flag(value: bool) -> (r: Arc<AtomicBool>) {
    Arc::new(AtomicBool::new(value))
}

/// Set a shared flag (sequentially consistent).
pub(crate) fn set_flag(flag: &Arc<AtomicBool>, value: bool) {
    let f: &AtomicBool = &**flag;
    f.store(value, std::sync::atomic::Ordering::SeqCst);
}

/// Read a shared flag (sequentially consistent). Other threads may set it
/// at any time, so nothing is stated of the value.
pub(crate) fn read_flag(flag: &Arc<AtomicBool>) -> (r: bool) {
    let f: &AtomicBool = &**flag;
    f.load(std::sync::atomic::Ordering::SeqCst)
}

} // verus!
