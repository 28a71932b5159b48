use rustjay::output::ndi_output::{NdiOutputError, SubmitOutcome};
use rustjay::output::{OutputManager, PendingCopy};

fn copy(tag: u8, w: u32, h: u32) -> PendingCopy<u8> {
    PendingCopy { buffer: tag, width: w, height: h }
}

#[test]
fn readback_needed_only_for_cpu_outputs() {
    let mut m: OutputManager<String, u8> = OutputManager::new();
    assert!(!m.needs_readback());
    assert!(!m.begin_frame());
    assert_eq!(m.frame_count(), 1);
    let _parts = m.start_ndi("out", 4, 4, false).ok().unwrap();
    assert!(m.is_ndi_active());
    assert!(m.begin_frame());
    assert!(m.stop_ndi());
    assert!(!m.stop_ndi());
    assert!(m.start_v4l2("/dev/video10".to_string()).is_none());
    assert!(m.is_v4l2_active());
    assert!(m.needs_readback());
    assert_eq!(m.stop_v4l2(), Some("/dev/video10".to_string()));
    assert!(!m.needs_readback());
    assert_eq!(m.frame_count(), 2);
}

#[test]
fn start_ndi_refuses_zero_size() {
    let mut m: OutputManager<(), u8> = OutputManager::new();
    assert_eq!(m.start_ndi("out", 0, 4, false).err(), Some(NdiOutputError::InvalidDimensions));
    assert!(!m.is_ndi_active());
}

#[test]
fn frame_copies_are_harvested_one_frame_later() {
    let mut m: OutputManager<(), u8> = OutputManager::new();
    assert!(m.harvest_previous().is_none());
    assert!(m.submit_copy(copy(1, 10, 20)).is_none());
    let got = m.harvest_previous().unwrap();
    assert_eq!((got.buffer, got.width, got.height), (1, 10, 20));
    assert!(m.harvest_previous().is_none());
    assert!(m.submit_copy(copy(2, 30, 40)).is_none());
    // Not harvested: two frames later its slot is written again.
    assert!(m.submit_copy(copy(3, 50, 60)).is_none());
    let dropped = m.submit_copy(copy(4, 70, 80)).unwrap();
    assert_eq!(dropped.buffer, 2);
    let drained = m.drain_readback();
    let buffers: Vec<u8> = drained.iter().map(|c| c.buffer).collect();
    assert_eq!(buffers, vec![3, 4]);
    assert!(m.harvest_previous().is_none());
}

#[test]
fn readback_is_delivered_to_ndi_when_active() {
    let mut m: OutputManager<(), u8> = OutputManager::new();
    assert_eq!(m.deliver_to_ndi(&[1, 2, 3, 4], 1, 1), None);
    let parts = m.start_ndi("out", 1, 1, true).ok().unwrap();
    assert_eq!(m.deliver_to_ndi(&[1, 2, 3, 4], 1, 1), Some(SubmitOutcome::Queued));
    assert_eq!(m.deliver_to_ndi(&[1, 2, 3, 4], 2, 1), Some(SubmitOutcome::SizeMismatch));
    let frame = parts.frame_rx.try_recv().unwrap();
    assert_eq!(frame.data, vec![1, 2, 3, 4]);
    assert!(frame.has_alpha);
}

#[test]
fn shutdown_stops_everything() {
    let mut m: OutputManager<u32, u8> = OutputManager::new();
    let parts = m.start_ndi("out", 2, 2, false).ok().unwrap();
    m.start_v4l2(7);
    assert_eq!(m.shutdown(), Some(7));
    assert!(!m.is_ndi_active());
    assert!(!m.is_v4l2_active());
    assert!(!parts.running.load(std::sync::atomic::Ordering::SeqCst));
}

#[test]
fn pending_copy_is_visible_before_harvest() {
    let mut m: OutputManager<(), u8> = OutputManager::new();
    assert!(!m.readback().previous_pending());
    m.submit_copy(copy(5, 1, 1));
    assert!(m.readback().previous_pending());
    assert_eq!(m.readback().previous_buffer(), Some(&5));
}

#[test]
fn empty_readback_is_reported_by_ndi() {
    let mut m: OutputManager<(), u8> = OutputManager::new();
    let _parts = m.start_ndi("out", 2, 2, false).ok().unwrap();
    assert_eq!(m.deliver_to_ndi(&[], 2, 2), Some(SubmitOutcome::Empty));
}
