use rustjay::input::ndi::{
    delivery_of, keep_searching, latest_of, ndi_frame_for, search_step, CaptureEvent,
    FrameDelivery, SearchStep,
    find_source, source_matches, str_contains, NdiFrame, NdiReceiver, NdiReceiverError,
    ReceiveHealth, INITIAL_HEIGHT, INITIAL_WIDTH, MAX_CONSECUTIVE_ERRORS,
};
use rustjay::output::ndi_output::{frame_for, outcome_of, NdiOutputError, NdiOutputSender, PixelLayout, SubmitOutcome};

#[test]
fn substring_search() {
    assert!(str_contains("MACHINE (OBS)", "OBS"));
    assert!(str_contains("abc", ""));
    assert!(!str_contains("OBS", "MACHINE (OBS)"));
    assert!(!str_contains("abc", "abd"));
}

#[test]
fn sources_match_when_either_name_contains_the_other() {
    assert!(source_matches("MACHINE (OBS)", "OBS"));
    assert!(source_matches("OBS", "MACHINE (OBS)"));
    assert!(!source_matches("MACHINE (Resolume)", "OBS"));
}

#[test]
fn first_matching_source_is_chosen() {
    let sources = vec![
        "HOST (Resolume)".to_string(),
        "HOST (OBS 1)".to_string(),
        "HOST (OBS 2)".to_string(),
    ];
    assert_eq!(find_source(&sources, "OBS"), Some(1));
    assert_eq!(find_source(&sources, "TouchDesigner"), None);
}

#[test]
fn fifty_errors_in_a_row_lose_the_source() {
    let mut h = ReceiveHealth::new();
    for _ in 0..(MAX_CONSECUTIVE_ERRORS - 1) {
        assert!(!h.capture_failed());
    }
    h.frame_received();
    assert_eq!(h.consecutive_errors, 0);
    for _ in 0..(MAX_CONSECUTIVE_ERRORS - 1) {
        assert!(!h.capture_failed());
    }
    assert!(h.capture_failed());
}

#[test]
fn sender_refuses_zero_dimensions() {
    assert_eq!(NdiOutputSender::new("x", 0, 10, false).err(), Some(NdiOutputError::InvalidDimensions));
    assert_eq!(NdiOutputSender::new("x", 10, 0, false).err(), Some(NdiOutputError::InvalidDimensions));
    let (s, _parts) = NdiOutputSender::new("RustJay Output", 4, 2, true).ok().unwrap();
    assert_eq!(s.name(), "RustJay Output");
    assert_eq!(s.resolution(), (4, 2));
    assert_eq!(s.pixel_layout(), PixelLayout::Bgra);
}

#[test]
fn sender_checks_frames_and_drops_when_queue_full() {
    let (s, parts) = NdiOutputSender::new("out", 2, 1, false).ok().unwrap();
    assert_eq!(s.pixel_layout(), PixelLayout::Bgrx);
    let frame = vec![1u8; 8];
    assert_eq!(s.submit_frame(&frame, 3, 1), SubmitOutcome::SizeMismatch);
    assert_eq!(s.submit_frame(&[], 2, 1), SubmitOutcome::Empty);
    assert_eq!(s.submit_frame(&frame, 2, 1), SubmitOutcome::Queued);
    assert_eq!(s.submit_frame(&frame, 2, 1), SubmitOutcome::Queued);
    // The queue holds two frames.
    assert_eq!(s.submit_frame(&frame, 2, 1), SubmitOutcome::QueueFull);
    let queued = parts.frame_rx.try_recv().unwrap();
    assert_eq!(queued.data, frame);
    assert_eq!((queued.width, queued.height, queued.has_alpha), (2, 1, false));
    drop(parts);
    assert_eq!(s.submit_frame(&frame, 2, 1), SubmitOutcome::Disconnected);
}

#[test]
fn only_the_owning_sender_stops_the_thread() {
    let (mut s, parts) = NdiOutputSender::new("out", 2, 2, false).ok().unwrap();
    let mut c = s.clone_handle();
    assert!(!c.stop_stops_thread());
    assert!(!c.stop());
    assert!(s.is_running());
    assert!(parts.running.load(std::sync::atomic::Ordering::SeqCst));
    assert!(s.stop());
    assert!(!s.is_running());
    assert!(!c.is_running());
}

#[test]
fn receiver_start_twice_is_refused() {
    let mut r = NdiReceiver::new("OBS");
    assert_eq!(r.source_name(), "OBS");
    assert_eq!(r.resolution(), (INITIAL_WIDTH, INITIAL_HEIGHT));
    assert!(!r.is_running());
    let parts = r.start().ok().unwrap();
    assert_eq!(parts.source_name, "OBS");
    assert!(r.is_running());
    assert_eq!(r.start().err(), Some(NdiReceiverError::AlreadyStarted));
    assert!(r.stop());
    assert!(!r.is_running());
    assert!(!r.stop());
}

#[test]
fn receiver_keeps_latest_frame_and_its_resolution() {
    let mut r = NdiReceiver::new("OBS");
    let parts = r.start().ok().unwrap();
    assert!(!r.has_frame());
    assert!(r.get_latest_frame().is_none());
    assert_eq!(r.resolution(), (1920, 1080));
    for (w, h) in [(640u32, 480u32), (1280, 720)] {
        parts
            .frame_tx
            .try_send(NdiFrame { width: w, height: h, data: vec![0; 4], timestamp: std::time::Instant::now() })
            .ok()
            .unwrap();
    }
    assert!(r.has_frame());
    let f = r.get_latest_frame().unwrap();
    assert_eq!((f.width, f.height), (1280, 720));
    assert_eq!(r.resolution(), (1280, 720));
    assert!(!r.has_frame());
}

#[test]
fn source_lost_flag_is_shared_with_the_thread() {
    let mut r = NdiReceiver::new("OBS");
    let parts = r.start().ok().unwrap();
    assert!(!r.is_source_lost());
    parts.source_lost.store(true, std::sync::atomic::Ordering::Relaxed);
    assert!(r.is_source_lost());
    r.stop();
    // Starting again resets the flag.
    let _parts = r.start().ok().unwrap();
    assert!(!r.is_source_lost());
}

#[test]
fn search_lasts_ten_seconds_while_running() {
    assert!(keep_searching(true, 0));
    assert!(keep_searching(true, 9));
    assert!(!keep_searching(true, 10));
    assert!(!keep_searching(false, 0));
}

#[test]
fn latest_frame_is_the_last_taken() {
    let t = std::time::Instant::now();
    assert!(latest_of(vec![]).is_none());
    let f = latest_of(vec![ndi_frame_for(1, 1, &[1, 2, 3, 4], t), ndi_frame_for(2, 3, &[9], t)]).unwrap();
    assert_eq!((f.width, f.height, f.data), (2, 3, vec![9]));
}

#[test]
fn captured_frames_are_dropped_when_the_queue_is_full() {
    let mut r = NdiReceiver::new("OBS");
    let parts = r.start().ok().unwrap();
    let t = std::time::Instant::now();
    for _ in 0..5 {
        assert_eq!(parts.deliver_frame(4, 2, &[0; 32], t), FrameDelivery::Queued);
    }
    assert_eq!(parts.deliver_frame(4, 2, &[0; 32], t), FrameDelivery::DroppedFull);
    let f = r.get_latest_frame().unwrap();
    assert_eq!((f.width, f.height, f.data.len()), (4, 2, 32));
    drop(r);
    assert_eq!(parts.deliver_frame(4, 2, &[0; 32], t), FrameDelivery::Disconnected);
}

#[test]
fn sender_frames_copy_bytes_and_alpha() {
    let f = frame_for(&[1, 2, 3, 4], 1, 1, true, std::time::Instant::now());
    assert_eq!((f.data, f.width, f.height, f.has_alpha), (vec![1, 2, 3, 4], 1, 1, true));
    assert_eq!(outcome_of(rustjay::shared::channel::Offer::Sent), SubmitOutcome::Queued);
}

#[test]
fn search_connects_to_first_match_and_gives_up_after_timeout() {
    let sources = vec!["HOST (Resolume)".to_string(), "HOST (OBS)".to_string()];
    assert_eq!(search_step(true, 0, Some(&sources), "OBS"), SearchStep::Connect(1));
    assert_eq!(search_step(true, 3, Some(&sources), "TouchDesigner"), SearchStep::Continue);
    assert_eq!(search_step(true, 3, None, "OBS"), SearchStep::Continue);
    assert_eq!(search_step(true, 10, Some(&sources), "OBS"), SearchStep::SourceLost);
    assert_eq!(search_step(false, 0, Some(&sources), "OBS"), SearchStep::SourceLost);
}

#[test]
fn fifty_capture_errors_in_a_row_lose_the_source() {
    let mut h = ReceiveHealth::new();
    for _ in 0..30 {
        assert!(!h.on_capture(CaptureEvent::Error));
        assert!(!h.on_capture(CaptureEvent::NoFrame));
    }
    assert_eq!(h.consecutive_errors, 30);
    assert!(!h.on_capture(CaptureEvent::Frame));
    assert_eq!(h.consecutive_errors, 0);
    for _ in 0..49 {
        assert!(!h.on_capture(CaptureEvent::Error));
    }
    assert!(h.on_capture(CaptureEvent::Error));
    assert_eq!(h.consecutive_errors, MAX_CONSECUTIVE_ERRORS);
}

#[test]
fn queue_answers_map_to_deliveries() {
    assert_eq!(delivery_of(&rustjay::shared::channel::Offer::<u8>::Sent), FrameDelivery::Queued);
    assert_eq!(delivery_of(&rustjay::shared::channel::Offer::Full(3u8)), FrameDelivery::DroppedFull);
    assert_eq!(delivery_of(&rustjay::shared::channel::Offer::Disconnected(3u8)), FrameDelivery::Disconnected);
}
