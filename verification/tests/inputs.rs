use rustjay::input::syphon_input::SyphonInputReceiver;
use rustjay::input::webcam::{camera_label, camera_labels, frame_interval_ms, rgb_to_bgra, WebcamCapture};
use rustjay::input::{list_cameras, InputError, InputFrame, InputManager};
use rustjay::shared::state::{GuiTab, InputType};

fn frame(w: u32, h: u32, fill: u8) -> InputFrame {
    InputFrame { width: w, height: h, data: vec![fill; (w * h * 4) as usize], timestamp: std::time::Instant::now() }
}

#[test]
fn discovery_runs_once_at_a_time() {
    let mut m = InputManager::new();
    assert!(!m.is_discovering());
    assert!(m.begin_refresh_devices());
    assert!(!m.begin_refresh_devices());
    assert!(m.is_discovering());
    assert!(!m.poll_discovery(None));
    assert!(m.poll_discovery(Some((vec!["0: Cam (usb)".to_string()], vec!["HOST (OBS)".to_string()]))));
    assert!(!m.is_discovering());
    assert_eq!(m.webcam_devices(), &["0: Cam (usb)".to_string()]);
    assert_eq!(m.ndi_sources(), &["HOST (OBS)".to_string()]);
    // Results arriving with no discovery running are ignored.
    assert!(!m.poll_discovery(Some((vec![], vec![]))));
    assert_eq!(m.ndi_sources().len(), 1);
}

#[test]
fn frames_flow_only_while_active() {
    let mut m = InputManager::new();
    m.update(Some(frame(2, 2, 1)), None);
    assert!(!m.has_frame());
    m.webcam_started(640, 480);
    assert_eq!(m.input_type(), InputType::Webcam);
    assert_eq!(m.resolution(), (640, 480));
    m.update(Some(frame(2, 2, 1)), Some(frame(4, 1, 9)));
    assert!(m.has_frame());
    assert_eq!(m.resolution(), (4, 1));
    assert_eq!(m.take_frame(), Some(vec![9u8; 16]));
    assert!(!m.has_frame());
    assert_eq!(m.take_frame(), None);
    assert!(m.stop());
    assert!(!m.is_active());
    assert_eq!(m.input_type(), InputType::NoSource);
    assert!(!m.stop());
}

#[test]
fn platform_inputs_are_refused() {
    let mut m = InputManager::new();
    assert_eq!(m.start_syphon("x"), Err(InputError::SyphonUnavailable));
    assert_eq!(m.start_spout("x"), Err(InputError::SpoutUnavailable));
    assert!(!m.is_active());
    assert!(list_cameras().is_empty());
    m.ndi_started();
    assert_eq!(m.input_type(), InputType::Ndi);
}

#[test]
fn webcam_pixels_and_labels() {
    assert_eq!(rgb_to_bgra(&[10, 20, 30, 40, 50, 60]), vec![30, 20, 10, 255, 60, 50, 40, 255]);
    assert_eq!(rgb_to_bgra(&[1, 2, 3, 4]), vec![3, 2, 1, 255]);
    assert_eq!(frame_interval_ms(30), 33);
    assert_eq!(frame_interval_ms(60), 16);
    assert_eq!(frame_interval_ms(2000), 0);
    assert_eq!(camera_label(1, "HD Cam", "usb-0000"), "1: HD Cam (usb-0000)");
    let labels = camera_labels(&[
        ("A".to_string(), "x".to_string()),
        ("B".to_string(), "y".to_string()),
    ]);
    assert_eq!(labels, vec!["0: A (x)", "1: B (y)"]);
}

#[test]
fn webcam_capture_lifecycle() {
    let mut c = WebcamCapture::new(2, 1280, 720, 30).ok().unwrap();
    assert!(!c.running);
    let req = c.start();
    assert_eq!((req.device_index, req.width, req.height, req.fps), (2, 1280, 720, 30));
    assert!(c.running);
    assert!(c.stop().is_ok());
    assert!(!c.running);
}

#[test]
fn syphon_receiver_outside_macos() {
    let mut r = SyphonInputReceiver::new();
    assert_eq!(r.resolution(), (1920, 1080));
    assert!(r.connect("Server").is_ok());
    assert!(!r.is_connected());
    assert!(!r.try_receive_texture());
    r.disconnect();
    assert!(!r.is_connected());
}

#[test]
fn display_names() {
    assert_eq!(InputType::NoSource.name(), "None");
    assert_eq!(InputType::Ndi.name(), "NDI");
    assert_eq!(InputType::default(), InputType::NoSource);
    assert_eq!(GuiTab::Settings.name(), "Settings");
    assert_eq!(GuiTab::default(), GuiTab::Input);
}

#[test]
fn platform_lists_start_empty() {
    let m = InputManager::new();
    assert!(m.syphon_servers().is_empty());
    assert!(m.spout_senders().is_empty());
    assert!(m.webcam_devices().is_empty());
    let mut r = SyphonInputReceiver::new();
    assert!(r.connect_by_uuid("uuid-1", "Server").is_ok());
    assert!(!r.is_connected());
}
