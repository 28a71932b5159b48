use rustjay::midi::{device_check_due, find_port, parse_cc_message, LearnState, MidiInputEvent, MidiState};

#[test]
fn control_change_messages_are_decoded() {
    assert_eq!(
        parse_cc_message(&[0xB3, 7, 100]),
        Some(MidiInputEvent { channel: 3, cc: 7, value: 100 })
    );
    assert_eq!(parse_cc_message(&[0x93, 60, 100]), None); // note on
    assert_eq!(parse_cc_message(&[0xB0, 1]), None); // too short
    assert_eq!(parse_cc_message(&[0xBF, 1, 2, 3]), Some(MidiInputEvent { channel: 15, cc: 1, value: 2 }));
}

#[test]
fn learning_maps_the_next_controller() {
    let mut s: MidiState<u8> = MidiState::new();
    s.start_learning("color/hue_shift", "Hue Shift");
    assert_eq!(s.learn_state, LearnState::Waiting);
    let updated = s.handle_cc(2, 21, 64, 0);
    assert!(updated.is_empty());
    assert_eq!(s.learn_state, LearnState::Idle);
    assert_eq!(s.mappings.len(), 1);
    assert_eq!((s.mappings[0].cc, s.mappings[0].channel), (21, 2));
    assert_eq!(s.mappings[0].param_path, "color/hue_shift");
    assert!(s.is_mapped("color/hue_shift"));
    assert_eq!(s.find_mapping("color/hue_shift"), Some(0));
    assert_eq!(s.last_input, Some(MidiInputEvent { channel: 2, cc: 21, value: 64 }));
}

#[test]
fn relearning_a_controller_replaces_its_mapping() {
    let mut s: MidiState<u8> = MidiState::new();
    s.start_learning("a", "A");
    s.complete_learning(10, 0, 1);
    s.start_learning("b", "B");
    s.complete_learning(11, 0, 2);
    s.start_learning("c", "C");
    s.complete_learning(10, 0, 3);
    let paths: Vec<&str> = s.mappings.iter().map(|m| m.param_path.as_str()).collect();
    assert_eq!(paths, vec!["b", "c"]);
    assert!(!s.is_mapped("a"));
}

#[test]
fn control_changes_report_listening_mappings() {
    let mut s: MidiState<u8> = MidiState::new();
    s.start_learning("a", "A");
    s.complete_learning(1, 0, 0);
    s.start_learning("b", "B");
    s.complete_learning(2, 0, 0);
    assert_eq!(s.handle_cc(0, 2, 127, 0), vec![1]);
    assert!(s.handle_cc(5, 2, 127, 0).is_empty());
    s.remove_mapping(0);
    assert_eq!(s.handle_cc(0, 2, 1, 0), vec![0]);
    s.set_payload(0, 9);
    assert_eq!(s.get_mapping("b").unwrap().payload, 9);
    s.clear_mappings();
    assert!(s.mappings.is_empty());
}

#[test]
fn cancelled_learning_maps_nothing() {
    let mut s: MidiState<u8> = MidiState::new();
    s.start_learning("a", "A");
    s.cancel_learning();
    s.complete_learning(1, 1, 0);
    assert!(s.mappings.is_empty());
}

#[test]
fn device_presence_is_checked_by_exact_name() {
    let ports = vec!["Launch Control XL".to_string(), "nanoKONTROL2".to_string()];
    assert_eq!(find_port(&ports, "nanoKONTROL2"), Some(1));
    assert_eq!(find_port(&ports, "nanoKONTROL"), None);
    let mut s: MidiState<u8> = MidiState::new();
    assert!(s.device_available(Some(&ports)));
    s.device_connected("nanoKONTROL2");
    assert!(s.enabled);
    assert_eq!(s.selected_device.as_deref(), Some("nanoKONTROL2"));
    assert!(s.device_available(Some(&ports)));
    assert!(!s.device_available(Some(&ports[..1])));
    assert!(s.device_available(None));
    s.device_disconnected();
    assert!(!s.enabled);
    assert_eq!(s.selected_device, None);
    s.devices_refreshed(ports.clone());
    assert_eq!(s.available_devices, ports);
}

#[test]
fn device_check_runs_every_three_seconds() {
    assert!(!device_check_due(0));
    assert!(!device_check_due(2));
    assert!(device_check_due(3));
    assert!(device_check_due(60));
}
