use rustjay::control::{
    apply_output_command, handle_output_window_event, InputSource, InputStatus, OutputKey,
    OutputWindowAction, OutputWindowEvent,
};
use rustjay::shared::state::{InputCommand, InputType, NdiOutputState, OutputCommand};

fn key(k: OutputKey, pressed: bool) -> OutputWindowEvent {
    OutputWindowEvent::Keyboard { key: k, pressed }
}

#[test]
fn close_and_escape_save_and_exit() {
    let (_, a) = handle_output_window_event(false, false, &OutputWindowEvent::CloseRequested);
    assert_eq!(a, OutputWindowAction::SaveAndExit);
    let (_, a) = handle_output_window_event(false, false, &key(OutputKey::Escape, true));
    assert_eq!(a, OutputWindowAction::SaveAndExit);
    // Releasing Escape does nothing.
    let (_, a) = handle_output_window_event(false, false, &key(OutputKey::Escape, false));
    assert_eq!(a, OutputWindowAction::Nothing);
}

#[test]
fn shift_state_follows_the_shift_key() {
    let (shift, a) = handle_output_window_event(false, false, &key(OutputKey::Shift, true));
    assert!(shift);
    assert_eq!(a, OutputWindowAction::Nothing);
    let (shift, _) = handle_output_window_event(true, false, &key(OutputKey::Shift, false));
    assert!(!shift);
    // Other events leave it.
    let (shift, _) = handle_output_window_event(true, false, &OutputWindowEvent::RedrawRequested);
    assert!(shift);
}

#[test]
fn shift_f_toggles_fullscreen_in_either_case() {
    let (_, a) = handle_output_window_event(true, false, &key(OutputKey::Character("f".to_string()), true));
    assert_eq!(a, OutputWindowAction::ToggleFullscreen);
    let (_, a) = handle_output_window_event(true, false, &key(OutputKey::Character("F".to_string()), true));
    assert_eq!(a, OutputWindowAction::ToggleFullscreen);
    // Without Shift, nothing.
    let (_, a) = handle_output_window_event(false, false, &key(OutputKey::Character("f".to_string()), true));
    assert_eq!(a, OutputWindowAction::Nothing);
}

#[test]
fn shift_t_taps_tempo() {
    let (_, a) = handle_output_window_event(true, false, &key(OutputKey::Character("T".to_string()), true));
    assert_eq!(a, OutputWindowAction::TapTempo);
    let (_, a) = handle_output_window_event(true, false, &key(OutputKey::Character("x".to_string()), true));
    assert_eq!(a, OutputWindowAction::Nothing);
}

#[test]
fn shift_function_keys_apply_slots_one_to_eight() {
    for n in 1u8..=8 {
        let (_, a) = handle_output_window_event(true, false, &key(OutputKey::Function(n), true));
        assert_eq!(a, OutputWindowAction::ApplyPresetSlot(n as usize));
    }
    let (_, a) = handle_output_window_event(true, false, &key(OutputKey::Function(9), true));
    assert_eq!(a, OutputWindowAction::Nothing);
}

#[test]
fn function_keys_without_shift_save_slots() {
    for n in 1u8..=8 {
        let (_, a) = handle_output_window_event(false, false, &key(OutputKey::Function(n), true));
        assert_eq!(a, OutputWindowAction::SaveToPresetSlot(n as usize));
    }
    let (_, a) = handle_output_window_event(false, false, &key(OutputKey::Function(12), true));
    assert_eq!(a, OutputWindowAction::Nothing);
}

#[test]
fn space_digits_and_letters() {
    let (_, a) = handle_output_window_event(false, false, &key(OutputKey::Space, true));
    assert_eq!(a, OutputWindowAction::ToggleFullscreen);
    let sources = [
        InputSource::TestPattern,
        InputSource::Webcam,
        InputSource::Ndi,
        InputSource::Syphon,
        InputSource::Spout,
    ];
    for (i, src) in sources.iter().enumerate() {
        let digit = (i + 1).to_string();
        let (_, a) = handle_output_window_event(false, false, &key(OutputKey::Character(digit), true));
        assert_eq!(a, OutputWindowAction::SwitchInput(*src));
    }
    let (_, a) = handle_output_window_event(false, false, &key(OutputKey::Character("6".to_string()), true));
    assert_eq!(a, OutputWindowAction::Nothing);
    let (_, a) = handle_output_window_event(false, false, &key(OutputKey::Character("t".to_string()), true));
    assert_eq!(a, OutputWindowAction::ToggleTestPattern);
    let (_, a) = handle_output_window_event(false, false, &key(OutputKey::Character("A".to_string()), true));
    assert_eq!(a, OutputWindowAction::ToggleAudioVisualization);
    let (_, a) = handle_output_window_event(true, false, &key(OutputKey::Character("a".to_string()), true));
    assert_eq!(a, OutputWindowAction::Nothing);
}

#[test]
fn cursor_hidden_over_fullscreen_output() {
    let (_, a) = handle_output_window_event(false, true, &OutputWindowEvent::CursorEntered);
    assert_eq!(a, OutputWindowAction::SetCursorVisible(false));
    let (_, a) = handle_output_window_event(false, false, &OutputWindowEvent::CursorEntered);
    assert_eq!(a, OutputWindowAction::SetCursorVisible(true));
    let (_, a) = handle_output_window_event(false, true, &OutputWindowEvent::CursorLeft);
    assert_eq!(a, OutputWindowAction::SetCursorVisible(true));
}

#[test]
fn resize_and_redraw() {
    let (_, a) = handle_output_window_event(false, false, &OutputWindowEvent::Resized { width: 640, height: 480 });
    assert_eq!(a, OutputWindowAction::ResizeEngine { width: 640, height: 480 });
    let (_, a) = handle_output_window_event(false, false, &OutputWindowEvent::RedrawRequested);
    assert_eq!(a, OutputWindowAction::Render);
    let (_, a) = handle_output_window_event(false, false, &OutputWindowEvent::Other);
    assert_eq!(a, OutputWindowAction::Nothing);
}

#[test]
fn webcam_start_names_the_source() {
    let mut s = InputStatus::new();
    let cmd = InputCommand::StartWebcam { device_index: 12, width: 1280, height: 720, fps: 30 };
    assert!(!s.apply_command(&cmd, true));
    assert!(s.is_active);
    assert_eq!(s.input_type, InputType::Webcam);
    assert_eq!(s.source_name, "Webcam 12");
}

#[test]
fn failed_start_changes_nothing() {
    let mut s = InputStatus::new();
    let cmd = InputCommand::StartNdi { source_name: "Studio (Cam 1)".to_string() };
    s.apply_command(&cmd, false);
    assert!(!s.is_active);
    assert_eq!(s.input_type, InputType::NoSource);
    assert_eq!(s.source_name, "");
    s.apply_command(&cmd, true);
    assert!(s.is_active);
    assert_eq!(s.input_type, InputType::Ndi);
    assert_eq!(s.source_name, "Studio (Cam 1)");
}

#[test]
fn stop_clears_name_but_keeps_type() {
    let mut s = InputStatus::new();
    s.apply_command(&InputCommand::StartNdi { source_name: "A".to_string() }, true);
    s.apply_command(&InputCommand::StopInput, true);
    assert!(!s.is_active);
    assert_eq!(s.source_name, "");
    assert_eq!(s.input_type, InputType::Ndi);
    assert!(s.apply_command(&InputCommand::RefreshDevices, true));
    assert!(!s.apply_command(&InputCommand::Idle, true));
}

#[test]
fn lost_source_and_frames() {
    let mut s = InputStatus::new();
    s.apply_command(&InputCommand::StartNdi { source_name: "A".to_string() }, true);
    s.frame_arrived(1920, 1080);
    assert_eq!((s.width, s.height), (1920, 1080));
    s.source_lost();
    assert!(!s.is_active);
    assert_eq!(s.source_name, "Signal lost");
    assert_eq!((s.width, s.height), (1920, 1080));
}

#[test]
fn ndi_output_flag_follows_commands() {
    let mut st = NdiOutputState { stream_name: "Out".to_string(), is_active: false, include_alpha: true };
    apply_output_command(&mut st, OutputCommand::StartNdi, false);
    assert!(!st.is_active);
    apply_output_command(&mut st, OutputCommand::StartNdi, true);
    assert!(st.is_active);
    apply_output_command(&mut st, OutputCommand::Idle, true);
    assert!(st.is_active);
    apply_output_command(&mut st, OutputCommand::StopNdi, false);
    assert!(!st.is_active);
    assert_eq!(st.stream_name, "Out");
    assert!(st.include_alpha);
}
