//! Decisions of the application loop.
//!
//! The loop itself (windows, GPU, managers) runs outside the library; it
//! hands each window event or posted command to the functions here, which
//! say what the event does to the loop's state and which outside work it
//! asks for.
use vstd::prelude::*;
use crate::presets::{spec_to_lowercase, to_lowercase};
use crate::shared::state::{InputCommand, InputType, NdiOutputState, OutputCommand};
use crate::text::{decimal, push_decimal, str_eq, string_of};

verus! {

/// A key of the output window, as far as its shortcuts tell keys apart.
#[derive(Debug, Clone)]
pub enum OutputKey {
    Shift,
    Escape,
    Space,
    /// The function key `F<n>`.
    Function(u8),
    /// A key that produces text.
    Character(String),
    Other,
}

/// An event of the output window.
#[derive(Debug, Clone)]
pub enum OutputWindowEvent {
    CloseRequested,
    CursorEntered,
    CursorLeft,
    Keyboard { key: OutputKey, pressed: bool },
    Resized { width: u32, height: u32 },
    RedrawRequested,
    Other,
}

/// The input sources the digit keys `1` to `5` switch to.
#[derive(Debug, Clone, Copy, PartialEq, Eq)]
pub enum InputSource {
    TestPattern,
    Webcam,
    Ndi,
    Syphon,
    Spout,
}

/// What the loop does in answer to an output window event.
#[derive(Debug, Clone, Copy, PartialEq, Eq)]
pub enum OutputWindowAction {
    /// Save the settings and leave the event loop.
    SaveAndExit,
    SetCursorVisible(bool),
    ToggleFullscreen,
    TapTempo,
    ToggleTestPattern,
    ToggleAudioVisualization,
    /// Switch the input to the given source.
    SwitchInput(InputSource),
    /// Apply the preset of quick slot `n`.
    ApplyPresetSlot(usize),
    /// Save the current state into quick slot `n`.
    SaveToPresetSlot(usize),
    ResizeEngine { width: u32, height: u32 },
    /// Render a frame and refresh the preview textures.
    Render,
    Nothing,
}

/// Whether Shift is held after `event`: a Shift key event sets it to
/// whether the key went down; any other event leaves it.
pub open spec fn shift_after(shift: bool, event: OutputWindowEvent) -> bool {
    match event {
        OutputWindowEvent::Keyboard { key: OutputKey::Shift, pressed } => pressed,
        _ => shift,
    }
}

/// The answer to a key that went down while Shift is held or not:
/// Escape exits; Space and Shift+F toggle fullscreen; Shift+T taps the
/// tempo; T (without Shift) toggles the test pattern and A (without
/// Shift) the audio visualisation; `1` to `5` switch the input (test
/// pattern, webcam, NDI, Syphon, Spout); F1 to F8 save the current state
/// into that quick slot, and with Shift load it.
pub open spec fn key_action(shift: bool, key: OutputKey) -> OutputWindowAction {
    match key {
        OutputKey::Escape => OutputWindowAction::SaveAndExit,
        OutputKey::Space => OutputWindowAction::ToggleFullscreen,
        OutputKey::Character(ch) => character_action(shift, spec_to_lowercase(ch@)),
        OutputKey::Function(n) => {
            if 1 <= n <= 8 {
                if shift {
                    OutputWindowAction::ApplyPresetSlot(n as usize)
                } else {
                    OutputWindowAction::SaveToPresetSlot(n as usize)
                }
            } else {
                OutputWindowAction::Nothing
            }
        },
        _ => OutputWindowAction::Nothing,
    }
}

/// The answer to a text key whose lowercase form is `lower`.
pub open spec fn character_action(shift: bool, lower: Seq<char>) -> OutputWindowAction {
    if shift && lower == seq!['f'] {
        OutputWindowAction::ToggleFullscreen
    } else if shift && lower == seq!['t'] {
        OutputWindowAction::TapTempo
    } else if !shift && lower == seq!['t'] {
        OutputWindowAction::ToggleTestPattern
    } else if !shift && lower == seq!['a'] {
        OutputWindowAction::ToggleAudioVisualization
    } else if lower == seq!['1'] {
        OutputWindowAction::SwitchInput(InputSource::TestPattern)
    } else if lower == seq!['2'] {
        OutputWindowAction::SwitchInput(InputSource::Webcam)
    } else if lower == seq!['3'] {
        OutputWindowAction::SwitchInput(InputSource::Ndi)
    } else if lower == seq!['4'] {
        OutputWindowAction::SwitchInput(InputSource::Syphon)
    } else if lower == seq!['5'] {
        OutputWindowAction::SwitchInput(InputSource::Spout)
    } else {
        OutputWindowAction::Nothing
    }
}

/// The answer to an output window event, given whether Shift was held
/// before it and whether the output is fullscreen.
pub open spec fn output_window_action(
    shift: bool,
    fullscreen: bool,
    event: OutputWindowEvent,
) -> OutputWindowAction {
    match event {
        OutputWindowEvent::CloseRequested => OutputWindowAction::SaveAndExit,
        OutputWindowEvent::CursorEntered => OutputWindowAction::SetCursorVisible(!fullscreen),
        OutputWindowEvent::CursorLeft => OutputWindowAction::SetCursorVisible(true),
        OutputWindowEvent::Keyboard { key, pressed } => {
            if pressed {
                key_action(shift_after(shift, event), key)
            } else {
                OutputWindowAction::Nothing
            }
        },
        OutputWindowEvent::Resized { width, height } => OutputWindowAction::ResizeEngine {
            width,
            height,
        },
        OutputWindowEvent::RedrawRequested => OutputWindowAction::Render,
        OutputWindowEvent::Other => OutputWindowAction::Nothing,
    }
}

/// Whether `lower` is the single character `c`.
fn is_single(lower: &String, c: char) -> (r: bool)
    ensures
        r == (lower@ == seq![c]),
{
    let mut expected = String::new();
    crate::text::push_char(&mut expected, c);
    proof {
        assert(expected@ =~= seq![c]);
    }
    str_eq(lower.as_str(), expected.as_str())
}

/// The answer to a text key; see [`character_action`].
fn character_key(shift: bool, ch: &String) -> (r: OutputWindowAction)
    ensures
        r == character_action(shift, spec_to_lowercase(ch@)),
{
    let lower = to_lowercase(ch.as_str());
    if shift && is_single(&lower, 'f') {
        OutputWindowAction::ToggleFullscreen
    } else if shift && is_single(&lower, 't') {
        OutputWindowAction::TapTempo
    } else if !shift && is_single(&lower, 't') {
        OutputWindowAction::ToggleTestPattern
    } else if !shift && is_single(&lower, 'a') {
        OutputWindowAction::ToggleAudioVisualization
    } else if is_single(&lower, '1') {
        OutputWindowAction::SwitchInput(InputSource::TestPattern)
    } else if is_single(&lower, '2') {
        OutputWindowAction::SwitchInput(InputSource::Webcam)
    } else if is_single(&lower, '3') {
        OutputWindowAction::SwitchInput(InputSource::Ndi)
    } else if is_single(&lower, '4') {
        OutputWindowAction::SwitchInput(InputSource::Syphon)
    } else if is_single(&lower, '5') {
        OutputWindowAction::SwitchInput(InputSource::Spout)
    } else {
        OutputWindowAction::Nothing
    }
}

/// Handle an event of the output window: the new Shift state and what the
/// loop does. Escape and closing the window save and exit; keys answer
/// as [`key_action`] says; the cursor is hidden over a fullscreen output.
pub fn handle_output_window_event(
    shift_pressed: bool,
    fullscreen: bool,
    event: &OutputWindowEvent,
) -> (r: (bool, OutputWindowAction))
    ensures
        r.0 == shift_after(shift_pressed, *event),
        r.1 == output_window_action(shift_pressed, fullscreen, *event),
{
    match event {
        OutputWindowEvent::CloseRequested => (shift_pressed, OutputWindowAction::SaveAndExit),
        OutputWindowEvent::CursorEntered => (
            shift_pressed,
            OutputWindowAction::SetCursorVisible(!fullscreen),
        ),
        OutputWindowEvent::CursorLeft => (shift_pressed, OutputWindowAction::SetCursorVisible(true)),
        OutputWindowEvent::Keyboard { key, pressed } => {
            let shift = match key {
                OutputKey::Shift => *pressed,
                _ => shift_pressed,
            };
            if !*pressed {
                return (shift, OutputWindowAction::Nothing);
            }
            let action = match key {
                OutputKey::Escape => OutputWindowAction::SaveAndExit,
                OutputKey::Space => OutputWindowAction::ToggleFullscreen,
                OutputKey::Character(ch) => character_key(shift, ch),
                OutputKey::Function(n) => {
                    if 1 <= *n && *n <= 8 {
                        if shift {
                            OutputWindowAction::ApplyPresetSlot(*n as usize)
                        } else {
                            OutputWindowAction::SaveToPresetSlot(*n as usize)
                        }
                    } else {
                        OutputWindowAction::Nothing
                    }
                },
                _ => OutputWindowAction::Nothing,
            };
            (shift, action)
        },
        OutputWindowEvent::Resized { width, height } => (
            shift_pressed,
            OutputWindowAction::ResizeEngine { width: *width, height: *height },
        ),
        OutputWindowEvent::RedrawRequested => (shift_pressed, OutputWindowAction::Render),
        OutputWindowEvent::Other => (shift_pressed, OutputWindowAction::Nothing),
    }
}

/// What the shared state says of the video input.
#[derive(Debug, Clone)]
pub struct InputStatus {
    /// Type of the active input.
    pub input_type: InputType,
    /// Source name (webcam label, NDI source).
    pub source_name: String,
    /// Whether the input is active and receiving frames.
    pub is_active: bool,
    /// Resolution of the last frame.
    pub width: u32,
    pub height: u32,
}

/// The name under which webcam `device_index` is shown: `Webcam <index>`.
pub open spec fn webcam_source_name(device_index: usize) -> Seq<char> {
    seq!['W', 'e', 'b', 'c', 'a', 'm', ' '] + decimal(device_index as nat)
}

/// The source name shown when an NDI source disappears.
pub open spec fn signal_lost_name() -> Seq<char> {
    seq!['S', 'i', 'g', 'n', 'a', 'l', ' ', 'l', 'o', 's', 't']
}

impl InputStatus {
    /// No input: no source, inactive, no frame yet.
    pub fn new() -> (r: Self)
        ensures
            r.input_type == InputType::NoSource,
            r.source_name@ == Seq::<char>::empty(),
            !r.is_active,
            r.width == 0,
            r.height == 0,
    {
        InputStatus {
            input_type: InputType::NoSource,
            source_name: String::new(),
            is_active: false,
            width: 0,
            height: 0,
        }
    }

    /// Record the answer to an input command. `started` is whether the
    /// input manager started the requested source (read only for the start
    /// commands). A started webcam or NDI source becomes the active input
    /// under its name; a failed start changes nothing; stopping clears the
    /// name and the active flag but keeps the type. Returns whether a
    /// device discovery is now under way.
    pub fn apply_command(&mut self, command: &InputCommand, started: bool) -> (discovering: bool)
        ensures
            discovering == (*command == InputCommand::RefreshDevices),
            final(self).width == old(self).width,
            final(self).height == old(self).height,
            match *command {
                InputCommand::StartWebcam { device_index, .. } => if started {
                    &&& final(self).is_active
                    &&& final(self).input_type == InputType::Webcam
                    &&& final(self).source_name@ == webcam_source_name(device_index)
                } else {
                    &&& final(self).is_active == old(self).is_active
                    &&& final(self).input_type == old(self).input_type
                    &&& final(self).source_name@ == old(self).source_name@
                },
                InputCommand::StartNdi { source_name } => if started {
                    &&& final(self).is_active
                    &&& final(self).input_type == InputType::Ndi
                    &&& final(self).source_name@ == source_name@
                } else {
                    &&& final(self).is_active == old(self).is_active
                    &&& final(self).input_type == old(self).input_type
                    &&& final(self).source_name@ == old(self).source_name@
                },
                InputCommand::StopInput => {
                    &&& !final(self).is_active
                    &&& final(self).input_type == old(self).input_type
                    &&& final(self).source_name@ == Seq::<char>::empty()
                },
                _ => {
                    &&& final(self).is_active == old(self).is_active
                    &&& final(self).input_type == old(self).input_type
                    &&& final(self).source_name@ == old(self).source_name@
                },
            },
    {
        match command {
            InputCommand::StartWebcam { device_index, .. } => {
                if started {
                    let mut name = string_of("Webcam ");
                    proof {
                        reveal_strlit("Webcam ");
                    }
                    push_decimal(&mut name, *device_index as u64);
                    self.is_active = true;
                    self.input_type = InputType::Webcam;
                    self.source_name = name;
                }
                false
            },
            InputCommand::StartNdi { source_name } => {
                if started {
                    self.is_active = true;
                    self.input_type = InputType::Ndi;
                    self.source_name = source_name.clone();
                }
                false
            },
            InputCommand::StopInput => {
                self.is_active = false;
                self.source_name = String::new();
                false
            },
            InputCommand::RefreshDevices => true,
            InputCommand::Idle => false,
        }
    }

    /// The NDI source went away: the input is no longer active and its name
    /// reads `Signal lost`.
    pub fn source_lost(&mut self)
        ensures
            !final(self).is_active,
            final(self).source_name@ == signal_lost_name(),
            final(self).input_type == old(self).input_type,
            final(self).width == old(self).width,
            final(self).height == old(self).height,
    {
        self.is_active = false;
        self.source_name = string_of("Signal lost");
        proof {
            reveal_strlit("Signal lost");
        }
    }

    /// A frame of `width` x `height` was taken from the input.
    pub fn frame_arrived(&mut self, width: u32, height: u32)
        ensures
            final(self).width == width,
            final(self).height == height,
            final(self).is_active == old(self).is_active,
            final(self).input_type == old(self).input_type,
            final(self).source_name@ == old(self).source_name@,
    {
        self.width = width;
        self.height = height;
    }
}

/// Record the answer to an output command: NDI output is active once a
/// start succeeded, and inactive after a stop whatever came before.
pub fn apply_output_command(state: &mut NdiOutputState, command: OutputCommand, started: bool)
    ensures
        final(state).is_active == match command {
            OutputCommand::StartNdi => if started {
                true
            } else {
                old(state).is_active
            },
            OutputCommand::StopNdi => false,
            OutputCommand::Idle => old(state).is_active,
        },
        final(state).stream_name@ == old(state).stream_name@,
        final(state).include_alpha == old(state).include_alpha,
{
    match command {
        OutputCommand::StartNdi => {
            if started {
                state.is_active = true;
            }
        },
        OutputCommand::StopNdi => {
            state.is_active = false;
        },
        OutputCommand::Idle => {},
    }
}

} // verus!
