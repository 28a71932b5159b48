//! Source and tab enumerations, output states and GUI commands.
use vstd::prelude::*;

verus! {

/// Type of video input source.
#[derive(Debug, Clone, Copy, PartialEq, Eq)]
pub enum InputType {
    NoSource,
    Webcam,
    Ndi,
}

impl Default for InputType {
    fn default() -> (r: Self)
        ensures
            r == InputType::NoSource,
    {
        InputType::NoSource
    }
}

impl InputType {
    /// Display name for the UI.
    pub fn name(&self) -> (r: &'static str)
        ensures
            *self == InputType::NoSource ==> r@ == "None"@,
            *self == InputType::Webcam ==> r@ == "Webcam"@,
            *self == InputType::Ndi ==> r@ == "NDI"@,
    {
        match self {
            InputType::NoSource => "None",
            InputType::Webcam => "Webcam",
            InputType::Ndi => "NDI",
        }
    }
}

/// NDI output state.
#[derive(Debug, Clone, Default)]
pub struct NdiOutputState {
    /// Output stream name.
    pub stream_name: String,
    /// Whether output is active.
    pub is_active: bool,
    /// Include alpha channel.
    pub include_alpha: bool,
}

/// Syphon output state.
#[derive(Debug, Clone, Default)]
pub struct SyphonOutputState {
    /// Server name displayed to clients.
    pub server_name: String,
    /// Whether output is enabled.
    pub enabled: bool,
}

/// Commands for input changes.
#[derive(Debug, Clone, PartialEq)]
pub enum InputCommand {
    Idle,
    StartWebcam { device_index: usize, width: u32, height: u32, fps: u32 },
    StartNdi { source_name: String },
    StopInput,
    RefreshDevices,
}

/// Commands for output control.
#[derive(Debug, Clone, Copy, PartialEq, Eq)]
pub enum OutputCommand {
    Idle,
    StartNdi,
    StopNdi,
}

/// Commands for audio control.
#[derive(Debug, Clone, PartialEq, Eq)]
pub enum AudioCommand {
    Idle,
    RefreshDevices,
    SelectDevice(String),
    Start,
    Stop,
}

/// GUI tab selection.
#[derive(Debug, Clone, Copy, PartialEq, Eq, Default)]
pub enum GuiTab {
    #[default]
    Input,
    Color,
    Audio,
    Output,
    Settings,
}

impl GuiTab {
    /// Display name for the UI.
    pub fn name(&self) -> (r: &'static str)
        ensures
            *self == GuiTab::Input ==> r@ == "Input"@,
            *self == GuiTab::Color ==> r@ == "Color"@,
            *self == GuiTab::Audio ==> r@ == "Audio"@,
            *self == GuiTab::Output ==> r@ == "Output"@,
            *self == GuiTab::Settings ==> r@ == "Settings"@,
    {
        match self {
            GuiTab::Input => "Input",
            GuiTab::Color => "Color",
            GuiTab::Audio => "Audio",
            GuiTab::Output => "Output",
            GuiTab::Settings => "Settings",
        }
    }
}

} // verus!
