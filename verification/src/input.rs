//! Video inputs: commands, frame types and the input manager.
//!
//! The manager keeps which source is active, the newest frame and the
//! cached device lists; the capture backends and the discovery thread hand
//! it their results.
use vstd::prelude::*;
use crate::shared::state::InputType;

pub mod ndi;
pub mod spout_input;
pub mod syphon_input;
pub mod webcam;

verus! {

/// Commands for changing the active input source.
#[derive(Debug, Clone, PartialEq)]
pub enum InputCommand {
    Idle,
    StartWebcam { device_index: usize, width: u32, height: u32, fps: u32 },
    StartNdi { source_name: String },
    StartV4l2 { device_path: String },
    StopInput,
    RefreshDevices,
}

/// A Spout sender as listed to the GUI.
#[derive(Debug, Clone)]
pub struct SpoutSenderInfo {
    pub name: String,
}

/// A Syphon server as listed to the GUI.
#[derive(Debug, Clone)]
pub struct SyphonServerInfo {
    pub name: String,
    pub app_name: String,
    pub uuid: String,
}

/// A frame from any input source (BGRA pixels).
pub struct InputFrame {
    pub width: u32,
    pub height: u32,
    /// BGRA pixel data.
    pub data: Vec<u8>,
    pub timestamp: std::time::Instant,
}

/// A webcam frame (BGRA pixels).
pub struct WebcamFrame {
    pub width: u32,
    pub height: u32,
    /// BGRA pixel data.
    pub data: Vec<u8>,
    pub timestamp: std::time::Instant,
}

/// Camera names when no camera backend is built in: none.
pub fn list_cameras() -> (r: Vec<String>)
    ensures
        r@.len() == 0,
{
    Vec::new()
}

/// Errors when starting an input.
#[derive(Debug, Clone, Copy, PartialEq, Eq)]
pub enum InputError {
    /// Syphon inputs exist on macOS only.
    SyphonUnavailable,
    /// Spout inputs exist on Windows only.
    SpoutUnavailable,
}

/// The state of the input manager.
pub struct InputManagerModel {
    pub input_type: InputType,
    pub active: bool,
    pub has_new_frame: bool,
    pub resolution: (u32, u32),
    pub current_frame: Option<Seq<u8>>,
    pub webcam_devices: Option<Seq<String>>,
    pub ndi_sources: Option<Seq<String>>,
    pub is_discovering: bool,
}

/// A received frame: width, height and pixels.
pub type FrameModel = (u32, u32, Seq<u8>);

/// The state after `stop`: nothing changes when no input is active;
/// otherwise the input becomes inactive, with no type and no frame.
pub open spec fn model_stop(m: InputManagerModel) -> InputManagerModel {
    if !m.active {
        m
    } else {
        InputManagerModel {
            input_type: InputType::NoSource,
            active: false,
            has_new_frame: false,
            current_frame: None,
            ..m
        }
    }
}

/// The state after a source has started with the given type (and, for
/// webcams, the requested resolution).
pub open spec fn model_started(
    m: InputManagerModel,
    input_type: InputType,
    resolution: Option<(u32, u32)>,
) -> InputManagerModel {
    InputManagerModel {
        input_type,
        active: true,
        resolution: match resolution {
            Some(r) => r,
            None => m.resolution,
        },
        ..m
    }
}

/// The state after one frame was delivered to an active input.
pub open spec fn model_frame(m: InputManagerModel, f: FrameModel) -> InputManagerModel {
    InputManagerModel {
        resolution: (f.0, f.1),
        current_frame: Some(f.2),
        has_new_frame: true,
        ..m
    }
}

/// The state after an update: nothing changes while inactive; otherwise
/// the newest webcam frame, then the newest NDI frame, become current.
pub open spec fn model_update(
    m: InputManagerModel,
    webcam: Option<FrameModel>,
    ndi: Option<FrameModel>,
) -> InputManagerModel {
    if !m.active {
        m
    } else {
        let m1 = match webcam {
            Some(f) => model_frame(m, f),
            None => m,
        };
        match ndi {
            Some(f) => model_frame(m1, f),
            None => m1,
        }
    }
}

/// The state after taking the current frame: no frame is left and the
/// new-frame flag is clear.
pub open spec fn model_take(m: InputManagerModel) -> InputManagerModel {
    InputManagerModel { has_new_frame: false, current_frame: None, ..m }
}

/// The state after a refresh request: ignored while a discovery runs;
/// otherwise the device lists are forgotten and a discovery starts.
pub open spec fn model_begin_refresh(m: InputManagerModel) -> InputManagerModel {
    if m.is_discovering {
        m
    } else {
        InputManagerModel {
            webcam_devices: None,
            ndi_sources: None,
            is_discovering: true,
            ..m
        }
    }
}

/// The state after polling the discovery: when a discovery runs and its
/// results have arrived, they become the device lists and the discovery
/// ends; otherwise nothing changes.
pub open spec fn model_poll(
    m: InputManagerModel,
    result: Option<(Seq<String>, Seq<String>)>,
) -> InputManagerModel {
    match result {
        Some((webcam, ndi)) => if m.is_discovering {
            InputManagerModel {
                webcam_devices: Some(webcam),
                ndi_sources: Some(ndi),
                is_discovering: false,
                ..m
            }
        } else {
            m
        },
        None => m,
    }
}

/// Manages a single video input source.
pub struct InputManager {
    input_type: InputType,
    active: bool,
    has_new_frame: bool,
    resolution: (u32, u32),
    current_frame: Option<Vec<u8>>,
    webcam_devices: Option<Vec<String>>,
    ndi_sources: Option<Vec<String>>,
    is_discovering: bool,
}

impl View for InputManager {
    type V = InputManagerModel;

    closed spec fn view(&self) -> InputManagerModel {
        InputManagerModel {
            input_type: self.input_type,
            active: self.active,
            has_new_frame: self.has_new_frame,
            resolution: self.resolution,
            current_frame: match self.current_frame {
                Some(v) => Some(v@),
                None => None,
            },
            webcam_devices: match self.webcam_devices {
                Some(v) => Some(v@),
                None => None,
            },
            ndi_sources: match self.ndi_sources {
                Some(v) => Some(v@),
                None => None,
            },
            is_discovering: self.is_discovering,
        }
    }
}

/// The model of an optional frame.
pub open spec fn spec_frame_view(f: Option<InputFrame>) -> Option<FrameModel> {
    match f {
        Some(fr) => Some((fr.width, fr.height, fr.data@)),
        None => None,
    }
}

impl InputManager {
    /// No source, inactive, 1920x1080, no device lists, no discovery.
    pub fn new() -> (r: Self)
        ensures
            r@.input_type == InputType::NoSource,
            !r@.active,
            !r@.has_new_frame,
            r@.resolution == (1920u32, 1080u32),
            r@.current_frame is None,
            r@.webcam_devices is None,
            r@.ndi_sources is None,
            !r@.is_discovering,
    {
        InputManager {
            input_type: InputType::NoSource,
            active: false,
            has_new_frame: false,
            resolution: (1920, 1080),
            current_frame: None,
            webcam_devices: None,
            ndi_sources: None,
            is_discovering: false,
        }
    }

    /// Cached webcam names (empty until a discovery completes).
    pub fn webcam_devices(&self) -> (r: &[String])
        ensures
            r@ == (match self@.webcam_devices {
                Some(v) => v,
                None => Seq::empty(),
            }),
    {
        match &self.webcam_devices {
            Some(v) => v.as_slice(),
            None => &[],
        }
    }

    /// Cached NDI source names (empty until a discovery completes).
    pub fn ndi_sources(&self) -> (r: &[String])
        ensures
            r@ == (match self@.ndi_sources {
                Some(v) => v,
                None => Seq::empty(),
            }),
    {
        match &self.ndi_sources {
            Some(v) => v.as_slice(),
            None => &[],
        }
    }

    /// Syphon servers: none on this platform.
    pub fn syphon_servers(&self) -> (r: &[SyphonServerInfo])
        ensures
            r@.len() == 0,
    {
        &[]
    }

    /// Spout senders: none on this platform.
    pub fn spout_senders(&self) -> (r: &[SpoutSenderInfo])
        ensures
            r@.len() == 0,
    {
        &[]
    }

    /// Whether a background discovery is in progress.
    pub fn is_discovering(&self) -> (r: bool)
        ensures
            r == self@.is_discovering,
    {
        self.is_discovering
    }

    /// Request a device discovery. Returns whether a discovery must be
    /// started (false while one is already running); see
    /// [`model_begin_refresh`].
    pub fn begin_refresh_devices(&mut self) -> (started: bool)
        ensures
            started == !old(self)@.is_discovering,
            final(self)@ == model_begin_refresh(old(self)@),
    {
        if self.is_discovering {
            return false;
        }
        self.webcam_devices = None;
        self.ndi_sources = None;
        self.is_discovering = true;
        true
    }

    /// Deliver what the discovery produced, if anything (webcam names, NDI
    /// source names). Returns true exactly when a running discovery
    /// completes; see [`model_poll`].
    pub fn poll_discovery(&mut self, result: Option<(Vec<String>, Vec<String>)>) -> (done: bool)
        ensures
            done == (old(self)@.is_discovering && result is Some),
            final(self)@ == model_poll(
                old(self)@,
                match result {
                    Some(r) => Some((r.0@, r.1@)),
                    None => None,
                },
            ),
    {
        if !self.is_discovering {
            return false;
        }
        match result {
            Some((webcam, ndi)) => {
                self.webcam_devices = Some(webcam);
                self.ndi_sources = Some(ndi);
                self.is_discovering = false;
                true
            },
            None => false,
        }
    }

    /// Record that a webcam started at the requested resolution.
    pub fn webcam_started(&mut self, width: u32, height: u32)
        ensures
            final(self)@ == model_started(old(self)@, InputType::Webcam, Some((width, height))),
    {
        self.input_type = InputType::Webcam;
        self.resolution = (width, height);
        self.active = true;
    }

    /// Record that an NDI receiver started.
    pub fn ndi_started(&mut self)
        ensures
            final(self)@ == model_started(old(self)@, InputType::Ndi, None),
    {
        self.input_type = InputType::Ndi;
        self.active = true;
    }

    /// Syphon input: not available on this platform; nothing changes.
    pub fn start_syphon(&mut self, server_name: &str) -> (r: Result<(), InputError>)
        ensures
            r == Err::<(), InputError>(InputError::SyphonUnavailable),
            final(self)@ == old(self)@,
    {
        Err(InputError::SyphonUnavailable)
    }

    /// Spout input: not available on this platform; nothing changes.
    pub fn start_spout(&mut self, sender_name: &str) -> (r: Result<(), InputError>)
        ensures
            r == Err::<(), InputError>(InputError::SpoutUnavailable),
            final(self)@ == old(self)@,
    {
        Err(InputError::SpoutUnavailable)
    }

    /// Stop the current input. Returns whether one was active (its backend
    /// must then be shut down); see [`model_stop`].
    pub fn stop(&mut self) -> (was_active: bool)
        ensures
            was_active == old(self)@.active,
            final(self)@ == model_stop(old(self)@),
    {
        if !self.active {
            return false;
        }
        self.active = false;
        self.has_new_frame = false;
        self.current_frame = None;
        self.input_type = InputType::NoSource;
        true
    }

    fn accept(&mut self, frame: InputFrame)
        ensures
            final(self)@ == model_frame(old(self)@, (frame.width, frame.height, frame.data@)),
    {
        self.resolution = (frame.width, frame.height);
        self.current_frame = Some(frame.data);
        self.has_new_frame = true;
    }

    /// Take the newest frames of the webcam and of the NDI receiver (the
    /// NDI frame wins when both arrive); see [`model_update`].
    pub fn update(&mut self, webcam: Option<InputFrame>, ndi: Option<InputFrame>)
        ensures
            final(self)@ == model_update(old(self)@, spec_frame_view(webcam), spec_frame_view(ndi)),
    {
        if !self.active {
            return;
        }
        match webcam {
            Some(f) => self.accept(f),
            None => {},
        }
        match ndi {
            Some(f) => self.accept(f),
            None => {},
        }
    }

    /// Whether a new frame is available.
    pub fn has_frame(&self) -> (r: bool)
        ensures
            r == self@.has_new_frame,
    {
        self.has_new_frame
    }

    /// Take the current frame; see [`model_take`].
    pub fn take_frame(&mut self) -> (r: Option<Vec<u8>>)
        ensures
            match r {
                Some(v) => old(self)@.current_frame == Some(v@),
                None => old(self)@.current_frame is None,
            },
            final(self)@ == model_take(old(self)@),
    {
        self.has_new_frame = false;
        self.current_frame.take()
    }

    /// Current resolution.
    pub fn resolution(&self) -> (r: (u32, u32))
        ensures
            r == self@.resolution,
    {
        self.resolution
    }

    /// Current input type.
    pub fn input_type(&self) -> (r: InputType)
        ensures
            r == self@.input_type,
    {
        self.input_type
    }

    /// Whether an input is active.
    pub fn is_active(&self) -> (r: bool)
        ensures
            r == self@.active,
    {
        self.active
    }
}

/// A discovery completes at most once: after a poll has delivered results,
/// a further poll reports nothing and changes nothing, whatever it is
/// handed.
pub proof fn lemma_discovery_completes_once(
    m: InputManagerModel,
    first: (Seq<String>, Seq<String>),
    second: Option<(Seq<String>, Seq<String>)>,
)
    requires
        m.is_discovering,
    ensures
        !model_poll(m, Some(first)).is_discovering,
        model_poll(model_poll(m, Some(first)), second) == model_poll(m, Some(first)),
        model_poll(m, Some(first)).webcam_devices == Some(first.0),
        model_poll(m, Some(first)).ndi_sources == Some(first.1),
{
}

/// A refresh request while a discovery runs changes nothing; otherwise it
/// starts one and forgets the old device lists.
pub proof fn lemma_refresh_starts_discovery(m: InputManagerModel)
    ensures
        model_begin_refresh(m).is_discovering,
        !m.is_discovering ==> model_begin_refresh(m).webcam_devices is None
            && model_begin_refresh(m).ndi_sources is None,
        m.is_discovering ==> model_begin_refresh(m) == m,
{
}

/// A frame is taken once: after a take there is no frame and no new-frame
/// flag, and a second take finds nothing.
pub proof fn lemma_take_frame_once(m: InputManagerModel)
    ensures
        model_take(m).current_frame is None,
        !model_take(m).has_new_frame,
        model_take(model_take(m)) == model_take(m),
{
}

/// A frame delivered to an active input is what the next take returns,
/// and the new-frame flag is set until then; an inactive input ignores
/// frames.
pub proof fn lemma_update_then_take(m: InputManagerModel, f: FrameModel)
    ensures
        m.active ==> model_update(m, None, Some(f)).current_frame == Some(f.2),
        m.active ==> model_update(m, None, Some(f)).has_new_frame,
        m.active ==> model_update(m, None, Some(f)).resolution == (f.0, f.1),
        !m.active ==> model_update(m, Some(f), Some(f)) == m,
{
}

/// Stopping leaves no active input and no frame, and stopping again
/// changes nothing.
pub proof fn lemma_stop_clears(m: InputManagerModel)
    ensures
        !model_stop(m).active,
        m.active ==> model_stop(m).current_frame is None && !model_stop(m).has_new_frame
            && model_stop(m).input_type == InputType::NoSource,
        model_stop(model_stop(m)) == model_stop(m),
{
}

} // verus!
