//! State shared between the GUI, the renderer and the input/output threads:
//! the source and tab enumerations, the output states and the commands the
//! GUI posts for the application loop.
pub mod channel;
pub mod clock;
pub mod state;
