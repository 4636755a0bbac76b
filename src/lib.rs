//! Verified core of a minimal GPU rendering shell: surface sizing, frame
//! planning, presentation-outcome policy and the window-event state machine.
//! The GPU and window handles themselves are driven by the caller, which
//! performs the commands that this library decides on.

mod controller;
mod format;
mod size;
mod state;

pub use controller::{App, AppModel, Command, Phase, WindowEvent};
pub use format::{choose_surface_format, pick_format};
pub use size::{to_physical, PhysicalSize, ScalePolicy};
pub use state::{DrawCall, InputEvent, KeyCode, State, SurfaceError, SurfaceModel};
