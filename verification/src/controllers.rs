//! The three built-in controller policies: first-person, orbit, and
//! Unreal-editor-style. Each maps a raw input snapshot to typed control
//! events and applies a frame's events to a viewpoint.

pub mod fps;
pub mod orbit;
pub mod unreal;
