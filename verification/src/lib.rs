//! Smoothly interpolated camera-control state for an interactive 3D scene.
//!
//! The crate maintains an eye/target viewpoint per camera, turns raw
//! pointer, wheel and key input into typed control events through one of
//! three controller policies (first-person, orbit, Unreal-editor-style),
//! applies the events to the viewpoint, damps the result with an
//! exponential smoothing filter, and derives the world pose a host scene
//! graph consumes.
//!
//! All quantities are carried as signed 64-bit fixed-point numbers with
//! 32 fractional bits, so every operation in the control pipeline has an
//! exact integer-level specification; only the trigonometric routines are
//! delegated to an outside crate, behind named results.

pub mod controllers;
mod errors;
mod fx;
mod input;
mod look_angles;
mod look_transform;
pub mod orbit_transform;
mod rig;
mod trig;
mod vec;

pub use errors::CameraError;
pub use fx::FX_ONE;
pub use fx::FX_PI;
pub use fx::FX_PI_2;
pub use fx::FX_TAU;
pub use input::InputSnapshot;
pub use input::ScrollUnit;
pub use look_angles::unit_vector_from_yaw_and_pitch;
pub use look_angles::yaw_and_pitch_from_vector;
pub use look_angles::LookAngles;
pub use look_transform::eye_look_at_target_transform;
pub use look_transform::look_transform_system;
pub use look_transform::LookTransform;
pub use look_transform::Smoother;
pub use look_transform::WorldTransform;
pub use rig::frame_tick;
pub use rig::select_active;
pub use rig::ActivePolicy;
pub use rig::CameraRig;
pub use vec::Vec2Fx;
pub use vec::Vec3Fx;
