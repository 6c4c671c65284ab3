//! The error taxonomy of the camera core.

use vstd::prelude::*;

verus! {

/// Everything that can go wrong inside the camera core.
#[derive(Clone, Copy, Debug, PartialEq, Eq, Structural)]
pub enum CameraError {
    /// The look vector has zero length, so no direction can be derived.
    /// Recoverable: callers skip the update for the frame.
    DegenerateDirection,
    /// A computed look direction ended up parallel to `up` despite the
    /// pitch clamp; an upstream logic defect, surfaced as a recovered no-op.
    InvariantViolation,
    /// A configuration value is outside its allowed range (a lag weight
    /// outside `[0, 1)`, a negative sensitivity). Rejected when the
    /// configuration is set, never silently clamped.
    ConfigOutOfRange,
}

} // verus!
