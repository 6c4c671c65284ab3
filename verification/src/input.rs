//! The per-frame input snapshot the host hands to the controllers: pointer
//! motion accumulated over the frame, wheel motion with its reporting
//! unit, and the pressed state of the fixed set of buttons and keys the
//! built-in controllers read.

use vstd::prelude::*;

use crate::vec::Vec2Fx;

verus! {

/// Whether wheel motion is reported in lines or in pixels.
#[derive(Clone, Copy, Debug, PartialEq, Eq, Structural)]
pub enum ScrollUnit {
    Line,
    Pixel,
}

/// Everything the controllers read from the host each frame.
#[derive(Clone, Copy, Debug, PartialEq, Eq, Structural)]
pub struct InputSnapshot {
    /// Pointer motion, accumulated over the frame.
    pub cursor_delta: Vec2Fx,
    /// Wheel motion (horizontal, vertical), accumulated over the frame.
    pub wheel_delta: Vec2Fx,
    /// The unit `wheel_delta` is reported in.
    pub wheel_unit: ScrollUnit,
    pub mouse_left: bool,
    pub mouse_middle: bool,
    pub mouse_right: bool,
    pub key_w: bool,
    pub key_a: bool,
    pub key_s: bool,
    pub key_d: bool,
    pub key_q: bool,
    pub key_e: bool,
    pub key_space: bool,
    pub key_shift_left: bool,
    pub key_control_left: bool,
}

impl Default for InputSnapshot {
    /// A quiet frame: no motion, nothing pressed, wheel in line units.
    fn default() -> (r: Self)
        ensures
            r == InputSnapshot::quiet(),
    {
        InputSnapshot {
            cursor_delta: Vec2Fx { x: 0, y: 0 },
            wheel_delta: Vec2Fx { x: 0, y: 0 },
            wheel_unit: ScrollUnit::Line,
            mouse_left: false,
            mouse_middle: false,
            mouse_right: false,
            key_w: false,
            key_a: false,
            key_s: false,
            key_d: false,
            key_q: false,
            key_e: false,
            key_space: false,
            key_shift_left: false,
            key_control_left: false,
        }
    }
}

impl InputSnapshot {
    /// The quiet frame, at the specification level.
    pub open spec fn quiet() -> InputSnapshot {
        InputSnapshot {
            cursor_delta: Vec2Fx { x: 0, y: 0 },
            wheel_delta: Vec2Fx { x: 0, y: 0 },
            wheel_unit: ScrollUnit::Line,
            mouse_left: false,
            mouse_middle: false,
            mouse_right: false,
            key_w: false,
            key_a: false,
            key_s: false,
            key_d: false,
            key_q: false,
            key_e: false,
            key_space: false,
            key_shift_left: false,
            key_control_left: false,
        }
    }
}

} // verus!
