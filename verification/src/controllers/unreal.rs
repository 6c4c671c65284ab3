//! The Unreal-editor-style controller: a hybrid of locomotion (move while
//! yawing), free rotation and panning, selected by which mouse buttons
//! are held; held keys add pan/locomotion deltas whose speed the wheel
//! modulates while any button is down.

use vstd::prelude::*;

use crate::errors::CameraError;
use crate::fx::add_v;
use crate::fx::fx_add;
use crate::fx::fx_mul;
use crate::fx::fx_neg;
use crate::fx::mul_v;
use crate::fx::neg_v;
use crate::fx::sub_v;
use crate::fx::FX_ONE;
use crate::input::InputSnapshot;
use crate::look_angles::looking_up_v;
use crate::look_angles::pitch_clamp_v;
use crate::look_angles::unit_vector_v;
use crate::look_angles::yaw_wrap_v;
use crate::look_angles::LookAngles;
use crate::look_transform::look_dir_v;
use crate::look_transform::LookTransform;
use crate::look_transform::Smoother;
use crate::controllers::fps::angles_of_dir_v;
use crate::controllers::fps::yaw_basis_x_v;
use crate::trig::fx_cos;
use crate::trig::fx_sin;
use crate::vec::v2_mul;
use crate::vec::v2_mul_v;
use crate::vec::v3_add;
use crate::vec::v3_add_v;
use crate::vec::v3_norm;
use crate::vec::v3_scale;
use crate::vec::v3_scale_v;
use crate::vec::v3_sub;
use crate::vec::v3_sub_v;
use crate::vec::Vec2Fx;
use crate::vec::Vec3Fx;

verus! {

/// The smallest value the wheel may modulate the keyboard movement
/// sensitivity down to: 0.01 at the Q31.32 scale.
pub const KEYBOARD_MVMT_FLOOR: i64 = 42949673;

/// A camera controlled with the mouse in the same way as Unreal Engine's
/// viewport controller.
#[derive(Clone, Copy, Debug)]
pub struct UnrealCameraController {
    enabled: bool,
    rotate_sensitivity: Vec2Fx,
    mouse_translate_sensitivity: Vec2Fx,
    wheel_translate_sensitivity: i64,
    keyboard_mvmt_sensitivity: i64,
    keyboard_mvmt_wheel_sensitivity: i64,
    smoothing_weight: i64,
}

impl UnrealCameraController {
    pub closed spec fn enabled_v(self) -> bool {
        self.enabled
    }

    pub closed spec fn rotate_sensitivity_v(self) -> Vec2Fx {
        self.rotate_sensitivity
    }

    pub closed spec fn translate_sensitivity_v(self) -> Vec2Fx {
        self.mouse_translate_sensitivity
    }

    pub closed spec fn wheel_translate_sensitivity_v(self) -> int {
        self.wheel_translate_sensitivity as int
    }

    pub closed spec fn keyboard_mvmt_sensitivity_v(self) -> int {
        self.keyboard_mvmt_sensitivity as int
    }

    pub closed spec fn keyboard_mvmt_wheel_sensitivity_v(self) -> int {
        self.keyboard_mvmt_wheel_sensitivity as int
    }

    pub closed spec fn smoothing_weight_v(self) -> int {
        self.smoothing_weight as int
    }

    /// Sensitivities are non-negative and the smoothing weight is a
    /// fraction in `[0, 1)`.
    pub open spec fn wf(self) -> bool {
        &&& self.rotate_sensitivity_v().x >= 0
        &&& self.rotate_sensitivity_v().y >= 0
        &&& self.translate_sensitivity_v().x >= 0
        &&& self.translate_sensitivity_v().y >= 0
        &&& self.wheel_translate_sensitivity_v() >= 0
        &&& self.keyboard_mvmt_sensitivity_v() >= 0
        &&& self.keyboard_mvmt_wheel_sensitivity_v() >= 0
        &&& 0 <= self.smoothing_weight_v() < FX_ONE
    }

    /// A controller with the given configuration; out-of-range values are
    /// rejected here, when the configuration is set.
    pub fn new(
        enabled: bool,
        rotate_sensitivity: Vec2Fx,
        mouse_translate_sensitivity: Vec2Fx,
        wheel_translate_sensitivity: i64,
        keyboard_mvmt_sensitivity: i64,
        keyboard_mvmt_wheel_sensitivity: i64,
        smoothing_weight: i64,
    ) -> (r: Result<Self, CameraError>)
        ensures
            r is Ok <==> (rotate_sensitivity.x >= 0 && rotate_sensitivity.y >= 0
                && mouse_translate_sensitivity.x >= 0 && mouse_translate_sensitivity.y >= 0
                && wheel_translate_sensitivity >= 0 && keyboard_mvmt_sensitivity >= 0
                && keyboard_mvmt_wheel_sensitivity >= 0 && 0 <= smoothing_weight < FX_ONE),
            r matches Ok(c) ==> {
                &&& c.enabled_v() == enabled
                &&& c.rotate_sensitivity_v() == rotate_sensitivity
                &&& c.translate_sensitivity_v() == mouse_translate_sensitivity
                &&& c.wheel_translate_sensitivity_v() == wheel_translate_sensitivity
                &&& c.keyboard_mvmt_sensitivity_v() == keyboard_mvmt_sensitivity
                &&& c.keyboard_mvmt_wheel_sensitivity_v() == keyboard_mvmt_wheel_sensitivity
                &&& c.smoothing_weight_v() == smoothing_weight
                &&& c.wf()
            },
            r matches Err(e) ==> e == CameraError::ConfigOutOfRange,
    {
        if rotate_sensitivity.x >= 0 && rotate_sensitivity.y >= 0 && mouse_translate_sensitivity.x
            >= 0 && mouse_translate_sensitivity.y >= 0 && wheel_translate_sensitivity >= 0
            && keyboard_mvmt_sensitivity >= 0 && keyboard_mvmt_wheel_sensitivity >= 0 && 0
            <= smoothing_weight && smoothing_weight < FX_ONE {
            Ok(
                Self {
                    enabled,
                    rotate_sensitivity,
                    mouse_translate_sensitivity,
                    wheel_translate_sensitivity,
                    keyboard_mvmt_sensitivity,
                    keyboard_mvmt_wheel_sensitivity,
                    smoothing_weight,
                },
            )
        } else {
            Err(CameraError::ConfigOutOfRange)
        }
    }

    pub fn is_enabled(&self) -> (r: bool)
        ensures
            r == self.enabled_v(),
    {
        self.enabled
    }

    /// Turn the controller on or off; the paired smoother must be told
    /// through `on_controller_enabled_changed`.
    pub fn set_enabled(&mut self, enabled: bool)
        ensures
            final(self).enabled_v() == enabled,
            final(self).rotate_sensitivity_v() == old(self).rotate_sensitivity_v(),
            final(self).translate_sensitivity_v() == old(self).translate_sensitivity_v(),
            final(self).wheel_translate_sensitivity_v() == old(
                self,
            ).wheel_translate_sensitivity_v(),
            final(self).keyboard_mvmt_sensitivity_v() == old(self).keyboard_mvmt_sensitivity_v(),
            final(self).keyboard_mvmt_wheel_sensitivity_v() == old(
                self,
            ).keyboard_mvmt_wheel_sensitivity_v(),
            final(self).smoothing_weight_v() == old(self).smoothing_weight_v(),
    {
        self.enabled = enabled;
    }

    /// Stop processing input.
    pub fn disable(&mut self)
        ensures
            !final(self).enabled_v(),
            final(self).rotate_sensitivity_v() == old(self).rotate_sensitivity_v(),
            final(self).translate_sensitivity_v() == old(self).translate_sensitivity_v(),
            final(self).wheel_translate_sensitivity_v() == old(
                self,
            ).wheel_translate_sensitivity_v(),
            final(self).keyboard_mvmt_sensitivity_v() == old(self).keyboard_mvmt_sensitivity_v(),
            final(self).keyboard_mvmt_wheel_sensitivity_v() == old(
                self,
            ).keyboard_mvmt_wheel_sensitivity_v(),
            final(self).smoothing_weight_v() == old(self).smoothing_weight_v(),
    {
        self.set_enabled(false);
    }

    /// Resume processing input.
    pub fn enable(&mut self)
        ensures
            final(self).enabled_v(),
            final(self).rotate_sensitivity_v() == old(self).rotate_sensitivity_v(),
            final(self).translate_sensitivity_v() == old(self).translate_sensitivity_v(),
            final(self).wheel_translate_sensitivity_v() == old(
                self,
            ).wheel_translate_sensitivity_v(),
            final(self).keyboard_mvmt_sensitivity_v() == old(self).keyboard_mvmt_sensitivity_v(),
            final(self).keyboard_mvmt_wheel_sensitivity_v() == old(
                self,
            ).keyboard_mvmt_wheel_sensitivity_v(),
            final(self).smoothing_weight_v() == old(self).smoothing_weight_v(),
    {
        self.set_enabled(true);
    }

    pub fn rotate_sensitivity(&self) -> (r: Vec2Fx)
        ensures
            r == self.rotate_sensitivity_v(),
    {
        self.rotate_sensitivity
    }

    pub fn mouse_translate_sensitivity(&self) -> (r: Vec2Fx)
        ensures
            r == self.translate_sensitivity_v(),
    {
        self.mouse_translate_sensitivity
    }

    pub fn wheel_translate_sensitivity(&self) -> (r: i64)
        ensures
            r == self.wheel_translate_sensitivity_v(),
    {
        self.wheel_translate_sensitivity
    }

    pub fn keyboard_mvmt_sensitivity(&self) -> (r: i64)
        ensures
            r == self.keyboard_mvmt_sensitivity_v(),
    {
        self.keyboard_mvmt_sensitivity
    }

    pub fn keyboard_mvmt_wheel_sensitivity(&self) -> (r: i64)
        ensures
            r == self.keyboard_mvmt_wheel_sensitivity_v(),
    {
        self.keyboard_mvmt_wheel_sensitivity
    }

    pub fn smoothing_weight(&self) -> (r: i64)
        ensures
            r == self.smoothing_weight_v(),
    {
        self.smoothing_weight
    }
}

impl Default for UnrealCameraController {
    /// Enabled, rotate sensitivity 0.2 per axis, mouse translate
    /// sensitivity 2.0 per axis, wheel translate sensitivity 50, keyboard
    /// movement sensitivity 10 with wheel modulation rate 5, smoothing
    /// weight 0.7 (all at the Q31.32 scale).
    fn default() -> (r: Self)
        ensures
            r.enabled_v(),
            r.rotate_sensitivity_v() == (Vec2Fx { x: 858993459, y: 858993459 }),
            r.translate_sensitivity_v() == (Vec2Fx { x: 8589934592, y: 8589934592 }),
            r.wheel_translate_sensitivity_v() == 214748364800,
            r.keyboard_mvmt_sensitivity_v() == 42949672960,
            r.keyboard_mvmt_wheel_sensitivity_v() == 21474836480,
            r.smoothing_weight_v() == 3006477107,
            r.wf(),
    {
        Self {
            enabled: true,
            rotate_sensitivity: Vec2Fx { x: 858993459, y: 858993459 },
            mouse_translate_sensitivity: Vec2Fx { x: 8589934592, y: 8589934592 },
            wheel_translate_sensitivity: 214748364800,
            keyboard_mvmt_sensitivity: 42949672960,
            keyboard_mvmt_wheel_sensitivity: 21474836480,
            smoothing_weight: 3006477107,
        }
    }
}

/// A frame-scoped instruction for the Unreal-style policy.
#[derive(Clone, Copy, Debug, PartialEq, Eq, Structural)]
pub enum ControlEvent {
    /// Yaw change plus translation along the frame's raw, non-normalized
    /// look vector.
    Locomotion(Vec2Fx),
    /// Yaw and pitch change only.
    Rotate(Vec2Fx),
    /// Pan along the view-relative right/up axes.
    TranslateEye(Vec2Fx),
}

/// The frame's wheel motion, both axes summed into one scalar.
pub open spec fn wheel_sum_v(input: InputSnapshot) -> int {
    add_v(input.wheel_delta.x as int, input.wheel_delta.y as int)
}

/// The pan direction the held keys ask for: D/A for right/left, E/Q for
/// up/down, one unit each.
pub open spec fn panning_dir_v(input: InputSnapshot) -> Vec2Fx {
    Vec2Fx {
        x: ((if input.key_d {
            FX_ONE as int
        } else {
            0
        }) - (if input.key_a {
            FX_ONE as int
        } else {
            0
        })) as i64,
        y: ((if input.key_e {
            FX_ONE as int
        } else {
            0
        }) - (if input.key_q {
            FX_ONE as int
        } else {
            0
        })) as i64,
    }
}

/// The forward/backward direction the held W/S keys ask for, one unit.
pub open spec fn translation_dir_y_v(input: InputSnapshot) -> int {
    (if input.key_w {
        FX_ONE as int
    } else {
        0
    }) - (if input.key_s {
        FX_ONE as int
    } else {
        0
    })
}

/// The frame's pan sum: keyboard panning while any button is held, plus
/// mouse panning while the middle button (or both left and right) is
/// held.
pub open spec fn unreal_panning_v(c: UnrealCameraController, input: InputSnapshot) -> Vec2Fx {
    let base = if input.mouse_left || input.mouse_middle || input.mouse_right {
        crate::vec::v2_scale_v(c.keyboard_mvmt_sensitivity_v(), panning_dir_v(input))
    } else {
        Vec2Fx { x: 0, y: 0 }
    };
    if input.mouse_middle || (input.mouse_left && input.mouse_right) {
        crate::vec::v2_add_v(base, v2_mul_v(c.translate_sensitivity_v(), input.cursor_delta))
    } else {
        base
    }
}

/// The frame's locomotion sum: keyboard forward/backward while any button
/// is held (else wheel locomotion), plus the "unreal" drag scheme while
/// only the left button is held.
pub open spec fn unreal_locomotion_v(c: UnrealCameraController, input: InputSnapshot) -> Vec2Fx {
    let y0 = if input.mouse_left || input.mouse_middle || input.mouse_right {
        mul_v(c.keyboard_mvmt_sensitivity_v(), translation_dir_y_v(input))
    } else if wheel_sum_v(input) != 0 {
        mul_v(c.wheel_translate_sensitivity_v(), wheel_sum_v(input))
    } else {
        0
    };
    if input.mouse_left && !input.mouse_middle && !input.mouse_right {
        Vec2Fx {
            x: mul_v(c.rotate_sensitivity_v().x as int, input.cursor_delta.x as int) as i64,
            y: sub_v(
                y0,
                mul_v(c.translate_sensitivity_v().y as int, input.cursor_delta.y as int),
            ) as i64,
        }
    } else {
        Vec2Fx { x: 0, y: sat_y0(y0) }
    }
}

/// The locomotion sum is already a saturated scalar; this just narrows
/// the type.
pub open spec fn sat_y0(y0: int) -> i64 {
    crate::fx::sat64(y0) as i64
}

/// The wheel-modulated keyboard movement sensitivity the frame leaves
/// behind: while any button is held, the wheel scales it, floored at
/// `KEYBOARD_MVMT_FLOOR`.
pub open spec fn unreal_kms_after_v(c: UnrealCameraController, input: InputSnapshot) -> int {
    if c.enabled_v() && (input.mouse_left || input.mouse_middle || input.mouse_right) {
        let k = add_v(
            c.keyboard_mvmt_sensitivity_v(),
            mul_v(c.keyboard_mvmt_wheel_sensitivity_v(), wheel_sum_v(input)),
        );
        if k < KEYBOARD_MVMT_FLOOR {
            KEYBOARD_MVMT_FLOOR as int
        } else {
            k
        }
    } else {
        c.keyboard_mvmt_sensitivity_v()
    }
}

/// The events a frame's input maps to: `Rotate` while only the right
/// button is held, then the pan sum and the locomotion sum when nonzero.
/// A disabled controller emits nothing.
pub open spec fn unreal_input_events_v(c: UnrealCameraController, input: InputSnapshot) -> Seq<
    ControlEvent,
> {
    if !c.enabled_v() {
        Seq::empty()
    } else {
        let s = Seq::<ControlEvent>::empty();
        let s = if !input.mouse_left && !input.mouse_middle && input.mouse_right {
            s.push(ControlEvent::Rotate(v2_mul_v(c.rotate_sensitivity_v(), input.cursor_delta)))
        } else {
            s
        };
        let p = unreal_panning_v(c, input);
        let s = if p.x != 0 || p.y != 0 {
            s.push(ControlEvent::TranslateEye(p))
        } else {
            s
        };
        let l = unreal_locomotion_v(c, input);
        if l.x != 0 || l.y != 0 {
            s.push(ControlEvent::Locomotion(l))
        } else {
            s
        }
    }
}

/// Map a frame's input snapshot to control events, and modulate the
/// keyboard movement sensitivity by the wheel while any button is held.
/// A disabled controller drops the input and changes nothing.
pub fn default_input_map(controller: &mut UnrealCameraController, input: &InputSnapshot) -> (events:
    Vec<ControlEvent>)
    ensures
        events@ == unreal_input_events_v(*old(controller), *input),
        final(controller).keyboard_mvmt_sensitivity_v() == unreal_kms_after_v(
            *old(controller),
            *input,
        ),
        final(controller).enabled_v() == old(controller).enabled_v(),
        final(controller).rotate_sensitivity_v() == old(controller).rotate_sensitivity_v(),
        final(controller).translate_sensitivity_v() == old(controller).translate_sensitivity_v(),
        final(controller).wheel_translate_sensitivity_v() == old(
            controller,
        ).wheel_translate_sensitivity_v(),
        final(controller).keyboard_mvmt_wheel_sensitivity_v() == old(
            controller,
        ).keyboard_mvmt_wheel_sensitivity_v(),
        final(controller).smoothing_weight_v() == old(controller).smoothing_weight_v(),
{
    let mut events: Vec<ControlEvent> = Vec::new();
    if !controller.is_enabled() {
        return events;
    }
    let left = input.mouse_left;
    let middle = input.mouse_middle;
    let right = input.mouse_right;
    let cursor = input.cursor_delta;
    let wheel_delta = fx_add(input.wheel_delta.x, input.wheel_delta.y);

    let panning_dir = Vec2Fx {
        x: (if input.key_d {
            FX_ONE
        } else {
            0
        }) - (if input.key_a {
            FX_ONE
        } else {
            0
        }),
        y: (if input.key_e {
            FX_ONE
        } else {
            0
        }) - (if input.key_q {
            FX_ONE
        } else {
            0
        }),
    };
    let translation_dir_y = (if input.key_w {
        FX_ONE
    } else {
        0
    }) - (if input.key_s {
        FX_ONE
    } else {
        0
    });

    let kms = controller.keyboard_mvmt_sensitivity();
    let mut panning = Vec2Fx { x: 0, y: 0 };
    let mut locomotion_y: i64 = 0;

    if left || middle || right {
        panning = crate::vec::v2_scale(kms, panning_dir);
        locomotion_y = fx_mul(kms, translation_dir_y);
        let modulated = fx_add(
            kms,
            fx_mul(controller.keyboard_mvmt_wheel_sensitivity(), wheel_delta),
        );
        let floored = if modulated < KEYBOARD_MVMT_FLOOR {
            KEYBOARD_MVMT_FLOOR
        } else {
            modulated
        };
        controller.set_keyboard_mvmt_sensitivity_raw(floored);
    } else if wheel_delta != 0 {
        locomotion_y = fx_mul(controller.wheel_translate_sensitivity(), wheel_delta);
    }

    if middle || (left && right) {
        panning = crate::vec::v2_add(
            panning,
            v2_mul(controller.mouse_translate_sensitivity(), cursor),
        );
    }

    let locomotion = if left && !middle && !right {
        Vec2Fx {
            x: fx_mul(controller.rotate_sensitivity().x, cursor.x),
            y: crate::fx::fx_sub(
                locomotion_y,
                fx_mul(controller.mouse_translate_sensitivity().y, cursor.y),
            ),
        }
    } else {
        Vec2Fx { x: 0, y: locomotion_y }
    };

    if !left && !middle && right {
        events.push(ControlEvent::Rotate(v2_mul(controller.rotate_sensitivity(), cursor)));
    }
    if panning.x != 0 || panning.y != 0 {
        events.push(ControlEvent::TranslateEye(panning));
    }
    if locomotion.x != 0 || locomotion.y != 0 {
        events.push(ControlEvent::Locomotion(locomotion));
    }
    proof {
        assert(events@ =~= unreal_input_events_v(*old(controller), *input));
    }
    events
}

impl UnrealCameraController {
    /// Store a wheel-modulated keyboard movement sensitivity (already
    /// floored by the caller).
    fn set_keyboard_mvmt_sensitivity_raw(&mut self, value: i64)
        ensures
            final(self).keyboard_mvmt_sensitivity_v() == value,
            final(self).enabled_v() == old(self).enabled_v(),
            final(self).rotate_sensitivity_v() == old(self).rotate_sensitivity_v(),
            final(self).translate_sensitivity_v() == old(self).translate_sensitivity_v(),
            final(self).wheel_translate_sensitivity_v() == old(
                self,
            ).wheel_translate_sensitivity_v(),
            final(self).keyboard_mvmt_wheel_sensitivity_v() == old(
                self,
            ).keyboard_mvmt_wheel_sensitivity_v(),
            final(self).smoothing_weight_v() == old(self).smoothing_weight_v(),
    {
        self.keyboard_mvmt_sensitivity = value;
    }
}

/// One event applied to the in-frame state (angles, eye). Locomotion
/// translates along `look_vector`, the raw (non-normalized) eye-to-target
/// vector captured at the start of the frame, so the speed scales with
/// the distance to the target.
pub open spec fn unreal_step_v(
    state: ((int, int), Vec3Fx),
    ev: ControlEvent,
    dt: int,
    look_vector: Vec3Fx,
    up: Vec3Fx,
) -> ((int, int), Vec3Fx) {
    match ev {
        ControlEvent::Locomotion(d) => {
            let yaw = yaw_wrap_v(add_v(state.0.0, mul_v(dt, neg_v(d.x as int))));
            ((yaw, state.0.1), v3_add_v(state.1, v3_scale_v(mul_v(dt, d.y as int), look_vector)))
        },
        ControlEvent::Rotate(d) => {
            let yaw = yaw_wrap_v(add_v(state.0.0, mul_v(dt, neg_v(d.x as int))));
            let pitch = pitch_clamp_v(add_v(state.0.1, mul_v(dt, neg_v(d.y as int))));
            ((yaw, pitch), state.1)
        },
        ControlEvent::TranslateEye(d) => {
            let rot_x = yaw_basis_x_v(state.0.0);
            let shift = v3_sub_v(
                v3_scale_v(mul_v(dt, d.x as int), rot_x),
                v3_scale_v(mul_v(dt, d.y as int), up),
            );
            (state.0, v3_sub_v(state.1, shift))
        },
    }
}

/// A frame's events applied in arrival order.
pub open spec fn unreal_fold_v(
    events: Seq<ControlEvent>,
    dt: int,
    init: ((int, int), Vec3Fx),
    look_vector: Vec3Fx,
    up: Vec3Fx,
) -> ((int, int), Vec3Fx)
    decreases events.len(),
{
    if events.len() == 0 {
        init
    } else {
        unreal_step_v(
            unreal_fold_v(events.drop_last(), dt, init, look_vector, up),
            events.last(),
            dt,
            look_vector,
            up,
        )
    }
}

/// What one frame of the Unreal-style update does to a viewpoint.
pub open spec fn unreal_control_outcome_v(events: Seq<ControlEvent>, dt: int, t: LookTransform) -> Result<
    LookTransform,
    CameraError,
> {
    if t.eye == t.target {
        Err(CameraError::DegenerateDirection)
    } else {
        let dir = look_dir_v(t);
        if dir == (Vec3Fx { x: 0, y: 0, z: 0 }) {
            Err(CameraError::DegenerateDirection)
        } else {
            let a0 = angles_of_dir_v(dir);
            let st = unreal_fold_v(events, dt, (a0, t.eye), v3_sub_v(t.target, t.eye), t.up);
            if looking_up_v(st.0.1) {
                Err(CameraError::InvariantViolation)
            } else {
                let radius = crate::vec::v3_norm_v(v3_sub_v(t.target, st.1));
                Ok(
                    LookTransform {
                        eye: st.1,
                        target: v3_add_v(st.1, v3_scale_v(radius, unit_vector_v(st.0.0, st.0.1))),
                        up: t.up,
                    },
                )
            }
        }
    }
}

/// Apply a frame's control events to the viewpoint. A disabled controller
/// performs no mutation; a degenerate viewpoint or a post-update direction
/// parallel to up is reported and leaves the viewpoint unchanged.
pub fn control_system(
    controller: &UnrealCameraController,
    events: &Vec<ControlEvent>,
    transform: &mut LookTransform,
    dt: i64,
) -> (r: Result<(), CameraError>)
    ensures
        !controller.enabled_v() ==> r is Ok && *final(transform) == *old(transform),
        controller.enabled_v() ==> match unreal_control_outcome_v(
            events@,
            dt as int,
            *old(transform),
        ) {
            Ok(t2) => r is Ok && *final(transform) == t2,
            Err(e) => r == Result::<(), CameraError>::Err(e) && *final(transform) == *old(
                transform,
            ),
        },
{
    if !controller.is_enabled() {
        return Ok(());
    }
    let look_direction = match transform.look_direction() {
        Some(d) => d,
        None => {
            return Err(CameraError::DegenerateDirection);
        },
    };
    let mut look_angles = match LookAngles::from_vector(look_direction) {
        Ok(a) => a,
        Err(e) => {
            return Err(e);
        },
    };
    // Locomotion moves along the raw eye-to-target vector, not the unit
    // direction, so its speed scales with the distance to the target.
    let look_vector = v3_sub(transform.target, transform.eye);
    let up = transform.up;
    let mut eye = transform.eye;
    let ghost t0 = *transform;
    let ghost init = ((look_angles.yaw_v(), look_angles.pitch_v()), eye);
    let mut i: usize = 0;
    while i < events.len()
        invariant
            i <= events.len(),
            look_angles.wf(),
            init == (angles_of_dir_v(look_dir_v(t0)), t0.eye),
            look_vector == v3_sub_v(t0.target, t0.eye),
            up == t0.up,
            ((look_angles.yaw_v(), look_angles.pitch_v()), eye) == unreal_fold_v(
                events@.take(i as int),
                dt as int,
                init,
                look_vector,
                up,
            ),
        decreases events.len() - i,
    {
        let ev = events[i];
        match ev {
            ControlEvent::Locomotion(delta) => {
                look_angles.add_yaw(fx_mul(dt, fx_neg(delta.x)));
                eye = v3_add(eye, v3_scale(fx_mul(dt, delta.y), look_vector));
            },
            ControlEvent::Rotate(delta) => {
                look_angles.add_yaw(fx_mul(dt, fx_neg(delta.x)));
                look_angles.add_pitch(fx_mul(dt, fx_neg(delta.y)));
            },
            ControlEvent::TranslateEye(delta) => {
                let yaw = look_angles.get_yaw();
                let sy = fx_sin(yaw);
                let cy = fx_cos(yaw);
                let rot_x = Vec3Fx { x: cy, y: 0, z: fx_neg(sy) };
                let shift = v3_sub(
                    v3_scale(fx_mul(dt, delta.x), rot_x),
                    v3_scale(fx_mul(dt, delta.y), up),
                );
                eye = v3_sub(eye, shift);
            },
        }
        proof {
            assert(events@.take(i + 1).drop_last() =~= events@.take(i as int));
        }
        i = i + 1;
    }
    proof {
        assert(events@.take(events@.len() as int) =~= events@);
    }
    match look_angles.assert_not_looking_up() {
        Ok(()) => {},
        Err(e) => {
            return Err(e);
        },
    }
    let radius = v3_norm(v3_sub(transform.target, eye));
    let unit = look_angles.unit_vector();
    let new_target = v3_add(eye, v3_scale(radius, unit));
    transform.eye = eye;
    transform.target = new_target;
    Ok(())
}

/// Propagate the controller's enabled flag to the paired smoother, so the
/// two never disagree; enabling resets the smoother's memory.
pub fn on_controller_enabled_changed(controller: &UnrealCameraController, smoother: &mut Smoother)
    ensures
        final(smoother).enabled_v() == controller.enabled_v(),
        final(smoother).lag_weight_v() == old(smoother).lag_weight_v(),
        controller.enabled_v() ==> final(smoother).lerp_tfm_v() is None,
        !controller.enabled_v() ==> final(smoother).lerp_tfm_v() == old(smoother).lerp_tfm_v(),
{
    smoother.set_enabled(controller.is_enabled());
}

} // verus!
