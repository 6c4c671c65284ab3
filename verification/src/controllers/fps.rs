//! The first-person controller: pointer motion rotates the view around
//! the eye, held keys translate the eye along the yaw-aligned axes.

use vstd::prelude::*;

use crate::errors::CameraError;
use crate::fx::add_v;
use crate::fx::fx_mul;
use crate::fx::fx_neg;
use crate::fx::mul_v;
use crate::fx::neg_v;
use crate::fx::sat64;
use crate::fx::FX_ONE;
use crate::input::InputSnapshot;
use crate::look_angles::looking_up_v;
use crate::look_angles::pitch_clamp_v;
use crate::look_angles::unit_vector_v;
use crate::look_angles::yaw_pitch_raw_v;
use crate::look_angles::yaw_wrap_v;
use crate::look_angles::LookAngles;
use crate::look_transform::look_dir_v;
use crate::look_transform::LookTransform;
use crate::look_transform::Smoother;
use crate::trig::cos_of;
use crate::trig::fx_cos;
use crate::trig::fx_sin;
use crate::trig::sin_of;
use crate::vec::v2_mul;
use crate::vec::v2_mul_v;
use crate::vec::v3_add;
use crate::vec::v3_add_v;
use crate::vec::v3_norm;
use crate::vec::v3_norm_v;
use crate::vec::v3_scale;
use crate::vec::v3_scale_v;
use crate::vec::v3_sub;
use crate::vec::v3_sub_v;
use crate::vec::Vec2Fx;
use crate::vec::Vec3Fx;

verus! {

/// Your typical first-person camera controller.
#[derive(Clone, Copy, Debug)]
pub struct FpsCameraController {
    enabled: bool,
    mouse_rotate_sensitivity: Vec2Fx,
    translate_sensitivity: i64,
    smoothing_weight: i64,
}

impl FpsCameraController {
    pub closed spec fn enabled_v(self) -> bool {
        self.enabled
    }

    pub closed spec fn rotate_sensitivity_v(self) -> Vec2Fx {
        self.mouse_rotate_sensitivity
    }

    pub closed spec fn translate_sensitivity_v(self) -> int {
        self.translate_sensitivity as int
    }

    pub closed spec fn smoothing_weight_v(self) -> int {
        self.smoothing_weight as int
    }

    /// Sensitivities are non-negative and the smoothing weight is a
    /// fraction in `[0, 1)`.
    pub open spec fn wf(self) -> bool {
        &&& self.rotate_sensitivity_v().x >= 0
        &&& self.rotate_sensitivity_v().y >= 0
        &&& self.translate_sensitivity_v() >= 0
        &&& 0 <= self.smoothing_weight_v() < FX_ONE
    }

    /// A controller with the given configuration; out-of-range values are
    /// rejected here, when the configuration is set.
    pub fn new(
        enabled: bool,
        mouse_rotate_sensitivity: Vec2Fx,
        translate_sensitivity: i64,
        smoothing_weight: i64,
    ) -> (r: Result<Self, CameraError>)
        ensures
            r is Ok <==> (mouse_rotate_sensitivity.x >= 0 && mouse_rotate_sensitivity.y >= 0
                && translate_sensitivity >= 0 && 0 <= smoothing_weight < FX_ONE),
            r matches Ok(c) ==> {
                &&& c.enabled_v() == enabled
                &&& c.rotate_sensitivity_v() == mouse_rotate_sensitivity
                &&& c.translate_sensitivity_v() == translate_sensitivity
                &&& c.smoothing_weight_v() == smoothing_weight
                &&& c.wf()
            },
            r matches Err(e) ==> e == CameraError::ConfigOutOfRange,
    {
        if mouse_rotate_sensitivity.x >= 0 && mouse_rotate_sensitivity.y >= 0
            && translate_sensitivity >= 0 && 0 <= smoothing_weight && smoothing_weight < FX_ONE {
            Ok(Self { enabled, mouse_rotate_sensitivity, translate_sensitivity, smoothing_weight })
        } else {
            Err(CameraError::ConfigOutOfRange)
        }
    }

    pub fn is_enabled(&self) -> (r: bool)
        ensures
            r == self.enabled_v(),
    {
        self.enabled
    }

    /// Turn the controller on or off; the paired smoother must be told
    /// through `on_controller_enabled_changed`.
    pub fn set_enabled(&mut self, enabled: bool)
        ensures
            final(self).enabled_v() == enabled,
            final(self).rotate_sensitivity_v() == old(self).rotate_sensitivity_v(),
            final(self).translate_sensitivity_v() == old(self).translate_sensitivity_v(),
            final(self).smoothing_weight_v() == old(self).smoothing_weight_v(),
    {
        self.enabled = enabled;
    }

    pub fn mouse_rotate_sensitivity(&self) -> (r: Vec2Fx)
        ensures
            r == self.rotate_sensitivity_v(),
    {
        self.mouse_rotate_sensitivity
    }

    pub fn translate_sensitivity(&self) -> (r: i64)
        ensures
            r == self.translate_sensitivity_v(),
    {
        self.translate_sensitivity
    }

    pub fn smoothing_weight(&self) -> (r: i64)
        ensures
            r == self.smoothing_weight_v(),
    {
        self.smoothing_weight
    }
}

impl Default for FpsCameraController {
    /// Enabled, rotate sensitivity 0.2 per axis, translate sensitivity
    /// 2.0, smoothing weight 0.9 (all at the Q31.32 scale).
    fn default() -> (r: Self)
        ensures
            r.enabled_v(),
            r.rotate_sensitivity_v() == (Vec2Fx { x: 858993459, y: 858993459 }),
            r.translate_sensitivity_v() == 8589934592,
            r.smoothing_weight_v() == 3865470566,
            r.wf(),
    {
        Self {
            enabled: true,
            mouse_rotate_sensitivity: Vec2Fx { x: 858993459, y: 858993459 },
            translate_sensitivity: 8589934592,
            smoothing_weight: 3865470566,
        }
    }
}

/// A frame-scoped instruction for the first-person policy.
#[derive(Clone, Copy, Debug, PartialEq, Eq, Structural)]
pub enum ControlEvent {
    Rotate(Vec2Fx),
    TranslateEye(Vec3Fx),
}

/// The events a frame's input maps to: one `Rotate` from the pointer, and
/// one `TranslateEye` per held movement key, in the fixed key order. A
/// disabled controller emits nothing.
pub open spec fn fps_input_events_v(c: FpsCameraController, input: InputSnapshot) -> Seq<
    ControlEvent,
> {
    if !c.enabled_v() {
        Seq::empty()
    } else {
        let ts = c.translate_sensitivity_v();
        let s = seq![ControlEvent::Rotate(v2_mul_v(c.rotate_sensitivity_v(), input.cursor_delta))];
        let s = if input.key_w {
            s.push(ControlEvent::TranslateEye(v3_scale_v(ts, Vec3Fx { x: 0, y: 0, z: FX_ONE })))
        } else {
            s
        };
        let s = if input.key_a {
            s.push(ControlEvent::TranslateEye(v3_scale_v(ts, Vec3Fx { x: FX_ONE, y: 0, z: 0 })))
        } else {
            s
        };
        let s = if input.key_s {
            s.push(ControlEvent::TranslateEye(v3_scale_v(ts, Vec3Fx { x: 0, y: 0, z: -0x1_0000_0000i64 })))
        } else {
            s
        };
        let s = if input.key_d {
            s.push(ControlEvent::TranslateEye(v3_scale_v(ts, Vec3Fx { x: -0x1_0000_0000i64, y: 0, z: 0 })))
        } else {
            s
        };
        let s = if input.key_shift_left {
            s.push(ControlEvent::TranslateEye(v3_scale_v(ts, Vec3Fx { x: 0, y: -0x1_0000_0000i64, z: 0 })))
        } else {
            s
        };
        let s = if input.key_space {
            s.push(ControlEvent::TranslateEye(v3_scale_v(ts, Vec3Fx { x: 0, y: FX_ONE, z: 0 })))
        } else {
            s
        };
        s
    }
}

/// Map a frame's input snapshot to control events. Pointer motion becomes
/// a `Rotate` scaled by the rotate sensitivity; each held movement key
/// becomes a `TranslateEye` along its axis scaled by the translate
/// sensitivity. A disabled controller drops the input.
pub fn default_input_map(controller: &FpsCameraController, input: &InputSnapshot) -> (events: Vec<
    ControlEvent,
>)
    ensures
        events@ == fps_input_events_v(*controller, *input),
{
    let mut events: Vec<ControlEvent> = Vec::new();
    if !controller.is_enabled() {
        return events;
    }
    events.push(
        ControlEvent::Rotate(v2_mul(controller.mouse_rotate_sensitivity(), input.cursor_delta)),
    );
    let ts = controller.translate_sensitivity();
    if input.key_w {
        events.push(ControlEvent::TranslateEye(v3_scale(ts, Vec3Fx { x: 0, y: 0, z: FX_ONE })));
    }
    if input.key_a {
        events.push(ControlEvent::TranslateEye(v3_scale(ts, Vec3Fx { x: FX_ONE, y: 0, z: 0 })));
    }
    if input.key_s {
        events.push(ControlEvent::TranslateEye(v3_scale(ts, Vec3Fx { x: 0, y: 0, z: -FX_ONE })));
    }
    if input.key_d {
        events.push(ControlEvent::TranslateEye(v3_scale(ts, Vec3Fx { x: -FX_ONE, y: 0, z: 0 })));
    }
    if input.key_shift_left {
        events.push(ControlEvent::TranslateEye(v3_scale(ts, Vec3Fx { x: 0, y: -FX_ONE, z: 0 })));
    }
    if input.key_space {
        events.push(ControlEvent::TranslateEye(v3_scale(ts, Vec3Fx { x: 0, y: FX_ONE, z: 0 })));
    }
    proof {
        assert(events@ =~= fps_input_events_v(*controller, *input));
    }
    events
}

/// The wrapped yaw and clamped pitch of a look direction.
pub open spec fn angles_of_dir_v(dir: Vec3Fx) -> (int, int) {
    (yaw_wrap_v(yaw_pitch_raw_v(dir).0), pitch_clamp_v(yaw_pitch_raw_v(dir).1))
}

/// The world-space X axis after rotating by `yaw` about Y.
pub open spec fn yaw_basis_x_v(yaw: int) -> Vec3Fx {
    Vec3Fx { x: sat64(cos_of(yaw)) as i64, y: 0, z: neg_v(sin_of(yaw)) as i64 }
}

/// The world-space Z axis after rotating by `yaw` about Y.
pub open spec fn yaw_basis_z_v(yaw: int) -> Vec3Fx {
    Vec3Fx { x: sat64(sin_of(yaw)) as i64, y: 0, z: sat64(cos_of(yaw)) as i64 }
}

/// One event applied to the in-frame state (angles, eye).
pub open spec fn fps_step_v(
    state: ((int, int), Vec3Fx),
    ev: ControlEvent,
    dt: int,
    rx: Vec3Fx,
    ry: Vec3Fx,
    rz: Vec3Fx,
) -> ((int, int), Vec3Fx) {
    match ev {
        ControlEvent::Rotate(d) => {
            let yaw = yaw_wrap_v(add_v(state.0.0, mul_v(dt, neg_v(d.x as int))));
            let pitch = pitch_clamp_v(add_v(state.0.1, mul_v(dt, neg_v(d.y as int))));
            ((yaw, pitch), state.1)
        },
        ControlEvent::TranslateEye(d) => {
            let delta_eye = v3_add_v(
                v3_add_v(
                    v3_scale_v(mul_v(dt, d.x as int), rx),
                    v3_scale_v(mul_v(dt, d.y as int), ry),
                ),
                v3_scale_v(mul_v(dt, d.z as int), rz),
            );
            (state.0, v3_add_v(state.1, delta_eye))
        },
    }
}

/// A frame's events applied in arrival order.
pub open spec fn fps_fold_v(
    events: Seq<ControlEvent>,
    dt: int,
    init: ((int, int), Vec3Fx),
    rx: Vec3Fx,
    ry: Vec3Fx,
    rz: Vec3Fx,
) -> ((int, int), Vec3Fx)
    decreases events.len(),
{
    if events.len() == 0 {
        init
    } else {
        fps_step_v(fps_fold_v(events.drop_last(), dt, init, rx, ry, rz), events.last(), dt, rx, ry, rz)
    }
}

/// What one frame of the first-person update does to a viewpoint: rotate
/// and translate per event, then recompute the target from the new eye,
/// the (post-move) radius and the new angles.
pub open spec fn fps_control_outcome_v(events: Seq<ControlEvent>, dt: int, t: LookTransform) -> Result<
    LookTransform,
    CameraError,
> {
    if t.eye == t.target {
        Err(CameraError::DegenerateDirection)
    } else {
        let dir = look_dir_v(t);
        if dir == (Vec3Fx { x: 0, y: 0, z: 0 }) {
            Err(CameraError::DegenerateDirection)
        } else {
            let a0 = angles_of_dir_v(dir);
            let rx = yaw_basis_x_v(a0.0);
            let ry = Vec3Fx { x: 0, y: FX_ONE, z: 0 };
            let rz = yaw_basis_z_v(a0.0);
            let st = fps_fold_v(events, dt, (a0, t.eye), rx, ry, rz);
            if looking_up_v(st.0.1) {
                Err(CameraError::InvariantViolation)
            } else {
                let radius = v3_norm_v(v3_sub_v(t.target, st.1));
                Ok(
                    LookTransform {
                        eye: st.1,
                        target: v3_add_v(st.1, v3_scale_v(radius, unit_vector_v(st.0.0, st.0.1))),
                        up: t.up,
                    },
                )
            }
        }
    }
}

/// Apply a frame's control events to the viewpoint. A disabled controller
/// performs no mutation; a degenerate viewpoint or a post-update direction
/// parallel to up is reported and leaves the viewpoint unchanged.
pub fn control_system(
    controller: &FpsCameraController,
    events: &Vec<ControlEvent>,
    transform: &mut LookTransform,
    dt: i64,
) -> (r: Result<(), CameraError>)
    ensures
        !controller.enabled_v() ==> r is Ok && *final(transform) == *old(transform),
        controller.enabled_v() ==> match fps_control_outcome_v(events@, dt as int, *old(transform)) {
            Ok(t2) => r is Ok && *final(transform) == t2,
            Err(e) => r == Result::<(), CameraError>::Err(e) && *final(transform) == *old(
                transform,
            ),
        },
{
    if !controller.is_enabled() {
        return Ok(());
    }
    let look_vector = match transform.look_direction() {
        Some(d) => d,
        None => {
            return Err(CameraError::DegenerateDirection);
        },
    };
    let mut look_angles = match LookAngles::from_vector(look_vector) {
        Ok(a) => a,
        Err(e) => {
            return Err(e);
        },
    };
    let yaw0 = look_angles.get_yaw();
    let sy = fx_sin(yaw0);
    let cy = fx_cos(yaw0);
    let rot_x = Vec3Fx { x: cy, y: 0, z: fx_neg(sy) };
    let rot_y = Vec3Fx { x: 0, y: FX_ONE, z: 0 };
    let rot_z = Vec3Fx { x: sy, y: 0, z: cy };
    let mut eye = transform.eye;
    let ghost t0 = *transform;
    let ghost init = ((look_angles.yaw_v(), look_angles.pitch_v()), eye);
    let mut i: usize = 0;
    while i < events.len()
        invariant
            i <= events.len(),
            look_angles.wf(),
            init == (angles_of_dir_v(look_dir_v(t0)), t0.eye),
            rot_x == yaw_basis_x_v(init.0.0),
            rot_y == (Vec3Fx { x: 0, y: FX_ONE, z: 0 }),
            rot_z == yaw_basis_z_v(init.0.0),
            ((look_angles.yaw_v(), look_angles.pitch_v()), eye) == fps_fold_v(
                events@.take(i as int),
                dt as int,
                init,
                rot_x,
                rot_y,
                rot_z,
            ),
        decreases events.len() - i,
    {
        let ev = events[i];
        match ev {
            ControlEvent::Rotate(delta) => {
                look_angles.add_yaw(fx_mul(dt, fx_neg(delta.x)));
                look_angles.add_pitch(fx_mul(dt, fx_neg(delta.y)));
            },
            ControlEvent::TranslateEye(delta) => {
                let shift = v3_add(
                    v3_add(
                        v3_scale(fx_mul(dt, delta.x), rot_x),
                        v3_scale(fx_mul(dt, delta.y), rot_y),
                    ),
                    v3_scale(fx_mul(dt, delta.z), rot_z),
                );
                eye = v3_add(eye, shift);
            },
        }
        proof {
            assert(events@.take(i + 1).drop_last() =~= events@.take(i as int));
        }
        i = i + 1;
    }
    proof {
        assert(events@.take(events@.len() as int) =~= events@);
    }
    match look_angles.assert_not_looking_up() {
        Ok(()) => {},
        Err(e) => {
            return Err(e);
        },
    }
    let radius = v3_norm(v3_sub(transform.target, eye));
    let unit = look_angles.unit_vector();
    let new_target = v3_add(eye, v3_scale(radius, unit));
    transform.eye = eye;
    transform.target = new_target;
    Ok(())
}

/// Propagate the controller's enabled flag to the paired smoother, so the
/// two never disagree; enabling resets the smoother's memory.
pub fn on_controller_enabled_changed(controller: &FpsCameraController, smoother: &mut Smoother)
    ensures
        final(smoother).enabled_v() == controller.enabled_v(),
        final(smoother).lag_weight_v() == old(smoother).lag_weight_v(),
        controller.enabled_v() ==> final(smoother).lerp_tfm_v() is None,
        !controller.enabled_v() ==> final(smoother).lerp_tfm_v() == old(smoother).lerp_tfm_v(),
{
    smoother.set_enabled(controller.is_enabled());
}

} // verus!
