//! The orbit controller: a third-person camera that orbits around the
//! target, pans it, and zooms by scaling the orbit radius within fixed
//! bounds.

use vstd::prelude::*;

use crate::errors::CameraError;
use crate::fx::add_v;
use crate::fx::clamp_v;
use crate::fx::div_v;
use crate::fx::fx_clamp;
use crate::fx::fx_div;
use crate::fx::fx_mul;
use crate::fx::fx_neg;
use crate::fx::fx_sub;
use crate::fx::mul_v;
use crate::fx::neg_v;
use crate::fx::sub_v;
use crate::fx::FX_ONE;
use crate::input::InputSnapshot;
use crate::input::ScrollUnit;
use crate::look_angles::looking_up_v;
use crate::look_angles::pitch_clamp_v;
use crate::look_angles::unit_vector_v;
use crate::look_angles::yaw_wrap_v;
use crate::look_angles::LookAngles;
use crate::look_transform::look_dir_v;
use crate::look_transform::radius_v;
use crate::look_transform::LookTransform;
use crate::look_transform::Smoother;
use crate::look_transform::WorldTransform;
use crate::controllers::fps::angles_of_dir_v;
use crate::vec::v2_mul;
use crate::vec::v2_mul_v;
use crate::vec::v3_add;
use crate::vec::v3_add_v;
use crate::vec::v3_neg;
use crate::vec::v3_neg_v;
use crate::vec::v3_scale;
use crate::vec::v3_scale_v;
use crate::vec::Vec2Fx;
use crate::vec::Vec3Fx;

verus! {

/// The smallest radius a zoom may leave: 0.001 at the Q31.32 scale.
pub const MIN_RADIUS: i64 = 4294967;

/// The largest radius a zoom may leave: 1,000,000 at the Q31.32 scale.
pub const MAX_RADIUS: i64 = 4294967296000000;

/// A 3rd person camera that orbits around the target.
#[derive(Clone, Copy, Debug)]
pub struct OrbitCameraController {
    enabled: bool,
    mouse_rotate_sensitivity: Vec2Fx,
    mouse_translate_sensitivity: Vec2Fx,
    mouse_wheel_zoom_sensitivity: i64,
    pixels_per_line: i64,
    smoothing_weight: i64,
}

impl OrbitCameraController {
    pub closed spec fn enabled_v(self) -> bool {
        self.enabled
    }

    pub closed spec fn rotate_sensitivity_v(self) -> Vec2Fx {
        self.mouse_rotate_sensitivity
    }

    pub closed spec fn translate_sensitivity_v(self) -> Vec2Fx {
        self.mouse_translate_sensitivity
    }

    pub closed spec fn zoom_sensitivity_v(self) -> int {
        self.mouse_wheel_zoom_sensitivity as int
    }

    pub closed spec fn pixels_per_line_v(self) -> int {
        self.pixels_per_line as int
    }

    pub closed spec fn smoothing_weight_v(self) -> int {
        self.smoothing_weight as int
    }

    /// Sensitivities are non-negative, the pixels-per-line constant is
    /// positive, and the smoothing weight is a fraction in `[0, 1)`.
    pub open spec fn wf(self) -> bool {
        &&& self.rotate_sensitivity_v().x >= 0
        &&& self.rotate_sensitivity_v().y >= 0
        &&& self.translate_sensitivity_v().x >= 0
        &&& self.translate_sensitivity_v().y >= 0
        &&& self.zoom_sensitivity_v() >= 0
        &&& self.pixels_per_line_v() > 0
        &&& 0 <= self.smoothing_weight_v() < FX_ONE
    }

    /// A controller with the given configuration; out-of-range values are
    /// rejected here, when the configuration is set.
    pub fn new(
        enabled: bool,
        mouse_rotate_sensitivity: Vec2Fx,
        mouse_translate_sensitivity: Vec2Fx,
        mouse_wheel_zoom_sensitivity: i64,
        pixels_per_line: i64,
        smoothing_weight: i64,
    ) -> (r: Result<Self, CameraError>)
        ensures
            r is Ok <==> (mouse_rotate_sensitivity.x >= 0 && mouse_rotate_sensitivity.y >= 0
                && mouse_translate_sensitivity.x >= 0 && mouse_translate_sensitivity.y >= 0
                && mouse_wheel_zoom_sensitivity >= 0 && pixels_per_line > 0 && 0
                <= smoothing_weight < FX_ONE),
            r matches Ok(c) ==> {
                &&& c.enabled_v() == enabled
                &&& c.rotate_sensitivity_v() == mouse_rotate_sensitivity
                &&& c.translate_sensitivity_v() == mouse_translate_sensitivity
                &&& c.zoom_sensitivity_v() == mouse_wheel_zoom_sensitivity
                &&& c.pixels_per_line_v() == pixels_per_line
                &&& c.smoothing_weight_v() == smoothing_weight
                &&& c.wf()
            },
            r matches Err(e) ==> e == CameraError::ConfigOutOfRange,
    {
        if mouse_rotate_sensitivity.x >= 0 && mouse_rotate_sensitivity.y >= 0
            && mouse_translate_sensitivity.x >= 0 && mouse_translate_sensitivity.y >= 0
            && mouse_wheel_zoom_sensitivity >= 0 && pixels_per_line > 0 && 0 <= smoothing_weight
            && smoothing_weight < FX_ONE {
            Ok(
                Self {
                    enabled,
                    mouse_rotate_sensitivity,
                    mouse_translate_sensitivity,
                    mouse_wheel_zoom_sensitivity,
                    pixels_per_line,
                    smoothing_weight,
                },
            )
        } else {
            Err(CameraError::ConfigOutOfRange)
        }
    }

    pub fn is_enabled(&self) -> (r: bool)
        ensures
            r == self.enabled_v(),
    {
        self.enabled
    }

    /// Turn the controller on or off; the paired smoother must be told
    /// through `on_controller_enabled_changed`.
    pub fn set_enabled(&mut self, enabled: bool)
        ensures
            final(self).enabled_v() == enabled,
            final(self).rotate_sensitivity_v() == old(self).rotate_sensitivity_v(),
            final(self).translate_sensitivity_v() == old(self).translate_sensitivity_v(),
            final(self).zoom_sensitivity_v() == old(self).zoom_sensitivity_v(),
            final(self).pixels_per_line_v() == old(self).pixels_per_line_v(),
            final(self).smoothing_weight_v() == old(self).smoothing_weight_v(),
    {
        self.enabled = enabled;
    }

    /// Stop processing input.
    pub fn disable(&mut self)
        ensures
            !final(self).enabled_v(),
            final(self).rotate_sensitivity_v() == old(self).rotate_sensitivity_v(),
            final(self).translate_sensitivity_v() == old(self).translate_sensitivity_v(),
            final(self).zoom_sensitivity_v() == old(self).zoom_sensitivity_v(),
            final(self).pixels_per_line_v() == old(self).pixels_per_line_v(),
            final(self).smoothing_weight_v() == old(self).smoothing_weight_v(),
    {
        self.set_enabled(false);
    }

    /// Resume processing input.
    pub fn enable(&mut self)
        ensures
            final(self).enabled_v(),
            final(self).rotate_sensitivity_v() == old(self).rotate_sensitivity_v(),
            final(self).translate_sensitivity_v() == old(self).translate_sensitivity_v(),
            final(self).zoom_sensitivity_v() == old(self).zoom_sensitivity_v(),
            final(self).pixels_per_line_v() == old(self).pixels_per_line_v(),
            final(self).smoothing_weight_v() == old(self).smoothing_weight_v(),
    {
        self.set_enabled(true);
    }

    pub fn mouse_rotate_sensitivity(&self) -> (r: Vec2Fx)
        ensures
            r == self.rotate_sensitivity_v(),
    {
        self.mouse_rotate_sensitivity
    }

    pub fn mouse_translate_sensitivity(&self) -> (r: Vec2Fx)
        ensures
            r == self.translate_sensitivity_v(),
    {
        self.mouse_translate_sensitivity
    }

    pub fn mouse_wheel_zoom_sensitivity(&self) -> (r: i64)
        ensures
            r == self.zoom_sensitivity_v(),
    {
        self.mouse_wheel_zoom_sensitivity
    }

    pub fn pixels_per_line(&self) -> (r: i64)
        ensures
            r == self.pixels_per_line_v(),
    {
        self.pixels_per_line
    }

    pub fn smoothing_weight(&self) -> (r: i64)
        ensures
            r == self.smoothing_weight_v(),
    {
        self.smoothing_weight
    }
}

impl Default for OrbitCameraController {
    /// Enabled, rotate sensitivity 0.08 per axis, translate sensitivity
    /// 0.1 per axis, wheel zoom sensitivity 0.2, 53 pixels per line,
    /// smoothing weight 0.8 (all at the Q31.32 scale).
    fn default() -> (r: Self)
        ensures
            r.enabled_v(),
            r.rotate_sensitivity_v() == (Vec2Fx { x: 343597384, y: 343597384 }),
            r.translate_sensitivity_v() == (Vec2Fx { x: 429496730, y: 429496730 }),
            r.zoom_sensitivity_v() == 858993459,
            r.pixels_per_line_v() == 227633266688,
            r.smoothing_weight_v() == 3435973837,
            r.wf(),
    {
        Self {
            enabled: true,
            mouse_rotate_sensitivity: Vec2Fx { x: 343597384, y: 343597384 },
            mouse_translate_sensitivity: Vec2Fx { x: 429496730, y: 429496730 },
            mouse_wheel_zoom_sensitivity: 858993459,
            pixels_per_line: 227633266688,
            smoothing_weight: 3435973837,
        }
    }
}

/// A frame-scoped instruction for the orbit policy.
#[derive(Clone, Copy, Debug, PartialEq, Eq, Structural)]
pub enum ControlEvent {
    Orbit(Vec2Fx),
    TranslateTarget(Vec2Fx),
    Zoom(i64),
}

/// The wheel motion in lines: pixel units are normalized by the
/// pixels-per-line constant.
pub open spec fn scroll_amount_v(c: OrbitCameraController, input: InputSnapshot) -> int {
    match input.wheel_unit {
        ScrollUnit::Line => input.wheel_delta.y as int,
        ScrollUnit::Pixel => div_v(input.wheel_delta.y as int, c.pixels_per_line_v()),
    }
}

/// The events a frame's input maps to: `Orbit` while the modifier key is
/// held, `TranslateTarget` while the right button is held, and always one
/// `Zoom` with the multiplicative radius scalar
/// `1 - scroll * zoom_sensitivity`. A disabled controller emits nothing.
pub open spec fn orbit_input_events_v(c: OrbitCameraController, input: InputSnapshot) -> Seq<
    ControlEvent,
> {
    if !c.enabled_v() {
        Seq::empty()
    } else {
        let s = Seq::<ControlEvent>::empty();
        let s = if input.key_control_left {
            s.push(ControlEvent::Orbit(v2_mul_v(c.rotate_sensitivity_v(), input.cursor_delta)))
        } else {
            s
        };
        let s = if input.mouse_right {
            s.push(
                ControlEvent::TranslateTarget(
                    v2_mul_v(c.translate_sensitivity_v(), input.cursor_delta),
                ),
            )
        } else {
            s
        };
        s.push(
            ControlEvent::Zoom(
                sub_v(
                    FX_ONE as int,
                    mul_v(scroll_amount_v(c, input), c.zoom_sensitivity_v()),
                ) as i64,
            ),
        )
    }
}

/// Map a frame's input snapshot to control events. A disabled controller
/// drops the input.
pub fn default_input_map(controller: &OrbitCameraController, input: &InputSnapshot) -> (events: Vec<
    ControlEvent,
>)
    requires
        controller.wf(),
    ensures
        events@ == orbit_input_events_v(*controller, *input),
{
    let mut events: Vec<ControlEvent> = Vec::new();
    if !controller.is_enabled() {
        return events;
    }
    if input.key_control_left {
        events.push(
            ControlEvent::Orbit(v2_mul(controller.mouse_rotate_sensitivity(), input.cursor_delta)),
        );
    }
    if input.mouse_right {
        events.push(
            ControlEvent::TranslateTarget(
                v2_mul(controller.mouse_translate_sensitivity(), input.cursor_delta),
            ),
        );
    }
    let scroll_amount = match input.wheel_unit {
        ScrollUnit::Line => input.wheel_delta.y,
        ScrollUnit::Pixel => fx_div(input.wheel_delta.y, controller.pixels_per_line()),
    };
    let scalar = fx_sub(FX_ONE, fx_mul(scroll_amount, controller.mouse_wheel_zoom_sensitivity()));
    events.push(ControlEvent::Zoom(scalar));
    proof {
        assert(events@ =~= orbit_input_events_v(*controller, *input));
    }
    events
}

/// One event applied to the in-frame state (angles, target, radius
/// scalar).
pub open spec fn orbit_step_v(
    state: ((int, int), Vec3Fx, int),
    ev: ControlEvent,
    dt: int,
    right_dir: Vec3Fx,
    up_dir: Vec3Fx,
) -> ((int, int), Vec3Fx, int) {
    match ev {
        ControlEvent::Orbit(d) => {
            let yaw = yaw_wrap_v(add_v(state.0.0, mul_v(dt, neg_v(d.x as int))));
            let pitch = pitch_clamp_v(add_v(state.0.1, mul_v(dt, d.y as int)));
            ((yaw, pitch), state.1, state.2)
        },
        ControlEvent::TranslateTarget(d) => {
            let shift = v3_add_v(
                v3_scale_v(mul_v(dt, d.x as int), right_dir),
                v3_scale_v(mul_v(dt, d.y as int), up_dir),
            );
            (state.0, v3_add_v(state.1, shift), state.2)
        },
        ControlEvent::Zoom(s) => (state.0, state.1, mul_v(state.2, s as int)),
    }
}

/// A frame's events applied in arrival order.
pub open spec fn orbit_fold_v(
    events: Seq<ControlEvent>,
    dt: int,
    init: ((int, int), Vec3Fx, int),
    right_dir: Vec3Fx,
    up_dir: Vec3Fx,
) -> ((int, int), Vec3Fx, int)
    decreases events.len(),
{
    if events.len() == 0 {
        init
    } else {
        orbit_step_v(
            orbit_fold_v(events.drop_last(), dt, init, right_dir, up_dir),
            events.last(),
            dt,
            right_dir,
            up_dir,
        )
    }
}

/// What one frame of the orbit update does to a viewpoint: orbit the eye
/// around the target (angles taken from the negated look direction), pan
/// the target along the scene's right/up axes, scale the radius and clamp
/// it into `[MIN_RADIUS, MAX_RADIUS]`, then reposition the eye.
pub open spec fn orbit_control_outcome_v(
    events: Seq<ControlEvent>,
    dt: int,
    t: LookTransform,
    scene: WorldTransform,
) -> Result<LookTransform, CameraError> {
    if t.eye == t.target {
        Err(CameraError::DegenerateDirection)
    } else {
        let ndir = v3_neg_v(look_dir_v(t));
        if ndir == (Vec3Fx { x: 0, y: 0, z: 0 }) {
            Err(CameraError::DegenerateDirection)
        } else {
            let a0 = angles_of_dir_v(ndir);
            let radius = radius_v(t);
            let right_dir = v3_neg_v(scene.x_axis);
            let up_dir = scene.y_axis;
            let st = orbit_fold_v(events, dt, (a0, t.target, FX_ONE as int), right_dir, up_dir);
            if looking_up_v(st.0.1) {
                Err(CameraError::InvariantViolation)
            } else {
                let new_radius = clamp_v(
                    mul_v(st.2, radius),
                    MIN_RADIUS as int,
                    MAX_RADIUS as int,
                );
                Ok(
                    LookTransform {
                        eye: v3_add_v(
                            st.1,
                            v3_scale_v(new_radius, unit_vector_v(st.0.0, st.0.1)),
                        ),
                        target: st.1,
                        up: t.up,
                    },
                )
            }
        }
    }
}

/// Apply a frame's control events to the viewpoint. The scene transform
/// supplies the right/up axes panning moves along (the smoothed pose the
/// host rendered last frame). A disabled controller performs no mutation.
pub fn control_system(
    controller: &OrbitCameraController,
    events: &Vec<ControlEvent>,
    transform: &mut LookTransform,
    scene_transform: &WorldTransform,
    dt: i64,
) -> (r: Result<(), CameraError>)
    ensures
        !controller.enabled_v() ==> r is Ok && *final(transform) == *old(transform),
        controller.enabled_v() ==> match orbit_control_outcome_v(
            events@,
            dt as int,
            *old(transform),
            *scene_transform,
        ) {
            Ok(t2) => r is Ok && *final(transform) == t2,
            Err(e) => r == Result::<(), CameraError>::Err(e) && *final(transform) == *old(
                transform,
            ),
        },
{
    if !controller.is_enabled() {
        return Ok(());
    }
    let look_vector = match transform.look_direction() {
        Some(d) => d,
        None => {
            return Err(CameraError::DegenerateDirection);
        },
    };
    let mut look_angles = match LookAngles::from_vector(v3_neg(look_vector)) {
        Ok(a) => a,
        Err(e) => {
            return Err(e);
        },
    };
    let radius = transform.radius();
    let right_dir = v3_neg(scene_transform.x_axis);
    let up_dir = scene_transform.y_axis;
    let mut target = transform.target;
    let mut radius_scalar: i64 = FX_ONE;
    let ghost t0 = *transform;
    let ghost init = ((look_angles.yaw_v(), look_angles.pitch_v()), target, radius_scalar as int);
    let mut i: usize = 0;
    while i < events.len()
        invariant
            i <= events.len(),
            look_angles.wf(),
            init == (angles_of_dir_v(v3_neg_v(look_dir_v(t0))), t0.target, FX_ONE as int),
            right_dir == v3_neg_v(scene_transform.x_axis),
            up_dir == scene_transform.y_axis,
            ((look_angles.yaw_v(), look_angles.pitch_v()), target, radius_scalar as int)
                == orbit_fold_v(events@.take(i as int), dt as int, init, right_dir, up_dir),
        decreases events.len() - i,
    {
        let ev = events[i];
        match ev {
            ControlEvent::Orbit(delta) => {
                look_angles.add_yaw(fx_mul(dt, fx_neg(delta.x)));
                look_angles.add_pitch(fx_mul(dt, delta.y));
            },
            ControlEvent::TranslateTarget(delta) => {
                let shift = v3_add(
                    v3_scale(fx_mul(dt, delta.x), right_dir),
                    v3_scale(fx_mul(dt, delta.y), up_dir),
                );
                target = v3_add(target, shift);
            },
            ControlEvent::Zoom(scalar) => {
                radius_scalar = fx_mul(radius_scalar, scalar);
            },
        }
        proof {
            assert(events@.take(i + 1).drop_last() =~= events@.take(i as int));
        }
        i = i + 1;
    }
    proof {
        assert(events@.take(events@.len() as int) =~= events@);
    }
    match look_angles.assert_not_looking_up() {
        Ok(()) => {},
        Err(e) => {
            return Err(e);
        },
    }
    let new_radius = fx_clamp(fx_mul(radius_scalar, radius), MIN_RADIUS, MAX_RADIUS);
    let unit = look_angles.unit_vector();
    let new_eye = v3_add(target, v3_scale(new_radius, unit));
    transform.eye = new_eye;
    transform.target = target;
    Ok(())
}

/// Whatever the frame's zoom events multiply up to, the radius the update
/// leaves is always inside `[MIN_RADIUS, MAX_RADIUS]`.
pub proof fn lemma_radius_always_clamped(radius_scalar: int, radius: int)
    ensures
        MIN_RADIUS <= clamp_v(mul_v(radius_scalar, radius), MIN_RADIUS as int, MAX_RADIUS as int)
            <= MAX_RADIUS,
{
}

/// Propagate the controller's enabled flag to the paired smoother, so the
/// two never disagree; enabling resets the smoother's memory.
pub fn on_controller_enabled_changed(controller: &OrbitCameraController, smoother: &mut Smoother)
    ensures
        final(smoother).enabled_v() == controller.enabled_v(),
        final(smoother).lag_weight_v() == old(smoother).lag_weight_v(),
        controller.enabled_v() ==> final(smoother).lerp_tfm_v() is None,
        !controller.enabled_v() ==> final(smoother).lerp_tfm_v() == old(smoother).lerp_tfm_v(),
{
    smoother.set_enabled(controller.is_enabled());
}

} // verus!
