//! The three controller policies and the per-frame rig driver.

use smooth_cameras::controllers::fps;
use smooth_cameras::controllers::orbit;
use smooth_cameras::controllers::unreal;
use smooth_cameras::{
    select_active, frame_tick, ActivePolicy, CameraError, CameraRig, InputSnapshot, LookTransform,
    ScrollUnit, Smoother, Vec2Fx, Vec3Fx, FX_ONE,
};

fn fx(v: f64) -> i64 {
    (v * 4294967296.0).round() as i64
}

fn v3(x: f64, y: f64, z: f64) -> Vec3Fx {
    Vec3Fx { x: fx(x), y: fx(y), z: fx(z) }
}

fn v2(x: f64, y: f64) -> Vec2Fx {
    Vec2Fx { x: fx(x), y: fx(y) }
}

fn up_y() -> Vec3Fx {
    Vec3Fx { x: 0, y: FX_ONE, z: 0 }
}

fn quiet_input() -> InputSnapshot {
    InputSnapshot::default()
}

/// Roughly 6e-5 at the Q31.32 scale.
const TOL: i64 = 1 << 18;

fn assert_close(a: i64, b: i64, tol: i64) {
    assert!((a - b).abs() <= tol, "expected {} to be within {} of {}", a, tol, b);
}

fn norm_f(v: Vec3Fx) -> f64 {
    let x = v.x as f64;
    let y = v.y as f64;
    let z = v.z as f64;
    (x * x + y * y + z * z).sqrt()
}

#[test]
fn test_disabled_fps_controller_drops_input() {
    let mut c = fps::FpsCameraController::default();
    c.set_enabled(false);
    let mut input = quiet_input();
    input.cursor_delta = v2(13.0, -7.0);
    input.key_w = true;
    input.key_space = true;
    let events = fps::default_input_map(&c, &input);
    assert!(events.is_empty());

    let mut t = LookTransform::new(v3(0.0, 0.0, 0.0), v3(0.0, 0.0, 5.0), up_y());
    let before = t;
    let evs = vec![fps::ControlEvent::Rotate(v2(1.0, 1.0))];
    assert!(fps::control_system(&c, &evs, &mut t, fx(0.016)).is_ok());
    assert_eq!(t, before);
}

#[test]
fn test_disabled_orbit_controller_drops_input() {
    let mut c = orbit::OrbitCameraController::default();
    c.disable();
    assert!(!c.is_enabled());
    let mut input = quiet_input();
    input.cursor_delta = v2(3.0, 4.0);
    input.key_control_left = true;
    input.mouse_right = true;
    input.wheel_delta = v2(0.0, 2.0);
    let events = orbit::default_input_map(&c, &input);
    assert!(events.is_empty());

    let mut t = LookTransform::new(v3(-2.0, 2.5, 5.0), v3(0.0, 0.5, 0.0), up_y());
    let scene = t.world_transform().unwrap();
    let before = t;
    let evs = vec![orbit::ControlEvent::Zoom(fx(2.0))];
    assert!(orbit::control_system(&c, &evs, &mut t, &scene, FX_ONE).is_ok());
    assert_eq!(t, before);
    c.enable();
    assert!(c.is_enabled());
}

#[test]
fn test_disabled_unreal_controller_drops_input() {
    let mut c = unreal::UnrealCameraController::default();
    c.disable();
    let kms_before = c.keyboard_mvmt_sensitivity();
    let mut input = quiet_input();
    input.cursor_delta = v2(5.0, 5.0);
    input.mouse_left = true;
    input.key_w = true;
    input.wheel_delta = v2(0.0, 3.0);
    let events = unreal::default_input_map(&mut c, &input);
    assert!(events.is_empty());
    // A disabled controller does not even modulate its keyboard speed.
    assert_eq!(c.keyboard_mvmt_sensitivity(), kms_before);

    let mut t = LookTransform::new(v3(0.0, 0.0, 0.0), v3(0.0, 0.0, 5.0), up_y());
    let before = t;
    let evs = vec![unreal::ControlEvent::Locomotion(v2(1.0, 1.0))];
    assert!(unreal::control_system(&c, &evs, &mut t, FX_ONE).is_ok());
    assert_eq!(t, before);
}

#[test]
fn test_fps_forward_key_scenario() {
    // Holding the forward key for one 0.016 s frame at translate
    // sensitivity 2.0 moves the eye 0.032 units along the forward axis.
    let c = fps::FpsCameraController::default();
    let mut input = quiet_input();
    input.key_w = true;
    let events = fps::default_input_map(&c, &input);
    assert_eq!(events.len(), 2);
    assert_eq!(events[0], fps::ControlEvent::Rotate(Vec2Fx { x: 0, y: 0 }));
    assert_eq!(events[1], fps::ControlEvent::TranslateEye(Vec3Fx { x: 0, y: 0, z: fx(2.0) }));

    let mut t = LookTransform::new(v3(0.0, 0.0, 0.0), v3(0.0, 0.0, 5.0), up_y());
    fps::control_system(&c, &events, &mut t, fx(0.016)).unwrap();
    assert_close(t.eye.z, fx(0.032), TOL);
    assert_close(t.eye.x, 0, TOL);
    assert_close(t.eye.y, 0, TOL);
    // The target is recomputed to keep the same look angles.
    let delta = Vec3Fx { x: t.target.x - t.eye.x, y: t.target.y - t.eye.y, z: t.target.z - t.eye.z };
    assert_close(delta.x, 0, 2 * TOL);
    assert_close(delta.y, 0, 2 * TOL);
    assert!(delta.z > 0);
}

#[test]
fn test_orbit_translate_target_scenario() {
    // One frame with dt = 1 and a pan event of 0.1 units shifts the
    // target along the scene-relative right axis by 0.1, and the eye is
    // recomputed to keep the radius and face the new target.
    let mut t = LookTransform::new(v3(-2.0, 2.5, 5.0), v3(0.0, 0.5, 0.0), up_y());
    let scene = t.world_transform().unwrap();
    let radius_before = t.radius();
    let target_before = t.target;
    let c = orbit::OrbitCameraController::default();
    let events = vec![orbit::ControlEvent::TranslateTarget(v2(0.1, 0.0))];
    orbit::control_system(&c, &events, &mut t, &scene, FX_ONE).unwrap();

    // The shift is 0.1 times the (unit) right axis, which is horizontal.
    let shift = Vec3Fx {
        x: t.target.x - target_before.x,
        y: t.target.y - target_before.y,
        z: t.target.z - target_before.z,
    };
    let shift_len = norm_f(shift);
    assert!((shift_len - fx(0.1) as f64).abs() <= TOL as f64);
    assert_close(shift.y, 0, TOL);
    // Along the negated scene X axis, componentwise.
    assert_close(shift.x, -((scene.x_axis.x as f64 * 0.1) as i64), TOL);
    assert_close(shift.z, -((scene.x_axis.z as f64 * 0.1) as i64), TOL);

    // Radius preserved and the eye faces the new target.
    assert_close(t.radius(), radius_before, 4 * TOL);
}

#[test]
fn test_orbit_zoom_clamps_radius() {
    let c = orbit::OrbitCameraController::default();
    let scene_src = LookTransform::new(v3(0.0, 0.0, 5.0), v3(0.0, 0.0, 0.0), up_y());
    let scene = scene_src.world_transform().unwrap();

    // A huge zoom-out scalar caps the radius at 1,000,000.
    let mut t = LookTransform::new(v3(0.0, 0.0, 5.0), v3(0.0, 0.0, 0.0), up_y());
    let events = vec![orbit::ControlEvent::Zoom(fx(1e9))];
    orbit::control_system(&c, &events, &mut t, &scene, FX_ONE).unwrap();
    let r = t.radius();
    assert!((r - orbit::MAX_RADIUS).abs() as f64 <= orbit::MAX_RADIUS as f64 * 1e-4);

    // A tiny zoom-in scalar floors it at 0.001.
    let mut t = LookTransform::new(v3(0.0, 0.0, 5.0), v3(0.0, 0.0, 0.0), up_y());
    let events = vec![orbit::ControlEvent::Zoom(4)];
    orbit::control_system(&c, &events, &mut t, &scene, FX_ONE).unwrap();
    let r = t.radius();
    assert!((r - orbit::MIN_RADIUS).abs() <= 4096, "radius {} not near {}", r, orbit::MIN_RADIUS);
}

#[test]
fn test_orbit_input_map_events() {
    let c = orbit::OrbitCameraController::default();
    let mut input = quiet_input();
    input.cursor_delta = v2(1.0, 2.0);
    input.key_control_left = true;
    input.mouse_right = true;
    input.wheel_delta = v2(0.0, 1.0);
    let events = orbit::default_input_map(&c, &input);
    assert_eq!(events.len(), 3);
    // The cursor delta (1, 2) scales each sensitivity axis exactly.
    let rs = c.mouse_rotate_sensitivity();
    let ts = c.mouse_translate_sensitivity();
    assert_eq!(events[0], orbit::ControlEvent::Orbit(Vec2Fx { x: rs.x, y: rs.y * 2 }));
    assert_eq!(events[1], orbit::ControlEvent::TranslateTarget(Vec2Fx { x: ts.x, y: ts.y * 2 }));
    // One line of scroll at zoom sensitivity 0.2 gives the scalar 0.8.
    match events[2] {
        orbit::ControlEvent::Zoom(s) => assert_close(s, fx(0.8), 2),
        _ => panic!("expected a zoom event"),
    }

    // Pixel units are normalized by the pixels-per-line constant.
    input.wheel_unit = ScrollUnit::Pixel;
    input.wheel_delta = v2(0.0, 53.0);
    let events = orbit::default_input_map(&c, &input);
    match events[2] {
        orbit::ControlEvent::Zoom(s) => assert_close(s, fx(0.8), 8),
        _ => panic!("expected a zoom event"),
    }
}

#[test]
fn test_unreal_button_priority() {
    // Right button only: rotation.
    let mut c = unreal::UnrealCameraController::default();
    let mut input = quiet_input();
    input.cursor_delta = v2(1.0, 1.0);
    input.mouse_right = true;
    let events = unreal::default_input_map(&mut c, &input);
    assert_eq!(events.len(), 1);
    assert_eq!(events[0], unreal::ControlEvent::Rotate(v2(0.2, 0.2)));

    // Left and right together: panning.
    let mut c = unreal::UnrealCameraController::default();
    input.mouse_left = true;
    let events = unreal::default_input_map(&mut c, &input);
    assert_eq!(events.len(), 1);
    assert_eq!(events[0], unreal::ControlEvent::TranslateEye(v2(2.0, 2.0)));

    // Left only: the locomotion drag scheme.
    let mut c = unreal::UnrealCameraController::default();
    input.mouse_right = false;
    let events = unreal::default_input_map(&mut c, &input);
    assert_eq!(events.len(), 1);
    match events[0] {
        unreal::ControlEvent::Locomotion(l) => {
            assert_close(l.x, fx(0.2), 2);
            assert_close(l.y, -fx(2.0), 2);
        },
        _ => panic!("expected locomotion"),
    }

    // No buttons: the wheel locomotes along the view axis.
    let mut c = unreal::UnrealCameraController::default();
    input.mouse_left = false;
    input.wheel_delta = v2(0.0, 1.0);
    let events = unreal::default_input_map(&mut c, &input);
    assert_eq!(events.len(), 1);
    assert_eq!(events[0], unreal::ControlEvent::Locomotion(Vec2Fx { x: 0, y: fx(50.0) }));
}

#[test]
fn test_unreal_wheel_modulates_keyboard_speed() {
    let mut c = unreal::UnrealCameraController::default();
    let mut input = quiet_input();
    input.mouse_left = true;
    input.wheel_delta = v2(0.0, 1.0);
    unreal::default_input_map(&mut c, &input);
    // 10 + 5 * 1 = 15.
    assert_eq!(c.keyboard_mvmt_sensitivity(), fx(15.0));

    // Scrolling far down floors the speed at 0.01.
    input.wheel_delta = v2(0.0, -10.0);
    unreal::default_input_map(&mut c, &input);
    assert_eq!(c.keyboard_mvmt_sensitivity(), unreal::KEYBOARD_MVMT_FLOOR);
}

#[test]
fn test_unreal_keyboard_pan_while_button_held() {
    let mut c = unreal::UnrealCameraController::default();
    let mut input = quiet_input();
    input.mouse_right = true;
    input.key_d = true;
    input.key_e = true;
    input.key_w = true;
    let events = unreal::default_input_map(&mut c, &input);
    // Rotation (zero cursor delta), panning from D/E, locomotion from W.
    assert_eq!(events.len(), 3);
    assert_eq!(events[0], unreal::ControlEvent::Rotate(Vec2Fx { x: 0, y: 0 }));
    assert_eq!(events[1], unreal::ControlEvent::TranslateEye(v2(10.0, 10.0)));
    assert_eq!(events[2], unreal::ControlEvent::Locomotion(Vec2Fx { x: 0, y: fx(10.0) }));
}

#[test]
fn test_unreal_locomotion_moves_along_view() {
    // Locomotion translates along the raw eye-to-target vector, so with
    // the target five units ahead, one unit of locomotion moves five.
    let c = unreal::UnrealCameraController::default();
    let mut t = LookTransform::new(v3(0.0, 0.0, 0.0), v3(0.0, 0.0, 5.0), up_y());
    let events = vec![unreal::ControlEvent::Locomotion(v2(0.0, 1.0))];
    unreal::control_system(&c, &events, &mut t, FX_ONE).unwrap();
    assert_close(t.eye.z, fx(5.0), TOL);
    assert_close(t.eye.x, 0, TOL);
}

#[test]
fn test_degenerate_viewpoint_is_reported() {
    let c = fps::FpsCameraController::default();
    let mut t = LookTransform::new(v3(1.0, 1.0, 1.0), v3(1.0, 1.0, 1.0), up_y());
    let before = t;
    let r = fps::control_system(&c, &vec![], &mut t, FX_ONE);
    assert_eq!(r, Err(CameraError::DegenerateDirection));
    assert_eq!(t, before);
}

#[test]
fn test_config_out_of_range_is_rejected() {
    assert!(matches!(
        fps::FpsCameraController::new(true, Vec2Fx { x: -1, y: 0 }, 0, 0),
        Err(CameraError::ConfigOutOfRange)
    ));
    assert!(matches!(
        orbit::OrbitCameraController::new(true, v2(0.1, 0.1), v2(0.1, 0.1), 0, 0, 0),
        Err(CameraError::ConfigOutOfRange)
    ));
    assert!(matches!(
        unreal::UnrealCameraController::new(true, v2(0.1, 0.1), v2(0.1, 0.1), 1, 1, 1, FX_ONE),
        Err(CameraError::ConfigOutOfRange)
    ));
    assert!(fps::FpsCameraController::new(false, v2(0.2, 0.2), fx(2.0), fx(0.9)).is_ok());
}

#[test]
fn test_enabled_propagates_to_smoother() {
    let mut c = fps::FpsCameraController::default();
    c.set_enabled(false);
    let mut s = Smoother::new(fx(0.9)).unwrap();
    fps::on_controller_enabled_changed(&c, &mut s);
    assert!(!s.enabled());
    c.set_enabled(true);
    fps::on_controller_enabled_changed(&c, &mut s);
    assert!(s.enabled());
}

#[test]
fn test_rig_frame_tick_runs_the_pipeline() {
    let look = LookTransform::new(v3(-2.0, 2.5, 5.0), v3(0.0, 0.5, 0.0), up_y());
    let policy = ActivePolicy::Orbit(orbit::OrbitCameraController::default());
    let mut rig = CameraRig::new(look, policy).unwrap();

    // A quiet frame: the only event is a zoom with scalar one, so the
    // viewpoint barely moves and the world pose tracks it.
    let w = frame_tick(&mut rig, &quiet_input(), fx(0.016)).unwrap();
    assert_close(w.translation.x, rig.look_transform.eye.x, 2 * TOL);
    assert_close(w.translation.y, rig.look_transform.eye.y, 2 * TOL);
    assert_close(w.translation.z, rig.look_transform.eye.z, 2 * TOL);

    // Several more frames keep the radius stable.
    for _ in 0..5 {
        frame_tick(&mut rig, &quiet_input(), fx(0.016)).unwrap();
    }
    assert_close(rig.look_transform.radius(), look.radius(), 16 * TOL);
}

#[test]
fn test_rig_updates_unreal_policy_state() {
    let look = LookTransform::new(v3(0.0, 0.0, 0.0), v3(0.0, 0.0, 5.0), up_y());
    let policy = ActivePolicy::Unreal(unreal::UnrealCameraController::default());
    let mut rig = CameraRig::new(look, policy).unwrap();

    // Scrolling while a button is held modulates the keyboard movement
    // speed, and the change lives on inside the rig's policy.
    let mut input = quiet_input();
    input.mouse_right = true;
    input.wheel_delta = v2(0.0, 1.0);
    frame_tick(&mut rig, &input, fx(0.016)).unwrap();
    match rig.policy {
        ActivePolicy::Unreal(c) => assert_eq!(c.keyboard_mvmt_sensitivity(), fx(15.0)),
        _ => panic!("the policy variant never changes"),
    }
}

#[test]
fn test_rig_disabled_policy_disables_smoothing() {
    let look = LookTransform::new(v3(0.0, 0.0, 0.0), v3(0.0, 0.0, 5.0), up_y());
    let mut c = fps::FpsCameraController::default();
    c.set_enabled(false);
    let mut rig = CameraRig::new(look, ActivePolicy::Fps(c)).unwrap();

    // A disabled controller drops all input, and the raw viewpoint is
    // passed through unsmoothed.
    let mut input = quiet_input();
    input.cursor_delta = v2(100.0, 100.0);
    input.key_w = true;
    let w = frame_tick(&mut rig, &input, fx(0.016)).unwrap();
    assert_eq!(rig.look_transform, look);
    assert_eq!(w, look.world_transform().unwrap());
}

#[test]
fn test_rig_rejects_degenerate_start() {
    let look = LookTransform::new(v3(1.0, 1.0, 1.0), v3(1.0, 1.0, 1.0), up_y());
    let policy = ActivePolicy::Fps(fps::FpsCameraController::default());
    assert!(matches!(CameraRig::new(look, policy), Err(CameraError::DegenerateDirection)));
}

#[test]
fn test_select_active_picks_first_enabled() {
    assert_eq!(select_active(&vec![false, true, true]), Some(1));
    assert_eq!(select_active(&vec![true]), Some(0));
    assert_eq!(select_active(&vec![false, false]), None);
    assert_eq!(select_active(&vec![]), None);
}
