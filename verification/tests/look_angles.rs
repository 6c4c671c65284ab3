//! Orientation math: the yaw/pitch decomposition and its inverse.

use smooth_cameras::{
    unit_vector_from_yaw_and_pitch, yaw_and_pitch_from_vector, CameraError, LookAngles, Vec3Fx,
    FX_ONE, FX_PI, FX_PI_2, FX_TAU,
};

/// A value at the Q31.32 scale.
fn fx(v: f64) -> i64 {
    (v * 4294967296.0).round() as i64
}

/// Roughly 6e-5 at the Q31.32 scale: the tolerance for results that go
/// through the CORDIC trigonometric routines.
const TOL: i64 = 1 << 18;

fn assert_close(a: i64, b: i64, tol: i64) {
    assert!((a - b).abs() <= tol, "expected {} to be within {} of {}", a, tol, b);
}

fn v3(x: f64, y: f64, z: f64) -> Vec3Fx {
    Vec3Fx { x: fx(x), y: fx(y), z: fx(z) }
}

#[test]
fn test_yaw_and_pitch_identity() {
    let v = v3(0.0, 0.0, 1.0);
    let (yaw, pitch) = yaw_and_pitch_from_vector(v).unwrap();

    assert_close(yaw, 0, TOL);
    assert_close(pitch, 0, TOL);
}

#[test]
fn test_yaw_only() {
    let (yaw, pitch) = yaw_and_pitch_from_vector(v3(1.0, 0.0, 0.0)).unwrap();
    assert_close(yaw, FX_PI_2, TOL);
    assert_close(pitch, 0, TOL);

    let (yaw, pitch) = yaw_and_pitch_from_vector(v3(-1.0, 0.0, 0.0)).unwrap();
    assert_close(yaw, -FX_PI_2, TOL);
    assert_close(pitch, 0, TOL);
}

#[test]
fn test_pitch_only() {
    let (yaw, pitch) = yaw_and_pitch_from_vector(v3(0.0, 1.0, 0.0)).unwrap();
    assert_close(yaw, 0, TOL);
    assert_close(pitch, FX_PI_2, TOL);

    let (yaw, pitch) = yaw_and_pitch_from_vector(v3(0.0, -1.0, 0.0)).unwrap();
    assert_close(yaw, 0, TOL);
    assert_close(pitch, -FX_PI_2, TOL);
}

#[test]
fn test_yaw_and_pitch() {
    let s = 0.5f64.sqrt();
    let (yaw, pitch) = yaw_and_pitch_from_vector(v3(s, 1.0, s)).unwrap();
    assert_close(yaw, FX_PI / 4, TOL);
    assert_close(pitch, FX_PI / 4, TOL);

    let (yaw, pitch) = yaw_and_pitch_from_vector(v3(-s, -1.0, s)).unwrap();
    assert_close(yaw, -(FX_PI / 4), TOL);
    assert_close(pitch, -(FX_PI / 4), TOL);
}

#[test]
fn test_yaw_in_rear_quadrants() {
    // Directions with a negative forward (Z) component give yaws beyond
    // a quarter turn in magnitude.
    let (yaw, pitch) = yaw_and_pitch_from_vector(v3(1.0, 0.0, -1.0)).unwrap();
    assert_close(yaw, 3 * (FX_PI / 4), TOL);
    assert_close(pitch, 0, TOL);

    let (yaw, pitch) = yaw_and_pitch_from_vector(v3(-1.0, 0.0, -1.0)).unwrap();
    assert_close(yaw, -(3 * (FX_PI / 4)), TOL);
    assert_close(pitch, 0, TOL);

    let (yaw, _) = yaw_and_pitch_from_vector(v3(0.0, 0.0, -1.0)).unwrap();
    assert_close(yaw, FX_PI, TOL);
}

#[test]
fn test_zero_vector_is_degenerate() {
    assert_eq!(
        yaw_and_pitch_from_vector(Vec3Fx { x: 0, y: 0, z: 0 }),
        Err(CameraError::DegenerateDirection)
    );
    assert!(LookAngles::from_vector(Vec3Fx { x: 0, y: 0, z: 0 }).is_err());
}

#[test]
fn test_round_trip_of_angles_and_vector() {
    // vectorFromAngles(anglesFromVector(v)) is close to v for unit
    // vectors well away from the up axis.
    let cases = [
        v3(0.0, 0.0, 1.0),
        v3(1.0, 0.0, 0.0),
        v3(0.6, 0.48, 0.64),
        v3(-0.36, 0.48, -0.8),
        v3(0.707, -0.5, 0.5),
        v3(-0.6, -0.64, -0.48),
    ];
    for v in cases {
        let (yaw, pitch) = yaw_and_pitch_from_vector(v).unwrap();
        let u = unit_vector_from_yaw_and_pitch(yaw, pitch);
        assert_close(u.x, v.x, 4 * TOL);
        assert_close(u.y, v.y, 4 * TOL);
        assert_close(u.z, v.z, 4 * TOL);
    }
}

#[test]
fn test_unit_vector_of_cardinal_angles() {
    // If the trigonometric routines handed their argument back unchanged,
    // these would be far off.
    let u = unit_vector_from_yaw_and_pitch(0, 0);
    assert_close(u.x, 0, TOL);
    assert_close(u.y, 0, TOL);
    assert_close(u.z, FX_ONE, TOL);

    let u = unit_vector_from_yaw_and_pitch(FX_PI_2, 0);
    assert_close(u.x, FX_ONE, TOL);
    assert_close(u.y, 0, TOL);
    assert_close(u.z, 0, TOL);

    let u = unit_vector_from_yaw_and_pitch(0, FX_PI / 6);
    assert_close(u.y, fx(0.5), TOL);
}

#[test]
fn test_pitch_clamp_over_any_sequence() {
    let limit = FX_PI_2 - fx(0.01);
    let mut a = LookAngles::default();
    a.add_pitch(fx(10.0));
    assert_eq!(a.get_pitch(), limit);
    a.add_pitch(fx(3.0));
    assert_eq!(a.get_pitch(), limit);
    a.add_pitch(-fx(100.0));
    assert_eq!(a.get_pitch(), -limit);
    a.add_pitch(fx(0.5));
    assert!(-limit <= a.get_pitch() && a.get_pitch() <= limit);

    // Even pinned at the clamp, the direction is not parallel to up.
    a.add_pitch(fx(50.0));
    let u = a.unit_vector();
    assert!(u.y.abs() < FX_ONE - 512);
    assert!(a.assert_not_looking_up().is_ok());
    a.add_pitch(-fx(50.0));
    let u = a.unit_vector();
    assert!(u.y.abs() < FX_ONE - 512);
    assert!(a.assert_not_looking_up().is_ok());
}

#[test]
fn test_yaw_wrap_full_turn() {
    let mut a = LookAngles::default();
    a.set_yaw(fx(1.0));
    let before = a.get_yaw();
    a.add_yaw(FX_TAU);
    assert_eq!(a.get_yaw(), before);
    assert_eq!((a.get_yaw() - before).rem_euclid(FX_TAU), 0);

    let mut b = LookAngles::default();
    b.add_yaw(FX_TAU);
    assert_eq!(b.get_yaw(), 0);
}

#[test]
fn test_set_yaw_wraps_into_one_turn() {
    let mut a = LookAngles::default();
    a.set_yaw(FX_TAU + fx(0.25));
    assert_eq!(a.get_yaw(), fx(0.25));
    a.set_yaw(-fx(0.25));
    assert_eq!(a.get_yaw(), FX_TAU - fx(0.25));
    assert!(0 <= a.get_yaw() && a.get_yaw() < FX_TAU);
}

#[test]
fn test_set_direction_updates_angles() {
    let mut a = LookAngles::default();
    a.set_direction(v3(1.0, 0.0, 0.0)).unwrap();
    assert_close(a.get_yaw(), FX_PI_2, TOL);
    assert_close(a.get_pitch(), 0, TOL);

    let before = a;
    assert_eq!(
        a.set_direction(Vec3Fx { x: 0, y: 0, z: 0 }),
        Err(CameraError::DegenerateDirection)
    );
    assert_eq!(a, before);
}
