//! The viewpoint types, the derived world pose, and the smoother.

use smooth_cameras::orbit_transform::{
    orbit_transform_system, p1_look_at_p2_transform, LookPolarity, OrbitTransform,
};
use smooth_cameras::{
    eye_look_at_target_transform, look_transform_system, CameraError, LookTransform, Smoother,
    Vec3Fx, FX_ONE,
};

fn fx(v: f64) -> i64 {
    (v * 4294967296.0).round() as i64
}

fn v3(x: f64, y: f64, z: f64) -> Vec3Fx {
    Vec3Fx { x: fx(x), y: fx(y), z: fx(z) }
}

fn up_y() -> Vec3Fx {
    Vec3Fx { x: 0, y: FX_ONE, z: 0 }
}

fn assert_v3_close(a: Vec3Fx, b: Vec3Fx, tol: i64) {
    assert!(
        (a.x - b.x).abs() <= tol && (a.y - b.y).abs() <= tol && (a.z - b.z).abs() <= tol,
        "{:?} not within {} of {:?}",
        a,
        tol,
        b
    );
}

#[test]
fn test_radius_is_exact_for_pythagorean_triples() {
    let t = LookTransform::new(v3(0.0, 0.0, 0.0), v3(3.0, 4.0, 0.0), up_y());
    assert_eq!(t.radius(), fx(5.0));

    let t = LookTransform::new(v3(1.0, 2.0, 2.0), v3(0.0, 0.0, 0.0), up_y());
    assert_eq!(t.radius(), fx(3.0));
}

#[test]
fn test_look_direction_of_axis_aligned_view() {
    let t = LookTransform::new(v3(0.0, 0.0, 0.0), v3(0.0, 0.0, 2.0), up_y());
    assert_eq!(t.look_direction(), Some(Vec3Fx { x: 0, y: 0, z: FX_ONE }));

    let degenerate = LookTransform::new(v3(1.0, 1.0, 1.0), v3(1.0, 1.0, 1.0), up_y());
    assert_eq!(degenerate.look_direction(), None);
    assert_eq!(degenerate.radius(), 0);
}

#[test]
fn test_world_transform_basis_looking_along_z() {
    let t = LookTransform::new(v3(0.0, 0.0, 0.0), v3(0.0, 0.0, 4.0), up_y());
    let w = t.world_transform().unwrap();
    assert_eq!(w.translation, Vec3Fx { x: 0, y: 0, z: 0 });
    // Back points away from the target, right completes the basis.
    assert_eq!(w.z_axis, Vec3Fx { x: 0, y: 0, z: -FX_ONE });
    assert_eq!(w.x_axis, Vec3Fx { x: -FX_ONE, y: 0, z: 0 });
    assert_eq!(w.y_axis, Vec3Fx { x: 0, y: FX_ONE, z: 0 });
}

#[test]
fn test_world_transform_errors() {
    let degenerate = LookTransform::new(v3(1.0, 0.0, 0.0), v3(1.0, 0.0, 0.0), up_y());
    assert_eq!(degenerate.world_transform(), Err(CameraError::DegenerateDirection));

    // Up parallel to the look direction leaves the right axis undefined.
    let parallel = eye_look_at_target_transform(
        v3(0.0, 0.0, 0.0),
        v3(0.0, 0.0, 1.0),
        v3(0.0, 0.0, 1.0),
    );
    assert_eq!(parallel, Err(CameraError::InvariantViolation));
}

#[test]
fn test_smoother_first_call_returns_raw_exactly() {
    let mut s = Smoother::new(fx(0.9)).unwrap();
    let raw = LookTransform::new(v3(-2.0, 2.5, 5.0), v3(0.0, 0.5, 0.0), up_y());
    let out = s.smooth_transform(&raw);
    assert_eq!(out, raw);
}

#[test]
fn test_smoother_converges_to_constant_input() {
    let mut s = Smoother::new(fx(0.5)).unwrap();
    let start = LookTransform::new(v3(100.0, -40.0, 7.0), v3(0.0, 12.0, -3.0), up_y());
    let raw = LookTransform::new(v3(1.0, 2.0, 3.0), v3(0.0, 0.0, 0.0), up_y());
    s.smooth_transform(&start);
    let mut last = start;
    let mut moved_gradually = false;
    for _ in 0..100 {
        let next = s.smooth_transform(&raw);
        if next != raw {
            moved_gradually = true;
        }
        last = next;
    }
    // The error shrinks every step, so after enough steps the output is
    // exactly the raw input; and it did not jump there in one step.
    assert_eq!(last, raw);
    assert!(moved_gradually);
}

#[test]
fn test_smoother_reset_on_reenable() {
    let mut s = Smoother::new(fx(0.9)).unwrap();
    let a = LookTransform::new(v3(10.0, 0.0, 0.0), v3(0.0, 0.0, 0.0), up_y());
    s.smooth_transform(&a);
    s.set_enabled(false);
    // The raw viewpoint changes arbitrarily while smoothing is off.
    let b = LookTransform::new(v3(-7.0, 3.0, 42.0), v3(1.0, 1.0, 1.0), up_y());
    s.set_enabled(true);
    // The first post-re-enable output equals the new raw viewpoint
    // exactly: no interpolation from the stale remembered value.
    let out = s.smooth_transform(&b);
    assert_eq!(out, b);
}

#[test]
fn test_smoother_rejects_bad_lag_weight() {
    assert!(matches!(Smoother::new(-1), Err(CameraError::ConfigOutOfRange)));
    assert!(matches!(Smoother::new(FX_ONE), Err(CameraError::ConfigOutOfRange)));
    let mut s = Smoother::new(0).unwrap();
    assert_eq!(s.set_lag_weight(FX_ONE), Err(CameraError::ConfigOutOfRange));
    assert_eq!(s.set_lag_weight(fx(0.25)), Ok(()));
}

#[test]
fn test_look_transform_system_passes_raw_through_when_disabled() {
    let raw = LookTransform::new(v3(0.0, 0.0, 0.0), v3(0.0, 0.0, 4.0), up_y());
    let mut s = Smoother::new(fx(0.5)).unwrap();
    // Seed the smoother, then disable it: the raw viewpoint must pass
    // through unsmoothed and the smoother memory must stay untouched.
    s.smooth_transform(&LookTransform::new(v3(9.0, 9.0, 9.0), v3(0.0, 0.0, 4.0), up_y()));
    s.set_enabled(false);
    let w = look_transform_system(&raw, &mut s).unwrap();
    assert_eq!(w, raw.world_transform().unwrap());
    s.set_enabled(true);
    let w = look_transform_system(&raw, &mut s).unwrap();
    assert_eq!(w.translation, Vec3Fx { x: 0, y: 0, z: 0 });
}

#[test]
fn test_orbit_transform_directions_and_radius() {
    let t = OrbitTransform { pivot: v3(0.0, 0.0, 0.0), orbit: v3(0.0, 0.0, 2.0) };
    assert_eq!(t.radius(), fx(2.0));
    assert_eq!(t.pivot_to_orbit_direction(), Some(Vec3Fx { x: 0, y: 0, z: FX_ONE }));
    assert_eq!(t.orbit_to_pivot_direction(), Some(Vec3Fx { x: 0, y: 0, z: -FX_ONE }));

    let collapsed = OrbitTransform { pivot: v3(1.0, 1.0, 1.0), orbit: v3(1.0, 1.0, 1.0) };
    assert_eq!(collapsed.pivot_to_orbit_direction(), None);
}

#[test]
fn test_orbit_set_orbit_in_direction_keeps_radius() {
    let mut t = OrbitTransform { pivot: v3(0.0, 0.0, 0.0), orbit: v3(0.0, 0.0, 2.0) };
    t.set_orbit_in_direction(Vec3Fx { x: FX_ONE, y: 0, z: 0 });
    assert_eq!(t.orbit, Vec3Fx { x: fx(2.0), y: 0, z: 0 });
    assert_eq!(t.radius(), fx(2.0));
}

#[test]
fn test_orbit_look_at_polarity() {
    let t = OrbitTransform { pivot: v3(0.0, 0.0, 0.0), orbit: v3(0.0, 0.0, 4.0) };
    let w1 = t.look_at(LookPolarity::PivotLookAtOrbit).unwrap();
    let w2 = t.look_at(LookPolarity::OrbitLookAtPivot).unwrap();
    assert_eq!(w1, t.pivot_look_at_orbit_transform().unwrap());
    assert_eq!(w2, t.orbit_look_at_pivot_transform().unwrap());
    assert_eq!(w1.translation, t.pivot);
    assert_eq!(w2.translation, t.orbit);
    assert_eq!(w1, p1_look_at_p2_transform(t.pivot, t.orbit).unwrap());
}

#[test]
fn test_orbit_smoother_and_system() {
    let mut s = smooth_cameras::orbit_transform::Smoother::new(fx(0.5)).unwrap();
    let t = OrbitTransform { pivot: v3(0.0, 0.0, 0.0), orbit: v3(0.0, 0.0, 4.0) };
    // First call seeds with the raw transform.
    assert_eq!(s.smooth_transform(&t), t);

    let mut s2 = smooth_cameras::orbit_transform::Smoother::new(fx(0.5)).unwrap();
    let w = orbit_transform_system(&t, LookPolarity::OrbitLookAtPivot, &mut s2).unwrap();
    assert_eq!(w.translation, t.orbit);
    assert!(matches!(
        smooth_cameras::orbit_transform::Smoother::new(-5),
        Err(CameraError::ConfigOutOfRange)
    ));
}

#[test]
fn test_smoothed_output_moves_between_old_and_new() {
    let mut s = Smoother::new(fx(0.5)).unwrap();
    let a = LookTransform::new(v3(0.0, 0.0, 0.0), v3(0.0, 0.0, 4.0), up_y());
    let b = LookTransform::new(v3(8.0, 0.0, 0.0), v3(0.0, 0.0, 4.0), up_y());
    s.smooth_transform(&a);
    let mid = s.smooth_transform(&b);
    // Half the lag weight keeps half the distance to the new value.
    assert_v3_close(mid.eye, v3(4.0, 0.0, 0.0), 2);
    assert_eq!(mid.target, b.target);
    assert_eq!(mid.up, b.up);
}
