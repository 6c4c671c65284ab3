//! Two points, with one orbiting the other: the pivot/orbit form of the
//! viewpoint, with its own exponential smoother.

use vstd::prelude::*;

use crate::errors::CameraError;
use crate::fx::FX_ONE;
use crate::look_transform::eye_look_at_target_transform;
use crate::look_transform::eye_world_err_v;
use crate::look_transform::eye_world_ok_v;
use crate::look_transform::eye_world_v;
use crate::look_transform::lerp_vec_v;
use crate::look_transform::WorldTransform;
use crate::vec::v3_add_v;
use crate::vec::v3_norm;
use crate::vec::v3_norm_v;
use crate::vec::v3_normalize_v;
use crate::vec::v3_scale;
use crate::vec::v3_scale_v;
use crate::vec::v3_add;
use crate::vec::v3_sub;
use crate::vec::v3_sub_v;
use crate::vec::v3_try_normalize;
use crate::vec::Vec3Fx;

verus! {

/// Two points, with one orbiting the other.
#[derive(Clone, Copy, Debug, PartialEq, Eq, Structural)]
pub struct OrbitTransform {
    pub pivot: Vec3Fx,
    pub orbit: Vec3Fx,
}

/// Which way an `OrbitTransform` looks.
#[derive(Clone, Copy, Debug, PartialEq, Eq, Structural)]
pub enum LookPolarity {
    /// The camera faces from the pivot to the orbit.
    PivotLookAtOrbit,
    /// The camera faces from the orbit to the pivot.
    OrbitLookAtPivot,
}

/// The distance between pivot and orbit.
pub open spec fn orbit_radius_v(t: OrbitTransform) -> int {
    v3_norm_v(v3_sub_v(t.pivot, t.orbit))
}

/// The eye and target points a polarity selects.
pub open spec fn polarity_points_v(t: OrbitTransform, polarity: LookPolarity) -> (Vec3Fx, Vec3Fx) {
    match polarity {
        LookPolarity::PivotLookAtOrbit => (t.pivot, t.orbit),
        LookPolarity::OrbitLookAtPivot => (t.orbit, t.pivot),
    }
}

impl OrbitTransform {
    pub fn radius(&self) -> (r: i64)
        ensures
            r == orbit_radius_v(*self),
            r >= 0,
            (r == 0) <==> self.pivot == self.orbit,
    {
        v3_norm(v3_sub(self.pivot, self.orbit))
    }

    /// The world pose of a camera at the pivot facing the orbit point.
    pub fn pivot_look_at_orbit_transform(&self) -> (r: Result<WorldTransform, CameraError>)
        ensures
            r is Ok <==> eye_world_ok_v(self.pivot, self.orbit, up_y_v()),
            r matches Ok(w) ==> w == eye_world_v(self.pivot, self.orbit, up_y_v()),
            r matches Err(e) ==> e == eye_world_err_v(self.pivot, self.orbit, up_y_v()),
    {
        p1_look_at_p2_transform(self.pivot, self.orbit)
    }

    /// The world pose of a camera at the orbit point facing the pivot.
    pub fn orbit_look_at_pivot_transform(&self) -> (r: Result<WorldTransform, CameraError>)
        ensures
            r is Ok <==> eye_world_ok_v(self.orbit, self.pivot, up_y_v()),
            r matches Ok(w) ==> w == eye_world_v(self.orbit, self.pivot, up_y_v()),
            r matches Err(e) ==> e == eye_world_err_v(self.orbit, self.pivot, up_y_v()),
    {
        p1_look_at_p2_transform(self.orbit, self.pivot)
    }

    /// The world pose for the given polarity.
    pub fn look_at(&self, polarity: LookPolarity) -> (r: Result<WorldTransform, CameraError>)
        ensures
            ({
                let (p1, p2) = polarity_points_v(*self, polarity);
                &&& (r is Ok <==> eye_world_ok_v(p1, p2, up_y_v()))
                &&& (r matches Ok(w) ==> w == eye_world_v(p1, p2, up_y_v()))
                &&& (r matches Err(e) ==> e == eye_world_err_v(p1, p2, up_y_v()))
            }),
    {
        match polarity {
            LookPolarity::OrbitLookAtPivot => self.orbit_look_at_pivot_transform(),
            LookPolarity::PivotLookAtOrbit => self.pivot_look_at_orbit_transform(),
        }
    }

    /// The unit direction from the orbit point toward the pivot, or `None`
    /// when the two coincide.
    pub fn orbit_to_pivot_direction(&self) -> (r: Option<Vec3Fx>)
        ensures
            r matches Some(d) ==> d == v3_normalize_v(v3_sub_v(self.pivot, self.orbit)),
            r is None <==> self.pivot == self.orbit,
    {
        v3_try_normalize(v3_sub(self.pivot, self.orbit))
    }

    /// The unit direction from the pivot toward the orbit point, or `None`
    /// when the two coincide.
    pub fn pivot_to_orbit_direction(&self) -> (r: Option<Vec3Fx>)
        ensures
            r matches Some(d) ==> d == v3_normalize_v(v3_sub_v(self.orbit, self.pivot)),
            r is None <==> self.pivot == self.orbit,
    {
        v3_try_normalize(v3_sub(self.orbit, self.pivot))
    }

    /// Move the orbit point to lie in `direction` from the pivot, keeping
    /// the radius.
    pub fn set_orbit_in_direction(&mut self, direction: Vec3Fx)
        ensures
            final(self).pivot == old(self).pivot,
            final(self).orbit == v3_add_v(
                old(self).pivot,
                v3_scale_v(orbit_radius_v(*old(self)), direction),
            ),
    {
        let r = self.radius();
        self.orbit = v3_add(self.pivot, v3_scale(r, direction));
    }
}

/// The conventional up direction, at the specification level.
pub open spec fn up_y_v() -> Vec3Fx {
    Vec3Fx { x: 0, y: 0x1_0000_0000, z: 0 }
}

/// The world pose of a camera at `p1` facing `p2`, with Y up. As with
/// `eye_look_at_target_transform`, the look vector is kept a unit vector
/// so nearby points do not cause precision loss.
pub fn p1_look_at_p2_transform(p1: Vec3Fx, p2: Vec3Fx) -> (r: Result<WorldTransform, CameraError>)
    ensures
        r is Ok <==> eye_world_ok_v(p1, p2, up_y_v()),
        r matches Ok(w) ==> w == eye_world_v(p1, p2, up_y_v()),
        r matches Err(e) ==> e == eye_world_err_v(p1, p2, up_y_v()),
{
    eye_look_at_target_transform(p1, p2, Vec3Fx::unit_y())
}

/// One smoothing step on a pivot/orbit pair: both points interpolated
/// componentwise; a missing previous value is seeded with the new one.
pub open spec fn smooth_orbit_v(prev: Option<OrbitTransform>, new: OrbitTransform, w: int) -> OrbitTransform {
    let p = match prev {
        Some(p) => p,
        None => new,
    };
    OrbitTransform { pivot: lerp_vec_v(new.pivot, p.pivot, w), orbit: lerp_vec_v(new.orbit, p.orbit, w) }
}

/// Exponential smoothing over an `OrbitTransform`.
#[derive(Clone, Copy, Debug)]
pub struct Smoother {
    lag_weight: i64,
    lerp_tfm: Option<OrbitTransform>,
}

impl Smoother {
    /// The lag weight, at the specification level.
    pub closed spec fn lag_weight_v(self) -> int {
        self.lag_weight as int
    }

    /// The remembered previous smoothed value, at the specification level.
    pub closed spec fn lerp_tfm_v(self) -> Option<OrbitTransform> {
        self.lerp_tfm
    }

    /// The lag weight is a fraction in `[0, 1)`.
    pub open spec fn wf(self) -> bool {
        0 <= self.lag_weight_v() < FX_ONE
    }

    /// A smoother with the given lag weight; a weight outside `[0, 1)` is
    /// rejected when it is set, not when it is used.
    pub fn new(lag_weight: i64) -> (r: Result<Self, CameraError>)
        ensures
            r is Ok <==> 0 <= lag_weight < FX_ONE,
            r matches Ok(s) ==> {
                &&& s.lag_weight_v() == lag_weight
                &&& s.lerp_tfm_v() is None
                &&& s.wf()
            },
            r matches Err(e) ==> e == CameraError::ConfigOutOfRange,
    {
        if 0 <= lag_weight && lag_weight < FX_ONE {
            Ok(Self { lag_weight, lerp_tfm: None })
        } else {
            Err(CameraError::ConfigOutOfRange)
        }
    }

    /// Replace the lag weight; a weight outside `[0, 1)` is rejected and
    /// leaves the smoother unchanged.
    pub fn set_lag_weight(&mut self, lag_weight: i64) -> (r: Result<(), CameraError>)
        ensures
            r is Ok <==> 0 <= lag_weight < FX_ONE,
            r is Ok ==> final(self).lag_weight_v() == lag_weight && final(self).lerp_tfm_v() == old(
                self,
            ).lerp_tfm_v() && final(self).wf(),
            r matches Err(e) ==> e == CameraError::ConfigOutOfRange && *final(self) == *old(self),
    {
        if 0 <= lag_weight && lag_weight < FX_ONE {
            self.lag_weight = lag_weight;
            Ok(())
        } else {
            Err(CameraError::ConfigOutOfRange)
        }
    }

    /// Linear interpolation between the previous smoothed transform and
    /// the new transform; equivalent to an exponential smoothing filter.
    pub fn smooth_transform(&mut self, new_tfm: &OrbitTransform) -> (r: OrbitTransform)
        ensures
            r == smooth_orbit_v(old(self).lerp_tfm_v(), *new_tfm, old(self).lag_weight_v()),
            final(self).lerp_tfm_v() == Some(r),
            final(self).lag_weight_v() == old(self).lag_weight_v(),
            old(self).lerp_tfm_v() is None ==> r == *new_tfm,
    {
        let old_lerp_tfm = match self.lerp_tfm {
            Some(t) => t,
            None => *new_tfm,
        };
        let lerp_tfm = OrbitTransform {
            pivot: crate::look_transform::lerp_vec(
                new_tfm.pivot,
                old_lerp_tfm.pivot,
                self.lag_weight,
            ),
            orbit: crate::look_transform::lerp_vec(
                new_tfm.orbit,
                old_lerp_tfm.orbit,
                self.lag_weight,
            ),
        };
        proof {
            if self.lerp_tfm is None {
                crate::look_transform::lemma_lerp_seeded(new_tfm.pivot, self.lag_weight as int);
                crate::look_transform::lemma_lerp_seeded(new_tfm.orbit, self.lag_weight as int);
            }
        }
        self.lerp_tfm = Some(lerp_tfm);
        lerp_tfm
    }
}

/// Per-frame sync for one pivot/orbit camera: smooth the transform, then
/// derive the world pose for the given polarity.
pub fn orbit_transform_system(
    orbit_tfm: &OrbitTransform,
    polarity: LookPolarity,
    smoother: &mut Smoother,
) -> (r: Result<WorldTransform, CameraError>)
    requires
        old(smoother).wf(),
    ensures
        ({
            let smoothed = smooth_orbit_v(
                old(smoother).lerp_tfm_v(),
                *orbit_tfm,
                old(smoother).lag_weight_v(),
            );
            let (p1, p2) = polarity_points_v(smoothed, polarity);
            &&& final(smoother).lerp_tfm_v() == Some(smoothed)
            &&& final(smoother).lag_weight_v() == old(smoother).lag_weight_v()
            &&& (r is Ok <==> eye_world_ok_v(p1, p2, up_y_v()))
            &&& (r matches Ok(w) ==> w == eye_world_v(p1, p2, up_y_v()))
            &&& (r matches Err(e) ==> e == eye_world_err_v(p1, p2, up_y_v()))
        }),
{
    let effective_orbit_tfm = smoother.smooth_transform(orbit_tfm);
    effective_orbit_tfm.look_at(polarity)
}

} // verus!
