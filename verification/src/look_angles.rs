//! A (yaw, pitch) pair representing a look direction.
//!
//! Yaw is kept wrapped into `[0, 2*pi)` and pitch clamped into
//! `[-pi/2 + eps, pi/2 - eps]`, so the stored direction can never become
//! parallel to the up axis (which would make yaw undefined).

use vstd::prelude::*;

use crate::errors::CameraError;
use crate::fx::abs_v;
use crate::fx::add_v;
use crate::fx::clamp_v;
use crate::fx::div_v;
use crate::fx::fx_abs;
use crate::fx::fx_add;
use crate::fx::fx_neg;
use crate::fx::fx_rem;
use crate::fx::fx_sub;
use crate::fx::fx_div;
use crate::fx::mul_v;
use crate::fx::neg_v;
use crate::fx::sat64;
use crate::fx::scale;
use crate::fx::sub_v;
use crate::fx::FX_ONE;
use crate::fx::FX_PI;
use crate::fx::FX_PI_2;
use crate::fx::FX_TAU;
use crate::trig::atan_of;
use crate::trig::cos_of;
use crate::trig::fx_atan;
use crate::trig::fx_cos;
use crate::trig::fx_sin;
use crate::trig::sin_of;
use crate::vec::v3_norm;
use crate::vec::v3_norm_v;
use crate::vec::Vec3Fx;

verus! {

/// How far pitch is kept away from straight up or down: 0.01 rad.
pub const PITCH_EPS: i64 = 42949673;

/// The largest magnitude pitch may take.
pub const PITCH_LIMIT: i64 = FX_PI_2 - PITCH_EPS;

/// Tolerance used when testing whether a direction is parallel to up:
/// 2^-23 at the Q31.32 scale.
pub const UNIT_TOL: i64 = 512;

/// Yaw reduced into `[0, 2*pi)`.
pub open spec fn yaw_wrap_v(y: int) -> int {
    y % (FX_TAU as int)
}

/// Pitch clamped into the allowed interval.
pub open spec fn pitch_clamp_v(p: int) -> int {
    clamp_v(p, -(PITCH_LIMIT as int), PITCH_LIMIT as int)
}

/// The quadrant-corrected arc tangent of `y / x`, stated over the named
/// `atan_of` result on a ratio in `[0, 1]`.
pub open spec fn atan2_v(y: int, x: int) -> int {
    if x == 0 {
        if y < 0 {
            -(FX_PI_2 as int)
        } else {
            FX_PI_2 as int
        }
    } else if y == 0 {
        if x > 0 {
            0
        } else {
            FX_PI as int
        }
    } else {
        let ay = abs_v(y);
        let ax = abs_v(x);
        let base = if ay <= ax {
            atan_of(div_v(ay, ax))
        } else {
            sub_v(FX_PI_2 as int, atan_of(div_v(ax, ay)))
        };
        if x > 0 {
            if y > 0 {
                base
            } else {
                neg_v(base)
            }
        } else {
            if y > 0 {
                sub_v(FX_PI as int, base)
            } else {
                neg_v(sub_v(FX_PI as int, base))
            }
        }
    }
}

/// The raw (unwrapped, unclamped) yaw and pitch of a direction vector:
/// yaw rotates the forward (Z) axis about up (Y), pitch then tilts it.
pub open spec fn yaw_pitch_raw_v(v: Vec3Fx) -> (int, int) {
    if v.x == 0 && v.z == 0 {
        (0, if v.y > 0 {
            FX_PI_2 as int
        } else {
            -(FX_PI_2 as int)
        })
    } else {
        (
            atan2_v(v.x as int, v.z as int),
            atan2_v(v.y as int, v3_norm_v(Vec3Fx { x: v.x, y: 0, z: v.z })),
        )
    }
}

/// The unit direction of a yaw/pitch pair:
/// `(cos(pitch)*sin(yaw), sin(pitch), cos(pitch)*cos(yaw))`.
pub open spec fn unit_vector_v(yaw: int, pitch: int) -> Vec3Fx {
    Vec3Fx {
        x: mul_v(cos_of(pitch), sin_of(yaw)) as i64,
        y: sat64(sin_of(pitch)) as i64,
        z: mul_v(cos_of(pitch), cos_of(yaw)) as i64,
    }
}

/// Whether a pitch's direction counts as parallel to up, within tolerance.
pub open spec fn looking_up_v(pitch: int) -> bool {
    abs_v(sin_of(pitch)) >= FX_ONE - UNIT_TOL
}

proof fn lemma_ratio_le_one(a: int, b: int)
    requires
        0 <= a <= b,
        1 <= b,
    ensures
        0 <= div_v(a, b) <= scale(),
{
    vstd::arithmetic::mul::lemma_mul_nonnegative(a, scale());
    vstd::arithmetic::mul::lemma_mul_inequality(a, b, scale());
    vstd::arithmetic::div_mod::lemma_div_is_ordered(a * scale(), b * scale(), b);
    vstd::arithmetic::div_mod::lemma_div_by_multiple(scale(), b);
    vstd::arithmetic::div_mod::lemma_div_pos_is_pos(a * scale(), b);
}

/// The quadrant-corrected arc tangent of `y / x`.
fn fx_atan2(y: i64, x: i64) -> (r: i64)
    ensures
        r == atan2_v(y as int, x as int),
{
    if x == 0 {
        if y < 0 {
            -FX_PI_2
        } else {
            FX_PI_2
        }
    } else if y == 0 {
        if x > 0 {
            0
        } else {
            FX_PI
        }
    } else {
        let ay = fx_abs(y);
        let ax = fx_abs(x);
        let base = if ay <= ax {
            proof {
                lemma_ratio_le_one(ay as int, ax as int);
            }
            fx_atan(fx_div(ay, ax))
        } else {
            proof {
                lemma_ratio_le_one(ax as int, ay as int);
            }
            fx_sub(FX_PI_2, fx_atan(fx_div(ax, ay)))
        };
        if x > 0 {
            if y > 0 {
                base
            } else {
                fx_neg(base)
            }
        } else {
            if y > 0 {
                fx_sub(FX_PI, base)
            } else {
                fx_neg(fx_sub(FX_PI, base))
            }
        }
    }
}

/// The raw yaw and pitch that rotate the forward (Z) axis onto `v`, or an
/// error for the zero vector.
pub fn yaw_and_pitch_from_vector(v: Vec3Fx) -> (r: Result<(i64, i64), CameraError>)
    ensures
        r is Err <==> v == (Vec3Fx { x: 0, y: 0, z: 0 }),
        r matches Err(e) ==> e == CameraError::DegenerateDirection,
        r matches Ok(yp) ==> yp.0 == yaw_pitch_raw_v(v).0 && yp.1 == yaw_pitch_raw_v(v).1,
{
    if v.x == 0 && v.y == 0 && v.z == 0 {
        return Err(CameraError::DegenerateDirection);
    }
    if v.x == 0 && v.z == 0 {
        if v.y > 0 {
            Ok((0, FX_PI_2))
        } else {
            Ok((0, -FX_PI_2))
        }
    } else {
        let horizontal = v3_norm(Vec3Fx { x: v.x, y: 0, z: v.z });
        let yaw = fx_atan2(v.x, v.z);
        let pitch = fx_atan2(v.y, horizontal);
        Ok((yaw, pitch))
    }
}

/// The unit direction for a raw yaw/pitch pair, through the trigonometric
/// routines. The bounds keep the angles within the routines' safe range.
pub fn unit_vector_from_yaw_and_pitch(yaw: i64, pitch: i64) -> (r: Vec3Fx)
    requires
        -8 * (FX_TAU as int) <= yaw <= 8 * (FX_TAU as int),
        -8 * (FX_TAU as int) <= pitch <= 8 * (FX_TAU as int),
    ensures
        r == unit_vector_v(yaw as int, pitch as int),
{
    let sy = fx_sin(yaw);
    let cy = fx_cos(yaw);
    let sp = fx_sin(pitch);
    let cp = fx_cos(pitch);
    Vec3Fx { x: crate::fx::fx_mul(cp, sy), y: sp, z: crate::fx::fx_mul(cp, cy) }
}

/// A (yaw, pitch) pair representing a direction.
#[derive(Clone, Copy, Debug, PartialEq, Eq, Structural)]
pub struct LookAngles {
    // The fields are kept private so they stay in the allowable range.
    yaw: i64,
    pitch: i64,
}

impl Default for LookAngles {
    fn default() -> (r: Self)
        ensures
            r.yaw_v() == 0 && r.pitch_v() == 0,
            r.wf(),
    {
        LookAngles { yaw: 0, pitch: 0 }
    }
}

impl LookAngles {
    /// The stored yaw, at the specification level.
    pub closed spec fn yaw_v(self) -> int {
        self.yaw as int
    }

    /// The stored pitch, at the specification level.
    pub closed spec fn pitch_v(self) -> int {
        self.pitch as int
    }

    /// Yaw is wrapped and pitch clamped.
    pub open spec fn wf(self) -> bool {
        &&& 0 <= self.yaw_v() < FX_TAU
        &&& -(PITCH_LIMIT as int) <= self.pitch_v() <= PITCH_LIMIT as int
    }

    /// The angles of a direction vector, or an error for the zero vector.
    pub fn from_vector(v: Vec3Fx) -> (r: Result<Self, CameraError>)
        ensures
            r is Err <==> v == (Vec3Fx { x: 0, y: 0, z: 0 }),
            r matches Err(e) ==> e == CameraError::DegenerateDirection,
            r matches Ok(a) ==> {
                &&& a.yaw_v() == yaw_wrap_v(yaw_pitch_raw_v(v).0)
                &&& a.pitch_v() == pitch_clamp_v(yaw_pitch_raw_v(v).1)
                &&& a.wf()
            },
    {
        let mut p = LookAngles::default();
        match p.set_direction(v) {
            Ok(()) => Ok(p),
            Err(e) => Err(e),
        }
    }

    /// The unit direction the angles stand for.
    pub fn unit_vector(self) -> (r: Vec3Fx)
        requires
            self.wf(),
        ensures
            r == unit_vector_v(self.yaw_v(), self.pitch_v()),
    {
        unit_vector_from_yaw_and_pitch(self.yaw, self.pitch)
    }

    /// Point the angles along `v`; the zero vector is rejected and leaves
    /// the angles unchanged.
    pub fn set_direction(&mut self, v: Vec3Fx) -> (r: Result<(), CameraError>)
        ensures
            r is Err <==> v == (Vec3Fx { x: 0, y: 0, z: 0 }),
            r matches Err(e) ==> e == CameraError::DegenerateDirection && *final(self) == *old(
                self,
            ),
            r is Ok ==> {
                &&& final(self).yaw_v() == yaw_wrap_v(yaw_pitch_raw_v(v).0)
                &&& final(self).pitch_v() == pitch_clamp_v(yaw_pitch_raw_v(v).1)
                &&& final(self).wf()
            },
    {
        match yaw_and_pitch_from_vector(v) {
            Ok((yaw, pitch)) => {
                self.set_yaw(yaw);
                self.set_pitch(pitch);
                Ok(())
            },
            Err(e) => Err(e),
        }
    }

    /// Store `yaw`, wrapped into `[0, 2*pi)`.
    pub fn set_yaw(&mut self, yaw: i64)
        ensures
            final(self).yaw_v() == yaw_wrap_v(yaw as int),
            final(self).pitch_v() == old(self).pitch_v(),
            0 <= final(self).yaw_v() < FX_TAU,
    {
        self.yaw = fx_rem(yaw, FX_TAU);
    }

    pub fn get_yaw(&self) -> (r: i64)
        ensures
            r == self.yaw_v(),
    {
        self.yaw
    }

    /// Add `delta` to yaw, keeping it wrapped.
    pub fn add_yaw(&mut self, delta: i64)
        ensures
            final(self).yaw_v() == yaw_wrap_v(add_v(old(self).yaw_v(), delta as int)),
            final(self).pitch_v() == old(self).pitch_v(),
            0 <= final(self).yaw_v() < FX_TAU,
    {
        let y = self.yaw;
        self.set_yaw(fx_add(y, delta));
    }

    /// Store `pitch`, clamped away from straight up and down.
    pub fn set_pitch(&mut self, pitch: i64)
        ensures
            final(self).pitch_v() == pitch_clamp_v(pitch as int),
            final(self).yaw_v() == old(self).yaw_v(),
            -(PITCH_LIMIT as int) <= final(self).pitch_v() <= PITCH_LIMIT as int,
    {
        self.pitch = crate::fx::fx_clamp(pitch, -PITCH_LIMIT, PITCH_LIMIT);
    }

    pub fn get_pitch(&self) -> (r: i64)
        ensures
            r == self.pitch_v(),
    {
        self.pitch
    }

    /// Add `delta` to pitch, keeping it clamped.
    pub fn add_pitch(&mut self, delta: i64)
        ensures
            final(self).pitch_v() == pitch_clamp_v(add_v(old(self).pitch_v(), delta as int)),
            final(self).yaw_v() == old(self).yaw_v(),
            -(PITCH_LIMIT as int) <= final(self).pitch_v() <= PITCH_LIMIT as int,
    {
        let p = self.pitch;
        self.set_pitch(fx_add(p, delta));
    }

    /// Check that the stored direction is not parallel to up. The pitch
    /// clamp makes a failure unreachable through this type's own methods;
    /// a failure therefore reports an upstream logic defect.
    pub fn assert_not_looking_up(&self) -> (r: Result<(), CameraError>)
        requires
            self.wf(),
        ensures
            r is Ok <==> !looking_up_v(self.pitch_v()),
            r matches Err(e) ==> e == CameraError::InvariantViolation,
    {
        let sp = fx_sin(self.pitch);
        let a = fx_abs(sp);
        if a >= FX_ONE - UNIT_TOL {
            Err(CameraError::InvariantViolation)
        } else {
            Ok(())
        }
    }
}

/// Pitch can never leave the clamp interval, whatever update is applied.
pub proof fn lemma_pitch_always_clamped(p: int)
    ensures
        -(PITCH_LIMIT as int) <= pitch_clamp_v(p) <= PITCH_LIMIT as int,
{
}

/// The pitch left behind by a sequence of `add_pitch` calls: each delta
/// is added saturating, then clamped, in order.
pub open spec fn pitch_after_updates_v(p0: int, deltas: Seq<int>) -> int
    decreases deltas.len(),
{
    if deltas.len() == 0 {
        p0
    } else {
        pitch_clamp_v(add_v(pitch_after_updates_v(p0, deltas.drop_last()), deltas.last()))
    }
}

/// For any nonempty sequence of `add_pitch` calls, from any starting
/// pitch, the resulting pitch lies inside the clamp interval.
pub proof fn lemma_pitch_clamped_over_any_sequence(p0: int, deltas: Seq<int>)
    requires
        deltas.len() > 0,
    ensures
        -(PITCH_LIMIT as int) <= pitch_after_updates_v(p0, deltas) <= PITCH_LIMIT as int,
    decreases deltas.len(),
{
}

/// Adding a full turn to a wrapped yaw gives the same wrapped yaw back:
/// the inputs near the saturation boundary are left out.
pub proof fn lemma_yaw_wrap_full_turn(y: int)
    requires
        y + (FX_TAU as int) <= i64::MAX,
        i64::MIN <= y,
    ensures
        yaw_wrap_v(add_v(y, FX_TAU as int)) == yaw_wrap_v(y),
{
    vstd::arithmetic::div_mod::lemma_mod_add_multiples_vanish(y, FX_TAU as int);
}

/// On stored (wrapped) angles, `add_yaw` of a full turn is the identity.
pub proof fn lemma_add_full_turn_is_identity(a: LookAngles)
    requires
        a.wf(),
    ensures
        yaw_wrap_v(add_v(a.yaw_v(), FX_TAU as int)) == a.yaw_v(),
{
    lemma_yaw_wrap_full_turn(a.yaw_v());
    vstd::arithmetic::div_mod::lemma_small_mod(a.yaw_v() as nat, FX_TAU as nat);
}

} // verus!
