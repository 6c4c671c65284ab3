//! The viewpoint: an eye and the target it looks at, the world transform
//! derived from them, and the exponential smoothing filter applied per
//! frame.

use vstd::prelude::*;

use crate::errors::CameraError;
use crate::fx::sat64;
use crate::fx::scale;
use crate::fx::tdiv;
use crate::fx::tdiv_i128;
use crate::fx::sat_i128;
use crate::fx::FX_ONE;
use crate::vec::v3_add;
use crate::vec::v3_add_v;
use crate::vec::v3_cross;
use crate::vec::v3_cross_v;
use crate::vec::v3_normalize_v;
use crate::vec::v3_sub;
use crate::vec::v3_sub_v;
use crate::vec::v3_norm;
use crate::vec::v3_norm_v;
use crate::vec::v3_try_normalize;
use crate::vec::Vec3Fx;

verus! {

/// An eye and the target it's looking at, plus the up direction: the raw,
/// unsmoothed state every controller mutates.
#[derive(Clone, Copy, Debug, PartialEq, Eq, Structural)]
pub struct LookTransform {
    pub eye: Vec3Fx,
    pub target: Vec3Fx,
    pub up: Vec3Fx,
}

/// A world-space pose: a translation and an orthonormal-by-construction
/// basis (`x_axis` right, `y_axis` up, `z_axis` back), the shape a host
/// scene graph consumes.
#[derive(Clone, Copy, Debug, PartialEq, Eq, Structural)]
pub struct WorldTransform {
    pub translation: Vec3Fx,
    pub x_axis: Vec3Fx,
    pub y_axis: Vec3Fx,
    pub z_axis: Vec3Fx,
}

/// The distance from eye to target.
pub open spec fn radius_v(t: LookTransform) -> int {
    v3_norm_v(v3_sub_v(t.target, t.eye))
}

/// The unit direction from eye toward target.
pub open spec fn look_dir_v(t: LookTransform) -> Vec3Fx {
    v3_normalize_v(v3_sub_v(t.target, t.eye))
}

/// The back axis of a pose at `p1` facing `p2`.
pub open spec fn back_axis_v(p1: Vec3Fx, p2: Vec3Fx) -> Vec3Fx {
    v3_normalize_v(v3_sub_v(p1, p2))
}

/// The right axis of a pose at `p1` facing `p2` with up hint `up`.
pub open spec fn right_axis_v(p1: Vec3Fx, p2: Vec3Fx, up: Vec3Fx) -> Vec3Fx {
    v3_normalize_v(v3_cross_v(up, back_axis_v(p1, p2)))
}

/// The pose at `p1` facing `p2` with up hint `up`.
pub open spec fn look_at_v(p1: Vec3Fx, p2: Vec3Fx, up: Vec3Fx) -> WorldTransform {
    WorldTransform {
        translation: p1,
        x_axis: right_axis_v(p1, p2, up),
        y_axis: v3_cross_v(back_axis_v(p1, p2), right_axis_v(p1, p2, up)),
        z_axis: back_axis_v(p1, p2),
    }
}

/// The pose at `p1` facing `p2`: translation `p1`, back axis away from
/// `p2`, right and up completing the basis. Fails when `p1 == p2` or when
/// the facing direction is parallel to `up`.
pub fn look_at_transform(p1: Vec3Fx, p2: Vec3Fx, up: Vec3Fx) -> (r: Result<
    WorldTransform,
    CameraError,
>)
    ensures
        r matches Ok(w) ==> w == look_at_v(p1, p2, up),
        r matches Err(e) ==> (e == CameraError::DegenerateDirection <==> p1 == p2),
        r matches Err(e) ==> (e == CameraError::InvariantViolation <==> (p1 != p2 && v3_cross_v(
            up,
            back_axis_v(p1, p2),
        ) == (Vec3Fx { x: 0, y: 0, z: 0 }))),
        r is Ok <==> (p1 != p2 && v3_cross_v(up, back_axis_v(p1, p2)) != (Vec3Fx {
            x: 0,
            y: 0,
            z: 0,
        })),
{
    let back = match v3_try_normalize(v3_sub(p1, p2)) {
        Some(b) => b,
        None => {
            return Err(CameraError::DegenerateDirection);
        },
    };
    let right = match v3_try_normalize(v3_cross(up, back)) {
        Some(r) => r,
        None => {
            return Err(CameraError::InvariantViolation);
        },
    };
    let up_axis = v3_cross(back, right);
    Ok(WorldTransform { translation: p1, x_axis: right, y_axis: up_axis, z_axis: back })
}

/// The point one (normalized) look vector away from the eye: the basis is
/// derived from it rather than from the target itself, so a target close
/// to the eye does not distort the result.
pub open spec fn at_point_v(eye: Vec3Fx, target: Vec3Fx) -> Vec3Fx {
    v3_add_v(eye, v3_normalize_v(v3_sub_v(target, eye)))
}

/// The world pose of an eye looking toward a target.
pub open spec fn eye_world_v(eye: Vec3Fx, target: Vec3Fx, up: Vec3Fx) -> WorldTransform {
    look_at_v(eye, at_point_v(eye, target), up)
}

/// When an eye/target/up triple yields a well-defined world pose.
pub open spec fn eye_world_ok_v(eye: Vec3Fx, target: Vec3Fx, up: Vec3Fx) -> bool {
    &&& eye != target
    &&& eye != at_point_v(eye, target)
    &&& v3_cross_v(up, back_axis_v(eye, at_point_v(eye, target))) != (Vec3Fx { x: 0, y: 0, z: 0 })
}

/// Which error a degenerate eye/target/up triple yields.
pub open spec fn eye_world_err_v(eye: Vec3Fx, target: Vec3Fx, up: Vec3Fx) -> CameraError {
    if eye == target || eye == at_point_v(eye, target) {
        CameraError::DegenerateDirection
    } else {
        CameraError::InvariantViolation
    }
}

/// The world pose of an eye looking toward a target. The look vector is
/// first normalized and re-anchored one unit from the eye, so a target
/// close to the eye does not distort the derived basis.
pub fn eye_look_at_target_transform(eye: Vec3Fx, target: Vec3Fx, up: Vec3Fx) -> (r: Result<
    WorldTransform,
    CameraError,
>)
    ensures
        r is Ok <==> eye_world_ok_v(eye, target, up),
        r matches Ok(w) ==> w == eye_world_v(eye, target, up),
        r matches Err(e) ==> e == eye_world_err_v(eye, target, up),
{
    let dir = match v3_try_normalize(v3_sub(target, eye)) {
        Some(d) => d,
        None => {
            return Err(CameraError::DegenerateDirection);
        },
    };
    let at = v3_add(eye, dir);
    look_at_transform(eye, at, up)
}

impl Default for LookTransform {
    fn default() -> (r: Self)
        ensures
            r.eye == (Vec3Fx { x: 0, y: 0, z: 0 }),
            r.target == (Vec3Fx { x: 0, y: 0, z: 0 }),
            r.up == (Vec3Fx { x: 0, y: 0x1_0000_0000, z: 0 }),
    {
        LookTransform {
            eye: Vec3Fx { x: 0, y: 0, z: 0 },
            target: Vec3Fx { x: 0, y: 0, z: 0 },
            up: Vec3Fx { x: 0, y: 0x1_0000_0000, z: 0 },
        }
    }
}

impl LookTransform {
    pub fn new(eye: Vec3Fx, target: Vec3Fx, up: Vec3Fx) -> (r: Self)
        ensures
            r == (LookTransform { eye, target, up }),
    {
        Self { eye, target, up }
    }

    /// The distance from eye to target; zero exactly when they coincide.
    pub fn radius(&self) -> (r: i64)
        ensures
            r == radius_v(*self),
            r >= 0,
            (r == 0) <==> self.eye == self.target,
    {
        v3_norm(v3_sub(self.target, self.eye))
    }

    /// The unit direction from eye toward target, or `None` when they
    /// coincide.
    pub fn look_direction(&self) -> (r: Option<Vec3Fx>)
        ensures
            r matches Some(d) ==> d == look_dir_v(*self),
            r is None <==> self.eye == self.target,
    {
        v3_try_normalize(v3_sub(self.target, self.eye))
    }

    /// The world pose of this viewpoint.
    pub fn world_transform(&self) -> (r: Result<WorldTransform, CameraError>)
        ensures
            r is Ok <==> eye_world_ok_v(self.eye, self.target, self.up),
            r matches Ok(w) ==> w == eye_world_v(self.eye, self.target, self.up),
            r matches Err(e) ==> e == eye_world_err_v(self.eye, self.target, self.up),
    {
        eye_look_at_target_transform(self.eye, self.target, self.up)
    }
}

/// One scalar smoothing step: move `p` toward `n`, keeping the fraction
/// `w / 2^32` of the distance.
pub open spec fn lerp1_v(n: int, p: int, w: int) -> int {
    sat64(n + tdiv((p - n) * w, scale()))
}

/// One componentwise smoothing step on a vector.
pub open spec fn lerp_vec_v(n: Vec3Fx, p: Vec3Fx, w: int) -> Vec3Fx {
    Vec3Fx {
        x: lerp1_v(n.x as int, p.x as int, w) as i64,
        y: lerp1_v(n.y as int, p.y as int, w) as i64,
        z: lerp1_v(n.z as int, p.z as int, w) as i64,
    }
}

/// One smoothing step on a whole viewpoint: eye and target are
/// interpolated, up is taken from the new value; a missing previous value
/// is seeded with the new one.
pub open spec fn smooth_v(prev: Option<LookTransform>, new: LookTransform, w: int) -> LookTransform {
    let p = match prev {
        Some(p) => p,
        None => new,
    };
    LookTransform {
        eye: lerp_vec_v(new.eye, p.eye, w),
        target: lerp_vec_v(new.target, p.target, w),
        up: new.up,
    }
}

/// One scalar smoothing step, exactly as `lerp1_v` describes.
fn fx_lerp(n: i64, p: i64, w: i64) -> (r: i64)
    ensures
        r == lerp1_v(n as int, p as int, w as int),
{
    let d: i128 = (p as i128) - (n as i128);
    proof {
        assert(-0x8000_0000_0000_0000_0000_0000_0000_0000int < d * (w as int)
            && d * (w as int) < 0x8000_0000_0000_0000_0000_0000_0000_0000int) by (nonlinear_arith)
            requires
                -0x1_0000_0000_0000_0000 < d < 0x1_0000_0000_0000_0000,
                -0x8000_0000_0000_0000 <= w <= 0x7fff_ffff_ffff_ffff,
        ;
    }
    let m: i128 = d * (w as i128);
    let q = tdiv_i128(m, 0x1_0000_0000);
    proof {
        if m as int >= 0 {
            vstd::arithmetic::div_mod::lemma_div_nonincreasing(m as int, scale());
            vstd::arithmetic::div_mod::lemma_div_pos_is_pos(m as int, scale());
        } else {
            vstd::arithmetic::div_mod::lemma_div_nonincreasing(-(m as int), scale());
            vstd::arithmetic::div_mod::lemma_div_pos_is_pos(-(m as int), scale());
        }
    }
    sat_i128((n as i128) + q)
}

pub(crate) fn lerp_vec(n: Vec3Fx, p: Vec3Fx, w: i64) -> (r: Vec3Fx)
    ensures
        r == lerp_vec_v(n, p, w as int),
{
    Vec3Fx { x: fx_lerp(n.x, p.x, w), y: fx_lerp(n.y, p.y, w), z: fx_lerp(n.z, p.z, w) }
}

/// Performs exponential smoothing on a `LookTransform`. The lag weight is
/// the fraction of the distance to the raw value kept per frame: `0` means
/// no smoothing, values approaching one follow ever more slowly.
#[derive(Clone, Copy, Debug)]
pub struct Smoother {
    lag_weight: i64,
    lerp_tfm: Option<LookTransform>,
    enabled: bool,
}

impl Smoother {
    /// The lag weight, at the specification level.
    pub closed spec fn lag_weight_v(self) -> int {
        self.lag_weight as int
    }

    /// The remembered previous smoothed value, at the specification level.
    pub closed spec fn lerp_tfm_v(self) -> Option<LookTransform> {
        self.lerp_tfm
    }

    /// The enabled flag, at the specification level.
    pub closed spec fn enabled_v(self) -> bool {
        self.enabled
    }

    /// The lag weight is a fraction in `[0, 1)`.
    pub open spec fn wf(self) -> bool {
        0 <= self.lag_weight_v() < FX_ONE
    }

    /// A smoother with the given lag weight; a weight outside `[0, 1)` is
    /// rejected when it is set, not when it is used.
    pub fn new(lag_weight: i64) -> (r: Result<Self, CameraError>)
        ensures
            r is Ok <==> 0 <= lag_weight < FX_ONE,
            r matches Ok(s) ==> {
                &&& s.lag_weight_v() == lag_weight
                &&& s.lerp_tfm_v() is None
                &&& s.enabled_v()
                &&& s.wf()
            },
            r matches Err(e) ==> e == CameraError::ConfigOutOfRange,
    {
        if 0 <= lag_weight && lag_weight < FX_ONE {
            Ok(Self { lag_weight, lerp_tfm: None, enabled: true })
        } else {
            Err(CameraError::ConfigOutOfRange)
        }
    }

    /// Turn smoothing on or off; re-enabling forgets the remembered value,
    /// so the first smoothed output afterwards equals the raw input.
    pub fn set_enabled(&mut self, enabled: bool)
        ensures
            final(self).enabled_v() == enabled,
            final(self).lag_weight_v() == old(self).lag_weight_v(),
            enabled ==> final(self).lerp_tfm_v() is None,
            !enabled ==> final(self).lerp_tfm_v() == old(self).lerp_tfm_v(),
    {
        self.enabled = enabled;
        if self.enabled {
            // To prevent the camera jumping from the last value before
            // disabling to the current position, reset the smoother state.
            self.reset();
        }
    }

    /// Replace the lag weight; a weight outside `[0, 1)` is rejected and
    /// leaves the smoother unchanged.
    pub fn set_lag_weight(&mut self, lag_weight: i64) -> (r: Result<(), CameraError>)
        ensures
            r is Ok <==> 0 <= lag_weight < FX_ONE,
            r is Ok ==> final(self).lag_weight_v() == lag_weight && final(self).lerp_tfm_v() == old(
                self,
            ).lerp_tfm_v() && final(self).enabled_v() == old(self).enabled_v() && final(self).wf(),
            r matches Err(e) ==> e == CameraError::ConfigOutOfRange && *final(self) == *old(self),
    {
        if 0 <= lag_weight && lag_weight < FX_ONE {
            self.lag_weight = lag_weight;
            Ok(())
        } else {
            Err(CameraError::ConfigOutOfRange)
        }
    }

    /// One smoothing step: linear interpolation between the remembered
    /// previous value and `new_tfm`; the very first step returns `new_tfm`
    /// exactly.
    pub fn smooth_transform(&mut self, new_tfm: &LookTransform) -> (r: LookTransform)
        ensures
            r == smooth_v(old(self).lerp_tfm_v(), *new_tfm, old(self).lag_weight_v()),
            final(self).lerp_tfm_v() == Some(r),
            final(self).lag_weight_v() == old(self).lag_weight_v(),
            final(self).enabled_v() == old(self).enabled_v(),
            old(self).lerp_tfm_v() is None ==> r == *new_tfm,
    {
        let old_lerp_tfm = match self.lerp_tfm {
            Some(t) => t,
            None => *new_tfm,
        };
        let lerp_tfm = LookTransform {
            eye: lerp_vec(new_tfm.eye, old_lerp_tfm.eye, self.lag_weight),
            target: lerp_vec(new_tfm.target, old_lerp_tfm.target, self.lag_weight),
            up: new_tfm.up,
        };
        proof {
            if self.lerp_tfm is None {
                lemma_lerp_seeded(new_tfm.eye, self.lag_weight as int);
                lemma_lerp_seeded(new_tfm.target, self.lag_weight as int);
            }
        }
        self.lerp_tfm = Some(lerp_tfm);
        lerp_tfm
    }

    pub fn enabled(&self) -> (r: bool)
        ensures
            r == self.enabled_v(),
    {
        self.enabled
    }

    pub fn lag_weight(&self) -> (r: i64)
        ensures
            r == self.lag_weight_v(),
    {
        self.lag_weight
    }

    /// Forget the remembered previous value.
    pub fn reset(&mut self)
        ensures
            final(self).lerp_tfm_v() is None,
            final(self).lag_weight_v() == old(self).lag_weight_v(),
            final(self).enabled_v() == old(self).enabled_v(),
    {
        self.lerp_tfm = None;
    }
}

impl Default for Smoother {
    /// The default smoother: lag weight 0.9, seeded with the default
    /// viewpoint, enabled.
    fn default() -> (r: Self)
        ensures
            r.lag_weight_v() == 3865470566,
            r.lerp_tfm_v() matches Some(t) && t == (LookTransform {
                eye: Vec3Fx { x: 0, y: 0, z: 0 },
                target: Vec3Fx { x: 0, y: 0, z: 0 },
                up: Vec3Fx { x: 0, y: 0x1_0000_0000, z: 0 },
            }),
            r.enabled_v(),
            r.wf(),
    {
        Smoother {
            lag_weight: 3865470566,  // 0.9 at the Q31.32 scale
            lerp_tfm: Some(LookTransform::default()),
            enabled: true,
        }
    }
}

/// Per-frame sync for one camera: when the smoother is enabled, push the
/// raw viewpoint through it; when it is disabled, the raw viewpoint
/// passes through unsmoothed and the smoother is untouched. Either way,
/// the world pose of the result is derived and handed back to the host.
pub fn look_transform_system(look_transform: &LookTransform, smoother: &mut Smoother) -> (r: Result<
    WorldTransform,
    CameraError,
>)
    requires
        old(smoother).wf(),
    ensures
        ({
            let out = if old(smoother).enabled_v() {
                smooth_v(old(smoother).lerp_tfm_v(), *look_transform, old(smoother).lag_weight_v())
            } else {
                *look_transform
            };
            &&& (!old(smoother).enabled_v() ==> *final(smoother) == *old(smoother))
            &&& (old(smoother).enabled_v() ==> final(smoother).lerp_tfm_v() == Some(out))
            &&& (old(smoother).enabled_v() ==> final(smoother).lag_weight_v() == old(
                smoother,
            ).lag_weight_v() && final(smoother).enabled_v())
            &&& (r is Ok <==> eye_world_ok_v(out.eye, out.target, out.up))
            &&& (r matches Ok(w) ==> w == eye_world_v(out.eye, out.target, out.up))
            &&& (r matches Err(e) ==> e == eye_world_err_v(out.eye, out.target, out.up))
        }),
{
    let effective = if smoother.enabled {
        smoother.smooth_transform(look_transform)
    } else {
        *look_transform
    };
    effective.world_transform()
}

/// A smoothing step seeded with the raw value returns the raw value.
pub(crate) proof fn lemma_lerp_seeded(n: Vec3Fx, w: int)
    ensures
        lerp_vec_v(n, n, w) == n,
{
    lemma_lerp1_fixpoint(n.x as int, w);
    lemma_lerp1_fixpoint(n.y as int, w);
    lemma_lerp1_fixpoint(n.z as int, w);
}

proof fn lemma_lerp1_fixpoint(n: int, w: int)
    requires
        i64::MIN <= n <= i64::MAX,
    ensures
        lerp1_v(n, n, w) == n,
{
    assert((n - n) * w == 0) by (nonlinear_arith);
    assert(tdiv(0, scale()) == 0) by {
        vstd::arithmetic::div_mod::lemma_div_of0(scale());
    };
}

/// Re-enabling the smoother never causes a jump: with no remembered value
/// (the state `set_enabled(true)` leaves behind), the next smoothing step
/// returns the raw viewpoint exactly, whatever it was changed to while the
/// smoother was disabled.
pub proof fn lemma_smoother_reset_on_reenable(raw: LookTransform, w: int)
    ensures
        smooth_v(None, raw, w) == raw,
{
    lemma_lerp_seeded(raw.eye, w);
    lemma_lerp_seeded(raw.target, w);
}

/// The smoothed value after `k` steps of feeding the constant raw scalar
/// `n`, starting from the remembered scalar `p0`.
pub open spec fn lerp_iter_v(n: int, p0: int, w: int, k: nat) -> int
    decreases k,
{
    if k == 0 {
        p0
    } else {
        lerp1_v(n, lerp_iter_v(n, p0, w, (k - 1) as nat), w)
    }
}

/// The smoother state after `k` steps of feeding the constant raw
/// viewpoint `new`, starting from the remembered viewpoint `s0`.
pub open spec fn smooth_iter_v(new: LookTransform, s0: LookTransform, w: int, k: nat) -> LookTransform
    decreases k,
{
    if k == 0 {
        s0
    } else {
        smooth_v(Some(smooth_iter_v(new, s0, w, (k - 1) as nat)), new, w)
    }
}

/// One smoothing step moves the value strictly closer to the raw value:
/// the error never grows, and shrinks by at least one while it is nonzero.
proof fn lemma_lerp_contracts(n: int, p: int, w: int)
    requires
        0 <= w < scale(),
        i64::MIN <= n <= i64::MAX,
        i64::MIN <= p <= i64::MAX,
    ensures
        i64::MIN <= lerp1_v(n, p, w) <= i64::MAX,
        p == n ==> lerp1_v(n, p, w) == n,
        p != n ==> vstd::math::abs(lerp1_v(n, p, w) - n) <= vstd::math::abs(p - n) - 1,
        vstd::math::abs(lerp1_v(n, p, w) - n) == tdiv(vstd::math::abs(p - n) * w, scale()),
{
    let s = scale();
    let d = p - n;
    if d == 0 {
        lemma_lerp1_fixpoint(n, w);
        assert(0 * w == 0) by (nonlinear_arith);
        vstd::arithmetic::div_mod::lemma_div_of0(s);
    } else if d > 0 {
        vstd::arithmetic::mul::lemma_mul_nonnegative(d, w);
        let m = d * w;
        assert(m < s * d) by {
            vstd::arithmetic::mul::lemma_mul_strict_inequality(w, s, d);
            vstd::arithmetic::mul::lemma_mul_is_commutative(d, w);
        };
        vstd::arithmetic::div_mod::lemma_div_pos_is_pos(m, s);
        vstd::arithmetic::div_mod::lemma_multiply_divide_lt(m, s, d);
        assert(0 <= tdiv(m, s) <= d - 1);
    } else {
        let e = -d;
        vstd::arithmetic::mul::lemma_mul_nonnegative(e, w);
        assert(e * w == -(d * w)) by {
            vstd::arithmetic::mul::lemma_mul_unary_negation(d, w);
        };
        let m = e * w;
        assert(m < s * e) by {
            vstd::arithmetic::mul::lemma_mul_strict_inequality(w, s, e);
            vstd::arithmetic::mul::lemma_mul_is_commutative(e, w);
        };
        vstd::arithmetic::div_mod::lemma_div_pos_is_pos(m, s);
        vstd::arithmetic::div_mod::lemma_multiply_divide_lt(m, s, e);
        assert(0 <= tdiv(m, s) <= e - 1);
        assert(tdiv(d * w, s) == -tdiv(m, s));
    }
}

/// The smoothed value converges geometrically: each step keeps exactly
/// the fraction `w / 2^32` (truncated) of the previous distance to the
/// raw value.
pub proof fn lemma_smoother_geometric_rate(n: int, p: int, w: int)
    requires
        0 <= w < scale(),
        i64::MIN <= n <= i64::MAX,
        i64::MIN <= p <= i64::MAX,
    ensures
        vstd::math::abs(lerp1_v(n, p, w) - n) == tdiv(vstd::math::abs(p - n) * w, scale()),
{
    lemma_lerp_contracts(n, p, w);
}

/// Feeding a constant raw scalar makes the error to it decrease by at
/// least one per step until it is exactly zero.
pub proof fn lemma_smoother_scalar_convergence(n: int, p0: int, w: int, k: nat)
    requires
        0 <= w < scale(),
        i64::MIN <= n <= i64::MAX,
        i64::MIN <= p0 <= i64::MAX,
    ensures
        i64::MIN <= lerp_iter_v(n, p0, w, k) <= i64::MAX,
        vstd::math::abs(lerp_iter_v(n, p0, w, k) - n) <= vstd::math::max(
            0,
            vstd::math::abs(p0 - n) - k,
        ),
    decreases k,
{
    if k > 0 {
        lemma_smoother_scalar_convergence(n, p0, w, (k - 1) as nat);
        let prev = lerp_iter_v(n, p0, w, (k - 1) as nat);
        lemma_lerp_contracts(n, prev, w);
    }
}

/// Smoother convergence: feeding a constant raw viewpoint `new` for long
/// enough (`2^64` steps bounds the largest possible componentwise error)
/// makes the smoothed output exactly equal to `new`, from any starting
/// state.
pub proof fn lemma_smoother_convergence(new: LookTransform, s0: LookTransform, w: int, k: nat)
    requires
        0 <= w < scale(),
        k >= 0x1_0000_0000_0000_0000,
    ensures
        smooth_iter_v(new, s0, w, k) == new,
{
    lemma_smooth_iter_components(new, s0, w, k);
    lemma_scalar_iter_settles(new.eye.x as int, s0.eye.x as int, w, k);
    lemma_scalar_iter_settles(new.eye.y as int, s0.eye.y as int, w, k);
    lemma_scalar_iter_settles(new.eye.z as int, s0.eye.z as int, w, k);
    lemma_scalar_iter_settles(new.target.x as int, s0.target.x as int, w, k);
    lemma_scalar_iter_settles(new.target.y as int, s0.target.y as int, w, k);
    lemma_scalar_iter_settles(new.target.z as int, s0.target.z as int, w, k);
    let it = smooth_iter_v(new, s0, w, k);
    assert(it.eye == new.eye);
    assert(it.target == new.target);
    assert(it.up == new.up);
}

/// After at least `2^64` steps the scalar error must be zero.
proof fn lemma_scalar_iter_settles(n: int, p0: int, w: int, k: nat)
    requires
        0 <= w < scale(),
        i64::MIN <= n <= i64::MAX,
        i64::MIN <= p0 <= i64::MAX,
        k >= 0x1_0000_0000_0000_0000,
    ensures
        lerp_iter_v(n, p0, w, k) == n,
{
    lemma_smoother_scalar_convergence(n, p0, w, k);
}

/// Each component of the iterated viewpoint smoothing is the iterated
/// scalar smoothing of that component; after the first step the up vector
/// is the raw one.
proof fn lemma_smooth_iter_components(new: LookTransform, s0: LookTransform, w: int, k: nat)
    ensures
        smooth_iter_v(new, s0, w, k).eye.x as int == lerp_iter_v(
            new.eye.x as int,
            s0.eye.x as int,
            w,
            k,
        ),
        smooth_iter_v(new, s0, w, k).eye.y as int == lerp_iter_v(
            new.eye.y as int,
            s0.eye.y as int,
            w,
            k,
        ),
        smooth_iter_v(new, s0, w, k).eye.z as int == lerp_iter_v(
            new.eye.z as int,
            s0.eye.z as int,
            w,
            k,
        ),
        smooth_iter_v(new, s0, w, k).target.x as int == lerp_iter_v(
            new.target.x as int,
            s0.target.x as int,
            w,
            k,
        ),
        smooth_iter_v(new, s0, w, k).target.y as int == lerp_iter_v(
            new.target.y as int,
            s0.target.y as int,
            w,
            k,
        ),
        smooth_iter_v(new, s0, w, k).target.z as int == lerp_iter_v(
            new.target.z as int,
            s0.target.z as int,
            w,
            k,
        ),
        k > 0 ==> smooth_iter_v(new, s0, w, k).up == new.up,
    decreases k,
{
    if k > 0 {
        lemma_smooth_iter_components(new, s0, w, (k - 1) as nat);
    }
}

} // verus!
