//! Fixed-point 2- and 3-component vectors.
//!
//! Componentwise arithmetic is saturating, and the Euclidean norm is exact:
//! because every component carries the same 2^32 scale, the norm of a vector
//! is the integer square root of the sum of the squared components.

use vstd::prelude::*;

use crate::fx::add_v;
use crate::fx::div_v;
use crate::fx::fx_add;
use crate::fx::fx_div;
use crate::fx::fx_mul;
use crate::fx::fx_neg;
use crate::fx::fx_sub;
use crate::fx::isqrt;
use crate::fx::isqrt_u128;
use crate::fx::lemma_isqrt;
use crate::fx::mul_v;
use crate::fx::neg_v;
use crate::fx::sat64;
use crate::fx::sub_v;

verus! {

/// A fixed-point 2D vector (pointer deltas, wheel deltas, sensitivities).
#[derive(Clone, Copy, Debug, PartialEq, Eq, Structural)]
pub struct Vec2Fx {
    pub x: i64,
    pub y: i64,
}

/// A fixed-point 3D vector (positions and directions).
#[derive(Clone, Copy, Debug, PartialEq, Eq, Structural)]
pub struct Vec3Fx {
    pub x: i64,
    pub y: i64,
    pub z: i64,
}

impl Vec2Fx {
    /// The zero 2D vector.
    pub fn zero() -> (r: Vec2Fx)
        ensures
            r == (Vec2Fx { x: 0, y: 0 }),
    {
        Vec2Fx { x: 0, y: 0 }
    }

    pub fn new(x: i64, y: i64) -> (r: Vec2Fx)
        ensures
            r == (Vec2Fx { x, y }),
    {
        Vec2Fx { x, y }
    }
}

impl Vec3Fx {
    /// The zero 3D vector.
    pub fn zero() -> (r: Vec3Fx)
        ensures
            r == (Vec3Fx { x: 0, y: 0, z: 0 }),
    {
        Vec3Fx { x: 0, y: 0, z: 0 }
    }

    pub fn new(x: i64, y: i64, z: i64) -> (r: Vec3Fx)
        ensures
            r == (Vec3Fx { x, y, z }),
    {
        Vec3Fx { x, y, z }
    }

    /// The positive Y axis, the conventional up direction.
    pub fn unit_y() -> (r: Vec3Fx)
        ensures
            r == (Vec3Fx { x: 0, y: 0x1_0000_0000, z: 0 }),
    {
        Vec3Fx { x: 0, y: 0x1_0000_0000, z: 0 }
    }

    /// The positive Z axis, the conventional forward direction.
    pub fn unit_z() -> (r: Vec3Fx)
        ensures
            r == (Vec3Fx { x: 0, y: 0, z: 0x1_0000_0000 }),
    {
        Vec3Fx { x: 0, y: 0, z: 0x1_0000_0000 }
    }
}

pub open spec fn v2_add_v(a: Vec2Fx, b: Vec2Fx) -> Vec2Fx {
    Vec2Fx { x: add_v(a.x as int, b.x as int) as i64, y: add_v(a.y as int, b.y as int) as i64 }
}

/// Componentwise product: how a per-axis sensitivity scales a delta.
pub open spec fn v2_mul_v(a: Vec2Fx, b: Vec2Fx) -> Vec2Fx {
    Vec2Fx { x: mul_v(a.x as int, b.x as int) as i64, y: mul_v(a.y as int, b.y as int) as i64 }
}

pub open spec fn v2_scale_v(s: int, v: Vec2Fx) -> Vec2Fx {
    Vec2Fx { x: mul_v(s, v.x as int) as i64, y: mul_v(s, v.y as int) as i64 }
}

pub fn v2_add(a: Vec2Fx, b: Vec2Fx) -> (r: Vec2Fx)
    ensures
        r == v2_add_v(a, b),
{
    Vec2Fx { x: fx_add(a.x, b.x), y: fx_add(a.y, b.y) }
}

pub fn v2_mul(a: Vec2Fx, b: Vec2Fx) -> (r: Vec2Fx)
    ensures
        r == v2_mul_v(a, b),
{
    Vec2Fx { x: fx_mul(a.x, b.x), y: fx_mul(a.y, b.y) }
}

pub fn v2_scale(s: i64, v: Vec2Fx) -> (r: Vec2Fx)
    ensures
        r == v2_scale_v(s as int, v),
{
    Vec2Fx { x: fx_mul(s, v.x), y: fx_mul(s, v.y) }
}

pub open spec fn v3_add_v(a: Vec3Fx, b: Vec3Fx) -> Vec3Fx {
    Vec3Fx {
        x: add_v(a.x as int, b.x as int) as i64,
        y: add_v(a.y as int, b.y as int) as i64,
        z: add_v(a.z as int, b.z as int) as i64,
    }
}

pub open spec fn v3_sub_v(a: Vec3Fx, b: Vec3Fx) -> Vec3Fx {
    Vec3Fx {
        x: sub_v(a.x as int, b.x as int) as i64,
        y: sub_v(a.y as int, b.y as int) as i64,
        z: sub_v(a.z as int, b.z as int) as i64,
    }
}

pub open spec fn v3_neg_v(v: Vec3Fx) -> Vec3Fx {
    Vec3Fx { x: neg_v(v.x as int) as i64, y: neg_v(v.y as int) as i64, z: neg_v(v.z as int) as i64 }
}

pub open spec fn v3_scale_v(s: int, v: Vec3Fx) -> Vec3Fx {
    Vec3Fx {
        x: mul_v(s, v.x as int) as i64,
        y: mul_v(s, v.y as int) as i64,
        z: mul_v(s, v.z as int) as i64,
    }
}

/// The cross product, in saturating fixed-point arithmetic.
pub open spec fn v3_cross_v(a: Vec3Fx, b: Vec3Fx) -> Vec3Fx {
    Vec3Fx {
        x: sub_v(mul_v(a.y as int, b.z as int), mul_v(a.z as int, b.y as int)) as i64,
        y: sub_v(mul_v(a.z as int, b.x as int), mul_v(a.x as int, b.z as int)) as i64,
        z: sub_v(mul_v(a.x as int, b.y as int), mul_v(a.y as int, b.x as int)) as i64,
    }
}

/// The exact sum of the squared components (no truncation).
pub open spec fn v3_norm_sq_v(v: Vec3Fx) -> int {
    (v.x as int) * (v.x as int) + (v.y as int) * (v.y as int) + (v.z as int) * (v.z as int)
}

/// The Euclidean norm: the integer square root of the squared-component
/// sum, saturated into the scalar range.
pub open spec fn v3_norm_v(v: Vec3Fx) -> int {
    sat64(isqrt(v3_norm_sq_v(v) as nat) as int)
}

/// The direction of `v`: each component divided by the norm.
pub open spec fn v3_normalize_v(v: Vec3Fx) -> Vec3Fx {
    Vec3Fx {
        x: div_v(v.x as int, v3_norm_v(v)) as i64,
        y: div_v(v.y as int, v3_norm_v(v)) as i64,
        z: div_v(v.z as int, v3_norm_v(v)) as i64,
    }
}

pub fn v3_add(a: Vec3Fx, b: Vec3Fx) -> (r: Vec3Fx)
    ensures
        r == v3_add_v(a, b),
{
    Vec3Fx { x: fx_add(a.x, b.x), y: fx_add(a.y, b.y), z: fx_add(a.z, b.z) }
}

pub fn v3_sub(a: Vec3Fx, b: Vec3Fx) -> (r: Vec3Fx)
    ensures
        r == v3_sub_v(a, b),
{
    Vec3Fx { x: fx_sub(a.x, b.x), y: fx_sub(a.y, b.y), z: fx_sub(a.z, b.z) }
}

pub fn v3_neg(v: Vec3Fx) -> (r: Vec3Fx)
    ensures
        r == v3_neg_v(v),
{
    Vec3Fx { x: fx_neg(v.x), y: fx_neg(v.y), z: fx_neg(v.z) }
}

pub fn v3_scale(s: i64, v: Vec3Fx) -> (r: Vec3Fx)
    ensures
        r == v3_scale_v(s as int, v),
{
    Vec3Fx { x: fx_mul(s, v.x), y: fx_mul(s, v.y), z: fx_mul(s, v.z) }
}

pub fn v3_cross(a: Vec3Fx, b: Vec3Fx) -> (r: Vec3Fx)
    ensures
        r == v3_cross_v(a, b),
{
    Vec3Fx {
        x: fx_sub(fx_mul(a.y, b.z), fx_mul(a.z, b.y)),
        y: fx_sub(fx_mul(a.z, b.x), fx_mul(a.x, b.z)),
        z: fx_sub(fx_mul(a.x, b.y), fx_mul(a.y, b.x)),
    }
}

/// The square of one component, as an unsigned 128-bit value.
fn sq_u128(c: i64) -> (s: u128)
    ensures
        s == (c as int) * (c as int),
        s <= 0x4000_0000_0000_0000_0000_0000_0000_0000,
{
    proof {
        assert(0 <= (c as int) * (c as int)
            <= 0x4000_0000_0000_0000_0000_0000_0000_0000int) by (nonlinear_arith)
            requires
                -0x8000_0000_0000_0000 <= c <= 0x7fff_ffff_ffff_ffff,
        ;
    }
    let p: i128 = (c as i128) * (c as i128);
    p as u128
}

/// The Euclidean norm of a vector. Zero exactly for the zero vector.
pub fn v3_norm(v: Vec3Fx) -> (r: i64)
    ensures
        r == v3_norm_v(v),
        r >= 0,
        (r == 0) <==> v == (Vec3Fx { x: 0, y: 0, z: 0 }),
{
    let sum: u128 = sq_u128(v.x) + sq_u128(v.y) + sq_u128(v.z);
    let root = isqrt_u128(sum);
    proof {
        lemma_isqrt(sum as nat);
        if v.x != 0 || v.y != 0 || v.z != 0 {
            assert(sum >= 1) by (nonlinear_arith)
                requires
                    sum == (v.x as int) * (v.x as int) + (v.y as int) * (v.y as int) + (v.z
                        as int) * (v.z as int),
                    v.x != 0 || v.y != 0 || v.z != 0,
            ;
            let s = isqrt(sum as nat);
            if s == 0 {
                assert((s + 1) * (s + 1) == 1) by (nonlinear_arith)
                    requires
                        s == 0,
                ;
                assert(false);
            }
            assert(s >= 1);
        } else {
            assert(sum == 0) by (nonlinear_arith)
                requires
                    sum == (v.x as int) * (v.x as int) + (v.y as int) * (v.y as int) + (v.z
                        as int) * (v.z as int),
                    v.x == 0 && v.y == 0 && v.z == 0,
            ;
            let s = isqrt(sum as nat);
            assert(s == 0) by (nonlinear_arith)
                requires
                    s * s <= sum,
                    sum == 0,
            ;
        }
    }
    if root > 0x7fff_ffff_ffff_ffff {
        i64::MAX
    } else {
        root as i64
    }
}

/// The direction of `v`, or `None` for the zero vector.
pub fn v3_try_normalize(v: Vec3Fx) -> (r: Option<Vec3Fx>)
    ensures
        r matches Some(u) ==> u == v3_normalize_v(v) && v != (Vec3Fx { x: 0, y: 0, z: 0 }),
        r is None <==> v == (Vec3Fx { x: 0, y: 0, z: 0 }),
{
    let n = v3_norm(v);
    if n == 0 {
        None
    } else {
        Some(Vec3Fx { x: fx_div(v.x, n), y: fx_div(v.y, n), z: fx_div(v.z, n) })
    }
}

} // verus!
