//! Q31.32 fixed-point scalars: the numeric ground floor of the crate.
//!
//! A scalar is an `i64` holding `value * 2^32`. Arithmetic saturates at the
//! `i64` range, multiplication and division truncate toward zero, and every
//! operation is specified exactly at the `int` level, so all camera math
//! built on top of these operations has an exact mathematical description.

use vstd::prelude::*;

verus! {

/// Fixed-point one: 2^32.
pub const FX_ONE: i64 = 0x1_0000_0000;

/// Nearest fixed-point value to the mathematical constant pi.
pub const FX_PI: i64 = 13493037705;

/// Nearest fixed-point value to pi / 2.
pub const FX_PI_2: i64 = 6746518852;

/// Nearest fixed-point value to 2 * pi, the period used for yaw wrapping.
pub const FX_TAU: i64 = 26986075409;

/// The scale factor between a fixed-point scalar and the value it stands for.
pub open spec fn scale() -> int {
    0x1_0000_0000
}

/// Saturate an unbounded integer into the `i64` range.
pub open spec fn sat64(x: int) -> int {
    if x > i64::MAX {
        i64::MAX as int
    } else if x < i64::MIN {
        i64::MIN as int
    } else {
        x
    }
}

/// Division truncating toward zero (the rounding used by fixed-point
/// multiplication and division), for a positive divisor.
pub open spec fn tdiv(p: int, d: int) -> int {
    if p >= 0 {
        p / d
    } else {
        -((-p) / d)
    }
}


/// Saturating fixed-point addition.
pub open spec fn add_v(a: int, b: int) -> int {
    sat64(a + b)
}

/// Saturating fixed-point subtraction.
pub open spec fn sub_v(a: int, b: int) -> int {
    sat64(a - b)
}

/// Saturating fixed-point negation.
pub open spec fn neg_v(a: int) -> int {
    sat64(-a)
}

/// Saturating fixed-point absolute value.
pub open spec fn abs_v(a: int) -> int {
    sat64(if a < 0 {
        -a
    } else {
        a
    })
}

/// Saturating fixed-point multiplication, truncating toward zero.
pub open spec fn mul_v(a: int, b: int) -> int {
    sat64(tdiv(a * b, scale()))
}

/// Saturating fixed-point division by a positive divisor, truncating
/// toward zero.
pub open spec fn div_v(a: int, b: int) -> int {
    sat64(tdiv(a * scale(), b))
}

/// Clamp a value into `[lo, hi]`.
pub open spec fn clamp_v(x: int, lo: int, hi: int) -> int {
    if x < lo {
        lo
    } else if x > hi {
        hi
    } else {
        x
    }
}

/// Add two fixed-point scalars, saturating at the representable range.
pub fn fx_add(a: i64, b: i64) -> (r: i64)
    ensures
        r == add_v(a as int, b as int),
{
    match a.checked_add(b) {
        Some(s) => s,
        None => {
            if a > 0 {
                i64::MAX
            } else {
                i64::MIN
            }
        },
    }
}

/// Subtract two fixed-point scalars, saturating at the representable range.
pub fn fx_sub(a: i64, b: i64) -> (r: i64)
    ensures
        r == sub_v(a as int, b as int),
{
    match a.checked_sub(b) {
        Some(s) => s,
        None => {
            if a >= 0 {
                i64::MAX
            } else {
                i64::MIN
            }
        },
    }
}

/// Negate a fixed-point scalar, saturating at the representable range.
pub fn fx_neg(a: i64) -> (r: i64)
    ensures
        r == neg_v(a as int),
{
    if a == i64::MIN {
        i64::MAX
    } else {
        -a
    }
}

/// Absolute value of a fixed-point scalar, saturating at the representable
/// range.
pub fn fx_abs(a: i64) -> (r: i64)
    ensures
        r == abs_v(a as int),
{
    if a < 0 {
        fx_neg(a)
    } else {
        a
    }
}

/// Clamp a fixed-point scalar into `[lo, hi]`.
pub fn fx_clamp(x: i64, lo: i64, hi: i64) -> (r: i64)
    requires
        lo <= hi,
    ensures
        r == clamp_v(x as int, lo as int, hi as int),
{
    if x < lo {
        lo
    } else if x > hi {
        hi
    } else {
        x
    }
}

/// Saturate a 128-bit intermediate into the `i64` range.
pub(crate) fn sat_i128(q: i128) -> (r: i64)
    ensures
        r == sat64(q as int),
{
    if q > i64::MAX as i128 {
        i64::MAX
    } else if q < i64::MIN as i128 {
        i64::MIN
    } else {
        q as i64
    }
}

/// Truncating division of a 128-bit intermediate by a positive divisor,
/// bounded away from the `i128` range ends.
pub(crate) fn tdiv_i128(p: i128, d: i128) -> (q: i128)
    requires
        d > 0,
        i128::MIN < p,
    ensures
        q == tdiv(p as int, d as int),
{
    proof {
        if p >= 0 {
            vstd::arithmetic::div_mod::lemma_div_nonincreasing(p as int, d as int);
            vstd::arithmetic::div_mod::lemma_div_pos_is_pos(p as int, d as int);
        } else {
            vstd::arithmetic::div_mod::lemma_div_nonincreasing(-(p as int), d as int);
            vstd::arithmetic::div_mod::lemma_div_pos_is_pos(-(p as int), d as int);
        }
    }
    match p.checked_div(d) {
        Some(q) => q,
        None => 0,  // unreachable: the quotient is no larger in magnitude than p
    }
}

/// Multiply two fixed-point scalars, truncating toward zero and saturating
/// at the representable range.
pub fn fx_mul(a: i64, b: i64) -> (r: i64)
    ensures
        r == mul_v(a as int, b as int),
{
    proof {
        assert((a as int) * (b as int) <= 0x4000_0000_0000_0000_0000_0000_0000_0000int
            && -0x4000_0000_0000_0000_0000_0000_0000_0000int < (a as int) * (b as int))
            by (nonlinear_arith)
            requires
                -0x8000_0000_0000_0000 <= a <= 0x7fff_ffff_ffff_ffff,
                -0x8000_0000_0000_0000 <= b <= 0x7fff_ffff_ffff_ffff,
        ;
    }
    let p: i128 = (a as i128) * (b as i128);
    let q = tdiv_i128(p, 0x1_0000_0000);
    sat_i128(q)
}

/// Divide two fixed-point scalars by a positive divisor, truncating toward
/// zero and saturating at the representable range.
pub fn fx_div(a: i64, b: i64) -> (r: i64)
    requires
        b > 0,
    ensures
        r == div_v(a as int, b as int),
{
    let n: i128 = (a as i128) * 0x1_0000_0000;
    let q = tdiv_i128(n, b as i128);
    sat_i128(q)
}

/// Euclidean remainder of two fixed-point scalars: the result is always in
/// `[0, b)`.
pub fn fx_rem(a: i64, b: i64) -> (r: i64)
    requires
        b > 0,
    ensures
        r == (a as int) % (b as int),
        0 <= r < b,
{
    proof {
        vstd::arithmetic::div_mod::lemma_mod_division_less_than_divisor(a as int, b as int);
    }
    match a.checked_rem_euclid(b) {
        Some(r) => r,
        None => 0,  // unreachable: the divisor is positive
    }
}

/// The integer square root: the largest `r` with `r * r <= n`.
pub closed spec fn isqrt(n: nat) -> nat {
    choose|r: nat| #[trigger] (r * r) <= n < (r + 1) * (r + 1)
}

proof fn lemma_isqrt_exists(n: nat)
    ensures
        exists|r: nat| #[trigger] (r * r) <= n < (r + 1) * (r + 1),
    decreases n,
{
    if n == 0 {
        let r: nat = 0;
        assert(r * r <= n < (r + 1) * (r + 1)) by (nonlinear_arith)
            requires
                n == 0,
                r == 0,
        ;
    } else {
        lemma_isqrt_exists((n - 1) as nat);
        let r = choose|r: nat| #[trigger] (r * r) <= n - 1 < (r + 1) * (r + 1);
        if (r + 1) * (r + 1) == n {
            let s: nat = r + 1;
            assert(s * s <= n < (s + 1) * (s + 1)) by (nonlinear_arith)
                requires
                    s == r + 1,
                    (r + 1) * (r + 1) == n,
            ;
        } else {
            assert(r * r <= n < (r + 1) * (r + 1));
        }
    }
}

/// What `isqrt` yields: the unique `r` with `r * r <= n < (r + 1) * (r + 1)`.
pub proof fn lemma_isqrt(n: nat)
    ensures
        isqrt(n) * isqrt(n) <= n < (isqrt(n) + 1) * (isqrt(n) + 1),
{
    lemma_isqrt_exists(n);
}

proof fn lemma_isqrt_unique(n: nat, r: nat)
    requires
        r * r <= n < (r + 1) * (r + 1),
    ensures
        r == isqrt(n),
{
    lemma_isqrt(n);
    let s = isqrt(n);
    assert(r == s) by (nonlinear_arith)
        requires
            r * r <= n < (r + 1) * (r + 1),
            s * s <= n < (s + 1) * (s + 1),
    ;
}

/// The integer square root of a 128-bit value, by binary search.
pub(crate) fn isqrt_u128(n: u128) -> (r: u128)
    ensures
        r == isqrt(n as nat),
        r < 0x1_0000_0000_0000_0000,
{
    let mut lo: u128 = 0;
    let mut hi: u128 = 0x1_0000_0000_0000_0000;
    proof {
        assert(lo * lo <= n as int && (n as int) < hi * hi) by (nonlinear_arith)
            requires
                lo == 0,
                hi == 0x1_0000_0000_0000_0000u128,
                n <= u128::MAX,
        ;
    }
    while lo + 1 < hi
        invariant
            lo < hi <= 0x1_0000_0000_0000_0000,
            lo * lo <= n as int,
            (n as int) < hi * hi,
        decreases hi - lo,
    {
        let mid = lo + (hi - lo) / 2;
        proof {
            assert(mid * mid <= u128::MAX) by (nonlinear_arith)
                requires
                    mid < 0x1_0000_0000_0000_0000u128,
            ;
        }
        if mid * mid <= n {
            lo = mid;
        } else {
            hi = mid;
        }
    }
    proof {
        lemma_isqrt_unique(n as nat, lo as nat);
    }
    lo
}

} // verus!
