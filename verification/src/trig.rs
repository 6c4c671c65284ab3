//! Trigonometric routines, delegated to the `cordic` crate on `fixed`'s
//! Q31.32 numbers.
//!
//! The routines are deterministic functions of their argument bits alone,
//! so their results are given names (`sin_of`, `cos_of`, `atan_of`) that
//! the rest of the crate's contracts are stated over. Nothing is assumed
//! about the numeric quality of the results.

use vstd::prelude::*;

verus! {

/// What `cordic::sin` returns for a Q31.32 angle.
pub uninterp spec fn sin_of(angle: int) -> int;

/// What `cordic::cos` returns for a Q31.32 angle.
pub uninterp spec fn cos_of(angle: int) -> int;

/// What `cordic::atan` returns for a Q31.32 ratio.
pub uninterp spec fn atan_of(ratio: int) -> int;

/// Relies on cordic::sin: a pure function of the angle bits; for angles
/// within a few turns, its internal range reduction stays within Q31.32.
#[verifier::external_body]
pub(crate) fn fx_sin(angle: i64) -> (r: i64)
    requires
        -8 * 26986075409 <= angle <= 8 * 26986075409,
    ensures
        r == sin_of(angle as int),
{
    cordic::sin(fixed::types::I32F32::from_bits(angle)).to_bits()
}

/// Relies on cordic::cos: a pure function of the angle bits; for angles
/// within a few turns, its internal range reduction stays within Q31.32.
#[verifier::external_body]
pub(crate) fn fx_cos(angle: i64) -> (r: i64)
    requires
        -8 * 26986075409 <= angle <= 8 * 26986075409,
    ensures
        r == cos_of(angle as int),
{
    cordic::cos(fixed::types::I32F32::from_bits(angle)).to_bits()
}

/// Relies on cordic::atan: a pure function of the ratio bits; for ratios in
/// `[0, 1]`, its rotation loop stays within Q31.32.
#[verifier::external_body]
pub(crate) fn fx_atan(ratio: i64) -> (r: i64)
    requires
        0 <= ratio <= 0x1_0000_0000,
    ensures
        r == atan_of(ratio as int),
{
    cordic::atan(fixed::types::I32F32::from_bits(ratio)).to_bits()
}

} // verus!
