//! A bit-level view of IEEE-754 binary64 values, and trusted wrappers for the
//! three binary64 operations the predicates evaluate with.
//!
//! A value is carried as the `u64` that `f64::to_bits` returns for it. The
//! sign, the magnitude ordering and the NaN-ness of a binary64 value can all
//! be read off that pattern: the top bit is the sign, and for two values that
//! are not NaN the order of their absolute values is the unsigned order of
//! the remaining 63 bits, with the infinities largest and the NaN patterns
//! strictly beyond them.
//!
//! The arithmetic itself is done by `rustc_apfloat`'s `Double`, a software
//! implementation of IEEE-754 binary64 with the default round-to-nearest,
//! ties-to-even rounding: on every pair of operands it returns the very bit
//! pattern the hardware operation returns.

use vstd::prelude::*;
use vstd::arithmetic::power2::pow2;
use rustc_apfloat::Float;

verus! {

/// Mask selecting the sign bit of a binary64 bit pattern.
pub const F64_SIGN_MASK: u64 = 0x8000_0000_0000_0000;

/// Mask selecting the magnitude (exponent and mantissa) bits of a binary64
/// bit pattern.
pub const F64_MAG_MASK: u64 = 0x7FFF_FFFF_FFFF_FFFF;

/// Magnitude bits of positive infinity. A pattern is NaN exactly when its
/// magnitude bits exceed this, and finite exactly when they fall below it.
pub const F64_INF_MAG: u64 = 0x7FF0_0000_0000_0000;

/// The magnitude bits of a binary64 pattern: the pattern with its sign bit
/// cleared. For non-NaN values, unsigned order of these bits is the order of
/// the absolute values.
pub open spec fn mag_bits(b: u64) -> u64 {
    b & F64_MAG_MASK
}

/// Whether the sign bit of a binary64 pattern is set.
pub open spec fn sign_bit_set(b: u64) -> bool {
    b & F64_SIGN_MASK != 0
}

/// Whether a binary64 pattern denotes a NaN.
pub open spec fn is_nan_bits(b: u64) -> bool {
    mag_bits(b) > F64_INF_MAG
}

/// Magnitude bits of `2.0^-255`, the low end of the moderate window.
pub const F64_MODERATE_LO: u64 = 0x3000_0000_0000_0000;

/// Magnitude bits of `2.0^255`, the high end of the moderate window.
pub const F64_MODERATE_HI: u64 = 0x4FE0_0000_0000_0000;

/// Whether a binary64 pattern denotes zero or a value whose magnitude lies
/// between `2.0^-255` and `2.0^255`. Coordinates in this window keep every
/// intermediate of the predicates' arithmetic — differences, their products,
/// and the error terms of an adaptive expansion — far from both overflow and
/// underflow.
pub open spec fn moderate_bits(b: u64) -> bool {
    mag_bits(b) == 0 || F64_MODERATE_LO <= mag_bits(b) <= F64_MODERATE_HI
}

/// The real value a finite binary64 pattern denotes, scaled by `2^1074` so
/// that it is an integer: a subnormal pattern contributes its raw mantissa,
/// a normal one its mantissa with the implicit bit, shifted by the unbiased
/// exponent. Both zeros map to 0. The formula yields an integer for
/// non-finite patterns too, but carries no meaning there.
pub open spec fn mag_val_scaled(b: u64) -> int {
    let e = mag_bits(b) >> 52;
    let m = (b & 0x000F_FFFF_FFFF_FFFF) as int;
    if e == 0 {
        m
    } else {
        (m + 0x10_0000_0000_0000) * pow2((e - 1) as nat) as int
    }
}

/// The signed real value a finite binary64 pattern denotes, scaled by
/// `2^1074` to an integer.
pub open spec fn f64_val_scaled(b: u64) -> int {
    if sign_bit_set(b) {
        -mag_val_scaled(b)
    } else {
        mag_val_scaled(b)
    }
}

/// The bit pattern of the binary64 sum of the values with patterns `a` and `b`.
pub uninterp spec fn fadd_bits(a: u64, b: u64) -> u64;

/// The bit pattern of the binary64 difference of the values with patterns `a` and `b`.
pub uninterp spec fn fsub_bits(a: u64, b: u64) -> u64;

/// The bit pattern of the binary64 product of the values with patterns `a` and `b`.
pub uninterp spec fn fmul_bits(a: u64, b: u64) -> u64;

/// Relies on `rustc_apfloat::ieee::Double`'s addition: IEEE-754 binary64
/// addition, a deterministic function of the two operands' bit patterns.
#[verifier::external_body]
pub(crate) fn add_f64_bits(a: u64, b: u64) -> (r: u64)
    ensures
        r == fadd_bits(a, b),
{
    let x = rustc_apfloat::ieee::Double::from_bits(a as u128);
    let y = rustc_apfloat::ieee::Double::from_bits(b as u128);
    (x + y).value.to_bits() as u64
}

/// Relies on `rustc_apfloat::ieee::Double`'s subtraction: IEEE-754 binary64
/// subtraction, a deterministic function of the operands' bit patterns, in
/// which a NaN operand yields a NaN result. Because the exact difference
/// negates when the operands are exchanged and round-to-nearest rounds a
/// negated value to the negated result, the two operand orders are NaN
/// together, and on non-NaN results they agree in magnitude and, when that
/// magnitude is not zero, carry opposite signs (both directions of an exact
/// tie give +0.0, so nothing is claimed of the sign of a zero result).
#[verifier::external_body]
pub(crate) fn sub_f64_bits(a: u64, b: u64) -> (r: u64)
    ensures
        r == fsub_bits(a, b),
        is_nan_bits(a) || is_nan_bits(b) ==> is_nan_bits(r),
        is_nan_bits(fsub_bits(b, a)) == is_nan_bits(r),
        !is_nan_bits(r) ==> mag_bits(fsub_bits(b, a)) == mag_bits(r),
        !is_nan_bits(r) && mag_bits(r) != 0 ==> sign_bit_set(fsub_bits(b, a)) != sign_bit_set(r),
{
    let x = rustc_apfloat::ieee::Double::from_bits(a as u128);
    let y = rustc_apfloat::ieee::Double::from_bits(b as u128);
    (x - y).value.to_bits() as u64
}

/// Relies on `rustc_apfloat::ieee::Double`'s multiplication: IEEE-754
/// binary64 multiplication, a deterministic function of the operands' bit
/// patterns, in which a NaN operand yields a NaN result and the correctly
/// rounded product does not depend on the order of the operands, so the two
/// orders are NaN together and agree bit for bit on every non-NaN result.
#[verifier::external_body]
pub(crate) fn mul_f64_bits(a: u64, b: u64) -> (r: u64)
    ensures
        r == fmul_bits(a, b),
        is_nan_bits(a) || is_nan_bits(b) ==> is_nan_bits(r),
        is_nan_bits(fmul_bits(b, a)) == is_nan_bits(r),
        !is_nan_bits(r) ==> fmul_bits(b, a) == r,
{
    let x = rustc_apfloat::ieee::Double::from_bits(a as u128);
    let y = rustc_apfloat::ieee::Double::from_bits(b as u128);
    (x * y).value.to_bits() as u64
}

} // verus!
