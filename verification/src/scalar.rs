//! Binary64 samples, carried as their raw bit patterns.
//!
//! The solver stores every velocity and density sample as the 64-bit pattern
//! of an IEEE-754 binary64 number. Arithmetic on samples is performed by
//! rustc_apfloat's software implementation of IEEE-754 behind the trusted
//! wrappers below. Each arithmetic result is a function of the argument bit
//! patterns alone, so it is given a name by an uninterpreted spec function;
//! the grid logic on top is then verified for every value those names can
//! take, and in particular cannot depend on anything the arithmetic does not
//! determine.

use rustc_apfloat::ieee::Double;
use rustc_apfloat::Float;
use vstd::prelude::*;

verus! {

/// Bit pattern of the binary64 value `0.0`, also the zero-padding sample.
pub const ZERO_BITS: u64 = 0;

/// Bit pattern of the binary64 value `0.01`, the advection time step.
pub const DT_BITS: u64 = 0x3f84_7ae1_47ae_147b;

/// Bit pattern of the binary64 value `0.001`, the damping factor.
pub const VISCOSITY_BITS: u64 = 0x3f50_624d_d2f1_a9fc;

/// Bit pattern of the binary64 value `0.5`, the central-difference weight.
pub const HALF_BITS: u64 = 0x3fe0_0000_0000_0000;

/// Smallest bit pattern that is not a positive finite binary64 value: any
/// pattern below it has a clear sign bit and an exponent that is not all
/// ones, so it denotes a positive finite number or a positive zero.
pub const POSITIVE_INFINITY_BITS: u64 = 0x7ff0_0000_0000_0000;

/// The binary64 sum of two samples, by bit pattern.
pub uninterp spec fn bits_add(a: u64, b: u64) -> u64;

/// The binary64 difference of two samples, by bit pattern.
pub uninterp spec fn bits_sub(a: u64, b: u64) -> u64;

/// The binary64 product of two samples, by bit pattern.
pub uninterp spec fn bits_mul(a: u64, b: u64) -> u64;

/// The binary64 value a grid coordinate converts to, by bit pattern.
pub uninterp spec fn bits_of_coord(x: usize) -> u64;

/// The whole cell coordinate a sample truncates to (rounding toward zero,
/// saturating at the ends of the `usize` range, zero for NaN).
pub uninterp spec fn cell_of_bits(s: u64) -> usize;

/// Relies on rustc_apfloat's binary64 addition (round to nearest, ties to
/// even): the sum is a function of the two bit patterns alone, and the sum
/// of two positive zeros is a positive zero.
#[verifier::external_body]
pub(crate) fn add_bits(a: u64, b: u64) -> (r: u64)
    ensures
        r == bits_add(a, b),
        a == ZERO_BITS && b == ZERO_BITS ==> r == ZERO_BITS,
{
    (Double::from_bits(a as u128) + Double::from_bits(b as u128)).value.to_bits() as u64
}

/// Relies on rustc_apfloat's binary64 subtraction (round to nearest, ties to
/// even): the difference is a function of the two bit patterns alone, and
/// the difference of two positive zeros is a positive zero.
#[verifier::external_body]
pub(crate) fn sub_bits(a: u64, b: u64) -> (r: u64)
    ensures
        r == bits_sub(a, b),
        a == ZERO_BITS && b == ZERO_BITS ==> r == ZERO_BITS,
{
    (Double::from_bits(a as u128) - Double::from_bits(b as u128)).value.to_bits() as u64
}

/// Relies on rustc_apfloat's binary64 multiplication (round to nearest, ties
/// to even): the product is a function of the two bit patterns alone, and a
/// positive zero times a positive finite value is a positive zero, in either
/// order.
#[verifier::external_body]
pub(crate) fn mul_bits(a: u64, b: u64) -> (r: u64)
    ensures
        r == bits_mul(a, b),
        a < POSITIVE_INFINITY_BITS && b == ZERO_BITS ==> r == ZERO_BITS,
        a == ZERO_BITS && b < POSITIVE_INFINITY_BITS ==> r == ZERO_BITS,
{
    (Double::from_bits(a as u128) * Double::from_bits(b as u128)).value.to_bits() as u64
}

/// Relies on rustc_apfloat's integer-to-binary64 conversion: the binary64
/// value of a grid coordinate, a function of the coordinate alone.
#[verifier::external_body]
pub(crate) fn coord_bits(x: usize) -> (r: u64)
    ensures
        r == bits_of_coord(x),
{
    Double::from_u128(x as u128).value.to_bits() as u64
}

/// Relies on rustc_apfloat's binary64-to-integer conversion with rounding
/// toward zero, whose documentation fixes every outcome: zero for NaN, the
/// smallest value below the range, the largest value above it.
#[verifier::external_body]
pub(crate) fn cell_bits(s: u64) -> (r: usize)
    ensures
        r == cell_of_bits(s),
{
    Double::from_bits(s as u128).to_u128(64).value as usize
}

} // verus!
