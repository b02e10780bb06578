//! IEEE-754 binary64 encodings.
//!
//! The engine carries every scalar as the raw bit pattern of a
//! double-precision number, held in a `u64`. The predicates here restate,
//! directly on the encoding, the handful of comparisons the engine makes
//! (equality, sign tests, the magnitude guard of the protected division), so
//! that the dispatch logic can be specified and verified without
//! floating-point arithmetic.

use vstd::prelude::*;

verus! {

/// Bit pattern of 0.0.
pub const ZERO_BITS: u64 = 0;

/// Bit pattern of 1.0.
pub const ONE_BITS: u64 = 0x3FF0_0000_0000_0000;

/// Bit pattern of the quiet NaN that the backward relu rule writes.
pub const NAN_BITS: u64 = 0x7FF8_0000_0000_0000;

/// Bit pattern of the binary64 machine epsilon, 2^-52.
pub const EPSILON_BITS: u64 = 0x3CB0_0000_0000_0000;

/// Mask that clears the sign bit of an encoding.
pub const ABS_MASK: u64 = 0x7FFF_FFFF_FFFF_FFFF;

/// The sign bit of an encoding: 0 for non-negative, 1 for negative.
pub open spec fn sign_of(b: u64) -> u64 {
    b >> 63
}

/// The 11-bit exponent field of an encoding.
pub open spec fn exponent_of(b: u64) -> u64 {
    (b >> 52) & 0x7FF
}

/// The 52-bit fraction field of an encoding.
pub open spec fn fraction_of(b: u64) -> u64 {
    b & 0x000F_FFFF_FFFF_FFFF
}

/// The encoding is a NaN: exponent all ones with a nonzero fraction.
pub open spec fn spec_is_nan(b: u64) -> bool {
    exponent_of(b) == 0x7FF && fraction_of(b) != 0
}

/// The encoding is one of the two zeros.
pub open spec fn spec_is_zero(b: u64) -> bool {
    b & ABS_MASK == 0
}

/// IEEE equality on encodings: a NaN equals nothing, the two zeros equal
/// each other, and every other value equals exactly its own encoding.
pub open spec fn spec_eq(a: u64, b: u64) -> bool {
    &&& !spec_is_nan(a)
    &&& !spec_is_nan(b)
    &&& (a == b || (spec_is_zero(a) && spec_is_zero(b)))
}

/// The encoded value is strictly greater than zero. A NaN is not, and
/// neither zero is.
pub open spec fn spec_gt_zero(b: u64) -> bool {
    &&& sign_of(b) == 0
    &&& !spec_is_zero(b)
    &&& !spec_is_nan(b)
}

/// The encoded value is strictly less than zero. A NaN is not, and neither
/// zero is.
pub open spec fn spec_lt_zero(b: u64) -> bool {
    &&& sign_of(b) == 1
    &&& !spec_is_zero(b)
    &&& !spec_is_nan(b)
}

/// The magnitude of the encoded value is strictly below the machine epsilon.
/// For finite values the ordering of magnitudes is the unsigned ordering of
/// the sign-cleared encodings; a NaN has no magnitude below anything.
pub open spec fn spec_abs_below_epsilon(b: u64) -> bool {
    &&& !spec_is_nan(b)
    &&& (b & ABS_MASK) < EPSILON_BITS
}

/// The encoding is a NaN.
#[verifier::when_used_as_spec(spec_is_nan)]
pub fn is_nan(b: u64) -> (r: bool)
    ensures
        r == spec_is_nan(b),
{
    (b >> 52) & 0x7FF == 0x7FF && b & 0x000F_FFFF_FFFF_FFFF != 0
}

/// The encoding is one of the two zeros.
#[verifier::when_used_as_spec(spec_is_zero)]
pub fn is_zero(b: u64) -> (r: bool)
    ensures
        r == spec_is_zero(b),
{
    b & ABS_MASK == 0
}

/// IEEE equality of the two encoded values.
#[verifier::when_used_as_spec(spec_eq)]
pub fn eq_bits(a: u64, b: u64) -> (r: bool)
    ensures
        r == spec_eq(a, b),
{
    !is_nan(a) && !is_nan(b) && (a == b || (is_zero(a) && is_zero(b)))
}

/// The encoded value is strictly greater than zero.
#[verifier::when_used_as_spec(spec_gt_zero)]
pub fn gt_zero(b: u64) -> (r: bool)
    ensures
        r == spec_gt_zero(b),
{
    b >> 63 == 0 && !is_zero(b) && !is_nan(b)
}

/// The encoded value is strictly less than zero.
#[verifier::when_used_as_spec(spec_lt_zero)]
pub fn lt_zero(b: u64) -> (r: bool)
    ensures
        r == spec_lt_zero(b),
{
    b >> 63 == 1 && !is_zero(b) && !is_nan(b)
}

/// The magnitude of the encoded value is strictly below the machine epsilon.
#[verifier::when_used_as_spec(spec_abs_below_epsilon)]
pub fn abs_below_epsilon(b: u64) -> (r: bool)
    ensures
        r == spec_abs_below_epsilon(b),
{
    !is_nan(b) && b & ABS_MASK < EPSILON_BITS
}

/// Every encoding that is not a NaN is greater than zero, less than zero or
/// a zero, and these three cases exclude one another.
pub proof fn lemma_sign_trichotomy(b: u64)
    requires
        !spec_is_nan(b),
    ensures
        spec_gt_zero(b) || spec_lt_zero(b) || spec_is_zero(b),
        spec_gt_zero(b) ==> !spec_lt_zero(b) && !spec_is_zero(b),
        spec_lt_zero(b) ==> !spec_gt_zero(b) && !spec_is_zero(b),
        spec_is_zero(b) ==> !spec_gt_zero(b) && !spec_lt_zero(b),
{
    assert(b >> 63 == 0 || b >> 63 == 1) by (bit_vector);
}

} // verus!
