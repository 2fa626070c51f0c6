//! IEEE 754 binary32 numbers, read through their bit patterns.
//!
//! A pattern below `SIGN_BIT` has a clear sign bit; among those, the
//! patterns up to `INFINITY_BITS` are the numbers from zero to positive
//! infinity, in the order of the numbers themselves, and the patterns above
//! it are not numbers. A pattern from `SIGN_BIT` on has the sign bit set;
//! `SIGN_BIT` itself is negative zero.

use vstd::prelude::*;

verus! {

/// The pattern of positive infinity.
pub const INFINITY_BITS: u32 = 0x7f80_0000;

/// The pattern of negative zero: the sign bit alone.
pub const SIGN_BIT: u32 = 0x8000_0000;

/// The number is greater than zero. Positive infinity is; what is not a
/// number is not.
pub open spec fn is_positive(bits: u32) -> bool {
    0 < bits <= INFINITY_BITS
}

/// The number is finite and not below zero. Both zeros are.
pub open spec fn is_finite_non_negative(bits: u32) -> bool {
    bits < INFINITY_BITS || bits == SIGN_BIT
}

/// The place of a magnitude in the search for a peak: a greater number has
/// a greater rank, and whatever is below zero or not a number has the rank
/// of zero, since it exceeds no magnitude.
pub open spec fn peak_rank(bits: u32) -> nat {
    if bits <= INFINITY_BITS {
        bits as nat
    } else {
        0
    }
}

/// Tests `is_positive`.
pub fn exceeds_zero(bits: u32) -> (r: bool)
    ensures
        r == is_positive(bits),
{
    0 < bits && bits <= INFINITY_BITS
}

/// Tests `is_finite_non_negative`.
pub fn finite_non_negative(bits: u32) -> (r: bool)
    ensures
        r == is_finite_non_negative(bits),
{
    bits < INFINITY_BITS || bits == SIGN_BIT
}

/// Computes `peak_rank`.
pub fn rank_of(bits: u32) -> (r: u32)
    ensures
        r == peak_rank(bits),
{
    if bits <= INFINITY_BITS {
        bits
    } else {
        0
    }
}

} // verus!
