//! IEEE 754 binary64 values as raw bit patterns.
//!
//! Every analog value in this crate is a `u64` holding the bits of a binary64
//! number. Change detection compares the bits themselves, so a NaN or a change
//! of sign on zero is a change. Timestamps are compared as numbers, which this
//! module defines on the bit patterns.

use vstd::prelude::*;

verus! {

/// The bits of `0.0`: the resting value of every axis and button.
pub const ZERO: u64 = 0;

/// The bits of `-1.0`: the timestamp of a state built before any reading.
pub const BASELINE_TIMESTAMP: u64 = 0xBFF0_0000_0000_0000;

/// The bits of positive infinity; a larger magnitude is a NaN.
pub const INFINITY: u64 = 0x7FF0_0000_0000_0000;

/// The bit pattern without its sign bit.
pub open spec fn magnitude(bits: u64) -> int {
    bits as int % 0x8000_0000_0000_0000
}

/// Whether the bit pattern encodes a NaN: the exponent is all ones and the
/// fraction is not zero.
pub open spec fn is_nan(bits: u64) -> bool {
    magnitude(bits) > INFINITY
}

/// Whether the bit pattern encodes `0.0` or `-0.0`.
pub open spec fn is_zero(bits: u64) -> bool {
    magnitude(bits) == 0
}

/// Numeric equality of two binary64 values given by their bits: a NaN equals
/// nothing, the two zeros equal each other, and every other value equals only
/// its own bit pattern.
pub open spec fn number_eq(a: u64, b: u64) -> bool {
    !is_nan(a) && !is_nan(b) && (a == b || (is_zero(a) && is_zero(b)))
}

/// Numeric equality on bit patterns, as `==` on the two numbers would decide.
pub fn same_number(a: u64, b: u64) -> (eq: bool)
    ensures
        eq == number_eq(a, b),
{
    let mag_a: u64 = a & 0x7FFF_FFFF_FFFF_FFFF;
    let mag_b: u64 = b & 0x7FFF_FFFF_FFFF_FFFF;
    assert(mag_a == a % 0x8000_0000_0000_0000) by (bit_vector)
        requires
            mag_a == a & 0x7FFF_FFFF_FFFF_FFFF,
    ;
    assert(mag_b == b % 0x8000_0000_0000_0000) by (bit_vector)
        requires
            mag_b == b & 0x7FFF_FFFF_FFFF_FFFF,
    ;
    if mag_a > INFINITY || mag_b > INFINITY {
        false
    } else {
        a == b || (mag_a == 0 && mag_b == 0)
    }
}

} // verus!
