//! The order and equality of 64-bit IEEE-754 floats, stated over their bit
//! patterns.
//!
//! A pattern holds a sign in its top bit and a magnitude in the other 63. A
//! magnitude above that of infinity is no number (NaN). Numbers are ordered
//! by sign and magnitude; the two zeros are equal; a NaN is neither equal to
//! nor ordered against anything, itself included.
use vstd::prelude::*;

verus! {

/// The bit that holds the sign.
pub const SIGN_BIT: u64 = 0x8000_0000_0000_0000;

/// The magnitude of infinity: every larger magnitude is a NaN.
pub const INFINITY_BITS: u64 = 0x7ff0_0000_0000_0000;

/// The magnitude of a pattern: the pattern without its sign.
pub open spec fn magnitude(bits: u64) -> int {
    if bits >= SIGN_BIT {
        bits - SIGN_BIT
    } else {
        bits as int
    }
}

/// Whether the pattern is no number.
pub open spec fn is_nan(bits: u64) -> bool {
    magnitude(bits) > INFINITY_BITS
}

/// The place of a number on the number line, as an integer that grows with
/// the number: the magnitude, negated under a sign. Both zeros stand at 0.
pub open spec fn rank(bits: u64) -> int {
    if bits >= SIGN_BIT {
        -magnitude(bits)
    } else {
        magnitude(bits)
    }
}

/// Whether the two patterns are numbers and equal as floats.
pub open spec fn float_eq(a: u64, b: u64) -> bool {
    !is_nan(a) && !is_nan(b) && rank(a) == rank(b)
}

/// Whether the two patterns are numbers and the first is the greater float.
pub open spec fn float_gt(a: u64, b: u64) -> bool {
    !is_nan(a) && !is_nan(b) && rank(a) > rank(b)
}

/// Whether the pattern is no number.
pub fn is_not_a_number(bits: u64) -> (r: bool)
    ensures
        r == is_nan(bits),
{
    let m = if bits >= SIGN_BIT {
        bits - SIGN_BIT
    } else {
        bits
    };
    m > INFINITY_BITS
}

/// Whether the two patterns are numbers and equal as floats.
pub fn equal(a: u64, b: u64) -> (r: bool)
    ensures
        r == float_eq(a, b),
{
    if is_not_a_number(a) || is_not_a_number(b) {
        return false;
    }
    a == b || ((a == 0 || a == SIGN_BIT) && (b == 0 || b == SIGN_BIT))
}

/// Whether the two patterns are numbers and the first is the greater float.
pub fn greater(a: u64, b: u64) -> (r: bool)
    ensures
        r == float_gt(a, b),
{
    if is_not_a_number(a) || is_not_a_number(b) {
        return false;
    }
    if a >= SIGN_BIT {
        b >= SIGN_BIT && a < b
    } else if b >= SIGN_BIT {
        a > 0 || b > SIGN_BIT
    } else {
        a > b
    }
}

} // verus!
