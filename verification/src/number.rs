//! Numbers as binary64 encodings: sign, zero and NaN tests, negation and
//! comparison on the encodings themselves.

use vstd::prelude::*;

verus! {

/// The sign bit of a binary64 encoding.
pub const SIGN_BIT: u64 = 0x8000_0000_0000_0000;

/// The encoding of positive infinity: every larger magnitude is a NaN.
pub const INFINITY_BITS: u64 = 0x7ff0_0000_0000_0000;

/// The rounding operations that the evaluator asks its caller to perform.
#[derive(Debug, Clone, Copy, PartialEq, Eq, Structural)]
pub enum ArithOp {
    Add,
    Subtract,
    Multiply,
    Divide,
    Power,
}

/// The encoding with its sign bit cleared.
pub open spec fn magnitude(bits: u64) -> u64 {
    if bits >= SIGN_BIT {
        (bits - SIGN_BIT) as u64
    } else {
        bits
    }
}

/// The encoding is not a number.
pub open spec fn is_nan(bits: u64) -> bool {
    magnitude(bits) > INFINITY_BITS
}

/// The encoding is positive or negative zero.
pub open spec fn is_zero(bits: u64) -> bool {
    magnitude(bits) == 0
}

/// An integer that orders the encodings other than NaN as their values are
/// ordered: the magnitude, negated under a set sign bit. Both zeros give 0.
pub open spec fn order_key(bits: u64) -> int {
    if bits >= SIGN_BIT {
        -(magnitude(bits) as int)
    } else {
        magnitude(bits) as int
    }
}

/// Numeric equality: false when either side is a NaN, and the two zeros are
/// equal.
pub open spec fn num_equal(a: u64, b: u64) -> bool {
    !is_nan(a) && !is_nan(b) && order_key(a) == order_key(b)
}

/// Numeric `<`: false when either side is a NaN.
pub open spec fn num_less(a: u64, b: u64) -> bool {
    !is_nan(a) && !is_nan(b) && order_key(a) < order_key(b)
}

/// Numeric `<=`: false when either side is a NaN.
pub open spec fn num_less_equal(a: u64, b: u64) -> bool {
    !is_nan(a) && !is_nan(b) && order_key(a) <= order_key(b)
}

/// The encoding with its sign bit flipped.
pub open spec fn negated(bits: u64) -> u64 {
    if bits >= SIGN_BIT {
        (bits - SIGN_BIT) as u64
    } else {
        (bits + SIGN_BIT) as u64
    }
}

fn abs_bits(bits: u64) -> (r: u64)
    ensures
        r == magnitude(bits),
{
    if bits >= SIGN_BIT {
        bits - SIGN_BIT
    } else {
        bits
    }
}

fn key(bits: u64) -> (r: i128)
    ensures
        r == order_key(bits),
{
    let m: i128 = abs_bits(bits) as i128;
    if bits >= SIGN_BIT {
        -m
    } else {
        m
    }
}

/// Tests for a NaN.
pub fn nan(bits: u64) -> (r: bool)
    ensures
        r == is_nan(bits),
{
    abs_bits(bits) > INFINITY_BITS
}

/// Tests for positive or negative zero.
pub fn zero(bits: u64) -> (r: bool)
    ensures
        r == is_zero(bits),
{
    abs_bits(bits) == 0
}

/// Arithmetic negation.
pub fn negate(bits: u64) -> (r: u64)
    ensures
        r == negated(bits),
{
    if bits >= SIGN_BIT {
        bits - SIGN_BIT
    } else {
        bits + SIGN_BIT
    }
}

/// Numeric equality of two encodings.
pub fn equal(a: u64, b: u64) -> (r: bool)
    ensures
        r == num_equal(a, b),
{
    !nan(a) && !nan(b) && key(a) == key(b)
}

/// Numeric `<` of two encodings.
pub fn less(a: u64, b: u64) -> (r: bool)
    ensures
        r == num_less(a, b),
{
    !nan(a) && !nan(b) && key(a) < key(b)
}

/// Numeric `<=` of two encodings.
pub fn less_equal(a: u64, b: u64) -> (r: bool)
    ensures
        r == num_less_equal(a, b),
{
    !nan(a) && !nan(b) && key(a) <= key(b)
}

} // verus!
