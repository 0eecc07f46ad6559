use vstd::prelude::*;

verus! {

/// Bit pattern of the sign bit of a single-precision number.
pub const SIGN_BIT: u32 = 0x8000_0000;

/// Magnitude bits of an infinity; a larger magnitude is a NaN.
pub const INFINITY_MAGNITUDE: u32 = 0x7f80_0000;

/// Bit pattern of positive zero.
pub const ZERO: u32 = 0;

/// Bit pattern of the largest finite single-precision number.
pub const LARGEST_FINITE: u32 = 0x7f7f_ffff;

/// Bit pattern of the most negative finite single-precision number.
pub const LOWEST_FINITE: u32 = 0xff7f_ffff;

/// The bits of `b` without its sign.
pub open spec fn magnitude(b: u32) -> int {
    if b >= SIGN_BIT {
        b - SIGN_BIT
    } else {
        b as int
    }
}

/// `b` encodes a NaN.
pub open spec fn is_nan(b: u32) -> bool {
    magnitude(b) > INFINITY_MAGNITUDE
}

/// Place of `b` on the number line: numbers that are not NaN compare as their
/// ranks do, and both zeros have rank 0.
pub open spec fn rank(b: u32) -> int {
    if b >= SIGN_BIT {
        -magnitude(b)
    } else {
        magnitude(b)
    }
}

/// The IEEE-754 comparison `a < b`: false when either is NaN.
pub open spec fn lt(a: u32, b: u32) -> bool {
    !is_nan(a) && !is_nan(b) && rank(a) < rank(b)
}

/// The IEEE-754 comparison `a <= b`: false when either is NaN.
pub open spec fn le(a: u32, b: u32) -> bool {
    !is_nan(a) && !is_nan(b) && rank(a) <= rank(b)
}

/// The IEEE-754 comparison `a > b`.
pub open spec fn gt(a: u32, b: u32) -> bool {
    lt(b, a)
}

/// The IEEE-754 comparison `a >= b`.
pub open spec fn ge(a: u32, b: u32) -> bool {
    le(b, a)
}

/// Whether the bit pattern `b` encodes a NaN.
pub fn is_nan_bits(b: u32) -> (r: bool)
    ensures
        r == is_nan(b),
{
    let m: u32 = if b >= SIGN_BIT {
        b - SIGN_BIT
    } else {
        b
    };
    m > INFINITY_MAGNITUDE
}

/// The rank of the bit pattern `b` (see [`rank`]).
pub fn rank_of(b: u32) -> (r: i64)
    ensures
        r == rank(b),
{
    if b >= SIGN_BIT {
        -((b - SIGN_BIT) as i64)
    } else {
        b as i64
    }
}

/// `a < b` on the numbers that `a` and `b` encode.
pub fn less_than(a: u32, b: u32) -> (r: bool)
    ensures
        r == lt(a, b),
{
    !is_nan_bits(a) && !is_nan_bits(b) && rank_of(a) < rank_of(b)
}

/// `a <= b` on the numbers that `a` and `b` encode.
pub fn less_or_equal(a: u32, b: u32) -> (r: bool)
    ensures
        r == le(a, b),
{
    !is_nan_bits(a) && !is_nan_bits(b) && rank_of(a) <= rank_of(b)
}

} // verus!
