use vstd::prelude::*;
use std::cmp::Ordering;

verus! {

/// Mask of everything but the sign bit of a binary32 number.
pub const MAGNITUDE_MASK: u32 = 0x7fff_ffff;

/// The sign bit of a binary32 number.
pub const SIGN_BIT: u32 = 0x8000_0000;

/// Bit pattern of the binary32 number 1.0.
pub const ONE_BITS: u32 = 0x3f80_0000;

/// The exponent field of a binary32 number.
pub const EXPONENT_MASK: u32 = 0x7f80_0000;

/// The fraction field of a binary32 number.
pub const FRACTION_MASK: u32 = 0x007f_ffff;

/// The number is a NaN: all exponent bits set and a nonzero fraction.
pub open spec fn spec_is_nan(b: u32) -> bool {
    (b & EXPONENT_MASK) == EXPONENT_MASK && (b & FRACTION_MASK) != 0
}

/// The number is `+0.0` or `-0.0`.
pub open spec fn spec_is_zero(b: u32) -> bool {
    (b & MAGNITUDE_MASK) == 0
}

/// The number compares below `0.0`.
pub open spec fn spec_is_negative(b: u32) -> bool {
    (b & SIGN_BIT) != 0 && !spec_is_zero(b) && !spec_is_nan(b)
}

/// The number is nonzero and its absolute value is below `1.0`.
pub open spec fn spec_is_small_nonzero(b: u32) -> bool {
    !spec_is_zero(b) && (b & MAGNITUDE_MASK) < ONE_BITS
}

/// A key whose integer order is the numeric order of binary32 numbers that
/// are not NaN; both zeros get the key 0.
pub open spec fn order_key(b: u32) -> int {
    if (b & SIGN_BIT) != 0 {
        -((b & MAGNITUDE_MASK) as int)
    } else {
        (b & MAGNITUDE_MASK) as int
    }
}

/// IEEE-754 equality: NaN equals nothing, and the two zeros are equal.
pub open spec fn spec_float_eq(a: u32, b: u32) -> bool {
    !spec_is_nan(a) && !spec_is_nan(b) && (a == b || (spec_is_zero(a) && spec_is_zero(b)))
}

/// IEEE-754 partial order: no answer where a NaN takes part.
pub open spec fn spec_float_partial_cmp(a: u32, b: u32) -> Option<Ordering> {
    if spec_is_nan(a) || spec_is_nan(b) {
        None
    } else if order_key(a) < order_key(b) {
        Some(Ordering::Less)
    } else if order_key(a) > order_key(b) {
        Some(Ordering::Greater)
    } else {
        Some(Ordering::Equal)
    }
}

pub fn is_nan_bits(b: u32) -> (r: bool)
    ensures
        r == spec_is_nan(b),
{
    (b & EXPONENT_MASK) == EXPONENT_MASK && (b & FRACTION_MASK) != 0
}

/// Whether the binary32 number with bit pattern `b` equals `0.0`.
pub fn is_zero_bits(b: u32) -> (r: bool)
    ensures
        r == spec_is_zero(b),
{
    (b & MAGNITUDE_MASK) == 0
}

/// Whether the binary32 number with bit pattern `b` is below `0.0`.
pub fn is_negative_bits(b: u32) -> (r: bool)
    ensures
        r == spec_is_negative(b),
{
    (b & SIGN_BIT) != 0 && !is_zero_bits(b) && !is_nan_bits(b)
}

pub fn is_small_nonzero_bits(b: u32) -> (r: bool)
    ensures
        r == spec_is_small_nonzero(b),
{
    !is_zero_bits(b) && (b & MAGNITUDE_MASK) < ONE_BITS
}

fn key_of(b: u32) -> (r: i64)
    ensures
        r as int == order_key(b),
{
    let m: u32 = b & MAGNITUDE_MASK;
    if (b & SIGN_BIT) != 0 {
        -(m as i64)
    } else {
        m as i64
    }
}

/// `==` between two binary32 numbers given by their bit patterns.
pub fn float_eq(a: u32, b: u32) -> (r: bool)
    ensures
        r == spec_float_eq(a, b),
{
    !is_nan_bits(a) && !is_nan_bits(b) && (a == b || (is_zero_bits(a) && is_zero_bits(b)))
}

/// `partial_cmp` between two binary32 numbers given by their bit patterns.
pub fn float_partial_cmp(a: u32, b: u32) -> (r: Option<Ordering>)
    ensures
        r == spec_float_partial_cmp(a, b),
{
    if is_nan_bits(a) || is_nan_bits(b) {
        None
    } else {
        let ka = key_of(a);
        let kb = key_of(b);
        if ka < kb {
            Some(Ordering::Less)
        } else if ka > kb {
            Some(Ordering::Greater)
        } else {
            Some(Ordering::Equal)
        }
    }
}

} // verus!
