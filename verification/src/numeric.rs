//! Integer arithmetic shared by the rules: division that rounds toward zero and
//! narrowing that saturates.

use vstd::prelude::*;

verus! {

/// Quotient of `a` by a positive `b`, rounded toward zero.
pub open spec fn div_toward_zero(a: int, b: int) -> int
    recommends
        b > 0,
{
    if a >= 0 {
        a / b
    } else {
        -((-a) / b)
    }
}

/// The value of the 32-bit signed range that lies nearest to `x`.
pub open spec fn clamp_i32(x: int) -> int {
    if x < i32::MIN {
        i32::MIN as int
    } else if x > i32::MAX {
        i32::MAX as int
    } else {
        x
    }
}

/// The value of the 32-bit unsigned range that lies nearest to `x`.
pub open spec fn clamp_u32(x: int) -> int {
    if x < 0 {
        0
    } else if x > u32::MAX {
        u32::MAX as int
    } else {
        x
    }
}

/// Narrows `x` to 32 bits, stopping at the ends of the range.
pub fn saturate_i32(x: i128) -> (r: i32)
    ensures
        r == clamp_i32(x as int),
{
    if x < -2147483648i128 {
        -2147483648i32
    } else if x > 2147483647i128 {
        2147483647i32
    } else {
        x as i32
    }
}

/// Narrows `x` to 32 unsigned bits, stopping at the ends of the range.
pub fn saturate_u32(x: i128) -> (r: u32)
    ensures
        r == clamp_u32(x as int),
{
    if x < 0i128 {
        0u32
    } else if x > 4294967295i128 {
        4294967295u32
    } else {
        x as u32
    }
}

/// Divides by a positive number and rounds toward zero.
pub fn divide_toward_zero(a: i128, b: i128) -> (q: i128)
    requires
        b > 0,
    ensures
        q == div_toward_zero(a as int, b as int),
{
    a / b
}

/// A quotient rounded toward zero lies between zero and the dividend.
pub proof fn lemma_div_toward_zero_bounds(a: int, b: int)
    requires
        b > 0,
    ensures
        a >= 0 ==> 0 <= div_toward_zero(a, b) <= a,
        a <= 0 ==> a <= div_toward_zero(a, b) <= 0,
{
    if a >= 0 {
        vstd::arithmetic::div_mod::lemma_div_pos_is_pos(a, b);
        vstd::arithmetic::div_mod::lemma_div_is_ordered_by_denominator(a, 1, b);
        vstd::arithmetic::div_mod::lemma_div_basics(a);
    } else {
        vstd::arithmetic::div_mod::lemma_div_pos_is_pos(-a, b);
        vstd::arithmetic::div_mod::lemma_div_is_ordered_by_denominator(-a, 1, b);
        vstd::arithmetic::div_mod::lemma_div_basics(-a);
    }
}

} // verus!
