//! Small arithmetic helpers shared by the window-update laws: clamping to
//! the window's range and exact widened multiply-divide.

use vstd::arithmetic::div_mod::{lemma_div_is_ordered, lemma_div_multiples_vanish};
use vstd::arithmetic::mul::lemma_mul_inequality;
use vstd::prelude::*;

verus! {

/// `v` clamped to the range of a `u32` window value.
pub open spec fn clamped(v: int) -> u32 {
    if v > u32::MAX {
        u32::MAX
    } else {
        v as u32
    }
}

/// The product of two `u32` values fits in a `u64`.
pub proof fn lemma_u32_mul_fits_u64(a: u32, b: u32)
    ensures
        0 <= (a as int) * (b as int) <= 0xffff_fffe_0000_0001,
{
    assert(0 <= (a as int) * (b as int) <= 0xffff_ffff * 0xffff_ffff) by (nonlinear_arith)
        requires
            0 <= a <= 0xffff_ffff,
            0 <= b <= 0xffff_ffff,
    ;
}

/// Multiplying by a factor at least as large as the divisor does not
/// shrink: `c * a / b >= c` when `a >= b >= 1`.
pub proof fn lemma_mul_div_grows(c: int, a: int, b: int)
    requires
        c >= 0,
        a >= b,
        b >= 1,
    ensures
        c * a / b >= c,
{
    lemma_mul_inequality(b, a, c);
    lemma_div_multiples_vanish(c, b);
    lemma_div_is_ordered(b * c, a * c, b);
}

/// Dividing a non-negative value by a positive divisor never grows it.
pub proof fn lemma_div_at_most_numerator(x: int, d: int)
    requires
        x >= 0,
        d >= 1,
    ensures
        0 <= x / d <= x,
{
    vstd::arithmetic::div_mod::lemma_div_is_ordered_by_denominator(x, 1, d);
    vstd::arithmetic::div_mod::lemma_div_basics(d);
    assert(x / 1 == x) by (nonlinear_arith);
    vstd::arithmetic::div_mod::lemma_div_pos_is_pos(x, d);
}

/// `a * b / c`, computed without overflow.
pub fn mul_div_u32(a: u32, b: u32, c: u32) -> (r: u64)
    requires
        c >= 1,
    ensures
        r == (a as int) * (b as int) / (c as int),
{
    proof {
        lemma_u32_mul_fits_u64(a, b);
    }
    ((a as u64) * (b as u64)) / (c as u64)
}

/// `v` clamped to the range of a `u32` window value.
pub fn clamp_to_u32(v: u64) -> (r: u32)
    ensures
        r == clamped(v as int),
{
    if v > (u32::MAX as u64) {
        u32::MAX
    } else {
        v as u32
    }
}

} // verus!
