use vstd::prelude::*;

verus! {

/// `a * b`, held at 255 when the product does not fit in a byte.
pub open spec fn sat_mul_u8(a: u8, b: u8) -> u8 {
    if a * b > 255 {
        255
    } else {
        (a * b) as u8
    }
}

/// The saturating product of two bytes.
pub fn saturating_mul_u8(a: u8, b: u8) -> (r: u8)
    ensures
        r == sat_mul_u8(a, b),
{
    assert(a as u16 * b as u16 <= 255 * 255) by (nonlinear_arith)
        requires
            a <= 255,
            b <= 255,
    ;
    let wide: u16 = a as u16 * b as u16;
    if wide > 255 {
        255
    } else {
        wide as u8
    }
}

/// The smaller of two integers.
pub open spec fn min_int(a: int, b: int) -> int {
    if a <= b {
        a
    } else {
        b
    }
}

/// The larger of two integers.
pub open spec fn max_int(a: int, b: int) -> int {
    if a >= b {
        a
    } else {
        b
    }
}

/// `x` held inside `[lo, hi]`.
pub open spec fn clamp_int(x: int, lo: int, hi: int) -> int {
    if x < lo {
        lo
    } else if x > hi {
        hi
    } else {
        x
    }
}

/// Integer division rounding toward zero, as Rust's `/` on signed integers does.
pub open spec fn div_trunc(a: int, b: int) -> int {
    let q = (if a >= 0 { a } else { -a }) / (if b >= 0 { b } else { -b });
    if (a >= 0) == (b >= 0) {
        q
    } else {
        -q
    }
}

/// `a / b` on `i16`, rounding toward zero.
pub fn div_toward_zero_i16(a: i16, b: i16) -> (r: i16)
    requires
        b != 0,
        !(a == i16::MIN && b == -1),
    ensures
        r == div_trunc(a as int, b as int),
{
    let aa: i32 = if a >= 0 { a as i32 } else { -(a as i32) };
    let bb: i32 = if b >= 0 { b as i32 } else { -(b as i32) };
    let q = aa / bb;
    proof {
        vstd::arithmetic::div_mod::lemma_div_is_ordered_by_denominator(aa as int, 1, bb as int);
        if bb >= 2 {
            vstd::arithmetic::div_mod::lemma_div_is_ordered_by_denominator(aa as int, 2, bb as int);
        }
    }
    if (a >= 0) == (b >= 0) {
        q as i16
    } else {
        (-q) as i16
    }
}

/// `a / b` on `i32`, rounding toward zero.
pub fn div_toward_zero_i32(a: i32, b: i32) -> (r: i32)
    requires
        b != 0,
        !(a == i32::MIN && b == -1),
    ensures
        r == div_trunc(a as int, b as int),
{
    let aa: i64 = if a >= 0 { a as i64 } else { -(a as i64) };
    let bb: i64 = if b >= 0 { b as i64 } else { -(b as i64) };
    let q = aa / bb;
    proof {
        vstd::arithmetic::div_mod::lemma_div_is_ordered_by_denominator(aa as int, 1, bb as int);
        if bb >= 2 {
            vstd::arithmetic::div_mod::lemma_div_is_ordered_by_denominator(aa as int, 2, bb as int);
        }
    }
    if (a >= 0) == (b >= 0) {
        q as i32
    } else {
        (-q) as i32
    }
}

} // verus!
