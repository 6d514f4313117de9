use vstd::prelude::*;

verus! {

/// The sign of an integer: `-1`, `0` or `1`.
pub open spec fn sgn(a: int) -> int {
    if a > 0 {
        1
    } else if a < 0 {
        -1
    } else {
        0
    }
}

/// An integer clamped into the `i8` range.
pub open spec fn sat_i8(a: int) -> int {
    if a > 127 {
        127
    } else if a < -128 {
        -128
    } else {
        a
    }
}

/// Truncating division by ten, rounding toward zero as the hardware does.
pub open spec fn tdiv10(a: int) -> int {
    if a >= 0 {
        a / 10
    } else {
        -((-a) / 10)
    }
}

/// The magnitude of an integer.
pub open spec fn abs_of(a: int) -> int {
    if a < 0 {
        -a
    } else {
        a
    }
}

/// Saturating addition on signed bytes.
pub fn sat_add_i8(a: i8, b: i8) -> (r: i8)
    ensures
        r as int == sat_i8(a + b),
{
    let s: i16 = a as i16 + b as i16;
    if s > 127 {
        127
    } else if s < -128 {
        -128
    } else {
        s as i8
    }
}

/// A 16-bit value clamped into the `i8` range.
pub fn clamp_i8(s: i16) -> (r: i8)
    ensures
        r as int == sat_i8(s as int),
{
    if s > 127 {
        127
    } else if s < -128 {
        -128
    } else {
        s as i8
    }
}

/// The sign of a signed byte.
pub fn sgn_i8(a: i8) -> (r: i8)
    ensures
        r as int == sgn(a as int),
{
    if a > 0 {
        1
    } else if a < 0 {
        -1
    } else {
        0
    }
}

/// Truncating division of a signed byte by ten.
pub fn div10_i8(a: i8) -> (r: i32)
    ensures
        r as int == tdiv10(a as int),
{
    if a >= 0 {
        (a as i32) / 10
    } else {
        -((-(a as i32)) / 10)
    }
}

} // verus!
