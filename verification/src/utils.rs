use vstd::prelude::*;

verus! {

/// Relies on rand::random_range: a uniform draw from `0 .. n`. It panics
/// only on an empty range, which the precondition rules out; nothing more
/// than the range can be promised of a random draw.
#[verifier::external_body]
pub fn rand_int(n: i32) -> (r: i32)
    requires
        1 <= n,
    ensures
        0 <= r < n,
{
    rand::random_range(0..n)
}

/// A draw in `0..100` biased toward small values: the scaled product of
/// two uniform draws.
pub fn rand_low100() -> (r: i32)
    ensures
        0 <= r < 100,
{
    let a = rand_int(1000);
    let b = rand_int(1000);
    proof {
        assert(0 <= a * b <= 999 * 999) by (nonlinear_arith)
            requires
                0 <= a < 1000,
                0 <= b < 1000,
        ;
    }
    (a * b) / 10000
}

/// A draw from the three horizontal directions.
pub fn rand_dir() -> (r: i32)
    ensures
        -1 <= r <= 1,
{
    let i = rand_int(1000);
    (i % 3) - 1
}

/// A fair draw from the two horizontal directions.
pub fn rand_dir_2() -> (r: i32)
    ensures
        r == -1 || r == 1,
{
    let i = rand_int(1000);
    if i % 2 == 0 {
        -1
    } else {
        1
    }
}

/// A draw from the nine unit offsets, the zero offset included.
pub fn rand_vec() -> (r: (i32, i32))
    ensures
        -1 <= r.0 <= 1,
        -1 <= r.1 <= 1,
{
    let i = rand_int(2000);
    match i % 9 {
        0 => (1, 1),
        1 => (1, 0),
        2 => (1, -1),
        3 => (0, -1),
        4 => (-1, -1),
        5 => (-1, 0),
        6 => (-1, 1),
        7 => (0, 1),
        _ => (0, 0),
    }
}

/// A draw from the eight true unit offsets, never the zero offset.
pub fn rand_vec_8() -> (r: (i32, i32))
    ensures
        -1 <= r.0 <= 1,
        -1 <= r.1 <= 1,
        !(r.0 == 0 && r.1 == 0),
{
    let i = rand_int(2000);
    match i % 8 {
        0 => (1, 1),
        1 => (1, 0),
        2 => (1, -1),
        3 => (0, -1),
        4 => (-1, -1),
        5 => (-1, 0),
        6 => (-1, 1),
        _ => (0, 1),
    }
}

/// The unit offset one step clockwise from `dir`, or the zero offset for
/// anything that is not a true unit offset.
pub open spec fn spec_adjacency_right(dx: int, dy: int) -> (int, int) {
    if (dx, dy) == (0int, 1int) {
        (1int, 1int)
    } else if (dx, dy) == (1int, 1int) {
        (1int, 0int)
    } else if (dx, dy) == (1int, 0int) {
        (1int, -1int)
    } else if (dx, dy) == (1int, -1int) {
        (0int, -1int)
    } else if (dx, dy) == (0int, -1int) {
        (-1int, -1int)
    } else if (dx, dy) == (-1int, -1int) {
        (-1int, 0int)
    } else if (dx, dy) == (-1int, 0int) {
        (-1int, 1int)
    } else if (dx, dy) == (-1int, 1int) {
        (0int, 1int)
    } else {
        (0int, 0int)
    }
}

/// The unit offset one step counter-clockwise from `dir`, or the zero
/// offset for anything that is not a true unit offset.
pub open spec fn spec_adjacency_left(dx: int, dy: int) -> (int, int) {
    if (dx, dy) == (0int, 1int) {
        (-1int, 1int)
    } else if (dx, dy) == (1int, 1int) {
        (0int, 1int)
    } else if (dx, dy) == (1int, 0int) {
        (1int, 1int)
    } else if (dx, dy) == (1int, -1int) {
        (1int, 0int)
    } else if (dx, dy) == (0int, -1int) {
        (1int, -1int)
    } else if (dx, dy) == (-1int, -1int) {
        (0int, -1int)
    } else if (dx, dy) == (-1int, 0int) {
        (-1int, -1int)
    } else if (dx, dy) == (-1int, 1int) {
        (-1int, 0int)
    } else {
        (0int, 0int)
    }
}

/// Rotates a unit offset one step clockwise.
pub fn adjacency_right(dir: (i32, i32)) -> (r: (i32, i32))
    ensures
        (r.0 as int, r.1 as int) == spec_adjacency_right(dir.0 as int, dir.1 as int),
{
    match dir {
        (0, 1) => (1, 1),
        (1, 1) => (1, 0),
        (1, 0) => (1, -1),
        (1, -1) => (0, -1),
        (0, -1) => (-1, -1),
        (-1, -1) => (-1, 0),
        (-1, 0) => (-1, 1),
        (-1, 1) => (0, 1),
        _ => (0, 0),
    }
}

/// Rotates a unit offset one step counter-clockwise.
pub fn adjacency_left(dir: (i32, i32)) -> (r: (i32, i32))
    ensures
        (r.0 as int, r.1 as int) == spec_adjacency_left(dir.0 as int, dir.1 as int),
{
    match dir {
        (0, 1) => (-1, 1),
        (1, 1) => (0, 1),
        (1, 0) => (1, 1),
        (1, -1) => (1, 0),
        (0, -1) => (1, -1),
        (-1, -1) => (0, -1),
        (-1, 0) => (-1, -1),
        (-1, 1) => (-1, 0),
        _ => (0, 0),
    }
}

/// Packs a pair of offsets from `{-1, 0, 1}` into one byte in `0..=8`.
pub fn join_dy_dx(dx: i32, dy: i32) -> (r: u8)
    requires
        -1 <= dx <= 1,
        -1 <= dy <= 1,
    ensures
        r as int == (dx + 1) * 3 + (dy + 1),
        r <= 8,
{
    (((dx + 1) * 3) + (dy + 1)) as u8
}

/// Unpacks a byte into the offset pair `join_dy_dx` packed, shifted into
/// `{-1, 0, 1}` for bytes below nine.
pub fn split_dy_dx(s: u8) -> (r: (i32, i32))
    ensures
        r.0 as int == s as int / 3 - 1,
        r.1 as int == s as int % 3 - 1,
{
    let si = s as i32;
    let dx: i32 = (si / 3) - 1;
    let dy: i32 = (si % 3) - 1;
    (dx, dy)
}

} // verus!
