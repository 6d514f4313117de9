use vstd::prelude::*;
use crate::num::{sgn, abs_of};

verus! {

/// The single unit move that best approximates the straight line from the
/// origin to `(dx, dy)`: diagonal when the two magnitudes are close, along
/// the dominant axis otherwise.
pub open spec fn step_of(dx: int, dy: int) -> (int, int) {
    let ax = abs_of(dx);
    let ay = abs_of(dy);
    if ay < ax {
        if 2 * ay >= ax { (sgn(dx), sgn(dy)) } else { (sgn(dx), 0int) }
    } else if ay > ax {
        if 2 * ax >= ay { (sgn(dx), sgn(dy)) } else { (0int, sgn(dy)) }
    } else {
        (sgn(dx), sgn(dy))
    }
}

/// Unit step along the line toward `(dx, dy)`, as a pair of offsets in
/// `{-1, 0, 1}`. A cell that travels several cells in one tick takes this
/// step repeatedly, so it visits every intermediate cell of the line.
pub fn next_pixel(dx: i32, dy: i32) -> (r: (i32, i32))
    ensures
        (r.0 as int, r.1 as int) == step_of(dx as int, dy as int),
{
    let ax: i64 = if dx < 0 { -(dx as i64) } else { dx as i64 };
    let ay: i64 = if dy < 0 { -(dy as i64) } else { dy as i64 };
    let sx: i32 = if dx > 0 { 1 } else if dx < 0 { -1 } else { 0 };
    let sy: i32 = if dy > 0 { 1 } else if dy < 0 { -1 } else { 0 };
    if ay < ax {
        if 2 * ay >= ax { (sx, sy) } else { (sx, 0) }
    } else if ay > ax {
        if 2 * ax >= ay { (sx, sy) } else { (0, sy) }
    } else {
        (sx, sy)
    }
}

} // verus!
