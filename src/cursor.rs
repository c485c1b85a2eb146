//! The cursor: from window coordinates to world coordinates, and whether a
//! click reaches a round target.
use vstd::prelude::*;

use crate::{CURSOR_RANGE, WORLD_LIMIT};

verus! {

/// A click at `(px, py)` reaches a round target of diameter `size` centred at
/// `(tx, ty)`: it lies strictly closer to the centre than `size - CURSOR_RANGE`.
pub open spec fn within_reach(px: int, py: int, tx: int, ty: int, size: int) -> bool {
    let dx = px - tx;
    let dy = py - ty;
    let reach = size - CURSOR_RANGE;
    reach > 0 && dx * dx + dy * dy < reach * reach
}

/// Turns a cursor position in window coordinates (origin at the top left, `y`
/// growing downwards) into world coordinates (origin at the centre, `y`
/// growing upwards), for a window of the given size.
pub fn cursor_to_world(cursor_x: i64, cursor_y: i64, width: i64, height: i64) -> (r: (i64, i64))
    requires
        0 <= cursor_x <= width <= WORLD_LIMIT,
        0 <= cursor_y <= height <= WORLD_LIMIT,
    ensures
        r.0 == cursor_x - width / 2,
        r.1 == height / 2 - cursor_y,
        -WORLD_LIMIT <= r.0 <= WORLD_LIMIT,
        -WORLD_LIMIT <= r.1 <= WORLD_LIMIT,
{
    (cursor_x - width / 2, height / 2 - cursor_y)
}

/// Whether a click at `(px, py)` reaches a round target of diameter `size`
/// centred at `(tx, ty)`.
pub fn reaches(px: i64, py: i64, tx: i64, ty: i64, size: i64) -> (r: bool)
    requires
        -WORLD_LIMIT <= px <= WORLD_LIMIT,
        -WORLD_LIMIT <= py <= WORLD_LIMIT,
        -WORLD_LIMIT <= tx <= WORLD_LIMIT,
        -WORLD_LIMIT <= ty <= WORLD_LIMIT,
        0 <= size <= WORLD_LIMIT,
    ensures
        r == within_reach(px as int, py as int, tx as int, ty as int, size as int),
{
    let dx = px - tx;
    let dy = py - ty;
    let reach = size - CURSOR_RANGE;
    if reach <= 0 {
        return false;
    }
    assert(0 <= dx * dx <= 0x1000000000000000) by (nonlinear_arith)
        requires
            -0x40000000 <= dx <= 0x40000000,
    ;
    assert(0 <= dy * dy <= 0x1000000000000000) by (nonlinear_arith)
        requires
            -0x40000000 <= dy <= 0x40000000,
    ;
    assert(0 <= reach * reach <= 0x1000000000000000) by (nonlinear_arith)
        requires
            0 <= reach <= 0x40000000,
    ;
    dx * dx + dy * dy < reach * reach
}

} // verus!
