//! Grid geometry: bounds, Manhattan distance, unit steps toward a target.
use vstd::prelude::*;

verus! {

/// Side length of the square board.
pub const GRID_SIZE: u8 = 10;

/// Column and row of the board's centre.
pub const CENTER: u8 = 5;

/// A cell lies on the board.
pub open spec fn in_bounds(x: int, y: int) -> bool {
    0 <= x < GRID_SIZE && 0 <= y < GRID_SIZE
}

pub open spec fn abs(v: int) -> int {
    if v < 0 { -v } else { v }
}

pub open spec fn sign(v: int) -> int {
    if v > 0 { 1 } else if v < 0 { -1 } else { 0 }
}

/// Clamp a coordinate onto the board.
pub open spec fn clamp_coord(v: int) -> int {
    if v < 0 { 0 } else if v > 9 { 9 } else { v }
}

pub open spec fn manhattan(ax: int, ay: int, bx: int, by: int) -> int {
    abs(ax - bx) + abs(ay - by)
}

/// One unit step from `(x, y)` toward `(tx, ty)`, the x axis first.
pub open spec fn step_toward(x: int, y: int, tx: int, ty: int) -> (int, int) {
    if x < tx {
        (x + 1, y)
    } else if x > tx {
        (x - 1, y)
    } else if y < ty {
        (x, y + 1)
    } else if y > ty {
        (x, y - 1)
    } else {
        (x, y)
    }
}

/// Manhattan distance between two cells of the board.
pub fn distance(ax: u8, ay: u8, bx: u8, by: u8) -> (r: u8)
    requires
        ax <= 9 && ay <= 9 && bx <= 9 && by <= 9,
    ensures
        r == manhattan(ax as int, ay as int, bx as int, by as int),
        r <= 18,
{
    let dx: u8 = if ax >= bx { ax - bx } else { bx - ax };
    let dy: u8 = if ay >= by { ay - by } else { by - ay };
    dx + dy
}

} // verus!

verus! {

/// One unit step from `(x, y)` toward `(tx, ty)`, the x axis first.
pub fn step(x: u8, y: u8, tx: u8, ty: u8) -> (r: (u8, u8))
    requires
        x <= 9 && y <= 9 && tx <= 9 && ty <= 9,
    ensures
        (r.0 as int, r.1 as int) == step_toward(x as int, y as int, tx as int, ty as int),
        r.0 <= 9 && r.1 <= 9,
{
    if x < tx {
        (x + 1, y)
    } else if x > tx {
        (x - 1, y)
    } else if y < ty {
        (x, y + 1)
    } else if y > ty {
        (x, y - 1)
    } else {
        (x, y)
    }
}

} // verus!
