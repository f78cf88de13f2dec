//! Axis-aligned boxes and the grid projection, in fixed-point subunits.

use vstd::prelude::*;
use vstd::arithmetic::div_mod::lemma_fundamental_div_mod;
use vstd::arithmetic::div_mod::lemma_fundamental_div_mod_converse;

verus! {

/// Number of fixed-point subunits in one world unit.
pub const SUBUNITS_PER_UNIT: i64 = 1024;

/// Edge length of one grid cell, in subunits (32 world units).
pub const CELL_SIZE_SUB: i64 = 32 * SUBUNITS_PER_UNIT;

/// Coordinates handled by the geometry helpers stay within this magnitude,
/// so that sums and differences of two of them fit in an `i64`.
pub const COORD_LIMIT_SUB: i64 = 0x4000_0000_0000;

/// An axis-aligned bounding box given by its min and max corners.
/// Touching edges (`max` of one equal to `min` of the other) do not overlap.
#[derive(Clone, Copy, PartialEq, Eq, Structural, Debug)]
pub struct Aabb {
    pub min_x: i64,
    pub min_y: i64,
    pub max_x: i64,
    pub max_y: i64,
}

/// Two boxes overlap when they intersect with positive area on both axes;
/// the comparison is strict, so boxes that merely touch do not overlap.
pub open spec fn overlaps(a: Aabb, b: Aabb) -> bool {
    &&& a.min_x < b.max_x
    &&& a.max_x > b.min_x
    &&& a.min_y < b.max_y
    &&& a.max_y > b.min_y
}

impl Aabb {
    /// The box centered at `(cx, cy)` extending `half_x` and `half_y`
    /// subunits from the center on each axis.
    pub fn from_center(cx: i64, cy: i64, half_x: i64, half_y: i64) -> (r: Aabb)
        requires
            0 <= half_x <= COORD_LIMIT_SUB,
            0 <= half_y <= COORD_LIMIT_SUB,
            -COORD_LIMIT_SUB <= cx <= COORD_LIMIT_SUB,
            -COORD_LIMIT_SUB <= cy <= COORD_LIMIT_SUB,
        ensures
            r.min_x == cx - half_x,
            r.max_x == cx + half_x,
            r.min_y == cy - half_y,
            r.max_y == cy + half_y,
    {
        Aabb {
            min_x: cx - half_x,
            min_y: cy - half_y,
            max_x: cx + half_x,
            max_y: cy + half_y,
        }
    }

    /// Strict AABB overlap test.
    pub fn intersects(&self, other: &Aabb) -> (r: bool)
        ensures
            r == overlaps(*self, *other),
    {
        self.min_x < other.max_x && self.max_x > other.min_x && self.min_y < other.max_y
            && self.max_y > other.min_y
    }
}

/// Grid cell holding a coordinate: the floor of the coordinate divided by
/// the cell size (ghost `/` on `int` is Euclidean, hence floor here).
pub open spec fn grid_cell_of(p: int) -> int {
    p / (CELL_SIZE_SUB as int)
}

/// Floor division of a coordinate by the cell size, negative inputs included.
pub fn grid_cell(p: i64) -> (r: i64)
    requires
        -COORD_LIMIT_SUB <= p <= COORD_LIMIT_SUB,
    ensures
        r as int == grid_cell_of(p as int),
{
    if p >= 0 {
        let q: u64 = (p as u64) / (CELL_SIZE_SUB as u64);
        q as i64
    } else {
        let n: u64 = (-1 - p) as u64;
        let q: u64 = n / (CELL_SIZE_SUB as u64);
        proof {
            let c = CELL_SIZE_SUB as int;
            lemma_fundamental_div_mod(n as int, c);
            lemma_fundamental_div_mod_converse(
                p as int,
                c,
                -(n as int / c) - 1,
                c - 1 - (n as int % c),
            );
        }
        -(q as i64) - 1
    }
}

} // verus!
