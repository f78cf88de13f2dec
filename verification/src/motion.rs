//! The per-tick motion and collision integrator.
//!
//! All coordinates are fixed-point subunits (`SUBUNITS_PER_UNIT` per world
//! unit) and the frame delta time is fixed-point seconds with the same
//! denominator, so one tick's step in subunits is simply
//! `BASE_SPEED_UNITS * dt`. A diagonal tick scales that step by the
//! fixed-point ratio `INV_SQRT2_NUM / INV_SQRT2_DEN ≈ 1/√2`, so that
//! diagonal motion covers the same distance as axis-aligned motion.

use vstd::prelude::*;
use vstd::arithmetic::div_mod::lemma_fundamental_div_mod;

use crate::direction::Direction;
use crate::geometry::Aabb;
use crate::geometry::SUBUNITS_PER_UNIT;
use crate::geometry::grid_cell;
use crate::geometry::grid_cell_of;

verus! {

/// Base movement speed, in world units per second. Multiplying by a
/// fixed-point delta time (seconds times `SUBUNITS_PER_UNIT`) yields the
/// tick's step directly in subunits.
pub const BASE_SPEED_UNITS: i64 = 200;

/// Half the entity/collider box edge, in subunits (16 world units).
pub const ENTITY_HALF_SIZE_SUB: i64 = 16 * SUBUNITS_PER_UNIT;

/// Width of the play field, in grid cells.
pub const GRID_WIDTH: i64 = 200;

/// Height of the play field, in grid cells.
pub const GRID_HEIGHT: i64 = 150;

/// Numerator of the fixed-point approximation of `1/√2`.
pub const INV_SQRT2_NUM: i64 = 46341;

/// Denominator of the fixed-point approximation of `1/√2`.
pub const INV_SQRT2_DEN: i64 = 0x10000;

/// Largest magnitude accepted for a position coordinate, in subunits.
pub const POS_LIMIT_SUB: i64 = 0x100_0000_0000;

/// Largest accepted fixed-point delta time (about 48 days).
pub const DT_LIMIT: i64 = 0x1_0000_0000;

/// A continuous-space position, in subunits.
#[derive(Clone, Copy, PartialEq, Eq, Structural, Debug)]
pub struct Pos {
    pub x: i64,
    pub y: i64,
}

/// A discrete grid cell, derived from a `Pos` by flooring.
#[derive(Clone, Copy, PartialEq, Eq, Structural, Debug)]
pub struct GridPos {
    pub x: i64,
    pub y: i64,
}

/// The controlled entity's state: its position and the grid cell derived
/// from it.
#[derive(Clone, Copy, PartialEq, Eq, Structural, Debug)]
pub struct PlayerState {
    pub pos: Pos,
    pub grid: GridPos,
}

/// Both coordinates stay within the magnitude the integrator accepts.
pub open spec fn pos_in_range(p: Pos) -> bool {
    &&& -POS_LIMIT_SUB <= p.x <= POS_LIMIT_SUB
    &&& -POS_LIMIT_SUB <= p.y <= POS_LIMIT_SUB
}

/// The stored grid cell is exactly the floor of the position divided by
/// the cell size, on both axes.
pub open spec fn grid_consistent(s: PlayerState) -> bool {
    &&& s.grid.x == grid_cell_of(s.pos.x as int)
    &&& s.grid.y == grid_cell_of(s.pos.y as int)
}

/// The axis-aligned step of one tick, in subunits.
pub open spec fn step_len(dt: int) -> int {
    (BASE_SPEED_UNITS as int) * dt
}

/// The per-axis step of a diagonal tick: the axis step scaled by the
/// fixed-point `1/√2`, rounded down.
pub open spec fn diag_step_len(dt: int) -> int {
    (step_len(dt) * (INV_SQRT2_NUM as int)) / (INV_SQRT2_DEN as int)
}

/// Candidate x coordinate of one tick.
pub open spec fn cand_x(d: Direction, dt: int, px: int) -> int {
    if d.is_diagonal() {
        px + d.dx * diag_step_len(dt)
    } else {
        px + d.dx * step_len(dt)
    }
}

/// Candidate y coordinate of one tick.
pub open spec fn cand_y(d: Direction, dt: int, py: int) -> int {
    if d.is_diagonal() {
        py + d.dy * diag_step_len(dt)
    } else {
        py + d.dy * step_len(dt)
    }
}

/// The grid cell lies strictly inside the play field and is non-negative
/// on both axes.
pub open spec fn in_bounds(gx: int, gy: int) -> bool {
    &&& 0 <= gx < GRID_WIDTH
    &&& 0 <= gy < GRID_HEIGHT
}

/// Strict overlap of the two entity-sized boxes centered at the given
/// points: they overlap exactly when the centers are closer than one box
/// edge on both axes.
pub open spec fn entity_boxes_overlap(ax: int, ay: int, bx: int, by: int) -> bool {
    let h = ENTITY_HALF_SIZE_SUB as int;
    &&& ax - h < bx + h
    &&& ax + h > bx - h
    &&& ay - h < by + h
    &&& ay + h > by - h
}

/// Some collider's box overlaps the entity box at the candidate center.
pub open spec fn hits_any_collider(cx: int, cy: int, cs: Seq<Pos>) -> bool {
    exists|i: int|
        0 <= i < cs.len() && entity_boxes_overlap(cx, cy, cs[i].x as int, cs[i].y as int)
}

/// The commit policy of one tick: a zero direction never commits; an
/// out-of-bounds candidate never commits; a diagonal candidate commits
/// only when it hits no collider; an in-bounds axis-aligned candidate
/// always commits (the collider test is deliberately skipped on that
/// path, reproducing the reference behavior this core preserves).
pub open spec fn move_committed(d: Direction, dt: int, p: Pos, cs: Seq<Pos>) -> bool {
    let cx = cand_x(d, dt, p.x as int);
    let cy = cand_y(d, dt, p.y as int);
    &&& !d.is_zero()
    &&& in_bounds(grid_cell_of(cx), grid_cell_of(cy))
    &&& (d.is_diagonal() ==> !hits_any_collider(cx, cy, cs))
}

/// Advances the controlled entity by one tick: computes the candidate
/// position for direction `d` and delta time `dt`, and commits it (with
/// the derived grid cell) exactly when the commit policy allows it;
/// otherwise the state is left untouched.
pub fn integrate(d: &Direction, dt: i64, player: &mut PlayerState, colliders: &Vec<Pos>)
    requires
        d.valid(),
        0 <= dt <= DT_LIMIT,
        pos_in_range(old(player).pos),
        grid_consistent(*old(player)),
        forall|i: int| 0 <= i < colliders@.len() ==> pos_in_range(#[trigger] colliders@[i]),
    ensures
        grid_consistent(*final(player)),
        move_committed(*d, dt as int, old(player).pos, colliders@) ==> (
            final(player).pos.x == cand_x(*d, dt as int, old(player).pos.x as int)
            && final(player).pos.y == cand_y(*d, dt as int, old(player).pos.y as int)
        ),
        !move_committed(*d, dt as int, old(player).pos, colliders@) ==> *final(player) == *old(
            player,
        ),
        final(player).pos == old(player).pos || in_bounds(
            final(player).grid.x as int,
            final(player).grid.y as int,
        ),
{
    if d.dx == 0 && d.dy == 0 {
        return ;
    }
    let step: i64 = BASE_SPEED_UNITS * dt;
    let diagonal: bool = d.dx != 0 && d.dy != 0;
    let used: i64 = if diagonal {
        (((step as u64) * (INV_SQRT2_NUM as u64)) / (INV_SQRT2_DEN as u64)) as i64
    } else {
        step
    };
    assert(0 <= used <= step);
    assert(-(used as int) <= d.dx * used <= used as int) by (nonlinear_arith)
        requires
            -1 <= d.dx <= 1,
            0 <= used,
    ;
    assert(-(used as int) <= d.dy * used <= used as int) by (nonlinear_arith)
        requires
            -1 <= d.dy <= 1,
            0 <= used,
    ;
    let cx: i64 = player.pos.x + d.dx * used;
    let cy: i64 = player.pos.y + d.dy * used;
    let gx: i64 = grid_cell(cx);
    let gy: i64 = grid_cell(cy);
    if gx < 0 || gx >= GRID_WIDTH || gy < 0 || gy >= GRID_HEIGHT {
        return ;
    }
    if diagonal {
        let player_box = Aabb::from_center(cx, cy, ENTITY_HALF_SIZE_SUB, ENTITY_HALF_SIZE_SUB);
        let mut i: usize = 0;
        let mut hit: bool = false;
        while i < colliders.len()
            invariant
                i <= colliders@.len(),
                forall|k: int| 0 <= k < colliders@.len() ==> pos_in_range(#[trigger] colliders@[k]),
                player_box.min_x == cx - ENTITY_HALF_SIZE_SUB,
                player_box.max_x == cx + ENTITY_HALF_SIZE_SUB,
                player_box.min_y == cy - ENTITY_HALF_SIZE_SUB,
                player_box.max_y == cy + ENTITY_HALF_SIZE_SUB,
                hit == exists|j: int|
                    0 <= j < i && entity_boxes_overlap(
                        cx as int,
                        cy as int,
                        colliders@[j].x as int,
                        colliders@[j].y as int,
                    ),
            decreases colliders@.len() - i,
        {
            let c = colliders[i];
            let cbox = Aabb::from_center(c.x, c.y, ENTITY_HALF_SIZE_SUB, ENTITY_HALF_SIZE_SUB);
            if player_box.intersects(&cbox) {
                hit = true;
            }
            i = i + 1;
        }
        if hit {
            return ;
        }
    }
    player.pos.x = cx;
    player.pos.y = cy;
    player.grid.x = gx;
    player.grid.y = gy;
}

/// Law: a zero direction never commits a move, so (by the integrator's
/// contract) applying the integrator with `d = (0, 0)` leaves the position
/// and the grid position unchanged, for any state, delta time and colliders.
pub proof fn lemma_zero_direction_no_op(d: Direction, dt: int, p: Pos, cs: Seq<Pos>)
    requires
        d.is_zero(),
    ensures
        !move_committed(d, dt, p, cs),
{
}

/// Law: a candidate position is committed only when its derived grid cell
/// lies inside the play field and is non-negative on both axes.
pub proof fn lemma_bounds_exclusion(d: Direction, dt: int, p: Pos, cs: Seq<Pos>)
    requires
        move_committed(d, dt, p, cs),
    ensures
        in_bounds(
            grid_cell_of(cand_x(d, dt, p.x as int)),
            grid_cell_of(cand_y(d, dt, p.y as int)),
        ),
{
}

/// Law: the tick is deterministic. The commit decision and the candidate
/// coordinates are pure functions of `(d, dt, p, cs)`, so identical inputs
/// always yield identical outcomes; together with the integrator's
/// contract, which pins its result to exactly these functions, two calls
/// on equal inputs leave equal states.
pub proof fn lemma_determinism(
    d1: Direction,
    dt1: int,
    p1: Pos,
    cs1: Seq<Pos>,
    d2: Direction,
    dt2: int,
    p2: Pos,
    cs2: Seq<Pos>,
)
    requires
        d1 == d2,
        dt1 == dt2,
        p1 == p2,
        cs1 == cs2,
    ensures
        move_committed(d1, dt1, p1, cs1) == move_committed(d2, dt2, p2, cs2),
        cand_x(d1, dt1, p1.x as int) == cand_x(d2, dt2, p2.x as int),
        cand_y(d1, dt1, p1.y as int) == cand_y(d2, dt2, p2.y as int),
{
}

proof fn lemma_diag_sq_bounds(s: int, g: int, rr: int)
    requires
        0 <= s,
        s * 46341 == 65536 * g + rr,
        0 <= rr < 65536,
    ensures
        2 * g * g * 65536 * 65536 <= s * s * (65536 * 65536 + 9266),
        s * s * 65536 * 65536 - 4 * (s * 46341) * 65536 <= 2 * g * g * 65536 * 65536,
{
    assert(0 <= g) by (nonlinear_arith)
        requires
            s * 46341 == 65536 * g + rr,
            0 <= s,
            0 <= rr < 65536,
    ;
    assert(2 * g * g * 65536 * 65536 <= 2 * (s * 46341) * (s * 46341)) by (nonlinear_arith)
        requires
            0 <= g,
            65536 * g <= s * 46341,
    ;
    assert(2 * (s * 46341) * (s * 46341) == s * s * (65536 * 65536 + 9266)) by (nonlinear_arith);
    assert(s * s * 65536 * 65536 - 4 * (s * 46341) * 65536 <= 2 * g * g * 65536 * 65536)
        by (nonlinear_arith)
        requires
            s * 46341 == 65536 * g + rr,
            0 <= rr < 65536,
            0 <= s,
            0 <= g,
    ;
}

/// Law: diagonal motion covers the same Euclidean distance as axis-aligned
/// motion. With `s = step_len(dt)` the axis-aligned displacement and
/// `g = diag_step_len(dt)` the per-axis diagonal displacement, the squared
/// diagonal displacement magnitude `2·g²` equals the squared axis-aligned
/// magnitude `s²` up to the rounding of the fixed-point `1/√2` factor:
/// dividing both bounds by `INV_SQRT2_DEN²` they read
/// `s² - 4·s·46341/65536  ≤  2·g²  ≤  s²·(1 + 9266/65536²)`,
/// a relative excess of at most one part in 463 000 plus a rounding
/// shortfall of less than three times the step.
pub proof fn lemma_diagonal_magnitude_invariance(dt: int)
    requires
        0 <= dt,
    ensures
        ({
            let s = step_len(dt);
            let g = diag_step_len(dt);
            let m = INV_SQRT2_DEN as int;
            2 * g * g * m * m <= s * s * (m * m + 9266)
        }),
        ({
            let s = step_len(dt);
            let g = diag_step_len(dt);
            let m = INV_SQRT2_DEN as int;
            let n = INV_SQRT2_NUM as int;
            s * s * m * m - 4 * (s * n) * m <= 2 * g * g * m * m
        }),
{
    let s = step_len(dt);
    let g = diag_step_len(dt);
    lemma_fundamental_div_mod(s * (INV_SQRT2_NUM as int), INV_SQRT2_DEN as int);
    lemma_diag_sq_bounds(s, g, (s * (INV_SQRT2_NUM as int)) % (INV_SQRT2_DEN as int));
}

} // verus!
