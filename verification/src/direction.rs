//! Mapping of the pressed movement keys to a 2D direction vector.

use vstd::prelude::*;

verus! {

/// The movement keys held down when the tick's input was sampled.
#[derive(Clone, Copy, PartialEq, Eq, Structural, Debug)]
pub struct KeySnapshot {
    pub up: bool,
    pub down: bool,
    pub left: bool,
    pub right: bool,
}

/// A per-axis direction, each component in `{-1, 0, 1}`.
#[derive(Clone, Copy, PartialEq, Eq, Structural, Debug)]
pub struct Direction {
    pub dx: i64,
    pub dy: i64,
}

impl Direction {
    /// Both components stay within one step of zero.
    pub open spec fn valid(self) -> bool {
        &&& -1 <= self.dx <= 1
        &&& -1 <= self.dy <= 1
    }

    /// No key contribution at all: the tick is a no-op.
    pub open spec fn is_zero(self) -> bool {
        self.dx == 0 && self.dy == 0
    }

    /// Both axes move, so the step must be scaled down.
    pub open spec fn is_diagonal(self) -> bool {
        self.dx != 0 && self.dy != 0
    }
}

/// Horizontal contribution of a key snapshot: right adds one, left takes one.
pub open spec fn dir_x_of(k: KeySnapshot) -> int {
    (if k.right { 1int } else { 0int }) - (if k.left { 1int } else { 0int })
}

/// Vertical contribution of a key snapshot: up adds one, down takes one.
pub open spec fn dir_y_of(k: KeySnapshot) -> int {
    (if k.up { 1int } else { 0int }) - (if k.down { 1int } else { 0int })
}

/// Accumulates each axis independently from the pressed keys; opposing keys
/// cancel to zero on their axis, and no pressed key yields the zero vector.
pub fn resolve_direction(keys: &KeySnapshot) -> (d: Direction)
    ensures
        d.dx == dir_x_of(*keys),
        d.dy == dir_y_of(*keys),
        d.valid(),
{
    let mut dx: i64 = 0;
    let mut dy: i64 = 0;
    if keys.up {
        dy = dy + 1;
    }
    if keys.down {
        dy = dy - 1;
    }
    if keys.right {
        dx = dx + 1;
    }
    if keys.left {
        dx = dx - 1;
    }
    Direction { dx, dy }
}

} // verus!
