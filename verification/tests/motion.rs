use grid_motion::direction::Direction;
use grid_motion::geometry::grid_cell;
use grid_motion::motion::GridPos;
use grid_motion::motion::PlayerState;
use grid_motion::motion::Pos;
use grid_motion::motion::integrate;

// One world unit is 1024 subunits; one grid cell is 32 units = 32768 subunits.
const UNIT: i64 = 1024;
const CELL: i64 = 32 * UNIT;

fn state_at(x: i64, y: i64) -> PlayerState {
    PlayerState {
        pos: Pos { x, y },
        grid: GridPos { x: grid_cell(x), y: grid_cell(y) },
    }
}

/// The two walls the reference world spawns: cells (5, 5) and (6, 5).
fn walls() -> Vec<Pos> {
    vec![Pos { x: 160 * UNIT, y: 160 * UNIT }, Pos { x: 192 * UNIT, y: 160 * UNIT }]
}

#[test]
fn zero_direction_leaves_state_unchanged() {
    let d = Direction { dx: 0, dy: 0 };
    let before = state_at(128 * UNIT, 160 * UNIT);
    let mut player = before;
    integrate(&d, 1024, &mut player, &walls());
    assert_eq!(player, before);
}

#[test]
fn axis_step_is_speed_times_delta() {
    // One second (dt = 1024) at 200 units/s moves exactly 200 units.
    let d = Direction { dx: 1, dy: 0 };
    let mut player = state_at(320 * UNIT, 320 * UNIT);
    integrate(&d, 1024, &mut player, &Vec::new());
    assert_eq!(player.pos.x, 320 * UNIT + 200 * UNIT);
    assert_eq!(player.pos.y, 320 * UNIT);
}

#[test]
fn diagonal_step_magnitude_matches_axis_step() {
    // One second diagonally: each axis moves floor(204800 * 46341 / 65536)
    // = 144815 subunits, and the Euclidean magnitude of the diagonal
    // displacement equals the 200-unit axis displacement within tolerance.
    let d = Direction { dx: 1, dy: 1 };
    let mut player = state_at(320 * UNIT, 320 * UNIT);
    integrate(&d, 1024, &mut player, &Vec::new());
    assert_eq!(player.pos.x, 320 * UNIT + 144815);
    assert_eq!(player.pos.y, 320 * UNIT + 144815);

    let per_axis_units = 144815f64 / 1024f64;
    let diagonal_magnitude = (2f64 * per_axis_units * per_axis_units).sqrt();
    let axis_magnitude = 200f64;
    assert!((diagonal_magnitude - axis_magnitude).abs() / axis_magnitude < 1e-5);
}

#[test]
fn candidate_beyond_right_edge_is_rejected() {
    // Cell 199 is the last column; one second to the right leaves the field.
    let d = Direction { dx: 1, dy: 0 };
    let before = state_at(199 * CELL, 5 * CELL);
    let mut player = before;
    integrate(&d, 1024, &mut player, &Vec::new());
    assert_eq!(player, before);
}

#[test]
fn candidate_beyond_bottom_edge_is_rejected() {
    let d = Direction { dx: 0, dy: 1 };
    let before = state_at(5 * CELL, 149 * CELL + 32767);
    let mut player = before;
    integrate(&d, 1024, &mut player, &Vec::new());
    assert_eq!(player, before);
}

#[test]
fn negative_candidate_is_rejected() {
    let d = Direction { dx: -1, dy: 0 };
    let before = state_at(0, 0);
    let mut player = before;
    integrate(&d, 1024, &mut player, &Vec::new());
    assert_eq!(player, before);

    let down = Direction { dx: 0, dy: -1 };
    let mut player2 = before;
    integrate(&down, 1024, &mut player2, &Vec::new());
    assert_eq!(player2, before);
}

#[test]
fn diagonal_move_into_collider_is_rejected() {
    // From (128, 128) units, a 0.1-ish second diagonal step reaches
    // (142.08, 142.08), inside the AABB of the wall centered at (160, 160).
    let d = Direction { dx: 1, dy: 1 };
    let before = state_at(128 * UNIT, 128 * UNIT);
    let mut player = before;
    integrate(&d, 102, &mut player, &walls());
    assert_eq!(player, before);
}

#[test]
fn diagonal_move_clear_of_colliders_commits() {
    // Moving away from the walls: the same step from (320, 320) commits.
    let d = Direction { dx: 1, dy: 1 };
    let mut player = state_at(320 * UNIT, 320 * UNIT);
    integrate(&d, 102, &mut player, &walls());
    // floor(200 * 102 * 46341 / 65536) = 14424 subunits per axis.
    assert_eq!(player.pos.x, 320 * UNIT + 14424);
    assert_eq!(player.pos.y, 320 * UNIT + 14424);
}

#[test]
fn axis_move_into_collider_commits() {
    // Reference-behavior regression, kept deliberately: the axis-aligned
    // path checks only the bounds and skips the collider test, so stepping
    // straight into the wall's AABB is committed.
    let d = Direction { dx: 1, dy: 0 };
    let mut player = state_at(128 * UNIT, 160 * UNIT);
    integrate(&d, 102, &mut player, &walls());
    // 200 units/s * 102/1024 s = 20400 subunits: well inside the wall box.
    assert_eq!(player.pos.x, 128 * UNIT + 20400);
    assert_eq!(player.pos.y, 160 * UNIT);
    assert_eq!(player.grid.x, 4);
    assert_eq!(player.grid.y, 5);
}

#[test]
fn identical_inputs_yield_identical_outputs() {
    let d = Direction { dx: 1, dy: 1 };
    let mut first = state_at(128 * UNIT, 128 * UNIT);
    let mut second = state_at(128 * UNIT, 128 * UNIT);
    integrate(&d, 307, &mut first, &walls());
    integrate(&d, 307, &mut second, &walls());
    assert_eq!(first, second);

    let mut third = state_at(320 * UNIT, 96 * UNIT);
    let mut fourth = state_at(320 * UNIT, 96 * UNIT);
    integrate(&d, 307, &mut third, &Vec::new());
    integrate(&d, 307, &mut fourth, &Vec::new());
    assert_eq!(third, fourth);
}

#[test]
fn grid_position_tracks_committed_position() {
    let d = Direction { dx: 1, dy: 1 };
    let mut player = state_at(320 * UNIT, 320 * UNIT);
    for _ in 0..7 {
        integrate(&d, 1024, &mut player, &walls());
        assert_eq!(player.grid.x, grid_cell(player.pos.x));
        assert_eq!(player.grid.y, grid_cell(player.pos.y));
    }
}

#[test]
fn zero_delta_time_keeps_position_values() {
    let d = Direction { dx: 1, dy: 0 };
    let before = state_at(128 * UNIT, 128 * UNIT);
    let mut player = before;
    integrate(&d, 0, &mut player, &walls());
    assert_eq!(player, before);
}
