use grid_motion::geometry::Aabb;
use grid_motion::geometry::grid_cell;

#[test]
fn from_center_gives_min_max_corners() {
    let b = Aabb::from_center(100, -50, 30, 20);
    assert_eq!(b.min_x, 70);
    assert_eq!(b.max_x, 130);
    assert_eq!(b.min_y, -70);
    assert_eq!(b.max_y, -30);
}

#[test]
fn overlapping_boxes_intersect() {
    let a = Aabb::from_center(0, 0, 16384, 16384);
    let b = Aabb::from_center(16384, 16384, 16384, 16384);
    assert!(a.intersects(&b));
    assert!(b.intersects(&a));
}

#[test]
fn touching_edges_do_not_intersect() {
    let a = Aabb::from_center(0, 0, 16384, 16384);
    let right = Aabb::from_center(32768, 0, 16384, 16384);
    assert!(!a.intersects(&right));
    let above = Aabb::from_center(0, 32768, 16384, 16384);
    assert!(!a.intersects(&above));
}

#[test]
fn disjoint_boxes_do_not_intersect() {
    let a = Aabb::from_center(0, 0, 16384, 16384);
    let far = Aabb::from_center(100_000, 100_000, 16384, 16384);
    assert!(!a.intersects(&far));
}

#[test]
fn grid_cell_floors_toward_negative_infinity() {
    assert_eq!(grid_cell(0), 0);
    assert_eq!(grid_cell(32767), 0);
    assert_eq!(grid_cell(32768), 1);
    assert_eq!(grid_cell(163840), 5);
    assert_eq!(grid_cell(-1), -1);
    assert_eq!(grid_cell(-32768), -1);
    assert_eq!(grid_cell(-32769), -2);
}
