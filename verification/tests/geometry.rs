use invaders_core::geom::clamp_i64;
use invaders_core::geom::half_floor;
use invaders_core::geom::overlaps;
use invaders_core::geom::Vec2i;

fn v(x: i64, y: i64) -> Vec2i {
    Vec2i { x, y }
}

#[test]
fn overlapping_rectangles_overlap() {
    // Centers 10 apart on x, half-extents 6 + 6 = 12 > 10.
    assert!(overlaps(v(0, 0), v(6, 6), v(10, 0), v(6, 6)));
}

#[test]
fn distant_rectangles_do_not_overlap() {
    assert!(!overlaps(v(0, 0), v(3, 3), v(100, 0), v(3, 3)));
    assert!(!overlaps(v(0, 0), v(3, 3), v(0, 100), v(3, 3)));
}

#[test]
fn touching_edges_do_not_overlap() {
    // Centers 10 apart, half-extents 5 + 5 = 10: edges touch exactly.
    assert!(!overlaps(v(0, 0), v(5, 5), v(10, 0), v(5, 5)));
}

#[test]
fn one_axis_overlap_is_not_enough() {
    // x ranges overlap, y ranges are disjoint.
    assert!(!overlaps(v(0, 0), v(5, 5), v(2, 50), v(5, 5)));
}

#[test]
fn clamp_within_below_above() {
    assert_eq!(clamp_i64(7, 0, 10), 7);
    assert_eq!(clamp_i64(-3, 0, 10), 0);
    assert_eq!(clamp_i64(15, 0, 10), 10);
    assert_eq!(clamp_i64(-500, -410, 410), -410);
}

#[test]
fn half_floor_rounds_down() {
    assert_eq!(half_floor(8), 4);
    assert_eq!(half_floor(9), 4);
    assert_eq!(half_floor(0), 0);
    assert_eq!(half_floor(-8), -4);
    assert_eq!(half_floor(-9), -5);
    assert_eq!(half_floor(-1), -1);
}
