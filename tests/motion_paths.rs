use chaser_oxide::motion::{
    bezier_coordinate, bezier_path, control_points, distance_between, isqrt, BezierPath,
    PathDraws, Point,
};

fn p(x: i64, y: i64) -> Point {
    Point { x, y }
}

#[test]
fn generate_straight_scenario() {
    let path = BezierPath::generate(p(0, 0), p(100, 0), 10);
    assert_eq!(path.len(), 11);
    assert_eq!(path[0], p(0, 0));
    assert!((path[10].x - 100).abs() <= 2 && path[10].y.abs() <= 2);
    assert_eq!(path[10], p(100, 0));
}

#[test]
fn generate_keeps_endpoints_for_many_inputs() {
    let cases = [
        (p(0, 0), p(0, 0), 1usize),
        (p(-500, 20), p(800, -300), 25),
        (p(1_999_999_999, -2_000_000_000), p(-2_000_000_000, 2_000_000_000), 100),
        (p(3, 4), p(3, 4), 7),
    ];
    for (s, e, n) in cases {
        for _ in 0..20 {
            let path = BezierPath::generate(s, e, n);
            assert_eq!(path.len(), n + 1);
            assert_eq!(path[0], s);
            assert_eq!(path[n], e);
        }
    }
}

#[test]
fn generate_with_no_segments_is_the_start() {
    let path = BezierPath::generate(p(5, 6), p(50, 60), 0);
    assert_eq!(path, vec![p(5, 6)]);
}

#[test]
fn integer_square_root() {
    assert_eq!(isqrt(0), 0);
    assert_eq!(isqrt(1), 1);
    assert_eq!(isqrt(24), 4);
    assert_eq!(isqrt(25), 5);
    assert_eq!(isqrt(26), 5);
    assert_eq!(isqrt(32_000_000_000_000_000_000), 5_656_854_249);
}

#[test]
fn distance_is_rounded_down() {
    assert_eq!(distance_between(p(0, 0), p(3, 4)), 5);
    assert_eq!(distance_between(p(0, 0), p(1, 1)), 1);
    assert_eq!(distance_between(p(10, 10), p(10, 10)), 0);
}

#[test]
fn control_points_without_offsets() {
    let d = PathDraws { c1_dx: 0, c1_dy: 0, c2_dx: 0, c2_dy: 0, overshoot: false };
    let (c1, c2) = control_points(p(0, 0), p(100, 40), &d);
    assert_eq!(c1, (25, 10));
    assert_eq!(c2, (75, 30));
}

#[test]
fn overshoot_moves_along_travel() {
    // distance 200: overshoot of 10 pixels on each axis, toward the end
    let on = PathDraws { c1_dx: 0, c1_dy: 0, c2_dx: 5, c2_dy: -5, overshoot: true };
    let off = PathDraws { overshoot: false, ..on };
    let (_, with) = control_points(p(0, 0), p(120, -160), &on);
    let (_, without) = control_points(p(0, 0), p(120, -160), &off);
    assert_eq!(without, (95, -125));
    assert_eq!(with, (105, -135));
    // a short path still overshoots by one pixel
    let (_, short) = control_points(p(0, 0), p(3, 4), &on);
    assert_eq!(short, (2 + 5 + 1, 3 - 5 + 1));
}

#[test]
fn bezier_coordinate_exact_values() {
    assert_eq!(bezier_coordinate(0, 0, 0, 100, 1, 2), 12);
    assert_eq!(bezier_coordinate(0, 0, 0, -100, 1, 2), -12);
    assert_eq!(bezier_coordinate(10, 20, 30, 40, 0, 5), 10);
    assert_eq!(bezier_coordinate(10, 20, 30, 40, 5, 5), 40);
    assert_eq!(bezier_coordinate(0, 100, 100, 0, 1, 2), 75);
}

#[test]
fn straight_path_without_offsets() {
    let d = PathDraws { c1_dx: 0, c1_dy: 0, c2_dx: 0, c2_dy: 0, overshoot: false };
    let path = bezier_path(p(0, 0), p(100, 0), 4, &d);
    let xs: Vec<i64> = path.iter().map(|q| q.x).collect();
    assert_eq!(xs, vec![0, 22, 50, 77, 100]);
    assert!(path.iter().all(|q| q.y == 0));
}
