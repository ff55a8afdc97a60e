use cg_ufpel_project::curve::{CurveControl, CurveKey, TIME};
use cg_ufpel_project::motion::Movement;
use cg_ufpel_project::space::Point;

const U: i64 = 1_000_000_000;

#[test]
fn first_slide_builds_keys_from_the_start_point() {
    let mut c = CurveControl::new();
    let p = Point::new(U, 2 * U, 3 * U);
    let t = c.slide(p, Movement::ForwardX, 100_000);
    assert_eq!(t, 100_000);
    assert!(!c.should_reset);
    assert_eq!(
        c.keys,
        vec![
            CurveKey { time: -99_900_000, point: p },
            CurveKey { time: 0, point: p },
            CurveKey { time: 666_000, point: Point::new(U + 2_664_000_000, 6 * U, 3 * U) },
            CurveKey { time: 1_332_000, point: Point::new(U + 5_328_000_000, -2 * U, 3 * U) },
            CurveKey { time: 2_000_000, point: Point::new(9 * U, 2 * U, 3 * U) },
            CurveKey { time: 99_900_000, point: Point::new(9 * U, 2 * U, 3 * U) },
        ]
    );
}

#[test]
fn vertical_curves_bow_along_x() {
    let mut c = CurveControl::new();
    c.slide(Point::origin(), Movement::BackwardY, 1);
    assert_eq!(c.keys[2].point, Point::new(4 * U, -2_664_000_000, 0));
    assert_eq!(c.keys[3].point, Point::new(-4 * U, -5_328_000_000, 0));
    assert_eq!(c.keys[4].point, Point::new(0, -8 * U, 0));
}

#[test]
fn same_direction_continues_the_curve() {
    let mut c = CurveControl::new();
    c.slide(Point::origin(), Movement::ForwardZ, 300_000);
    let t = c.slide(Point::new(5, 5, 5), Movement::ForwardZ, 200_000);
    assert_eq!(t, 500_000);
    assert_eq!(c.keys[0].point, Point::origin());
}

#[test]
fn curve_restarts_on_direction_change() {
    let mut c = CurveControl::new();
    c.slide(Point::origin(), Movement::ForwardX, 300_000);
    let next = Point::new(U, 0, 0);
    let t = c.slide(next, Movement::ForwardY, 200_000);
    assert_eq!(t, 200_000);
    assert_eq!(c.direction, Movement::ForwardY);
    assert_eq!(c.keys[1].point, next);
    assert_eq!(c.keys[4].point, Point::new(U, 8 * U, 0));
}

#[test]
fn curve_restarts_after_its_duration() {
    let mut c = CurveControl::new();
    c.slide(Point::origin(), Movement::ForwardX, TIME);
    let next = Point::new(8 * U, 0, 0);
    let t = c.slide(next, Movement::ForwardX, 10);
    assert_eq!(t, 10);
    assert_eq!(c.keys[0].point, next);
}

#[test]
fn curve_restarts_after_reset() {
    let mut c = CurveControl::new();
    c.slide(Point::origin(), Movement::ForwardX, 10);
    c.reset();
    let next = Point::new(0, 0, U);
    assert_eq!(c.slide(next, Movement::ForwardX, 20), 20);
    assert_eq!(c.keys[1].point, next);
}

#[test]
fn curve_keys_stop_at_the_edge_of_space() {
    let mut c = CurveControl::new();
    c.slide(Point::new(i64::MAX - 1, 0, 0), Movement::ForwardX, 1);
    assert_eq!(c.keys[4].point.x, i64::MAX);
}
