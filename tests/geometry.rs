use fluxreel::fixed::ONE;
use fluxreel::geometry::{point_distance, rotate_point, Circle, Polygon, Rectangle};

#[test]
fn rectangles() {
    let r = Rectangle::new(0, 0, 4 * ONE, 2 * ONE);
    assert!(r.contains(4 * ONE, 2 * ONE));
    assert!(!r.contains(4 * ONE + 1, 0));
    assert!(r.intersects(&Rectangle::new(3 * ONE, ONE, ONE, ONE)));
    assert!(!r.intersects(&Rectangle::new(4 * ONE, 0, ONE, ONE)));
    assert_eq!(r.center(), (2 * ONE, ONE));
    assert_eq!(Rectangle::new(i64::MAX, 0, 10, 0).center(), (i64::MAX, 0));
}

#[test]
fn circles() {
    let c = Circle::new(0, 0, 5 * ONE);
    assert!(c.contains(3 * ONE, 4 * ONE));
    assert!(!c.contains(3 * ONE, 4 * ONE + 1));
    assert!(!Circle::new(0, 0, -1).contains(0, 0));
    assert!(c.intersects(&Circle::new(9 * ONE, 0, 5 * ONE)));
    assert!(!c.intersects(&Circle::new(10 * ONE, 0, 5 * ONE)));
    assert!(Circle::new(i64::MIN, 0, i64::MAX).contains(0, 0) == false);
}

#[test]
fn polygons() {
    let tri = Polygon::new(vec![(0, 0), (4 * ONE, 0), (0, 4 * ONE)]);
    assert!(tri.contains(ONE, ONE));
    assert!(!tri.contains(3 * ONE, 3 * ONE));
    assert!(!Polygon::new(vec![]).contains(0, 0));
}

#[test]
fn distances_and_rotations() {
    assert_eq!(point_distance(0, 0, 3 * ONE, 4 * ONE), 5 * ONE);
    assert_eq!(point_distance(ONE, ONE, ONE, ONE), 0);
    assert_eq!(rotate_point(ONE, 0, 0, 0, 90 * ONE), (0, ONE));
    assert_eq!(rotate_point(ONE, 0, 0, 0, 180 * ONE), (-ONE, 0));
    assert_eq!(rotate_point(2 * ONE, ONE, ONE, ONE, 0), (2 * ONE, ONE));
}
