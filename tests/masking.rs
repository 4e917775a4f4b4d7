use fluxreel::fixed::ONE;
use fluxreel::masking::{EllipseMask, Mask, RectangleMask};

#[test]
fn rectangle_mask_contains() {
    let m = RectangleMask::new(0, 0, 10 * ONE, 10 * ONE);
    assert!(m.contains(5 * ONE, 5 * ONE));
    assert!(!m.contains(20 * ONE, 20 * ONE));
    assert!(m.contains(10 * ONE, 0));
}

#[test]
fn inverting_flips_rectangle_membership() {
    let mut m = RectangleMask::new(0, 0, 10 * ONE, 10 * ONE);
    m.inverted = true;
    assert!(!m.contains(5 * ONE, 5 * ONE));
    assert!(m.contains(20 * ONE, 20 * ONE));
}

#[test]
fn rectangle_coverage_is_soft_across_the_feather() {
    let mut m = RectangleMask::new(0, 0, 10 * ONE, 10 * ONE);
    assert_eq!(m.coverage(5 * ONE, 5 * ONE), ONE);
    assert_eq!(m.coverage(11 * ONE, 5 * ONE), 0);
    m.feather = 2 * ONE;
    assert_eq!(m.coverage(11 * ONE, 5 * ONE), 500_000);
    assert_eq!(m.coverage(13 * ONE, 5 * ONE), 0);
    m.inverted = true;
    assert_eq!(m.coverage(11 * ONE, 5 * ONE), 500_000);
    assert_eq!(m.coverage(5 * ONE, 5 * ONE), 0);
}

#[test]
fn ellipse_mask_contains() {
    let m = EllipseMask::new(0, 0, 4 * ONE, 2 * ONE);
    assert!(m.contains(3 * ONE, 0));
    assert!(m.contains(4 * ONE, 0));
    assert!(!m.contains(0, 3 * ONE));
    assert!(!m.contains(3 * ONE, 2 * ONE));
    let flat = EllipseMask::new(0, 0, 0, ONE);
    assert!(!flat.contains(0, 0));
    let mut inv = m;
    inv.inverted = true;
    assert!(inv.contains(0, 3 * ONE));
}

#[test]
fn path_mask_tests_its_anchor_polygon() {
    let mut m = Mask::new();
    assert!(!m.contains(0, 0));
    m.add_point(0, 0);
    m.add_point(10 * ONE, 0);
    m.add_point(10 * ONE, 10 * ONE);
    m.add_point(0, 10 * ONE);
    assert_eq!(m.points[0].handle_in.x, -10 * ONE);
    assert_eq!(m.points[1].handle_out.x, 20 * ONE);
    assert!(m.contains(5 * ONE, 5 * ONE));
    assert!(!m.contains(15 * ONE, 5 * ONE));
    m.invert();
    assert!(!m.contains(5 * ONE, 5 * ONE));
    assert!(m.contains(15 * ONE, 5 * ONE));
}

#[test]
fn ellipse_coverage_is_soft_across_the_feather() {
    let mut m = EllipseMask::new(0, 0, 4 * ONE, 2 * ONE);
    assert_eq!(m.coverage(ONE, ONE), ONE);
    assert_eq!(m.coverage(0, 3 * ONE), 0);
    m.feather = 2 * ONE;
    assert_eq!(m.coverage(0, 3 * ONE), 500_000);
    assert_eq!(m.coverage(0, 5 * ONE), 0);
    m.inverted = true;
    assert_eq!(m.coverage(0, 3 * ONE), 500_000);
    assert_eq!(m.coverage(ONE, ONE), 0);
    assert_eq!(EllipseMask::new(0, 0, 0, ONE).coverage(0, 0), 0);
}

#[test]
fn path_coverage_is_soft_across_the_feather() {
    let mut m = Mask::new();
    assert_eq!(m.coverage(0, 0), 0);
    m.add_point(0, 0);
    m.add_point(10 * ONE, 0);
    m.add_point(10 * ONE, 10 * ONE);
    m.add_point(0, 10 * ONE);
    assert_eq!(m.coverage(5 * ONE, 5 * ONE), ONE);
    assert_eq!(m.coverage(11 * ONE, 5 * ONE), 0);
    m.feather = 2 * ONE;
    assert_eq!(m.coverage(11 * ONE, 5 * ONE), 500_000);
    assert_eq!(m.coverage(13 * ONE, 5 * ONE), 0);
    // past a corner the distance is to the corner: 5 in a 3-4-5 triangle
    m.feather = 10 * ONE;
    assert_eq!(m.coverage(13 * ONE, 14 * ONE), 500_000);
    m.invert();
    assert_eq!(m.coverage(11 * ONE, 5 * ONE), 100_000);
    assert_eq!(m.coverage(5 * ONE, 5 * ONE), 0);
}
