use fluxreel::fixed::ONE;
use fluxreel::speed_ramping::{SpeedRamp, TimeRemap};

#[test]
fn new_ramp_plays_at_normal_speed() {
    let r = SpeedRamp::new();
    assert_eq!(r.get_speed_at_time(-ONE), ONE);
    assert_eq!(r.get_speed_at_time(100 * ONE), ONE);
    assert!(!r.frame_blending && !r.optical_flow);
}

#[test]
fn speed_interpolates_between_keyframes() {
    let mut r = SpeedRamp::new();
    r.add_keyframe(2 * ONE, 3 * ONE, "linear");
    assert_eq!(r.get_speed_at_time(ONE), 2 * ONE);
    assert_eq!(r.get_speed_at_time(5 * ONE), 3 * ONE);
}

#[test]
fn constant_speed_maps_time_exactly() {
    let mut r = SpeedRamp::new();
    r.add_keyframe(0, 2 * ONE, "linear");
    assert_eq!(r.source_time_at(1_234_567, ONE / 30), 2_469_134);
    assert_eq!(r.source_time_at(0, ONE / 30), 0);
    assert_eq!(r.source_time_at(-ONE, ONE / 30), 0);
}

#[test]
fn ramps_integrate_step_by_step() {
    let mut r = SpeedRamp::new();
    r.add_keyframe(0, 0, "linear");
    r.add_keyframe(ONE, 2 * ONE, "linear");
    // steps of 0.5 s: speed 0 over [0, 0.5), speed 1 over [0.5, 1), speed 2 over [1, 1.5]
    assert_eq!(r.source_time_at(1_500_000, 500_000), 1_500_000);
    assert_eq!(r.source_time_at(ONE, 500_000), 500_000);
}

#[test]
fn time_remap_adds_linear_speed_points() {
    let mut t = TimeRemap::new();
    assert!(!t.maintain_pitch);
    t.set_speed(ONE, 500_000);
    assert_eq!(t.speed_ramp.get_speed_at_time(500_000), 750_000);
    assert_eq!(t.speed_ramp.get_speed_at_time(2 * ONE), 500_000);
}
