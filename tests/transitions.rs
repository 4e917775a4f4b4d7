use fluxreel::fixed::ONE;
use fluxreel::transitions::{apply_transition, Transition};

#[test]
fn fade_cross_blends_bytes() {
    let from = [0u8, 100, 255, 10];
    let to = [255u8, 200, 0, 10];
    assert_eq!(apply_transition("fade", 500_000, &from, &to, 2, 1), vec![127, 150, 127, 10]);
    assert_eq!(apply_transition("fade", 0, &from, &to, 2, 1), from.to_vec());
    assert_eq!(apply_transition("fade", ONE, &from, &to, 2, 1), to.to_vec());
    assert_eq!(apply_transition("fade", 5 * ONE, &from, &to, 2, 1), to.to_vec());
}

#[test]
fn unknown_effects_fade() {
    let from = [0u8, 200];
    let to = [200u8, 0];
    assert_eq!(apply_transition("glitch", 250_000, &from, &to, 1, 1), vec![50, 150]);
}

#[test]
fn directional_transitions_switch_half_way() {
    let from = [1u8, 2, 3];
    let to = [9u8, 8, 7];
    for name in ["slide_left", "slide_right", "slide_up", "slide_down", "zoom_in", "zoom_out", "wipe_left", "wipe_right", "wipe_up", "wipe_down"] {
        assert_eq!(apply_transition(name, 499_999, &from, &to, 3, 1), from.to_vec(), "{}", name);
        assert_eq!(apply_transition(name, 500_000, &from, &to, 3, 1), to.to_vec(), "{}", name);
    }
}

#[test]
fn transition_progress_is_eased() {
    let mut t = Transition::new("fade".to_string(), 2 * ONE);
    assert_eq!(t.easing, "ease_in_out");
    assert_eq!(t.progress_at(ONE), 500_000);
    assert_eq!(t.progress_at(500_000), 125_000);
    t.with_easing("linear".to_string());
    assert_eq!(t.progress_at(500_000), 250_000);
    assert_eq!(t.progress_at(-ONE), 0);
    assert_eq!(t.progress_at(3 * ONE), ONE);
    assert_eq!(t.frame_at(ONE, &[0, 100], &[100, 0], 1, 1), vec![50, 50]);
    let instant = Transition::new("slide_left".to_string(), 0);
    assert_eq!(instant.progress_at(0), ONE);
}
