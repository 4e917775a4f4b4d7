use fluxreel::easing::{ease, ease_function, Easing};
use fluxreel::fixed::ONE;

const NAMES: [&str; 33] = [
    "linear", "ease_in", "quad_in", "ease_out", "quad_out", "ease_in_out", "quad_in_out",
    "cubic_in", "cubic_out", "cubic_in_out", "quart_in", "quart_out", "quart_in_out", "quint_in",
    "quint_out", "quint_in_out", "sine_in", "sine_out", "sine_in_out", "expo_in", "expo_out",
    "expo_in_out", "circ_in", "circ_out", "circ_in_out", "elastic_in", "elastic_out", "elastic",
    "elastic_in_out", "back_in", "back_out", "back_in_out", "bounce_in",
];

#[test]
fn every_curve_starts_at_zero_and_ends_at_one() {
    for name in NAMES.iter().chain(["bounce_out", "bounce_in_out"].iter()) {
        assert_eq!(ease_function(name, 0), 0, "{} at 0", name);
        assert_eq!(ease_function(name, ONE), ONE, "{} at 1", name);
    }
}

#[test]
fn unknown_names_ease_linearly() {
    assert_eq!(ease_function("no_such_curve", 300_000), 300_000);
    assert_eq!(Easing::from_name("no_such_curve"), Easing::Linear);
    assert_eq!(Easing::from_name("elastic"), Easing::ElasticOut);
    assert_eq!(Easing::from_name("ease_in"), Easing::QuadIn);
}

#[test]
fn progress_is_clamped_to_the_unit_interval() {
    assert_eq!(ease_function("linear", -5), 0);
    assert_eq!(ease_function("linear", 2 * ONE), ONE);
    assert_eq!(ease_function("quad_in", 3 * ONE), ONE);
}

#[test]
fn power_curves_at_half() {
    assert_eq!(ease(Easing::Linear, 500_000), 500_000);
    assert_eq!(ease(Easing::QuadIn, 500_000), 250_000);
    assert_eq!(ease(Easing::QuadOut, 500_000), 750_000);
    assert_eq!(ease(Easing::QuadInOut, 500_000), 500_000);
    assert_eq!(ease(Easing::QuadInOut, 250_000), 125_000);
    assert_eq!(ease(Easing::CubicIn, 500_000), 125_000);
    assert_eq!(ease(Easing::CubicOut, 500_000), 875_000);
    assert_eq!(ease(Easing::QuartIn, 500_000), 62_500);
    assert_eq!(ease(Easing::QuintIn, 500_000), 31_250);
    assert_eq!(ease(Easing::QuintInOut, 250_000), 15_616);
}

#[test]
fn sine_curves_follow_the_sine() {
    let s = ease(Easing::SineOut, 500_000);
    assert!((s - 707_107).abs() <= 10, "sine_out(0.5) = {}", s);
    let s = ease(Easing::SineIn, 500_000);
    assert!((s - 292_893).abs() <= 10, "sine_in(0.5) = {}", s);
    assert_eq!(ease(Easing::SineInOut, 500_000), 500_000);
}

#[test]
fn exponential_curves_follow_powers_of_two() {
    let e = ease(Easing::ExpoIn, 500_000);
    assert!((e - 31_250).abs() <= 10, "expo_in(0.5) = {}", e);
    let e = ease(Easing::ExpoOut, 500_000);
    assert!((e - 968_750).abs() <= 10, "expo_out(0.5) = {}", e);
}

#[test]
fn circular_curves_are_exact_square_roots() {
    assert_eq!(ease(Easing::CircOut, 500_000), 866_025);
    assert_eq!(ease(Easing::CircIn, 500_000), 133_975);
    assert_eq!(ease(Easing::CircInOut, 500_000), 500_000);
}

#[test]
fn bounce_at_half() {
    assert_eq!(ease(Easing::BounceOut, 500_000), 765_625);
    assert_eq!(ease(Easing::BounceIn, 500_000), 234_375);
}

#[test]
fn back_in_overshoots_below_zero() {
    assert_eq!(ease(Easing::BackIn, 200_000), -46_451);
    assert!(ease(Easing::BackOut, 800_000) > ONE);
}

#[test]
fn elastic_out_settles_near_one() {
    let e = ease(Easing::ElasticOut, 900_000);
    assert!((e - ONE).abs() < 5_000, "elastic_out(0.9) = {}", e);
}
