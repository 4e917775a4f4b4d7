use fluxreel::blend_modes::{apply_blend, apply_blend_mode, BlendMode, BlendModeEffect};
use fluxreel::fixed::ONE;

const H: i64 = 500_000;

#[test]
fn multiply_and_screen() {
    assert_eq!(apply_blend_mode((ONE, ONE, ONE), (H, H, H), "multiply", ONE), (H, H, H));
    assert_eq!(apply_blend_mode((0, 0, 0), (ONE, ONE, ONE), "screen", ONE), (ONE, ONE, ONE));
}

#[test]
fn zero_opacity_keeps_the_base_for_every_mode() {
    let names = [
        "normal", "multiply", "screen", "overlay", "soft_light", "hard_light", "color_dodge",
        "color_burn", "darken", "lighten", "difference", "exclusion", "add", "subtract", "bogus",
    ];
    let base = (100_000, 600_000, 900_000);
    for n in names {
        assert_eq!(apply_blend_mode(base, (700_000, 200_000, 50_000), n, 0), base, "{}", n);
    }
}

#[test]
fn opacity_scales_the_difference() {
    assert_eq!(apply_blend_mode((0, 0, 0), (ONE, ONE, ONE), "normal", H), (H, H, H));
    assert_eq!(apply_blend_mode((200_000, 0, 0), (ONE, 0, 0), "unknown", 250_000).0, 400_000);
}

#[test]
fn channel_modes() {
    let b = (H, 200_000, 800_000);
    let l = (H, 600_000, 300_000);
    assert_eq!(apply_blend_mode(b, l, "darken", ONE), (H, 200_000, 300_000));
    assert_eq!(apply_blend_mode(b, l, "lighten", ONE), (H, 600_000, 800_000));
    assert_eq!(apply_blend_mode(b, l, "difference", ONE), (0, 400_000, H));
    assert_eq!(apply_blend_mode(b, l, "add", ONE), (ONE, 800_000, ONE));
    assert_eq!(apply_blend_mode(b, l, "subtract", ONE), (0, 0, H));
    assert_eq!(apply_blend_mode(b, l, "exclusion", ONE).0, H);
    assert_eq!(apply_blend_mode((H, H, H), (H, H, H), "color_dodge", ONE), (ONE, ONE, ONE));
    assert_eq!(apply_blend_mode((H, H, H), (H, H, H), "color_burn", ONE), (0, 0, 0));
    assert_eq!(apply_blend_mode((H, H, H), (ONE, ONE, ONE), "color_dodge", ONE).0, ONE);
    assert_eq!(apply_blend_mode((H, H, H), (0, 0, 0), "color_burn", ONE).0, 0);
}

#[test]
fn overlay_and_hard_light() {
    assert_eq!(apply_blend_mode((250_000, 0, 0), (H, 0, 0), "overlay", ONE).0, 250_000);
    assert_eq!(apply_blend_mode((750_000, 0, 0), (H, 0, 0), "overlay", ONE).0, 750_000);
    assert_eq!(apply_blend_mode((H, 0, 0), (250_000, 0, 0), "hard_light", ONE).0, 250_000);
}

#[test]
fn soft_light_uses_the_square_root_above_half() {
    // base 0.25, blend 1: 0.25 + (2 - 1) * (sqrt(0.25) - 0.25) = 0.5
    assert_eq!(apply_blend_mode((250_000, 0, 0), (ONE, 0, 0), "soft_light", ONE).0, H);
    // base 0.5, blend 0: 0.5 - 1 * 0.5 * 0.5 = 0.25
    assert_eq!(apply_blend_mode((H, 0, 0), (0, 0, 0), "soft_light", ONE).0, 250_000);
}

#[test]
fn inputs_are_clamped() {
    assert_eq!(apply_blend_mode((-5, 2 * ONE, H), (ONE, ONE, ONE), "multiply", 3 * ONE), (0, ONE, H));
}

#[test]
fn effect_carries_mode_and_opacity() {
    let mut e = BlendModeEffect::new("screen".to_string());
    assert_eq!(e.opacity, ONE);
    assert_eq!(e.apply((0, 0, 0), (ONE, ONE, ONE)), (ONE, ONE, ONE));
    e.set_mode("multiply".to_string());
    assert_eq!(e.apply((ONE, ONE, ONE), (H, H, H)), (H, H, H));
    assert_eq!(BlendMode::from_name("hue"), BlendMode::Normal);
    assert_eq!(apply_blend(BlendMode::Hue, (0, 0, 0), (H, H, H), ONE), (H, H, H));
}
