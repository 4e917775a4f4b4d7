use fluxreel::blend_modes::BlendMode;
use fluxreel::color_grading::ColorGrading;
use fluxreel::compositing::{composite, render_pixel, Layer};
use fluxreel::fixed::ONE;

const H: i64 = 500_000;

fn layer(color: (i64, i64, i64), mode: BlendMode, opacity: i64, coverage: i64) -> Layer {
    Layer { color, mode, opacity, coverage }
}

#[test]
fn layers_stack_back_to_front() {
    let layers = [
        layer((ONE, 0, 0), BlendMode::Normal, ONE, ONE),
        layer((H, H, H), BlendMode::Multiply, ONE, ONE),
    ];
    assert_eq!(composite((0, 0, 0), &layers), (H, 0, 0));
    let reversed = [layers[1], layers[0]];
    assert_eq!(composite((0, 0, 0), &reversed), (ONE, 0, 0));
}

#[test]
fn coverage_scales_a_layer_like_opacity() {
    let half_masked = [layer((ONE, ONE, ONE), BlendMode::Normal, ONE, H)];
    assert_eq!(composite((0, 0, 0), &half_masked), (H, H, H));
    let half_both = [layer((ONE, ONE, ONE), BlendMode::Normal, H, H)];
    assert_eq!(composite((0, 0, 0), &half_both), (250_000, 250_000, 250_000));
}

#[test]
fn hidden_layers_change_nothing() {
    let base = (100_000, 200_000, 300_000);
    let layers = [
        layer((ONE, ONE, ONE), BlendMode::Screen, 0, ONE),
        layer((ONE, 0, ONE), BlendMode::Add, ONE, 0),
    ];
    assert_eq!(composite(base, &layers), base);
    assert_eq!(composite(base, &[]), base);
}

#[test]
fn pixels_are_graded_after_compositing() {
    let mut g = ColorGrading::new();
    g.exposure = ONE;
    let layers = [layer((200_000, 100_000, 0), BlendMode::Normal, ONE, ONE)];
    assert_eq!(render_pixel((0, 0, 0), &layers, &g), (400_000, 200_000, 0));
}
