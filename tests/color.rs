use fluxreel::color_grading::{ColorCurves, ColorGrading, LUT};
use fluxreel::fixed::ONE;
use fluxreel::utils::{deg_to_rad, distance, hsl_to_rgb, parse_color, rad_to_deg, rgb_to_hsl, PI};

#[test]
fn neutral_grade_keeps_colours() {
    let g = ColorGrading::new();
    assert_eq!(g.apply((300_000, 500_000, 700_000)), (300_000, 500_000, 700_000));
    assert_eq!(g.apply((-5, 2 * ONE, 0)), (0, ONE, 0));
}

#[test]
fn exposure_doubles_per_stop() {
    let mut g = ColorGrading::new();
    g.exposure = ONE;
    assert_eq!(g.apply((200_000, 100_000, 400_000)), (400_000, 200_000, 800_000));
    g.exposure = -ONE;
    assert_eq!(g.apply((200_000, 100_000, 400_000)), (100_000, 50_000, 200_000));
}

#[test]
fn zero_saturation_gives_grey() {
    let mut g = ColorGrading::new();
    g.saturation = 0;
    // luma = 0.299 * 1 = 0.299
    assert_eq!(g.apply((ONE, 0, 0)), (299_000, 299_000, 299_000));
}

#[test]
fn contrast_spreads_from_mid_grey() {
    let mut g = ColorGrading::new();
    g.contrast = 100 * ONE;
    assert_eq!(g.apply((600_000, 500_000, 400_000)), (700_000, 500_000, 300_000));
}

#[test]
fn temperature_warms_red_and_cools_blue() {
    let mut g = ColorGrading::new();
    g.temperature = 100 * ONE;
    assert_eq!(g.apply((H, H, H)), (600_000, H, 400_000));
    g.temperature = 0;
    g.tint = 100 * ONE;
    assert_eq!(g.apply((H, H, H)), (H, 400_000, H));
}

const H: i64 = 500_000;

#[test]
fn wheels_then_reset() {
    let mut g = ColorGrading::new();
    g.set_lift(ONE, 0, 0);
    g.set_gain(0, -ONE, 0);
    g.set_gamma(0, 0, ONE);
    assert_eq!(g.apply((0, H, H)), (ONE, 0, ONE));
    g.reset();
    assert_eq!(g.apply((0, H, H)), (0, H, H));
}

#[test]
fn curves_and_lut() {
    let mut c = ColorCurves::new();
    assert_eq!(c.luma.len(), 1);
    c.add_point("red", H, H);
    c.add_point("sepia", H, H);
    assert_eq!(c.red.len(), 1);
    assert_eq!(c.red[0].handle_in, (400_000, H));
    assert_eq!(c.red[0].handle_out, (600_000, H));
    assert_eq!(c.green.len() + c.blue.len(), 0);
    let mut l = LUT::new("a.cube".to_string());
    assert_eq!(l.intensity, ONE);
    assert!(l.load_cube("b.cube").is_ok());
    assert_eq!(l.path, "b.cube");
}

#[test]
fn hex_colours_parse() {
    assert_eq!(parse_color("#FF8000"), (255, 128, 0, 255));
    assert_eq!(parse_color("11223344"), (0x11, 0x22, 0x33, 0x44));
    assert_eq!(parse_color("##abcdef"), (0xab, 0xcd, 0xef, 255));
    assert_eq!(parse_color("#GG0000"), (255, 0, 0, 255));
    assert_eq!(parse_color("#fff"), (255, 255, 255, 255));
    assert_eq!(parse_color(""), (255, 255, 255, 255));
    assert_eq!(parse_color("+f0000"), (15, 0, 0, 255));
}

#[test]
fn rgb_to_hsl_primaries() {
    assert_eq!(rgb_to_hsl(255, 0, 0), (0, ONE, H));
    assert_eq!(rgb_to_hsl(0, 255, 0), (120 * ONE, ONE, H));
    assert_eq!(rgb_to_hsl(0, 0, 255), (240 * ONE, ONE, H));
    assert_eq!(rgb_to_hsl(255, 0, 255), (300 * ONE, ONE, H));
    assert_eq!(rgb_to_hsl(128, 128, 128), (0, 0, 501_960));
}

#[test]
fn hsl_to_rgb_primaries() {
    assert_eq!(hsl_to_rgb(0, ONE, H), (255, 0, 0));
    assert_eq!(hsl_to_rgb(60 * ONE, ONE, H), (255, 255, 0));
    assert_eq!(hsl_to_rgb(120 * ONE, ONE, H), (0, 255, 0));
    assert_eq!(hsl_to_rgb(240 * ONE, ONE, H), (0, 0, 255));
    assert_eq!(hsl_to_rgb(0, 0, H), (127, 127, 127));
    assert_eq!(hsl_to_rgb(0, 5 * ONE, 2 * ONE), (255, 255, 255));
}

#[test]
fn angle_units() {
    assert_eq!(deg_to_rad(180 * ONE), PI);
    assert_eq!(rad_to_deg(PI), 180 * ONE);
    assert_eq!(distance(0, 0, 6 * ONE, 8 * ONE), 10 * ONE);
}
