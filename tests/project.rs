use fluxreel::fixed::ONE;
use fluxreel::project::{parse_u32, setup_project, Resolution};
use fluxreel::time::{format_time, frames_to_seconds, seconds_to_frames};
use fluxreel::utils::{clamp, lerp, map_range, normalize_angle, smoothstep};

#[test]
fn frames_and_seconds() {
    assert_eq!(frames_to_seconds(30, 30), ONE);
    assert_eq!(frames_to_seconds(1, 3), 333_333);
    assert_eq!(frames_to_seconds(5, 0), 0);
    assert_eq!(seconds_to_frames(2 * ONE, 30), 60);
    assert_eq!(seconds_to_frames(1_999_999, 30), 59);
    assert_eq!(seconds_to_frames(-ONE, 30), 0);
    assert_eq!(seconds_to_frames(i64::MAX, u32::MAX), u32::MAX);
}

#[test]
fn clock_notation() {
    assert_eq!(format_time(3_723_456_000), "01:02:03.456");
    assert_eq!(format_time(0), "00:00:00.000");
    assert_eq!(format_time(360_000 * ONE + 5_000), "100:00:00.005");
    assert_eq!(format_time(-500_000), "00:00:00.500");
}

#[test]
fn named_resolutions() {
    assert_eq!(setup_project("4K", 60), (60, 3840, 2160));
    assert_eq!(setup_project("1080p", 30), (30, 1920, 1080));
    assert_eq!(setup_project("720p", 24), (24, 1280, 720));
    assert_eq!(setup_project("tiktok", 60), (60, 1080, 1920));
    assert_eq!(setup_project("9:16", 60), (60, 1080, 1920));
    assert_eq!(setup_project("8K", 60), (60, 1920, 1080));
}

#[test]
fn custom_resolutions() {
    assert_eq!(Resolution::parse("640x480"), Resolution::Custom { width: 640, height: 480 });
    assert_eq!(setup_project("640x480", 25), (25, 640, 480));
    assert_eq!(setup_project("abcx480", 25), (25, 1920, 480));
    assert_eq!(setup_project("640x", 25), (25, 640, 1080));
    assert_eq!(setup_project("1x2x3", 25), (25, 1920, 1080));
    assert_eq!(Resolution::HD.width(), 1280);
    assert_eq!(Resolution::Vertical.height(), 1920);
}

#[test]
fn unsigned_parsing() {
    assert_eq!(parse_u32("42"), Some(42));
    assert_eq!(parse_u32("+7"), Some(7));
    assert_eq!(parse_u32("4294967295"), Some(u32::MAX));
    assert_eq!(parse_u32("4294967296"), None);
    assert_eq!(parse_u32("99999999999x"), None);
    assert_eq!(parse_u32(""), None);
    assert_eq!(parse_u32("+"), None);
    assert_eq!(parse_u32("-1"), None);
    assert_eq!(parse_u32("1 2"), None);
}

#[test]
fn numeric_helpers() {
    assert_eq!(lerp(10 * ONE, 20 * ONE, 250_000), 12_500_000);
    assert_eq!(lerp(0, 10, 2 * ONE), 20);
    assert_eq!(clamp(5, 0, 3), 3);
    assert_eq!(clamp(-5, 0, 3), 0);
    assert_eq!(clamp(2, 0, 3), 2);
    assert_eq!(map_range(5 * ONE, 0, 10 * ONE, 0, 100 * ONE), 50 * ONE);
    assert_eq!(map_range(5 * ONE, 10 * ONE, 0, 0, 100 * ONE), 50 * ONE);
    assert_eq!(map_range(5, 3, 3, 7, 9), 7);
    assert_eq!(smoothstep(0, ONE, 500_000), 500_000);
    assert_eq!(smoothstep(0, ONE, -ONE), 0);
    assert_eq!(smoothstep(0, ONE, 2 * ONE), ONE);
    assert_eq!(smoothstep(0, ONE, 250_000), 156_250);
    assert_eq!(normalize_angle(-90 * ONE), 270 * ONE);
    assert_eq!(normalize_angle(725 * ONE), 5 * ONE);
}
