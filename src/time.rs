//! Conversions between frames, fixed-point seconds and clock notation.
use crate::fixed::{clamp_spec, floor_div, ONE};
use crate::text::{padded_spec, push_padded};
use vstd::prelude::*;

verus! {

/// Seconds at the start of frame `frames`; `0` when `fps` is `0`.
pub open spec fn frames_to_seconds_spec(frames: int, fps: int) -> int {
    if fps == 0 {
        0
    } else {
        frames * ONE / fps
    }
}

/// Whole frames in `seconds`, rounded down and kept in the range of `u32`.
pub open spec fn seconds_to_frames_spec(seconds: int, fps: int) -> int {
    clamp_spec(seconds * fps / (ONE as int), 0, u32::MAX as int)
}

pub fn frames_to_seconds(frames: u32, fps: u32) -> (r: i64)
    ensures
        r == frames_to_seconds_spec(frames as int, fps as int),
{
    if fps == 0 {
        0
    } else {
        assert(frames as int * 1_000_000 / fps as int <= frames as int * 1_000_000)
            by (nonlinear_arith)
            requires
                fps >= 1,
                frames >= 0,
        ;
        ((frames as i64) * ONE) / (fps as i64)
    }
}

pub fn seconds_to_frames(seconds: i64, fps: u32) -> (r: u32)
    ensures
        r == seconds_to_frames_spec(seconds as int, fps as int),
{
    let a = seconds as i128;
    let b = fps as i128;
    assert(-0x1_0000_0000_0000_0000_0000_0000 < a * b < 0x1_0000_0000_0000_0000_0000_0000)
        by (nonlinear_arith)
        requires
            -0x8000_0000_0000_0000 <= a < 0x8000_0000_0000_0000,
            0 <= b < 0x1_0000_0000,
    ;
    let p = a * b;
    let q = floor_div(p, ONE as i128);
    if q < 0 {
        0
    } else if q > u32::MAX as i128 {
        u32::MAX
    } else {
        q as u32
    }
}

/// Whole seconds of `seconds` as a clock reads them: negative times read `0`
/// and times past `u32::MAX` seconds read `u32::MAX`.
pub open spec fn whole_seconds(seconds: int) -> int {
    clamp_spec(seconds / (ONE as int), 0, u32::MAX as int)
}

/// `HH:MM:SS.mmm`; hours take as many digits as they need. Milliseconds are
/// those of the fractional part, rounded down.
pub open spec fn format_time_spec(seconds: int) -> Seq<char> {
    let w = whole_seconds(seconds);
    let millis = (seconds % (ONE as int)) / 1000;
    padded_spec((w / 3600) as nat, 2) + ":"@ + padded_spec(((w % 3600) / 60) as nat, 2) + ":"@
        + padded_spec((w % 60) as nat, 2) + "."@ + padded_spec(millis as nat, 3)
}

pub fn format_time(seconds: i64) -> (r: String)
    ensures
        r@ == format_time_spec(seconds as int),
{
    let q = floor_div(seconds as i128, ONE as i128);
    let w: u64 = if q < 0 {
        0
    } else if q > u32::MAX as i128 {
        u32::MAX as u64
    } else {
        q as u64
    };
    let frac = seconds as i128 - q * (ONE as i128);
    let millis = (frac / 1000) as u64;
    let mut s = String::new();
    push_padded(&mut s, w / 3600, 2);
    s.append(":");
    push_padded(&mut s, (w % 3600) / 60, 2);
    s.append(":");
    push_padded(&mut s, w % 60, 2);
    s.append(".");
    push_padded(&mut s, millis, 3);
    assert(s@ =~= format_time_spec(seconds as int));
    s
}

} // verus!
