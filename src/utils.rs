//! Colour parsing and small numeric helpers.
use crate::fixed::{clamp_spec, floor_div, fmul, isqrt_spec, mul_spec, saturate, saturate_i128, ONE};
use crate::geometry::{coord_ok, point_distance};
use vstd::prelude::*;
use vstd::string::StringSliceAdditionalSpecFns;

verus! {

/// Value of an ASCII hexadecimal digit, if `b` is one.
pub open spec fn hex_digit(b: u8) -> Option<int> {
    if 48 <= b <= 57 {
        Some(b - 48)
    } else if 97 <= b <= 102 {
        Some(b - 87)
    } else if 65 <= b <= 70 {
        Some(b - 55)
    } else {
        None
    }
}

/// A two-byte hexadecimal component, as an integer parser reads it: two hex
/// digits, or `+` and one hex digit; anything else reads as `255`.
pub open spec fn component_spec(b0: u8, b1: u8) -> u8 {
    if b0 == 43 && hex_digit(b1) is Some {
        hex_digit(b1)->0 as u8
    } else if hex_digit(b0) is Some && hex_digit(b1) is Some {
        (16 * hex_digit(b0)->0 + hex_digit(b1)->0) as u8
    } else {
        255
    }
}

/// `b` without its leading `#` bytes.
pub open spec fn strip_hashes(b: Seq<u8>) -> Seq<u8>
    decreases b.len(),
{
    if b.len() > 0 && b[0] == 35 {
        strip_hashes(b.drop_first())
    } else {
        b
    }
}

/// RGBA of a hex colour (`#RRGGBB` or `#RRGGBBAA`, any number of leading
/// `#`); alpha is `255` for six digits; any other length is opaque white.
pub open spec fn parse_color_spec(bytes: Seq<u8>) -> (u8, u8, u8, u8) {
    let c = strip_hashes(bytes);
    if c.len() == 6 {
        (component_spec(c[0], c[1]), component_spec(c[2], c[3]), component_spec(c[4], c[5]), 255)
    } else if c.len() == 8 {
        (
            component_spec(c[0], c[1]),
            component_spec(c[2], c[3]),
            component_spec(c[4], c[5]),
            component_spec(c[6], c[7]),
        )
    } else {
        (255, 255, 255, 255)
    }
}

fn hex_value(b: u8) -> (r: Option<u8>)
    ensures
        r is Some <==> hex_digit(b) is Some,
        r is Some ==> r->0 == hex_digit(b)->0 && r->0 < 16,
{
    if 48 <= b && b <= 57 {
        Some(b - 48)
    } else if 97 <= b && b <= 102 {
        Some(b - 87)
    } else if 65 <= b && b <= 70 {
        Some(b - 55)
    } else {
        None
    }
}

fn component(b0: u8, b1: u8) -> (r: u8)
    ensures
        r == component_spec(b0, b1),
{
    match (hex_value(b0), hex_value(b1)) {
        (_, Some(lo)) if b0 == 43 => lo,
        (Some(hi), Some(lo)) => 16 * hi + lo,
        _ => 255,
    }
}

/// Parses a hex colour into RGBA (see `parse_color_spec`).
pub fn parse_color(color: &str) -> (r: (u8, u8, u8, u8))
    ensures
        r == parse_color_spec(color.spec_bytes()),
{
    let bytes = color.as_bytes();
    let n = bytes.len();
    let mut i: usize = 0;
    assert(bytes@.subrange(0, n as int) =~= bytes@);
    while i < n && bytes[i] == 35
        invariant
            i <= n == bytes@.len(),
            strip_hashes(bytes@) == strip_hashes(bytes@.subrange(i as int, n as int)),
        decreases n - i,
    {
        assert(bytes@.subrange(i as int, n as int).drop_first() =~= bytes@.subrange(
            i as int + 1,
            n as int,
        ));
        i = i + 1;
    }
    let ghost c = bytes@.subrange(i as int, n as int);
    assert(strip_hashes(c) == c);
    let len = n - i;
    if len == 6 {
        (
            component(bytes[i], bytes[i + 1]),
            component(bytes[i + 2], bytes[i + 3]),
            component(bytes[i + 4], bytes[i + 5]),
            255,
        )
    } else if len == 8 {
        (
            component(bytes[i], bytes[i + 1]),
            component(bytes[i + 2], bytes[i + 3]),
            component(bytes[i + 4], bytes[i + 5]),
            component(bytes[i + 6], bytes[i + 7]),
        )
    } else {
        (255, 255, 255, 255)
    }
}

/// `start + (end - start) * t`, saturated to `i64`.
pub open spec fn lerp_values(start: int, end: int, t: int) -> int {
    saturate(start + (end - start) * t / (ONE as int))
}

/// Linear interpolation by a fixed-point weight `t`; the result saturates.
pub fn lerp(start: i64, end: i64, t: i64) -> (r: i64)
    requires
        -0x1000_0000_0000_0000 <= t <= 0x1000_0000_0000_0000,
    ensures
        r == lerp_values(start as int, end as int, t as int),
{
    let d = end as i128 - start as i128;
    assert(-0x2_0000_0000_0000_0000 * 0x1000_0000_0000_0000 <= d * (t as i128)
        <= 0x2_0000_0000_0000_0000 * 0x1000_0000_0000_0000) by (nonlinear_arith)
        requires
            -0x2_0000_0000_0000_0000 <= d <= 0x2_0000_0000_0000_0000,
            -0x1000_0000_0000_0000 <= t <= 0x1000_0000_0000_0000,
    ;
    let q = floor_div(d * (t as i128), ONE as i128);
    proof {
        let p = (d * (t as i128)) as int;
        assert(-0x2_0000_0000_0000_0000 * 0x1000_0000_0000_0000 <= p / 1_000_000
            <= 0x2_0000_0000_0000_0000 * 0x1000_0000_0000_0000) by (nonlinear_arith)
            requires
                -0x2_0000_0000_0000_0000 * 0x1000_0000_0000_0000 <= p <= 0x2_0000_0000_0000_0000
                    * 0x1000_0000_0000_0000,
        ;
    }
    saturate_i128(start as i128 + q)
}

/// `value` kept in `[min, max]`: below `min` gives `min`, then above `max`
/// gives `max` (so `max` wins when the bounds cross).
pub fn clamp(value: i64, min: i64, max: i64) -> (r: i64)
    ensures
        r == if value < min {
            if min > max {
                max
            } else {
                min
            }
        } else if value > max {
            max
        } else {
            value
        },
{
    let v = if value < min {
        min
    } else {
        value
    };
    if v > max {
        max
    } else {
        v
    }
}

/// `n / d` rounded down, for a divisor of either sign.
pub open spec fn floor_quot(n: int, d: int) -> int {
    if d < 0 {
        (-n) / (-d)
    } else {
        n / d
    }
}

/// `value` mapped from `[in_min, in_max]` onto `[out_min, out_max]`; an empty
/// input range maps everything to `out_min`.
pub open spec fn map_range_spec(value: int, in_min: int, in_max: int, out_min: int, out_max: int) -> int {
    if in_max == in_min {
        out_min
    } else {
        saturate(floor_quot((value - in_min) * (out_max - out_min), in_max - in_min) + out_min)
    }
}

pub fn map_range(value: i64, in_min: i64, in_max: i64, out_min: i64, out_max: i64) -> (r: i64)
    requires
        coord_ok(value) && coord_ok(in_min) && coord_ok(in_max),
        coord_ok(out_min) && coord_ok(out_max),
    ensures
        r == map_range_spec(value as int, in_min as int, in_max as int, out_min as int, out_max as int),
{
    if in_max == in_min {
        return out_min;
    }
    let a = value as i128 - in_min as i128;
    let b = out_max as i128 - out_min as i128;
    let d = in_max as i128 - in_min as i128;
    assert(-0x1000_0000_0000_0000_0000_0000_0000_0000 <= a * b
        <= 0x1000_0000_0000_0000_0000_0000_0000_0000) by (nonlinear_arith)
        requires
            -0x4000_0000_0000_0000 <= a <= 0x4000_0000_0000_0000,
            -0x4000_0000_0000_0000 <= b <= 0x4000_0000_0000_0000,
    ;
    let p = a * b;
    // divide with a positive divisor, flipping both signs when needed
    let (num, den) = if d < 0 {
        (-p, -d)
    } else {
        (p, d)
    };
    let q = floor_div(num, den);
    proof {
        let (n, e, qq) = (num as int, den as int, q as int);
        assert(-0x1000_0000_0000_0000_0000_0000_0000_0000 <= qq
            <= 0x1000_0000_0000_0000_0000_0000_0000_0000) by (nonlinear_arith)
            requires
                -0x1000_0000_0000_0000_0000_0000_0000_0000 <= n
                    <= 0x1000_0000_0000_0000_0000_0000_0000_0000,
                e >= 1,
                qq == n / e,
        ;
    }
    saturate_i128(q + out_min as i128)
}

/// Hermite smoothing of `x` between the edges: `0` below `edge0`, `ONE`
/// above `edge1`, `3u^2 - 2u^3` between, for `u` the clamped position.
pub open spec fn smoothstep_spec(edge0: int, edge1: int, x: int) -> int {
    let u = if edge1 == edge0 {
        if x < edge0 {
            0
        } else {
            ONE as int
        }
    } else {
        clamp_spec(floor_quot((x - edge0) * ONE, edge1 - edge0), 0, ONE as int)
    };
    mul_spec(mul_spec(u, u), 3 * ONE - 2 * u)
}

pub fn smoothstep(edge0: i64, edge1: i64, x: i64) -> (r: i64)
    ensures
        r == smoothstep_spec(edge0 as int, edge1 as int, x as int),
        0 <= r <= ONE,
{
    let u: i64 = if edge1 == edge0 {
        if x < edge0 {
            0
        } else {
            ONE
        }
    } else {
        let a = (x as i128 - edge0 as i128) * 1_000_000;
        let d = edge1 as i128 - edge0 as i128;
        let (num, den) = if d < 0 {
            (-a, -d)
        } else {
            (a, d)
        };
        let q = floor_div(num, den);
        if q < 0 {
            0
        } else if q > ONE as i128 {
            ONE
        } else {
            q as i64
        }
    };
    let u2 = fmul(u, u);
    let r = fmul(u2, 3 * ONE - 2 * u);
    proof {
        let (uu, v) = (u as int, u2 as int);
        assert(mul_spec(v, 3 * ONE - 2 * uu) <= ONE) by (nonlinear_arith)
            requires
                0 <= uu <= 1_000_000,
                v == uu * uu / 1_000_000,
        ;
    }
    r
}

/// `angle` brought into `[0, 360)` degrees.
pub fn normalize_angle(angle: i64) -> (r: i64)
    ensures
        r == (angle as int) % (360 * ONE as int),
        0 <= r < 360 * ONE,
{
    let full = 360 * ONE;
    let q = floor_div(angle as i128, full as i128);
    (angle as i128 - q * (full as i128)) as i64
}

pub open spec fn max3(a: int, b: int, c: int) -> int {
    if a >= b && a >= c {
        a
    } else if b >= c {
        b
    } else {
        c
    }
}

pub open spec fn min3(a: int, b: int, c: int) -> int {
    if a <= b && a <= c {
        a
    } else if b <= c {
        b
    } else {
        c
    }
}

/// Hue in degrees (`[0, 360)`), saturation and lightness (`[0, ONE]`) of an
/// 8-bit colour, each rounded down.
pub open spec fn rgb_to_hsl_spec(r: int, g: int, b: int) -> (int, int, int) {
    let mx = max3(r, g, b);
    let mn = min3(r, g, b);
    let d = mx - mn;
    let sector = 60 * ONE;
    let raw = if d == 0 {
        0
    } else if mx == r {
        sector * (g - b) / d
    } else if mx == g {
        sector * (b - r) / d + 2 * sector
    } else {
        sector * (r - g) / d + 4 * sector
    };
    let h = if raw < 0 {
        raw + 360 * ONE
    } else {
        raw
    };
    let l = ONE * (mx + mn) / 510;
    let spread = if mx + mn > 255 {
        510 - mx - mn
    } else {
        mx + mn
    };
    let s = if d == 0 {
        0
    } else {
        ONE * d / spread
    };
    (h, s, l)
}

/// `60 * ONE * num / d`, rounded down, for `|num| <= d`.
fn sector_offset(num: i64, d: i64) -> (r: i64)
    requires
        1 <= d <= 255,
        -d <= num <= d,
    ensures
        r == (60 * ONE) * num / (d as int),
        -60 * ONE <= r <= 60 * ONE,
{
    let q = floor_div((60 * ONE * num) as i128, d as i128);
    proof {
        let (n, dd, qq) = (num as int, d as int, q as int);
        assert(-60_000_000 <= qq <= 60_000_000) by (nonlinear_arith)
            requires
                1 <= dd,
                -dd <= n <= dd,
                qq == (60_000_000 * n) / dd,
        ;
    }
    q as i64
}

pub fn rgb_to_hsl(r: u8, g: u8, b: u8) -> (res: (i64, i64, i64))
    ensures
        (res.0 as int, res.1 as int, res.2 as int) == rgb_to_hsl_spec(r as int, g as int, b as int),
{
    let (ri, gi, bi) = (r as i64, g as i64, b as i64);
    let mx = if ri >= gi && ri >= bi {
        ri
    } else if gi >= bi {
        gi
    } else {
        bi
    };
    let mn = if ri <= gi && ri <= bi {
        ri
    } else if gi <= bi {
        gi
    } else {
        bi
    };
    let d = mx - mn;
    let sector: i64 = 60 * ONE;
    let raw = if d == 0 {
        0
    } else if mx == ri {
        sector_offset(gi - bi, d)
    } else if mx == gi {
        sector_offset(bi - ri, d) + 2 * sector
    } else {
        sector_offset(ri - gi, d) + 4 * sector
    };
    let h = if raw < 0 {
        raw + 360 * ONE
    } else {
        raw
    };
    let l = ONE * (mx + mn) / 510;
    let spread = if mx + mn > 255 {
        510 - mx - mn
    } else {
        mx + mn
    };
    let s = if d == 0 {
        0
    } else {
        ONE * d / spread
    };
    (h, s, l)
}

/// Remainder of `a / m` with the sign of `a`, as floating-point `%` gives.
pub open spec fn trunc_rem(a: int, m: int) -> int {
    if a >= 0 {
        a % m
    } else {
        -((-a) % m)
    }
}

/// 8-bit channel of a fixed-point intensity: scaled by 255, clamped to
/// `[0, 255]` and rounded down.
pub open spec fn to_byte(v: int) -> u8 {
    (clamp_spec(v * 255, 0, 255 * ONE) / (ONE as int)) as u8
}

/// An 8-bit colour from hue (degrees), saturation and lightness; saturation
/// and lightness are clamped to `[0, ONE]`.
pub open spec fn hsl_to_rgb_spec(h: int, s: int, l: int) -> (u8, u8, u8) {
    let s1 = clamp_spec(s, 0, ONE as int);
    let l1 = clamp_spec(l, 0, ONE as int);
    let dist = if 2 * l1 > ONE {
        2 * l1 - ONE
    } else {
        ONE - 2 * l1
    };
    let c = mul_spec(ONE - dist, s1);
    let hp = trunc_rem(h, 120 * ONE) / 60;
    let tri = if hp > ONE {
        hp - ONE
    } else {
        ONE - hp
    };
    let x = mul_spec(c, ONE - tri);
    let m = l1 - c / 2;
    let (r, g, b) = if h < 60 * ONE {
        (c, x, 0)
    } else if h < 120 * ONE {
        (x, c, 0)
    } else if h < 180 * ONE {
        (0, c, x)
    } else if h < 240 * ONE {
        (0, x, c)
    } else if h < 300 * ONE {
        (x, 0, c)
    } else {
        (c, 0, x)
    };
    (to_byte(r + m), to_byte(g + m), to_byte(b + m))
}

fn to_byte_exec(v: i64) -> (r: u8)
    requires
        -4 * ONE <= v <= 4 * ONE,
    ensures
        r == to_byte(v as int),
{
    let scaled = v * 255;
    let c = if scaled < 0 {
        0
    } else if scaled > 255 * ONE {
        255 * ONE
    } else {
        scaled
    };
    (c / ONE) as u8
}

pub fn hsl_to_rgb(h: i64, s: i64, l: i64) -> (res: (u8, u8, u8))
    ensures
        res == hsl_to_rgb_spec(h as int, s as int, l as int),
{
    let s1 = if s < 0 {
        0
    } else if s > ONE {
        ONE
    } else {
        s
    };
    let l1 = if l < 0 {
        0
    } else if l > ONE {
        ONE
    } else {
        l
    };
    let dist = if 2 * l1 > ONE {
        2 * l1 - ONE
    } else {
        ONE - 2 * l1
    };
    let c = fmul(ONE - dist, s1);
    let m120: i128 = 120 * ONE as i128;
    let rem: i128 = if h >= 0 {
        h as i128 % m120
    } else {
        -((-(h as i128)) % m120)
    };
    let hp = floor_div(rem, 60) as i64;
    let tri = if hp > ONE {
        hp - ONE
    } else {
        ONE - hp
    };
    let x = fmul(c, ONE - tri);
    let m = l1 - c / 2;
    let (r, g, b) = if h < 60 * ONE {
        (c, x, 0)
    } else if h < 120 * ONE {
        (x, c, 0)
    } else if h < 180 * ONE {
        (0, c, x)
    } else if h < 240 * ONE {
        (0, x, c)
    } else if h < 300 * ONE {
        (x, 0, c)
    } else {
        (c, 0, x)
    };
    (to_byte_exec(r + m), to_byte_exec(g + m), to_byte_exec(b + m))
}

/// `pi` to the library's precision.
pub const PI: i64 = 3_141_593;

/// Distance between two points, rounded down.
pub fn distance(x1: i64, y1: i64, x2: i64, y2: i64) -> (r: i64)
    requires
        coord_ok(x1) && coord_ok(y1) && coord_ok(x2) && coord_ok(y2),
    ensures
        r == isqrt_spec((x2 - x1) * (x2 - x1) + (y2 - y1) * (y2 - y1)),
{
    point_distance(x1, y1, x2, y2)
}

/// Degrees to radians: `degrees * PI / 180`, rounded down.
pub fn deg_to_rad(degrees: i64) -> (r: i64)
    ensures
        r == degrees as int * PI / (180 * ONE as int),
{
    floor_div(degrees as i128 * PI as i128, 180 * ONE as i128) as i64
}

/// Radians to degrees: `radians * 180 / PI`, rounded down and saturated.
pub fn rad_to_deg(radians: i64) -> (r: i64)
    ensures
        r == saturate(radians as int * (180 * ONE as int) / (PI as int)),
{
    saturate_i128(floor_div(radians as i128 * (180 * ONE as i128), PI as i128))
}

} // verus!
