//! Per-pixel blend modes, applied channel by channel to fixed-point RGB.
use crate::fixed::{clamp_i64, clamp_spec, fmul, isqrt, isqrt_spec, mul_spec, ONE};
use crate::text::str_eq;
use vstd::prelude::*;

verus! {

/// The blend modes of the compositor. `Hue`, `Saturation`, `Color`,
/// `Luminosity` and `Divide` are named but not composited: like `Normal` they
/// pass the blend layer through.
#[derive(Clone, Copy, Debug, PartialEq, Eq, Structural)]
pub enum BlendMode {
    Normal,
    Multiply,
    Screen,
    Overlay,
    SoftLight,
    HardLight,
    ColorDodge,
    ColorBurn,
    Darken,
    Lighten,
    Difference,
    Exclusion,
    Hue,
    Saturation,
    Color,
    Luminosity,
    Add,
    Subtract,
    Divide,
}

/// The mode a name selects; unrecognised names select `Normal`.
pub open spec fn blend_mode_of(name: Seq<char>) -> BlendMode {
    if name == "multiply"@ {
        BlendMode::Multiply
    } else if name == "screen"@ {
        BlendMode::Screen
    } else if name == "overlay"@ {
        BlendMode::Overlay
    } else if name == "soft_light"@ {
        BlendMode::SoftLight
    } else if name == "hard_light"@ {
        BlendMode::HardLight
    } else if name == "color_dodge"@ {
        BlendMode::ColorDodge
    } else if name == "color_burn"@ {
        BlendMode::ColorBurn
    } else if name == "darken"@ {
        BlendMode::Darken
    } else if name == "lighten"@ {
        BlendMode::Lighten
    } else if name == "difference"@ {
        BlendMode::Difference
    } else if name == "exclusion"@ {
        BlendMode::Exclusion
    } else if name == "add"@ {
        BlendMode::Add
    } else if name == "subtract"@ {
        BlendMode::Subtract
    } else {
        BlendMode::Normal
    }
}

/// `Overlay` on one channel.
pub open spec fn overlay_spec(b: int, l: int) -> int {
    if 2 * b < ONE {
        2 * mul_spec(b, l)
    } else {
        ONE - 2 * mul_spec(ONE - b, ONE - l)
    }
}

/// Mode `m` on one channel of `base` (`b`) and `blend` (`l`), both in `[0, ONE]`.
pub open spec fn blend_channel_spec(m: BlendMode, b: int, l: int) -> int {
    let s = ONE as int;
    match m {
        BlendMode::Multiply => mul_spec(b, l),
        BlendMode::Screen => s - mul_spec(s - b, s - l),
        BlendMode::Overlay => overlay_spec(b, l),
        BlendMode::SoftLight => if 2 * l < s {
            b - mul_spec(mul_spec(s - 2 * l, b), s - b)
        } else {
            b + mul_spec(2 * l - s, isqrt_spec(b * s) - b)
        },
        BlendMode::HardLight => overlay_spec(l, b),
        BlendMode::ColorDodge => if l == s {
            s
        } else {
            clamp_spec(b * s / (s - l), 0, s)
        },
        BlendMode::ColorBurn => if l == 0 {
            0
        } else {
            clamp_spec(s - (s - b) * s / l, 0, s)
        },
        BlendMode::Darken => if b < l {
            b
        } else {
            l
        },
        BlendMode::Lighten => if b > l {
            b
        } else {
            l
        },
        BlendMode::Difference => if b > l {
            b - l
        } else {
            l - b
        },
        BlendMode::Exclusion => b + l - 2 * mul_spec(b, l),
        BlendMode::Add => clamp_spec(b + l, 0, s),
        BlendMode::Subtract => clamp_spec(b - l, 0, s),
        _ => l,
    }
}

/// One channel after blending and mixing with the base by `opacity`: the
/// inputs are clamped to `[0, ONE]`, then opacity scales the difference.
pub open spec fn apply_channel_spec(m: BlendMode, base: int, blend: int, opacity: int) -> int {
    let b = clamp_spec(base, 0, ONE as int);
    let l = clamp_spec(blend, 0, ONE as int);
    let o = clamp_spec(opacity, 0, ONE as int);
    b + mul_spec(blend_channel_spec(m, b, l) - b, o)
}

pub open spec fn apply_blend_spec(
    m: BlendMode,
    base: (i64, i64, i64),
    blend: (i64, i64, i64),
    opacity: int,
) -> (int, int, int) {
    (
        apply_channel_spec(m, base.0 as int, blend.0 as int, opacity),
        apply_channel_spec(m, base.1 as int, blend.1 as int, opacity),
        apply_channel_spec(m, base.2 as int, blend.2 as int, opacity),
    )
}

impl BlendMode {
    /// Looks a mode up by name; unrecognised names give `Normal`.
    pub fn from_name(name: &str) -> (r: BlendMode)
        ensures
            r == blend_mode_of(name@),
    {
        if str_eq(name, "multiply") {
            BlendMode::Multiply
        } else if str_eq(name, "screen") {
            BlendMode::Screen
        } else if str_eq(name, "overlay") {
            BlendMode::Overlay
        } else if str_eq(name, "soft_light") {
            BlendMode::SoftLight
        } else if str_eq(name, "hard_light") {
            BlendMode::HardLight
        } else if str_eq(name, "color_dodge") {
            BlendMode::ColorDodge
        } else if str_eq(name, "color_burn") {
            BlendMode::ColorBurn
        } else if str_eq(name, "darken") {
            BlendMode::Darken
        } else if str_eq(name, "lighten") {
            BlendMode::Lighten
        } else if str_eq(name, "difference") {
            BlendMode::Difference
        } else if str_eq(name, "exclusion") {
            BlendMode::Exclusion
        } else if str_eq(name, "add") {
            BlendMode::Add
        } else if str_eq(name, "subtract") {
            BlendMode::Subtract
        } else {
            BlendMode::Normal
        }
    }
}

fn overlay(b: i64, l: i64) -> (r: i64)
    requires
        0 <= b <= ONE,
        0 <= l <= ONE,
    ensures
        r == overlay_spec(b as int, l as int),
        0 <= r <= ONE,
{
    if 2 * b < ONE {
        2 * fmul(b, l)
    } else {
        ONE - 2 * fmul(ONE - b, ONE - l)
    }
}

/// `sqrt(b)` in fixed point, which is at least `b` on the unit interval.
fn unit_sqrt(b: i64) -> (r: i64)
    requires
        0 <= b <= ONE,
    ensures
        r == isqrt_spec(b * ONE),
        b <= r <= ONE,
{
    assert(0 <= b * ONE <= ONE * ONE) by (nonlinear_arith)
        requires
            0 <= b <= ONE,
    ;
    let r = isqrt((b * ONE) as u128);
    proof {
        let (x, y) = (b as int, r as int);
        assert(x <= y <= 1_000_000) by (nonlinear_arith)
            requires
                0 <= x <= 1_000_000,
                0 <= y,
                y * y <= x * 1_000_000,
                x * 1_000_000 < (y + 1) * (y + 1),
        ;
    }
    r as i64
}

fn blend_channel(m: BlendMode, b: i64, l: i64) -> (r: i64)
    requires
        0 <= b <= ONE,
        0 <= l <= ONE,
    ensures
        r == blend_channel_spec(m, b as int, l as int),
        -ONE <= r <= 2 * ONE,
{
    let s: i64 = ONE;
    match m {
        BlendMode::Multiply => fmul(b, l),
        BlendMode::Screen => s - fmul(s - b, s - l),
        BlendMode::Overlay => overlay(b, l),
        BlendMode::SoftLight => if 2 * l < s {
            b - fmul(fmul(s - 2 * l, b), s - b)
        } else {
            b + fmul(2 * l - s, unit_sqrt(b) - b)
        },
        BlendMode::HardLight => overlay(l, b),
        BlendMode::ColorDodge => if l == s {
            s
        } else {
            assert(b * s <= 1_000_000_000_000) by (nonlinear_arith)
                requires
                    0 <= b <= s,
                    s == 1_000_000,
            ;
            clamp_i64(b * s / (s - l), 0, s)
        },
        BlendMode::ColorBurn => if l == 0 {
            0
        } else {
            assert(0 <= (s - b) * s <= 1_000_000_000_000) by (nonlinear_arith)
                requires
                    0 <= b <= s,
                    s == 1_000_000,
            ;
            let q = (s - b) * s / l;
            proof {
                let (n, d, qq) = (((s - b) * s) as int, l as int, q as int);
                assert(0 <= qq <= 1_000_000_000_000) by (nonlinear_arith)
                    requires
                        0 <= n <= 1_000_000_000_000,
                        d >= 1,
                        qq == n / d,
                ;
            }
            clamp_i64(s - q, 0, s)
        },
        BlendMode::Darken => if b < l {
            b
        } else {
            l
        },
        BlendMode::Lighten => if b > l {
            b
        } else {
            l
        },
        BlendMode::Difference => if b > l {
            b - l
        } else {
            l - b
        },
        BlendMode::Exclusion => b + l - 2 * fmul(b, l),
        BlendMode::Add => clamp_i64(b + l, 0, s),
        BlendMode::Subtract => clamp_i64(b - l, 0, s),
        _ => l,
    }
}

fn apply_channel(m: BlendMode, base: i64, blend: i64, opacity: i64) -> (r: i64)
    ensures
        r == apply_channel_spec(m, base as int, blend as int, opacity as int),
{
    let b = clamp_i64(base, 0, ONE);
    let l = clamp_i64(blend, 0, ONE);
    let o = clamp_i64(opacity, 0, ONE);
    let c = blend_channel(m, b, l);
    b + fmul(c - b, o)
}

/// Blends `blend` over `base` with mode `m`, then mixes the result with `base`
/// by `opacity`: channels and opacity are clamped to `[0, ONE]`.
pub fn apply_blend(m: BlendMode, base: (i64, i64, i64), blend: (i64, i64, i64), opacity: i64) -> (r:
    (i64, i64, i64))
    ensures
        (r.0 as int, r.1 as int, r.2 as int) == apply_blend_spec(m, base, blend, opacity as int),
{
    (
        apply_channel(m, base.0, blend.0, opacity),
        apply_channel(m, base.1, blend.1, opacity),
        apply_channel(m, base.2, blend.2, opacity),
    )
}

/// Blends two colours with the mode named `mode` (unrecognised names blend as
/// `Normal`) and mixes the result with `base` by `opacity`.
pub fn apply_blend_mode(base: (i64, i64, i64), blend: (i64, i64, i64), mode: &str, opacity: i64) -> (r:
    (i64, i64, i64))
    ensures
        (r.0 as int, r.1 as int, r.2 as int) == apply_blend_spec(
            blend_mode_of(mode@),
            base,
            blend,
            opacity as int,
        ),
{
    apply_blend(BlendMode::from_name(mode), base, blend, opacity)
}

/// Colour channels in `[0, ONE]`.
pub open spec fn unit_rgb(c: (i64, i64, i64)) -> bool {
    0 <= c.0 <= ONE && 0 <= c.1 <= ONE && 0 <= c.2 <= ONE
}

/// Opacity `0` leaves the base colour as it is, whatever the mode.
pub proof fn lemma_zero_opacity_keeps_base(m: BlendMode, base: (i64, i64, i64), blend: (i64, i64, i64))
    requires
        unit_rgb(base),
    ensures
        apply_blend_spec(m, base, blend, 0) == (base.0 as int, base.1 as int, base.2 as int),
{
    assert(forall|x: int| #[trigger] mul_spec(x, 0) == 0);
}

/// Full opacity gives the mode's blend exactly.
pub proof fn lemma_full_opacity_is_blend(m: BlendMode, base: (i64, i64, i64), blend: (i64, i64, i64))
    requires
        unit_rgb(base),
        unit_rgb(blend),
    ensures
        apply_blend_spec(m, base, blend, ONE as int) == (
            blend_channel_spec(m, base.0 as int, blend.0 as int),
            blend_channel_spec(m, base.1 as int, blend.1 as int),
            blend_channel_spec(m, base.2 as int, blend.2 as int),
        ),
{
    assert(forall|x: int| #[trigger] mul_spec(x, ONE as int) == x);
}

/// A blend-mode setting carried by a layer.
#[derive(Debug)]
pub struct BlendModeEffect {
    pub mode: String,
    pub opacity: i64,
}

impl BlendModeEffect {
    /// A fully opaque effect with mode `mode`.
    pub fn new(mode: String) -> (r: BlendModeEffect)
        ensures
            r.mode@ == mode@,
            r.opacity == ONE,
    {
        BlendModeEffect { mode, opacity: ONE }
    }

    pub fn set_mode(&mut self, mode: String)
        ensures
            final(self).mode@ == mode@,
            final(self).opacity == old(self).opacity,
    {
        self.mode = mode;
    }

    /// Applies this effect to `blend` over `base`.
    pub fn apply(&self, base: (i64, i64, i64), blend: (i64, i64, i64)) -> (r: (i64, i64, i64))
        ensures
            (r.0 as int, r.1 as int, r.2 as int) == apply_blend_spec(
                blend_mode_of(self.mode@),
                base,
                blend,
                self.opacity as int,
            ),
    {
        apply_blend_mode(base, blend, self.mode.as_str(), self.opacity)
    }
}

} // verus!
