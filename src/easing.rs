//! Easing curves: maps from normalised progress in `[0, ONE]` to eased progress.
use crate::fixed::{
    clamp_i64, clamp_spec, cos_quarter, cos_quarter_spec, exp2, exp2_spec, exp_frac_spec,
    floor_div, fmul, isqrt, isqrt_spec, lemma_isqrt_is, mul_spec, sin_quarter, sin_quarter_spec,
    sine_poly_spec, ONE, SIN_C3, SIN_C5, SIN_C7,
};
use vstd::arithmetic::power2::lemma2_to64;
use crate::text::str_eq;
use vstd::prelude::*;

verus! {

/// A named easing curve.
#[derive(Clone, Copy, Debug, PartialEq, Eq, Structural)]
pub enum Easing {
    Linear,
    QuadIn,
    QuadOut,
    QuadInOut,
    CubicIn,
    CubicOut,
    CubicInOut,
    QuartIn,
    QuartOut,
    QuartInOut,
    QuintIn,
    QuintOut,
    QuintInOut,
    SineIn,
    SineOut,
    SineInOut,
    ExpoIn,
    ExpoOut,
    ExpoInOut,
    CircIn,
    CircOut,
    /// The standard circular in-out: `(1 - sqrt(1 - (2t)^2)) / 2` below half
    /// way and `(sqrt(1 - (2 - 2t)^2) + 1) / 2` from half way on, so that it
    /// ends at `1`.
    CircInOut,
    ElasticIn,
    ElasticOut,
    ElasticInOut,
    BackIn,
    BackOut,
    BackInOut,
    BounceIn,
    BounceOut,
    BounceInOut,
}

/// The curve a name selects; unknown names select `Linear`.
pub open spec fn easing_of(name: Seq<char>) -> Easing {
    if name == "linear"@ {
        Easing::Linear
    } else if name == "ease_in"@ || name == "quad_in"@ {
        Easing::QuadIn
    } else if name == "ease_out"@ || name == "quad_out"@ {
        Easing::QuadOut
    } else if name == "ease_in_out"@ || name == "quad_in_out"@ {
        Easing::QuadInOut
    } else if name == "cubic_in"@ {
        Easing::CubicIn
    } else if name == "cubic_out"@ {
        Easing::CubicOut
    } else if name == "cubic_in_out"@ {
        Easing::CubicInOut
    } else if name == "quart_in"@ {
        Easing::QuartIn
    } else if name == "quart_out"@ {
        Easing::QuartOut
    } else if name == "quart_in_out"@ {
        Easing::QuartInOut
    } else if name == "quint_in"@ {
        Easing::QuintIn
    } else if name == "quint_out"@ {
        Easing::QuintOut
    } else if name == "quint_in_out"@ {
        Easing::QuintInOut
    } else if name == "sine_in"@ {
        Easing::SineIn
    } else if name == "sine_out"@ {
        Easing::SineOut
    } else if name == "sine_in_out"@ {
        Easing::SineInOut
    } else if name == "expo_in"@ {
        Easing::ExpoIn
    } else if name == "expo_out"@ {
        Easing::ExpoOut
    } else if name == "expo_in_out"@ {
        Easing::ExpoInOut
    } else if name == "circ_in"@ {
        Easing::CircIn
    } else if name == "circ_out"@ {
        Easing::CircOut
    } else if name == "circ_in_out"@ {
        Easing::CircInOut
    } else if name == "elastic_in"@ {
        Easing::ElasticIn
    } else if name == "elastic_out"@ || name == "elastic"@ {
        Easing::ElasticOut
    } else if name == "elastic_in_out"@ {
        Easing::ElasticInOut
    } else if name == "back_in"@ {
        Easing::BackIn
    } else if name == "back_out"@ {
        Easing::BackOut
    } else if name == "back_in_out"@ {
        Easing::BackInOut
    } else if name == "bounce_in"@ {
        Easing::BounceIn
    } else if name == "bounce_out"@ {
        Easing::BounceOut
    } else if name == "bounce_in_out"@ {
        Easing::BounceInOut
    } else {
        Easing::Linear
    }
}

impl Easing {
    /// Looks a curve up by name; unknown names fall back to `Linear`.
    pub fn from_name(name: &str) -> (r: Easing)
        ensures
            r == easing_of(name@),
    {
        if str_eq(name, "linear") {
            Easing::Linear
        } else if str_eq(name, "ease_in") || str_eq(name, "quad_in") {
            Easing::QuadIn
        } else if str_eq(name, "ease_out") || str_eq(name, "quad_out") {
            Easing::QuadOut
        } else if str_eq(name, "ease_in_out") || str_eq(name, "quad_in_out") {
            Easing::QuadInOut
        } else if str_eq(name, "cubic_in") {
            Easing::CubicIn
        } else if str_eq(name, "cubic_out") {
            Easing::CubicOut
        } else if str_eq(name, "cubic_in_out") {
            Easing::CubicInOut
        } else if str_eq(name, "quart_in") {
            Easing::QuartIn
        } else if str_eq(name, "quart_out") {
            Easing::QuartOut
        } else if str_eq(name, "quart_in_out") {
            Easing::QuartInOut
        } else if str_eq(name, "quint_in") {
            Easing::QuintIn
        } else if str_eq(name, "quint_out") {
            Easing::QuintOut
        } else if str_eq(name, "quint_in_out") {
            Easing::QuintInOut
        } else if str_eq(name, "sine_in") {
            Easing::SineIn
        } else if str_eq(name, "sine_out") {
            Easing::SineOut
        } else if str_eq(name, "sine_in_out") {
            Easing::SineInOut
        } else if str_eq(name, "expo_in") {
            Easing::ExpoIn
        } else if str_eq(name, "expo_out") {
            Easing::ExpoOut
        } else if str_eq(name, "expo_in_out") {
            Easing::ExpoInOut
        } else if str_eq(name, "circ_in") {
            Easing::CircIn
        } else if str_eq(name, "circ_out") {
            Easing::CircOut
        } else if str_eq(name, "circ_in_out") {
            Easing::CircInOut
        } else if str_eq(name, "elastic_in") {
            Easing::ElasticIn
        } else if str_eq(name, "elastic_out") || str_eq(name, "elastic") {
            Easing::ElasticOut
        } else if str_eq(name, "elastic_in_out") {
            Easing::ElasticInOut
        } else if str_eq(name, "back_in") {
            Easing::BackIn
        } else if str_eq(name, "back_out") {
            Easing::BackOut
        } else if str_eq(name, "back_in_out") {
            Easing::BackInOut
        } else if str_eq(name, "bounce_in") {
            Easing::BounceIn
        } else if str_eq(name, "bounce_out") {
            Easing::BounceOut
        } else if str_eq(name, "bounce_in_out") {
            Easing::BounceInOut
        } else {
            Easing::Linear
        }
    }
}

/// Overshoot constant of the back curves (`1.70158`).
pub const BACK_C1: i64 = 1_701_580;

/// `BACK_C1 + 1`.
pub const BACK_C3: i64 = 2_701_580;

/// Overshoot of the two-sided back curve (`1.70158 * 1.525`).
pub const BACK_C2: i64 = 2_594_910;

pub open spec fn sq_spec(x: int) -> int {
    mul_spec(x, x)
}

pub open spec fn cube_spec(x: int) -> int {
    mul_spec(sq_spec(x), x)
}

pub open spec fn quart_spec(x: int) -> int {
    mul_spec(cube_spec(x), x)
}

pub open spec fn quint_spec(x: int) -> int {
    mul_spec(quart_spec(x), x)
}

/// The bouncing tail: four parabolas meeting at `4/11`, `8/11` and `10/11`.
pub open spec fn bounce_out_spec(x: int) -> int {
    let s = ONE as int;
    if 11 * x < 4 * s {
        121 * x * x / (16 * s)
    } else if 11 * x < 8 * s {
        (11 * x - 6 * s) * (11 * x - 6 * s) / (16 * s) + 750_000
    } else if 11 * x < 10 * s {
        (11 * x - 9 * s) * (11 * x - 9 * s) / (16 * s) + 937_500
    } else {
        (22 * x - 21 * s) * (22 * x - 21 * s) / (64 * s) + 984_375
    }
}

/// Angle, in quarter turns, of the oscillation of `ElasticIn`.
pub open spec fn elastic_in_angle(t: int) -> int {
    (t - 1_075_000) * 40 / 3
}

/// Angle, in quarter turns, of the oscillation of `ElasticOut`.
pub open spec fn elastic_out_angle(t: int) -> int {
    (10 * t - 750_000) * 4 / 3
}

/// Angle, in quarter turns, of the oscillation of `ElasticInOut`.
pub open spec fn elastic_in_out_angle(t: int) -> int {
    (20 * t - 11_125_000) * 8 / 9
}

/// The eased progress of curve `e` at progress `t`, for `t` in `[0, ONE]`.
pub open spec fn curve_spec(e: Easing, t: int) -> int {
    let s = ONE as int;
    match e {
        Easing::Linear => t,
        Easing::QuadIn => sq_spec(t),
        Easing::QuadOut => s - sq_spec(s - t),
        Easing::QuadInOut => if 2 * t < s {
            2 * sq_spec(t)
        } else {
            s - 2 * sq_spec(s - t)
        },
        Easing::CubicIn => cube_spec(t),
        Easing::CubicOut => s - cube_spec(s - t),
        Easing::CubicInOut => if 2 * t < s {
            4 * cube_spec(t)
        } else {
            s - 4 * cube_spec(s - t)
        },
        Easing::QuartIn => quart_spec(t),
        Easing::QuartOut => s - quart_spec(s - t),
        Easing::QuartInOut => if 2 * t < s {
            8 * quart_spec(t)
        } else {
            s - 8 * quart_spec(s - t)
        },
        Easing::QuintIn => quint_spec(t),
        Easing::QuintOut => s - quint_spec(s - t),
        Easing::QuintInOut => if 2 * t < s {
            16 * quint_spec(t)
        } else {
            s - 16 * quint_spec(s - t)
        },
        Easing::SineIn => s - cos_quarter_spec(t),
        Easing::SineOut => sin_quarter_spec(t),
        Easing::SineInOut => (s - cos_quarter_spec(2 * t)) / 2,
        Easing::ExpoIn => if t == 0 {
            0
        } else {
            exp2_spec(10 * t - 10 * s)
        },
        Easing::ExpoOut => if t == s {
            s
        } else {
            s - exp2_spec(-10 * t)
        },
        Easing::ExpoInOut => if t == 0 {
            0
        } else if t == s {
            s
        } else if 2 * t < s {
            exp2_spec(20 * t - 10 * s) / 2
        } else {
            (2 * s - exp2_spec(10 * s - 20 * t)) / 2
        },
        Easing::CircIn => s - isqrt_spec(s * s - t * t),
        Easing::CircOut => isqrt_spec(s * s - (s - t) * (s - t)),
        Easing::CircInOut => if 2 * t < s {
            (s - isqrt_spec(s * s - (2 * t) * (2 * t))) / 2
        } else {
            (isqrt_spec(s * s - (2 * s - 2 * t) * (2 * s - 2 * t)) + s) / 2
        },
        Easing::ElasticIn => if t == 0 {
            0
        } else if t == s {
            s
        } else {
            -mul_spec(exp2_spec(10 * t - 10 * s), sin_quarter_spec(elastic_in_angle(t)))
        },
        Easing::ElasticOut => if t == 0 {
            0
        } else if t == s {
            s
        } else {
            mul_spec(exp2_spec(-10 * t), sin_quarter_spec(elastic_out_angle(t))) + s
        },
        Easing::ElasticInOut => if t == 0 {
            0
        } else if t == s {
            s
        } else if 2 * t < s {
            -mul_spec(exp2_spec(20 * t - 10 * s), sin_quarter_spec(elastic_in_out_angle(t))) / 2
        } else {
            mul_spec(exp2_spec(10 * s - 20 * t), sin_quarter_spec(elastic_in_out_angle(t))) / 2 + s
        },
        Easing::BackIn => mul_spec(BACK_C3 as int, cube_spec(t)) - mul_spec(
            BACK_C1 as int,
            sq_spec(t),
        ),
        Easing::BackOut => s + mul_spec(BACK_C3 as int, cube_spec(t - s)) + mul_spec(
            BACK_C1 as int,
            sq_spec(t - s),
        ),
        Easing::BackInOut => if 2 * t < s {
            mul_spec(sq_spec(2 * t), mul_spec(BACK_C2 + s, 2 * t) - BACK_C2) / 2
        } else {
            (mul_spec(sq_spec(2 * t - 2 * s), mul_spec(BACK_C2 + s, 2 * t - 2 * s) + BACK_C2) + 2
                * s) / 2
        },
        Easing::BounceIn => s - bounce_out_spec(s - t),
        Easing::BounceOut => bounce_out_spec(t),
        Easing::BounceInOut => if 2 * t < s {
            (s - bounce_out_spec(s - 2 * t)) / 2
        } else {
            (s + bounce_out_spec(2 * t - s)) / 2
        },
    }
}

/// The eased progress of curve `e` at progress `t`, clamped to `[0, ONE]` first.
pub open spec fn ease_spec(e: Easing, t: int) -> int {
    curve_spec(e, clamp_spec(t, 0, ONE as int))
}

/// The eased progress of the curve named `name` at progress `t`.
pub open spec fn ease_named_spec(name: Seq<char>, t: int) -> int {
    ease_spec(easing_of(name), t)
}

fn sq(x: i64) -> (r: i64)
    requires
        -ONE <= x <= ONE,
    ensures
        r == sq_spec(x as int),
        0 <= r <= ONE,
        x == ONE || x == -ONE ==> r == ONE,
        x == 0 ==> r == 0,
        0 <= 2 * x <= ONE ==> 4 * r <= ONE,
{
    let r = fmul(x, x);
    assert(0 <= 2 * x <= ONE ==> 4 * ((x * x) / 1_000_000) <= ONE) by (nonlinear_arith);
    r
}

fn cube(x: i64) -> (r: i64)
    requires
        -ONE <= x <= ONE,
    ensures
        r == cube_spec(x as int),
        0 <= x ==> 0 <= r <= ONE,
        x <= 0 ==> -ONE <= r <= 0,
        x == ONE ==> r == ONE,
        x == -ONE ==> r == -ONE,
        x == 0 ==> r == 0,
        0 <= 2 * x <= ONE ==> 8 * r <= ONE,
{
    let q = sq(x);
    let r = fmul(q, x);
    assert(0 <= 2 * x <= ONE ==> 8 * ((q * x) / 1_000_000) <= ONE) by (nonlinear_arith)
        requires
            0 <= 2 * x <= ONE ==> 0 <= 4 * q <= ONE,
    ;
    r
}

fn quart(x: i64) -> (r: i64)
    requires
        0 <= x <= ONE,
    ensures
        r == quart_spec(x as int),
        0 <= r <= ONE,
        x == ONE ==> r == ONE,
        x == 0 ==> r == 0,
        2 * x <= ONE ==> 16 * r <= ONE,
{
    let c = cube(x);
    let r = fmul(c, x);
    assert(2 * x <= ONE ==> 16 * ((c * x) / 1_000_000) <= ONE) by (nonlinear_arith)
        requires
            0 <= x,
            2 * x <= ONE ==> 0 <= 8 * c <= ONE,
    ;
    r
}

fn quint(x: i64) -> (r: i64)
    requires
        0 <= x <= ONE,
    ensures
        r == quint_spec(x as int),
        0 <= r <= ONE,
        x == ONE ==> r == ONE,
        x == 0 ==> r == 0,
        2 * x <= ONE ==> 32 * r <= ONE,
{
    let c = quart(x);
    let r = fmul(c, x);
    assert(2 * x <= ONE ==> 32 * ((c * x) / 1_000_000) <= ONE) by (nonlinear_arith)
        requires
            0 <= x,
            2 * x <= ONE ==> 0 <= 16 * c <= ONE,
    ;
    r
}

fn bounce_out(x: i64) -> (r: i64)
    requires
        0 <= x <= ONE,
    ensures
        r == bounce_out_spec(x as int),
        0 <= r <= ONE,
        x == 0 ==> r == 0,
        x == ONE ==> r == ONE,
{
    let s: i64 = ONE;
    if 11 * x < 4 * s {
        assert(0 <= 121 * x * x <= 16 * s * s) by (nonlinear_arith)
            requires
                0 <= x,
                11 * x < 4 * s,
                s == 1_000_000,
        ;
        121 * x * x / (16 * s)
    } else if 11 * x < 8 * s {
        let d = 11 * x - 6 * s;
        assert(0 <= d * d <= 4 * s * s) by (nonlinear_arith)
            requires
                -2 * s <= d <= 2 * s,
                s == 1_000_000,
        ;
        d * d / (16 * s) + 750_000
    } else if 11 * x < 10 * s {
        let d = 11 * x - 9 * s;
        assert(0 <= d * d <= s * s) by (nonlinear_arith)
            requires
                -s <= d <= s,
                s == 1_000_000,
        ;
        d * d / (16 * s) + 937_500
    } else {
        let d = 22 * x - 21 * s;
        assert(0 <= d * d <= s * s) by (nonlinear_arith)
            requires
                -s <= d <= s,
                s == 1_000_000,
        ;
        d * d / (64 * s) + 984_375
    }
}

/// `sqrt(1 - d^2)` in fixed point.
fn circ_root(d: i64) -> (r: i64)
    requires
        0 <= d <= ONE,
    ensures
        r == isqrt_spec(ONE * ONE - d * d),
        0 <= r <= ONE,
{
    let s: i64 = ONE;
    assert(0 <= d * d <= s * s) by (nonlinear_arith)
        requires
            0 <= d <= s,
    ;
    let q = isqrt((s * s - d * d) as u128);
    assert(q <= s) by (nonlinear_arith)
        requires
            q * q <= s * s - d * d,
            0 <= q,
            0 <= s,
            0 <= d * d,
    ;
    q as i64
}

/// `-(a * b / ONE)` for the elastic curves.
fn neg_fmul(a: i64, b: i64) -> (r: i64)
    requires
        0 <= a <= ONE,
        -ONE <= b <= ONE,
    ensures
        r == -mul_spec(a as int, b as int),
        -ONE <= r <= ONE,
{
    -fmul(a, b)
}

fn floor_half(x: i64) -> (r: i64)
    requires
        -4 * ONE <= x <= 4 * ONE,
    ensures
        r == x as int / 2,
{
    floor_div(x as i128, 2) as i64
}

fn power_curve(e: Easing, t: i64) -> (r: i64)
    requires
        0 <= t <= ONE,
        e == Easing::Linear || e == Easing::QuadIn || e == Easing::QuadOut || e == Easing::QuadInOut || e == Easing::CubicIn || e == Easing::CubicOut || e == Easing::CubicInOut || e == Easing::QuartIn || e == Easing::QuartOut || e == Easing::QuartInOut || e == Easing::QuintIn || e == Easing::QuintOut || e == Easing::QuintInOut,
    ensures
        r == curve_spec(e, t as int),
        -2 * ONE <= r <= 3 * ONE,
{
    let s: i64 = ONE;
    match e {
        Easing::Linear => t,
        Easing::QuadIn => sq(t),
        Easing::QuadOut => s - sq(s - t),
        Easing::QuadInOut => if 2 * t < s {
            2 * sq(t)
        } else {
            s - 2 * sq(s - t)
        },
        Easing::CubicIn => cube(t),
        Easing::CubicOut => s - cube(s - t),
        Easing::CubicInOut => if 2 * t < s {
            4 * cube(t)
        } else {
            s - 4 * cube(s - t)
        },
        Easing::QuartIn => quart(t),
        Easing::QuartOut => s - quart(s - t),
        Easing::QuartInOut => if 2 * t < s {
            8 * quart(t)
        } else {
            s - 8 * quart(s - t)
        },
        Easing::QuintIn => quint(t),
        Easing::QuintOut => s - quint(s - t),
        Easing::QuintInOut => if 2 * t < s {
            16 * quint(t)
        } else {
            s - 16 * quint(s - t)
        },
        _ => {
            proof {
                assert(false);
            }
            0
        },
    }
}

fn sine_curve(e: Easing, t: i64) -> (r: i64)
    requires
        0 <= t <= ONE,
        e == Easing::SineIn || e == Easing::SineOut || e == Easing::SineInOut,
    ensures
        r == curve_spec(e, t as int),
        -2 * ONE <= r <= 3 * ONE,
{
    let s: i64 = ONE;
    match e {
        Easing::SineIn => s - cos_quarter(t),
        Easing::SineOut => sin_quarter(t),
        Easing::SineInOut => floor_half(s - cos_quarter(2 * t)),
        _ => {
            proof {
                assert(false);
            }
            0
        },
    }
}

fn expo_curve(e: Easing, t: i64) -> (r: i64)
    requires
        0 <= t <= ONE,
        e == Easing::ExpoIn || e == Easing::ExpoOut || e == Easing::ExpoInOut,
    ensures
        r == curve_spec(e, t as int),
        -2 * ONE <= r <= 3 * ONE,
{
    let s: i64 = ONE;
    match e {
        Easing::ExpoIn => if t == 0 {
            0
        } else {
            exp2(10 * t - 10 * s)
        },
        Easing::ExpoOut => if t == s {
            s
        } else {
            s - exp2(0 - 10 * t)
        },
        Easing::ExpoInOut => if t == 0 {
            0
        } else if t == s {
            s
        } else if 2 * t < s {
            exp2(20 * t - 10 * s) / 2
        } else {
            (2 * s - exp2(10 * s - 20 * t)) / 2
        },
        _ => {
            proof {
                assert(false);
            }
            0
        },
    }
}

fn circ_curve(e: Easing, t: i64) -> (r: i64)
    requires
        0 <= t <= ONE,
        e == Easing::CircIn || e == Easing::CircOut || e == Easing::CircInOut,
    ensures
        r == curve_spec(e, t as int),
        -2 * ONE <= r <= 3 * ONE,
{
    let s: i64 = ONE;
    match e {
        Easing::CircIn => s - circ_root(t),
        Easing::CircOut => circ_root(s - t),
        Easing::CircInOut => if 2 * t < s {
            (s - circ_root(2 * t)) / 2
        } else {
            (circ_root(2 * s - 2 * t) + s) / 2
        },
        _ => {
            proof {
                assert(false);
            }
            0
        },
    }
}

fn elastic_curve(e: Easing, t: i64) -> (r: i64)
    requires
        0 <= t <= ONE,
        e == Easing::ElasticIn || e == Easing::ElasticOut || e == Easing::ElasticInOut,
    ensures
        r == curve_spec(e, t as int),
        -2 * ONE <= r <= 3 * ONE,
{
    let s: i64 = ONE;
    match e {
        Easing::ElasticIn => if t == 0 {
            0
        } else if t == s {
            s
        } else {
            let a = floor_div(((t - 1_075_000) * 40) as i128, 3) as i64;
            neg_fmul(exp2(10 * t - 10 * s), sin_quarter(a))
        },
        Easing::ElasticOut => if t == 0 {
            0
        } else if t == s {
            s
        } else {
            let a = floor_div(((10 * t - 750_000) * 4) as i128, 3) as i64;
            fmul(exp2(0 - 10 * t), sin_quarter(a)) + s
        },
        Easing::ElasticInOut => {
            if t == 0 {
                0
            } else if t == s {
                s
            } else {
                let a = floor_div(((20 * t - 11_125_000) * 8) as i128, 9) as i64;
                if 2 * t < s {
                    floor_half(neg_fmul(exp2(20 * t - 10 * s), sin_quarter(a)))
                } else {
                    floor_half(fmul(exp2(10 * s - 20 * t), sin_quarter(a))) + s
                }
            }
        },
        _ => {
            proof {
                assert(false);
            }
            0
        },
    }
}

fn back_curve(e: Easing, t: i64) -> (r: i64)
    requires
        0 <= t <= ONE,
        e == Easing::BackIn || e == Easing::BackOut || e == Easing::BackInOut || e == Easing::BounceIn || e == Easing::BounceOut || e == Easing::BounceInOut,
    ensures
        r == curve_spec(e, t as int),
        -2 * ONE <= r <= 3 * ONE,
{
    let s: i64 = ONE;
    match e {
        Easing::BackIn => fmul(BACK_C3, cube(t)) - fmul(BACK_C1, sq(t)),
        Easing::BackOut => s + fmul(BACK_C3, cube(t - s)) + fmul(BACK_C1, sq(t - s)),
        Easing::BackInOut => if 2 * t < s {
            floor_half(fmul(sq(2 * t), fmul(BACK_C2 + s, 2 * t) - BACK_C2))
        } else {
            let u = 2 * t - 2 * s;
            (fmul(sq(u), fmul(BACK_C2 + s, u) + BACK_C2) + 2 * s) / 2
        },
        Easing::BounceIn => s - bounce_out(s - t),
        Easing::BounceOut => bounce_out(t),
        Easing::BounceInOut => if 2 * t < s {
            (s - bounce_out(s - 2 * t)) / 2
        } else {
            (s + bounce_out(2 * t - s)) / 2
        },
        _ => {
            proof {
                assert(false);
            }
            0
        },
    }
}

/// Eased progress of curve `e` at `t`, for `t` already in `[0, ONE]`.
pub fn curve(e: Easing, t: i64) -> (r: i64)
    requires
        0 <= t <= ONE,
    ensures
        r == curve_spec(e, t as int),
        -2 * ONE <= r <= 3 * ONE,
{
    match e {
        Easing::Linear | Easing::QuadIn | Easing::QuadOut | Easing::QuadInOut | Easing::CubicIn | Easing::CubicOut | Easing::CubicInOut | Easing::QuartIn | Easing::QuartOut | Easing::QuartInOut | Easing::QuintIn | Easing::QuintOut | Easing::QuintInOut => power_curve(e, t),
        Easing::SineIn | Easing::SineOut | Easing::SineInOut => sine_curve(e, t),
        Easing::ExpoIn | Easing::ExpoOut | Easing::ExpoInOut => expo_curve(e, t),
        Easing::CircIn | Easing::CircOut | Easing::CircInOut => circ_curve(e, t),
        Easing::ElasticIn | Easing::ElasticOut | Easing::ElasticInOut => elastic_curve(e, t),
        Easing::BackIn | Easing::BackOut | Easing::BackInOut | Easing::BounceIn | Easing::BounceOut | Easing::BounceInOut => back_curve(e, t),
    }
}

/// Eased progress of curve `e` at `t`; `t` is clamped to `[0, ONE]` first.
pub fn ease(e: Easing, t: i64) -> (r: i64)
    ensures
        r == ease_spec(e, t as int),
        -2 * ONE <= r <= 3 * ONE,
{
    curve(e, clamp_i64(t, 0, ONE))
}

/// Eased progress of the curve named `ease_type` at `t`; unknown names are
/// linear and `t` is clamped to `[0, ONE]` first.
pub fn ease_function(ease_type: &str, t: i64) -> (r: i64)
    ensures
        r == ease_named_spec(ease_type@, t as int),
        -2 * ONE <= r <= 3 * ONE,
{
    ease(Easing::from_name(ease_type), t)
}


/// Every curve starts at `0` and ends at `ONE`: `ease(e, 0) == 0` and
/// `ease(e, ONE) == ONE`, overshooting curves included.
pub proof fn lemma_ease_boundaries(e: Easing)
    ensures
        ease_spec(e, 0) == 0,
        ease_spec(e, ONE as int) == ONE,
{
    lemma2_to64();
    lemma_isqrt_is(ONE * ONE, ONE as int);
    lemma_isqrt_is(0, 0);
    assert(sine_poly_spec(0) == 0);
    assert(mul_spec(ONE as int, ONE as int) == ONE) by (nonlinear_arith);
    assert(mul_spec(ONE as int, SIN_C7 as int) == SIN_C7) by (nonlinear_arith);
    assert(mul_spec(ONE as int, (SIN_C5 + SIN_C7) as int) == SIN_C5 + SIN_C7) by (nonlinear_arith);
    assert(mul_spec(ONE as int, (SIN_C3 + SIN_C5 + SIN_C7) as int) == SIN_C3 + SIN_C5 + SIN_C7)
        by (nonlinear_arith);
    assert(mul_spec(ONE as int, ONE as int) == ONE) by (nonlinear_arith);
    assert(sine_poly_spec(ONE as int) == ONE);
    assert(sin_quarter_spec(0) == 0);
    assert(sin_quarter_spec(ONE as int) == ONE);
    assert(cos_quarter_spec(0) == ONE);
    assert(cos_quarter_spec(2 * ONE) == -ONE);
    assert(exp_frac_spec(0) == ONE);
    assert(exp2_spec(0) == ONE);
    assert(bounce_out_spec(0) == 0);
    assert((22 * ONE - 21 * ONE) * (22 * ONE - 21 * ONE) / (64 * ONE) == 15_625)
        by (nonlinear_arith);
    assert(bounce_out_spec(ONE as int) == ONE);
}

/// A name the library does not know eases linearly.
pub proof fn lemma_unknown_name_is_linear(name: Seq<char>, t: int)
    requires
        easing_of(name) == Easing::Linear,
    ensures
        ease_named_spec(name, t) == clamp_spec(t, 0, ONE as int),
{
}

} // verus!
