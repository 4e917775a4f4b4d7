//! Colour grading: wheels, temperature and tint, exposure, contrast and
//! saturation, always applied in that order.
use crate::errors::FluxError;
use crate::fixed::{
    clamp_i64, clamp_spec, exp2, exp2_spec, floor_div, fmul, mul_spec, saturate, saturate_i128, ONE,
};
use crate::text::str_eq;
use vstd::prelude::*;

verus! {

pub type Rgb = (i64, i64, i64);

/// Lift (shadows), gamma (midtones) and gain (highlights) per channel;
/// `0` leaves a channel as it is.
#[derive(Clone, Copy, Debug)]
pub struct ColorWheel {
    pub lift: Rgb,
    pub gamma: Rgb,
    pub gain: Rgb,
}

pub open spec fn unit(x: int) -> int {
    clamp_spec(x, 0, ONE as int)
}

/// `x` kept in `[-ONE, ONE]`.
pub open spec fn signed_unit(x: int) -> int {
    clamp_spec(x, -ONE as int, ONE as int)
}

/// One channel through the wheels: lift raises the shadows, gamma bends the
/// midtones (most at half intensity), gain scales the whole range.
pub open spec fn wheel_spec(c: int, lift: int, gamma: int, gain: int) -> int {
    let c1 = unit(c + mul_spec(signed_unit(lift), ONE - c));
    let c2 = unit(c1 + mul_spec(signed_unit(gamma), 4 * mul_spec(c1, ONE - c1)));
    unit(mul_spec(c2, ONE + signed_unit(gain)))
}

/// Exposure in stops, kept in `[-5, 5]`.
pub open spec fn stops(e: int) -> int {
    clamp_spec(e, -5 * ONE, 5 * ONE)
}

/// A percentage setting (`-100` to `100`, or `0` to `200` for saturation)
/// as a fixed-point factor offset; the bounds keep it in range.
pub open spec fn percent(p: int, lo: int, hi: int) -> int {
    clamp_spec(p, lo * ONE, hi * ONE) / 100
}

/// Luma of a colour, with the Rec. 601 weights.
pub open spec fn luma(c: (int, int, int)) -> int {
    (299 * c.0 + 587 * c.1 + 114 * c.2) / 1000
}

pub struct ColorGrading {
    pub wheels: ColorWheel,
    /// Colour temperature, `-100` (cool) to `100` (warm).
    pub temperature: i64,
    /// Green (negative) to magenta (positive), `-100` to `100`.
    pub tint: i64,
    /// Exposure in stops, `-5` to `5`.
    pub exposure: i64,
    /// Contrast, `-100` to `100`.
    pub contrast: i64,
    /// Saturation, `0` to `200`; `100` leaves colours as they are.
    pub saturation: i64,
}

/// Temperature shifts red against blue, tint takes green away (magenta) or adds it.
pub open spec fn temperature_spec(c: (int, int, int), temperature: int, tint: int) -> (int, int, int) {
    let warm = percent(temperature, -100, 100) / 10;
    let mag = percent(tint, -100, 100) / 10;
    (unit(c.0 + warm), unit(c.1 - mag), unit(c.2 - warm))
}

/// Exposure multiplies by two to the power of the stops.
pub open spec fn exposure_spec(c: (int, int, int), exposure: int) -> (int, int, int) {
    let f = exp2_spec(stops(exposure));
    (unit(mul_spec(c.0, f)), unit(mul_spec(c.1, f)), unit(mul_spec(c.2, f)))
}

/// Contrast scales the distance from mid grey.
pub open spec fn contrast_spec(c: (int, int, int), contrast: int) -> (int, int, int) {
    let k = ONE + percent(contrast, -100, 100);
    let h = ONE / 2;
    (unit(h + mul_spec(c.0 - h, k)), unit(h + mul_spec(c.1 - h, k)), unit(h + mul_spec(c.2 - h, k)))
}

/// Saturation scales the distance from the colour's luma.
pub open spec fn saturation_spec(c: (int, int, int), saturation: int) -> (int, int, int) {
    let y = luma(c);
    let sat = percent(saturation, 0, 200);
    (unit(y + mul_spec(c.0 - y, sat)), unit(y + mul_spec(c.1 - y, sat)), unit(y + mul_spec(c.2 - y, sat)))
}

/// The wheels on each channel.
pub open spec fn wheels_spec(w: ColorWheel, c: Rgb) -> (int, int, int) {
    (
        wheel_spec(unit(c.0 as int), w.lift.0 as int, w.gamma.0 as int, w.gain.0 as int),
        wheel_spec(unit(c.1 as int), w.lift.1 as int, w.gamma.1 as int, w.gain.1 as int),
        wheel_spec(unit(c.2 as int), w.lift.2 as int, w.gamma.2 as int, w.gain.2 as int),
    )
}

/// A colour through the whole grade, in the fixed order wheels, then
/// temperature and tint, then exposure, then contrast, then saturation;
/// every stage keeps channels in `[0, ONE]`.
pub open spec fn grade_spec(g: ColorGrading, c: Rgb) -> (int, int, int) {
    saturation_spec(
        contrast_spec(
            exposure_spec(
                temperature_spec(wheels_spec(g.wheels, c), g.temperature as int, g.tint as int),
                g.exposure as int,
            ),
            g.contrast as int,
        ),
        g.saturation as int,
    )
}

pub open spec fn unit_triple(c: Rgb) -> bool {
    0 <= c.0 <= ONE && 0 <= c.1 <= ONE && 0 <= c.2 <= ONE
}

pub open spec fn as_ints(c: Rgb) -> (int, int, int) {
    (c.0 as int, c.1 as int, c.2 as int)
}

fn wheels_stage(w: ColorWheel, c: Rgb) -> (r: Rgb)
    ensures
        as_ints(r) == wheels_spec(w, c),
        unit_triple(r),
{
    (
        wheel(clamp_i64(c.0, 0, ONE), w.lift.0, w.gamma.0, w.gain.0),
        wheel(clamp_i64(c.1, 0, ONE), w.lift.1, w.gamma.1, w.gain.1),
        wheel(clamp_i64(c.2, 0, ONE), w.lift.2, w.gamma.2, w.gain.2),
    )
}

fn temperature_stage(c: Rgb, temperature: i64, tint: i64) -> (r: Rgb)
    requires
        unit_triple(c),
    ensures
        as_ints(r) == temperature_spec(as_ints(c), temperature as int, tint as int),
        unit_triple(r),
{
    let warm = floor_div(percent_of(temperature, -100, 100) as i128, 10) as i64;
    let mag = floor_div(percent_of(tint, -100, 100) as i128, 10) as i64;
    (clamp_i64(c.0 + warm, 0, ONE), clamp_i64(c.1 - mag, 0, ONE), clamp_i64(c.2 - warm, 0, ONE))
}

fn exposure_stage(c: Rgb, exposure: i64) -> (r: Rgb)
    requires
        unit_triple(c),
    ensures
        as_ints(r) == exposure_spec(as_ints(c), exposure as int),
        unit_triple(r),
{
    let f = exp2(clamp_i64(exposure, -5 * ONE, 5 * ONE));
    (
        clamp_i64(fmul(c.0, f), 0, ONE),
        clamp_i64(fmul(c.1, f), 0, ONE),
        clamp_i64(fmul(c.2, f), 0, ONE),
    )
}

fn contrast_stage(c: Rgb, contrast: i64) -> (r: Rgb)
    requires
        unit_triple(c),
    ensures
        as_ints(r) == contrast_spec(as_ints(c), contrast as int),
        unit_triple(r),
{
    let k = ONE + percent_of(contrast, -100, 100);
    let h = ONE / 2;
    (
        clamp_i64(h + fmul(c.0 - h, k), 0, ONE),
        clamp_i64(h + fmul(c.1 - h, k), 0, ONE),
        clamp_i64(h + fmul(c.2 - h, k), 0, ONE),
    )
}

fn saturation_stage(c: Rgb, saturation: i64) -> (r: Rgb)
    requires
        unit_triple(c),
    ensures
        as_ints(r) == saturation_spec(as_ints(c), saturation as int),
        unit_triple(r),
{
    let y = (299 * c.0 + 587 * c.1 + 114 * c.2) / 1000;
    let sat = percent_of(saturation, 0, 200);
    (
        clamp_i64(y + fmul(c.0 - y, sat), 0, ONE),
        clamp_i64(y + fmul(c.1 - y, sat), 0, ONE),
        clamp_i64(y + fmul(c.2 - y, sat), 0, ONE),
    )
}

fn wheel(c: i64, lift: i64, gamma: i64, gain: i64) -> (r: i64)
    requires
        0 <= c <= ONE,
    ensures
        r == wheel_spec(c as int, lift as int, gamma as int, gain as int),
        0 <= r <= ONE,
{
    let l = clamp_i64(lift, -ONE, ONE);
    let g = clamp_i64(gamma, -ONE, ONE);
    let k = clamp_i64(gain, -ONE, ONE);
    let c1 = clamp_i64(c + fmul(l, ONE - c), 0, ONE);
    let m = fmul(c1, ONE - c1);
    let c2 = clamp_i64(c1 + fmul(g, 4 * m), 0, ONE);
    clamp_i64(fmul(c2, ONE + k), 0, ONE)
}

fn percent_of(p: i64, lo: i64, hi: i64) -> (r: i64)
    requires
        -100 <= lo < hi <= 200,
    ensures
        r == percent(p as int, lo as int, hi as int),
        lo * 10_000 <= r <= hi * 10_000,
{
    floor_div(clamp_i64(p, lo * ONE, hi * ONE) as i128, 100) as i64
}

impl ColorGrading {
    /// A neutral grade.
    pub fn new() -> (r: ColorGrading)
        ensures
            r.wheels == (ColorWheel { lift: (0, 0, 0), gamma: (0, 0, 0), gain: (0, 0, 0) }),
            r.temperature == 0 && r.tint == 0 && r.exposure == 0 && r.contrast == 0,
            r.saturation == 100 * ONE,
    {
        ColorGrading {
            wheels: ColorWheel { lift: (0, 0, 0), gamma: (0, 0, 0), gain: (0, 0, 0) },
            temperature: 0,
            tint: 0,
            exposure: 0,
            contrast: 0,
            saturation: 100 * ONE,
        }
    }

    pub fn set_lift(&mut self, r: i64, g: i64, b: i64)
        ensures
            final(self).wheels == (ColorWheel { lift: (r, g, b), ..old(self).wheels }),
            final(self).exposure == old(self).exposure,
            final(self).temperature == old(self).temperature,
            final(self).tint == old(self).tint,
            final(self).contrast == old(self).contrast,
            final(self).saturation == old(self).saturation,
    {
        self.wheels.lift = (r, g, b);
    }

    pub fn set_gamma(&mut self, r: i64, g: i64, b: i64)
        ensures
            final(self).wheels == (ColorWheel { gamma: (r, g, b), ..old(self).wheels }),
            final(self).exposure == old(self).exposure,
            final(self).temperature == old(self).temperature,
            final(self).tint == old(self).tint,
            final(self).contrast == old(self).contrast,
            final(self).saturation == old(self).saturation,
    {
        self.wheels.gamma = (r, g, b);
    }

    pub fn set_gain(&mut self, r: i64, g: i64, b: i64)
        ensures
            final(self).wheels == (ColorWheel { gain: (r, g, b), ..old(self).wheels }),
            final(self).exposure == old(self).exposure,
            final(self).temperature == old(self).temperature,
            final(self).tint == old(self).tint,
            final(self).contrast == old(self).contrast,
            final(self).saturation == old(self).saturation,
    {
        self.wheels.gain = (r, g, b);
    }

    /// Back to the neutral grade.
    pub fn reset(&mut self)
        ensures
            final(self).wheels == (ColorWheel { lift: (0, 0, 0), gamma: (0, 0, 0), gain: (0, 0, 0) }),
            final(self).temperature == 0 && final(self).tint == 0 && final(self).exposure == 0
                && final(self).contrast == 0,
            final(self).saturation == 100 * ONE,
    {
        self.wheels = ColorWheel { lift: (0, 0, 0), gamma: (0, 0, 0), gain: (0, 0, 0) };
        self.temperature = 0;
        self.tint = 0;
        self.exposure = 0;
        self.contrast = 0;
        self.saturation = 100 * ONE;
    }

    /// Grades one colour (see `grade_spec`).
    pub fn apply(&self, color: Rgb) -> (r: Rgb)
        ensures
            as_ints(r) == grade_spec(*self, color),
    {
        let a = wheels_stage(self.wheels, color);
        let b = temperature_stage(a, self.temperature, self.tint);
        let c = exposure_stage(b, self.exposure);
        let d = contrast_stage(c, self.contrast);
        saturation_stage(d, self.saturation)
    }
}

/// Horizontal reach of a new curve point's handles (`0.1`).
pub const CURVE_HANDLE: i64 = 100_000;

/// A point of a colour curve with its two handles.
#[derive(Clone, Copy, Debug)]
pub struct CurvePoint {
    pub x: i64,
    pub y: i64,
    pub handle_in: (i64, i64),
    pub handle_out: (i64, i64),
}

/// Tone curves for luma and for each colour channel.
#[derive(Debug)]
pub struct ColorCurves {
    pub luma: Vec<CurvePoint>,
    pub red: Vec<CurvePoint>,
    pub green: Vec<CurvePoint>,
    pub blue: Vec<CurvePoint>,
}

/// The point `add_point` makes at `(x, y)`.
pub open spec fn curve_point(x: i64, y: i64) -> CurvePoint {
    CurvePoint {
        x,
        y,
        handle_in: (saturate(x - CURVE_HANDLE) as i64, y),
        handle_out: (saturate(x + CURVE_HANDLE) as i64, y),
    }
}

impl ColorCurves {
    /// Curves with the luma curve starting at the origin and no channel points.
    pub fn new() -> (r: ColorCurves)
        ensures
            r.luma@.len() == 1,
            r.luma@[0].x == 0 && r.luma@[0].y == 0,
            r.luma@[0].handle_in == (0i64, 0i64),
            r.luma@[0].handle_out == (ONE, ONE),
            r.red@.len() == 0 && r.green@.len() == 0 && r.blue@.len() == 0,
    {
        let mut luma: Vec<CurvePoint> = Vec::new();
        luma.push(CurvePoint { x: 0, y: 0, handle_in: (0, 0), handle_out: (ONE, ONE) });
        ColorCurves { luma, red: Vec::new(), green: Vec::new(), blue: Vec::new() }
    }

    /// Appends a point to the curve named `channel` (`luma`, `red`, `green`
    /// or `blue`); other names change nothing.
    pub fn add_point(&mut self, channel: &str, x: i64, y: i64)
        ensures
            final(self).luma@ == if channel@ == "luma"@ {
                old(self).luma@.push(curve_point(x, y))
            } else {
                old(self).luma@
            },
            final(self).red@ == if channel@ == "red"@ && channel@ != "luma"@ {
                old(self).red@.push(curve_point(x, y))
            } else {
                old(self).red@
            },
            final(self).green@ == if channel@ == "green"@ && channel@ != "luma"@ && channel@
                != "red"@ {
                old(self).green@.push(curve_point(x, y))
            } else {
                old(self).green@
            },
            final(self).blue@ == if channel@ == "blue"@ && channel@ != "luma"@ && channel@ != "red"@
                && channel@ != "green"@ {
                old(self).blue@.push(curve_point(x, y))
            } else {
                old(self).blue@
            },
    {
        let p = CurvePoint {
            x,
            y,
            handle_in: (saturate_i128(x as i128 - CURVE_HANDLE as i128), y),
            handle_out: (saturate_i128(x as i128 + CURVE_HANDLE as i128), y),
        };
        if str_eq(channel, "luma") {
            self.luma.push(p);
        } else if str_eq(channel, "red") {
            self.red.push(p);
        } else if str_eq(channel, "green") {
            self.green.push(p);
        } else if str_eq(channel, "blue") {
            self.blue.push(p);
        }
    }
}

/// A 3D look-up table read from a `.cube` file, blended in by `intensity`.
#[derive(Debug)]
pub struct LUT {
    pub path: String,
    pub intensity: i64,
}

impl LUT {
    pub fn new(path: String) -> (r: LUT)
        ensures
            r.path@ == path@,
            r.intensity == ONE,
    {
        LUT { path, intensity: ONE }
    }

    /// Points the table at `path`; reading the file is the loader's part.
    pub fn load_cube(&mut self, path: &str) -> (r: Result<(), FluxError>)
        ensures
            r is Ok,
            final(self).path@ == path@,
            final(self).intensity == old(self).intensity,
    {
        self.path = String::from_str(path);
        Ok(())
    }
}

} // verus!
