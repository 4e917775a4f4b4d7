//! Fixed-point arithmetic shared by the whole engine.
//!
//! Every real quantity (seconds, property values, colour channels, progress)
//! is an `i64` counted in millionths of a unit, so `ONE` stands for `1.0`.
//! Divisions round toward negative infinity, which is what `/` means in specs.
use vstd::arithmetic::power2::{
    lemma2_to64, lemma_pow2_strictly_increases, lemma_pow2_unfold, pow2,
};
use vstd::prelude::*;

verus! {

/// The fixed-point representation of `1.0`.
pub const ONE: i64 = 1_000_000;

/// Largest magnitude accepted for either factor of `fmul`.
pub const MUL_LIMIT: i64 = 3_000_000_000;

/// Fixed-point product, rounded down.
pub open spec fn mul_spec(a: int, b: int) -> int {
    a * b / (ONE as int)
}

pub open spec fn clamp_spec(x: int, lo: int, hi: int) -> int {
    if x < lo {
        lo
    } else if x > hi {
        hi
    } else {
        x
    }
}

/// `x` brought into the range of `i64`.
pub open spec fn saturate(x: int) -> int {
    clamp_spec(x, i64::MIN as int, i64::MAX as int)
}

/// `r` is the integer square root of `n`.
pub open spec fn is_isqrt(n: int, r: int) -> bool {
    0 <= r && r * r <= n && n < (r + 1) * (r + 1)
}

pub open spec fn isqrt_spec(n: int) -> int {
    choose|r: int| is_isqrt(n, r)
}

/// Division rounded toward negative infinity.
pub fn floor_div(a: i128, d: i128) -> (r: i128)
    requires
        0 < d < 0x1_0000_0000_0000_0000,
        -0x4000_0000_0000_0000_0000_0000_0000_0000 < a < 0x4000_0000_0000_0000_0000_0000_0000_0000,
    ensures
        r == a / d,
{
    if a >= 0 {
        a / d
    } else {
        let q = (-a + d - 1) / d;
        proof {
            let (x, y, z) = (a as int, d as int, q as int);
            assert(-z == x / y) by (nonlinear_arith)
                requires
                    x < 0,
                    y > 0,
                    z == (-x + y - 1) / y,
            ;
        }
        -q
    }
}

/// Clamps `x` into `[lo, hi]`.
pub fn clamp_i64(x: i64, lo: i64, hi: i64) -> (r: i64)
    requires
        lo <= hi,
    ensures
        r == clamp_spec(x as int, lo as int, hi as int),
{
    if x < lo {
        lo
    } else if x > hi {
        hi
    } else {
        x
    }
}

/// Brings a wide intermediate result back into `i64`, saturating at the ends.
pub fn saturate_i128(x: i128) -> (r: i64)
    ensures
        r == saturate(x as int),
{
    if x < i64::MIN as i128 {
        i64::MIN
    } else if x > i64::MAX as i128 {
        i64::MAX
    } else {
        x as i64
    }
}

/// Fixed-point product `a * b / ONE`, rounded down.
pub fn fmul(a: i64, b: i64) -> (r: i64)
    requires
        -MUL_LIMIT <= a <= MUL_LIMIT,
        -MUL_LIMIT <= b <= MUL_LIMIT,
    ensures
        r == mul_spec(a as int, b as int),
        a == 0 || b == 0 ==> r == 0,
        a == ONE ==> r == b,
        b == ONE ==> r == a,
        a == -ONE ==> r == -b,
        b == -ONE ==> r == -a,
        0 <= a <= ONE ==> (0 <= b ==> 0 <= r <= b) && (b <= 0 ==> b <= r <= 0),
        0 <= b <= ONE ==> (0 <= a ==> 0 <= r <= a) && (a <= 0 ==> a <= r <= 0),
        -ONE <= a <= 0 ==> (0 <= b ==> -b <= r <= 0) && (b <= 0 ==> 0 <= r <= -b),
        -ONE <= b <= 0 ==> (0 <= a ==> -a <= r <= 0) && (a <= 0 ==> 0 <= r <= -a),
{
    let ai = a as i128;
    let bi = b as i128;
    assert(-9_000_000_000_000_000_000 <= ai * bi <= 9_000_000_000_000_000_000) by (nonlinear_arith)
        requires
            -3_000_000_000 <= ai <= 3_000_000_000,
            -3_000_000_000 <= bi <= 3_000_000_000,
    ;
    let p = ai * bi;
    let q = floor_div(p, ONE as i128);
    proof {
        let (x, y) = (a as int, b as int);
        assert(-9_000_000_000_000 <= x * y / 1_000_000 <= 9_000_000_000_000) by (nonlinear_arith)
            requires
                -9_000_000_000_000_000_000 <= x * y <= 9_000_000_000_000_000_000,
        ;
        assert(x == 0 || y == 0 ==> x * y / 1_000_000 == 0) by (nonlinear_arith);
        assert(x == 1_000_000 ==> x * y / 1_000_000 == y) by (nonlinear_arith);
        assert(y == 1_000_000 ==> x * y / 1_000_000 == x) by (nonlinear_arith);
        assert(x == -1_000_000 ==> x * y / 1_000_000 == -y) by (nonlinear_arith);
        assert(y == -1_000_000 ==> x * y / 1_000_000 == -x) by (nonlinear_arith);
        assert(0 <= x <= 1_000_000 ==> (0 <= y ==> 0 <= x * y / 1_000_000 <= y) && (y <= 0 ==> y
            <= x * y / 1_000_000 <= 0)) by (nonlinear_arith);
        assert(0 <= y <= 1_000_000 ==> (0 <= x ==> 0 <= x * y / 1_000_000 <= x) && (x <= 0 ==> x
            <= x * y / 1_000_000 <= 0)) by (nonlinear_arith);
        assert(-1_000_000 <= x <= 0 ==> (0 <= y ==> -y <= x * y / 1_000_000 <= 0) && (y <= 0 ==> 0
            <= x * y / 1_000_000 <= -y)) by (nonlinear_arith);
        assert(-1_000_000 <= y <= 0 ==> (0 <= x ==> -x <= x * y / 1_000_000 <= 0) && (x <= 0 ==> 0
            <= x * y / 1_000_000 <= -x)) by (nonlinear_arith);
    }
    q as i64
}

/// `2` raised to `n`, for the small exponents the engine needs.
pub fn pow2_exec(n: u32) -> (r: i64)
    requires
        n <= 30,
    ensures
        r == pow2(n as nat),
        r >= 1,
{
    let mut r: i64 = 1;
    let mut i: u32 = 0;
    proof {
        lemma2_to64();
    }
    while i < n
        invariant
            i <= n <= 30,
            r == pow2(i as nat),
            r >= 1,
            pow2(30) == 0x4000_0000,
        decreases n - i,
    {
        proof {
            lemma_pow2_unfold((i + 1) as nat);
            if i + 1 < 30 {
                lemma_pow2_strictly_increases((i + 1) as nat, 30);
            }
        }
        r = r * 2;
        i = i + 1;
    }
    r
}

pub proof fn lemma_isqrt_unique(n: int, r1: int, r2: int)
    requires
        is_isqrt(n, r1),
        is_isqrt(n, r2),
    ensures
        r1 == r2,
{
    if r1 < r2 {
        assert((r1 + 1) * (r1 + 1) <= r2 * r2) by (nonlinear_arith)
            requires
                0 <= r1 + 1 <= r2,
        ;
    } else if r2 < r1 {
        assert((r2 + 1) * (r2 + 1) <= r1 * r1) by (nonlinear_arith)
            requires
                0 <= r2 + 1 <= r1,
        ;
    }
}

/// Any root found is the one `isqrt_spec` names.
pub proof fn lemma_isqrt_is(n: int, r: int)
    requires
        is_isqrt(n, r),
    ensures
        isqrt_spec(n) == r,
{
    lemma_isqrt_unique(n, r, isqrt_spec(n));
}

/// Integer square root: the largest `r` with `r * r <= n`.
pub fn isqrt(n: u128) -> (r: u128)
    requires
        n < 0x4000_0000_0000_0000_0000_0000_0000_0000,
    ensures
        is_isqrt(n as int, r as int),
        r == isqrt_spec(n as int),
        r < 0x8000_0000_0000_0000,
{
    let mut lo: u128 = 0;
    let mut hi: u128 = 0x8000_0000_0000_0000;
    while hi - lo > 1
        invariant
            lo < hi <= 0x8000_0000_0000_0000,
            lo * lo <= n,
            n < hi * hi,
        decreases hi - lo,
    {
        let mid = lo + (hi - lo) / 2;
        assert(mid * mid <= 0x4000_0000_0000_0000_0000_0000_0000_0000) by (nonlinear_arith)
            requires
                mid <= 0x8000_0000_0000_0000,
        ;
        if mid * mid <= n {
            lo = mid;
        } else {
            hi = mid;
        }
    }
    proof {
        lemma_isqrt_is(n as int, lo as int);
    }
    lo
}

/// Coefficients of the odd polynomial that stands for `sin(pi/2 * v)` on the
/// unit interval; they add up to `ONE`, so the quarter turn is exact.
pub const SIN_C1: i64 = 1_570_791;

pub const SIN_C3: i64 = -645_896;

pub const SIN_C5: i64 = 79_440;

pub const SIN_C7: i64 = -4_335;

/// Coefficients of the polynomial that stands for `2^f - 1` on the unit
/// interval; they add up to `ONE`, so `2^1` is exact.
pub const EXP_D1: i64 = 692_996;

pub const EXP_D2: i64 = 241_566;

pub const EXP_D3: i64 = 51_752;

pub const EXP_D4: i64 = 13_686;

/// `sin(pi/2 * v)` for `v` in `[0, ONE]`, clamped to `[0, ONE]`.
pub open spec fn sine_poly_spec(v: int) -> int {
    let v2 = mul_spec(v, v);
    let h5 = SIN_C5 + mul_spec(v2, SIN_C7 as int);
    let h3 = SIN_C3 + mul_spec(v2, h5);
    let h1 = SIN_C1 + mul_spec(v2, h3);
    clamp_spec(mul_spec(v, h1), 0, ONE as int)
}

/// Sine of an angle counted in quarter turns (`ONE` is a right angle).
pub open spec fn sin_quarter_spec(a: int) -> int {
    let full = 4 * (ONE as int);
    let r = a % full;
    let q = r / (ONE as int);
    let v = r % (ONE as int);
    if q == 0 {
        sine_poly_spec(v)
    } else if q == 1 {
        sine_poly_spec(ONE - v)
    } else if q == 2 {
        -sine_poly_spec(v)
    } else {
        -sine_poly_spec(ONE - v)
    }
}

/// Cosine of an angle counted in quarter turns.
pub open spec fn cos_quarter_spec(a: int) -> int {
    sin_quarter_spec(a + ONE)
}

/// `2^f` for `f` in `[0, ONE]`.
pub open spec fn exp_frac_spec(f: int) -> int {
    let h3 = EXP_D3 + mul_spec(f, EXP_D4 as int);
    let h2 = EXP_D2 + mul_spec(f, h3);
    let h1 = EXP_D1 + mul_spec(f, h2);
    ONE + mul_spec(f, h1)
}

/// `2^x` for a fixed-point exponent `x`: the whole part shifts, the fraction
/// goes through the polynomial; negative whole parts round down.
pub open spec fn exp2_spec(x: int) -> int {
    let k = x / (ONE as int);
    let f = x % (ONE as int);
    if k >= 0 {
        exp_frac_spec(f) * pow2(k as nat)
    } else {
        exp_frac_spec(f) / (pow2((-k) as nat) as int)
    }
}

fn sine_poly(v: i64) -> (r: i64)
    requires
        0 <= v <= ONE,
    ensures
        r == sine_poly_spec(v as int),
        0 <= r <= ONE,
{
    let v2 = fmul(v, v);
    let h5 = SIN_C5 + fmul(v2, SIN_C7);
    let h3 = SIN_C3 + fmul(v2, h5);
    let h1 = SIN_C1 + fmul(v2, h3);
    clamp_i64(fmul(v, h1), 0, ONE)
}

/// Sine of an angle counted in quarter turns, within `[-ONE, ONE]`.
pub fn sin_quarter(a: i64) -> (r: i64)
    requires
        -0x1_0000_0000_0000 <= a <= 0x1_0000_0000_0000,
    ensures
        r == sin_quarter_spec(a as int),
        -ONE <= r <= ONE,
{
    let full: i64 = 4 * ONE;
    let k = floor_div(a as i128, full as i128);
    let r0 = (a as i128 - k * (full as i128)) as i64;
    assert(r0 == (a as int) % (full as int));
    let q = r0 / ONE;
    let v = r0 % ONE;
    if q == 0 {
        sine_poly(v)
    } else if q == 1 {
        sine_poly(ONE - v)
    } else if q == 2 {
        -sine_poly(v)
    } else {
        -sine_poly(ONE - v)
    }
}

/// Cosine of an angle counted in quarter turns, within `[-ONE, ONE]`.
pub fn cos_quarter(a: i64) -> (r: i64)
    requires
        -0x1_0000_0000_0000 <= a <= 0x1_0000_0000_0000 - ONE,
    ensures
        r == cos_quarter_spec(a as int),
        -ONE <= r <= ONE,
{
    sin_quarter(a + ONE)
}

fn exp_frac(f: i64) -> (r: i64)
    requires
        0 <= f <= ONE,
    ensures
        r == exp_frac_spec(f as int),
        ONE <= r <= 2 * ONE,
        f == 0 ==> r == ONE,
        f == ONE ==> r == 2 * ONE,
{
    let h3 = EXP_D3 + fmul(f, EXP_D4);
    let h2 = EXP_D2 + fmul(f, h3);
    let h1 = EXP_D1 + fmul(f, h2);
    ONE + fmul(f, h1)
}

/// `2^x` for a fixed-point exponent between `-20` and `20`.
pub fn exp2(x: i64) -> (r: i64)
    requires
        -20 * ONE <= x <= 20 * ONE,
    ensures
        r == exp2_spec(x as int),
        0 <= r,
        x <= 0 ==> r <= ONE,
        x == 0 ==> r == ONE,
        x <= 5 * ONE ==> r <= 64 * ONE,
        r <= 0x2_0000_0000_0000,
{
    let k = floor_div(x as i128, ONE as i128) as i64;
    let f = x - k * ONE;
    assert(f == (x as int) % (ONE as int));
    let q = exp_frac(f);
    proof {
        lemma2_to64();
    }
    if k >= 0 {
        let p = pow2_exec(k as u32);
        proof {
            if k < 20 {
                lemma_pow2_strictly_increases(k as nat, 20);
            }
            assert(q * p <= 2 * ONE * 0x10_0000) by (nonlinear_arith)
                requires
                    0 <= q <= 2 * ONE,
                    1 <= p <= 0x10_0000,
            ;
            assert(x <= 0 ==> k == 0 && f == 0);
            if k <= 5 {
                if k < 5 {
                    lemma_pow2_strictly_increases(k as nat, 5);
                }
                assert(q * p <= 64 * ONE) by (nonlinear_arith)
                    requires
                        0 <= q <= 2 * ONE,
                        1 <= p <= 32,
                ;
            }
        }
        q * p
    } else {
        let p = pow2_exec((-k) as u32);
        proof {
            lemma_pow2_strictly_increases(0, (-k) as nat);
            assert(q / p <= ONE) by (nonlinear_arith)
                requires
                    0 <= q <= 2 * ONE,
                    p >= 2,
            ;
        }
        q / p
    }
}

} // verus!
