//! Masks: spatial membership tests that limit where a layer shows.
use crate::fixed::{clamp_spec, isqrt, isqrt_spec, saturate, saturate_i128, ONE};
use crate::geometry::{
    abs_spec, coord_ok, points_ok, polygon_contains, polygon_contains_spec, rect_contains_spec, Point,
};
use vstd::prelude::*;

verus! {

/// Offset of the bezier handles from a new anchor point (`10.0`).
pub const HANDLE_OFFSET: i64 = 10_000_000;

/// An anchor with its two bezier handles.
#[derive(Clone, Copy, Debug, PartialEq, Eq, Structural)]
pub struct BezierPoint {
    pub anchor: Point,
    pub handle_in: Point,
    pub handle_out: Point,
}

/// The anchor points of a path.
pub open spec fn anchors(pts: Seq<BezierPoint>) -> Seq<Point> {
    pts.map_values(|p: BezierPoint| p.anchor)
}

/// A path mask. Membership is the even-odd test on the polygon through the
/// anchor points.
#[derive(Debug)]
pub struct Mask {
    pub points: Vec<BezierPoint>,
    pub feather: i64,
    pub expansion: i64,
    pub inverted: bool,
    pub opacity: i64,
}

impl Mask {
    pub fn new() -> (r: Mask)
        ensures
            r.points@.len() == 0,
            r.feather == 0,
            r.expansion == 0,
            !r.inverted,
            r.opacity == ONE,
    {
        Mask { points: Vec::new(), feather: 0, expansion: 0, inverted: false, opacity: ONE }
    }

    /// Appends an anchor at `(x, y)` whose handles sit `HANDLE_OFFSET` to
    /// either side horizontally (saturated to `i64`).
    pub fn add_point(&mut self, x: i64, y: i64)
        ensures
            final(self).points@ == old(self).points@.push(
                BezierPoint {
                    anchor: Point { x, y },
                    handle_in: Point { x: saturate(x - HANDLE_OFFSET) as i64, y },
                    handle_out: Point { x: saturate(x + HANDLE_OFFSET) as i64, y },
                },
            ),
            final(self).inverted == old(self).inverted,
    {
        let hin = saturate_i128(x as i128 - HANDLE_OFFSET as i128);
        let hout = saturate_i128(x as i128 + HANDLE_OFFSET as i128);
        self.points.push(
            BezierPoint {
                anchor: Point { x, y },
                handle_in: Point { x: hin, y },
                handle_out: Point { x: hout, y },
            },
        );
    }

    /// Flips which side of the path is covered.
    pub fn invert(&mut self)
        ensures
            final(self).inverted == !old(self).inverted,
            final(self).points@ == old(self).points@,
    {
        self.inverted = !self.inverted;
    }

    /// The anchor points, in order.
    pub fn anchor_points(&self) -> (r: Vec<Point>)
        ensures
            r@ == anchors(self.points@),
    {
        let mut pts: Vec<Point> = Vec::new();
        let mut i: usize = 0;
        let n = self.points.len();
        while i < n
            invariant
                i <= n == self.points@.len(),
                pts@ == anchors(self.points@).subrange(0, i as int),
            decreases n - i,
        {
            pts.push(self.points[i].anchor);
            assert(anchors(self.points@).subrange(0, i as int + 1) =~= anchors(
                self.points@,
            ).subrange(0, i as int).push(self.points@[i as int].anchor));
            i = i + 1;
        }
        assert(anchors(self.points@).subrange(0, n as int) =~= anchors(self.points@));
        pts
    }

    /// Soft coverage in `[0, ONE]`: `ONE` inside the path, falling linearly
    /// to `0` over `feather` outside it, by the distance to the nearest edge
    /// (see `path_distance`); a path without points covers nothing; inverted
    /// masks give `ONE` minus that.
    pub fn coverage(&self, px: i64, py: i64) -> (r: i64)
        requires
            forall|i: int|
                0 <= i < self.points@.len() ==> coord_ok(#[trigger] self.points@[i].anchor.x)
                    && coord_ok(self.points@[i].anchor.y),
            coord_ok(px) && coord_ok(py),
        ensures
            ({
                let pts = anchors(self.points@);
                let c = if polygon_contains_spec(pts, px as int, py as int) {
                    ONE as int
                } else if pts.len() == 0 {
                    0
                } else {
                    feathered_spec(path_distance(pts, px as int, py as int, pts.len() as int), self.feather as int)
                };
                r == if self.inverted {
                    ONE - c
                } else {
                    c
                }
            }),
            0 <= r <= ONE,
    {
        let pts = self.anchor_points();
        let c = if polygon_contains(pts.as_slice(), px, py) {
            ONE
        } else if pts.len() == 0 {
            0
        } else {
            let d = nearest_edge(pts.as_slice(), px, py);
            feathered(d, self.feather)
        };
        if self.inverted {
            ONE - c
        } else {
            c
        }
    }

    /// Whether `(px, py)` is covered: inside the path, or outside it when
    /// inverted. This is the hard test; `coverage` is the feathered one.
    pub fn contains(&self, px: i64, py: i64) -> (r: bool)
        requires
            forall|i: int|
                0 <= i < self.points@.len() ==> coord_ok(#[trigger] self.points@[i].anchor.x)
                    && coord_ok(self.points@[i].anchor.y),
            coord_ok(px) && coord_ok(py),
        ensures
            r == (polygon_contains_spec(anchors(self.points@), px as int, py as int)
                != self.inverted),
    {
        let pts = self.anchor_points();
        let inside = polygon_contains(pts.as_slice(), px, py);
        inside != self.inverted
    }
}

/// Distance from `p` to the closed interval from `lo` to `lo + len`
/// (zero inside it).
pub open spec fn gap_spec(lo: int, len: int, p: int) -> int {
    if p < lo {
        lo - p
    } else if p > lo + len {
        p - (lo + len)
    } else {
        0
    }
}

/// Coverage of a point that lies `d` outside a shape, for a soft edge of
/// width `feather`: `ONE` inside, falling linearly to `0` across the band.
pub open spec fn feathered_spec(d: int, feather: int) -> int {
    if d == 0 {
        ONE as int
    } else if feather <= 0 {
        0
    } else if d * ONE / feather >= ONE {
        0
    } else {
        ONE - d * ONE / feather
    }
}

/// An axis-aligned rectangular mask; its edges belong to it.
#[derive(Clone, Copy, Debug, PartialEq, Eq, Structural)]
pub struct RectangleMask {
    pub x: i64,
    pub y: i64,
    pub width: i64,
    pub height: i64,
    pub feather: i64,
    pub inverted: bool,
}

impl RectangleMask {
    pub fn new(x: i64, y: i64, width: i64, height: i64) -> (r: RectangleMask)
        ensures
            r == (RectangleMask { x, y, width, height, feather: 0, inverted: false }),
    {
        RectangleMask { x, y, width, height, feather: 0, inverted: false }
    }

    /// Whether `(px, py)` is covered: inside the rectangle, or outside it when
    /// inverted. This is the hard test; `coverage` is the feathered one.
    pub fn contains(&self, px: i64, py: i64) -> (r: bool)
        ensures
            r == (rect_contains_spec(
                self.x as int,
                self.y as int,
                self.width as int,
                self.height as int,
                px as int,
                py as int,
            ) != self.inverted),
    {
        let inside = px >= self.x && (px as i128) <= self.x as i128 + self.width as i128 && py
            >= self.y && (py as i128) <= self.y as i128 + self.height as i128;
        inside != self.inverted
    }

    /// Soft coverage in `[0, ONE]`: `ONE` inside, falling linearly to `0` over
    /// `feather` outside the edges (distance measured along the farther axis);
    /// inverted masks give `ONE` minus that.
    pub fn coverage(&self, px: i64, py: i64) -> (r: i64)
        ensures
            ({
                let d = if gap_spec(self.x as int, self.width as int, px as int) > gap_spec(
                    self.y as int,
                    self.height as int,
                    py as int,
                ) {
                    gap_spec(self.x as int, self.width as int, px as int)
                } else {
                    gap_spec(self.y as int, self.height as int, py as int)
                };
                let c = feathered_spec(d, self.feather as int);
                r == if self.inverted {
                    ONE - c
                } else {
                    c
                }
            }),
            0 <= r <= ONE,
            self.feather == 0 ==> r == if rect_contains_spec(
                self.x as int,
                self.y as int,
                self.width as int,
                self.height as int,
                px as int,
                py as int,
            ) != self.inverted {
                ONE
            } else {
                0
            },
    {
        let gx = gap(self.x, self.width, px);
        let gy = gap(self.y, self.height, py);
        let d = if gx > gy {
            gx
        } else {
            gy
        };
        let c = feathered(d, self.feather);
        if self.inverted {
            ONE - c
        } else {
            c
        }
    }
}

fn gap(lo: i64, len: i64, p: i64) -> (r: i128)
    ensures
        r == gap_spec(lo as int, len as int, p as int),
        0 <= r <= 0x2_0000_0000_0000_0000,
        r == 0 <==> (p >= lo && p <= lo + len),
{
    let hi = lo as i128 + len as i128;
    if (p as i128) < lo as i128 {
        lo as i128 - p as i128
    } else if p as i128 > hi {
        p as i128 - hi
    } else {
        0
    }
}

fn feathered(d: i128, feather: i64) -> (r: i64)
    requires
        0 <= d <= 0x2_0000_0000_0000_0000,
    ensures
        r == feathered_spec(d as int, feather as int),
        0 <= r <= ONE,
        d == 0 ==> r == ONE,
        d > 0 && feather == 0 ==> r == 0,
{
    if d == 0 {
        ONE
    } else if feather <= 0 {
        0
    } else {
        let q = d * 1_000_000 / (feather as i128);
        if q >= ONE as i128 {
            0
        } else {
            proof {
                let (dd, f, qq) = (d as int, feather as int, q as int);
                assert(qq >= 0) by (nonlinear_arith)
                    requires
                        dd > 0,
                        f > 0,
                        qq == dd * 1_000_000 / f,
                ;
            }
            ONE - q as i64
        }
    }
}

/// `|v|` as an `i128`.
fn abs_i128(v: i128) -> (r: i128)
    requires
        v > i128::MIN,
    ensures
        r == abs_spec(v as int),
{
    if v < 0 {
        -v
    } else {
        v
    }
}

/// Offset of `p` from the centre in units of the radius, rounded down.
pub open spec fn radial_spec(p: int, c: int, radius: int) -> int {
    abs_spec(p - c) * ONE / abs_spec(radius)
}

/// Whether `(px, py)` lies in the ellipse, boundary included; a zero radius
/// holds no point.
pub open spec fn ellipse_inside_spec(cx: int, cy: int, rx: int, ry: int, px: int, py: int) -> bool {
    rx != 0 && ry != 0 && ({
        let qx = radial_spec(px, cx, rx);
        let qy = radial_spec(py, cy, ry);
        qx * qx + qy * qy <= ONE * ONE
    })
}

/// Largest radial offset, in radii, that the soft edge measures; farther
/// points count as this far.
pub const RADIAL_CAP: i64 = 0x100_0000_0000;

/// Distance past the edge of an ellipse, along the ray from its centre, in
/// units of the shorter radius; `0` inside.
pub open spec fn ellipse_gap_spec(cx: int, cy: int, rx: int, ry: int, px: int, py: int) -> int {
    let qx = clamp_spec(radial_spec(px, cx, rx), 0, RADIAL_CAP as int);
    let qy = clamp_spec(radial_spec(py, cy, ry), 0, RADIAL_CAP as int);
    let rho = isqrt_spec(qx * qx + qy * qy);
    let rmin = if abs_spec(rx) < abs_spec(ry) {
        abs_spec(rx)
    } else {
        abs_spec(ry)
    };
    if rho <= ONE {
        0
    } else {
        (rho - ONE) * rmin / (ONE as int)
    }
}

/// An elliptical mask.
#[derive(Clone, Copy, Debug, PartialEq, Eq, Structural)]
pub struct EllipseMask {
    pub center_x: i64,
    pub center_y: i64,
    pub radius_x: i64,
    pub radius_y: i64,
    pub feather: i64,
    pub inverted: bool,
}

impl EllipseMask {
    pub fn new(center_x: i64, center_y: i64, radius_x: i64, radius_y: i64) -> (r: EllipseMask)
        ensures
            r == (EllipseMask {
                center_x,
                center_y,
                radius_x,
                radius_y,
                feather: 0,
                inverted: false,
            }),
    {
        EllipseMask { center_x, center_y, radius_x, radius_y, feather: 0, inverted: false }
    }

    /// Whether `(px, py)` is covered: inside the ellipse, or outside it when
    /// inverted. This is the hard test; `coverage` is the feathered one.
    pub fn contains(&self, px: i64, py: i64) -> (r: bool)
        ensures
            r == (ellipse_inside_spec(
                self.center_x as int,
                self.center_y as int,
                self.radius_x as int,
                self.radius_y as int,
                px as int,
                py as int,
            ) != self.inverted),
    {
        let inside = if self.radius_x == 0 || self.radius_y == 0 {
            false
        } else {
            let dx = abs_i128(px as i128 - self.center_x as i128);
            let dy = abs_i128(py as i128 - self.center_y as i128);
            let rx = abs_i128(self.radius_x as i128);
            let ry = abs_i128(self.radius_y as i128);
            let qx = dx * 1_000_000 / rx;
            let qy = dy * 1_000_000 / ry;
            if qx > ONE as i128 || qy > ONE as i128 {
                proof {
                    let (a, b) = (qx as int, qy as int);
                    assert(a * a + b * b > 1_000_000 * 1_000_000) by (nonlinear_arith)
                        requires
                            a > 1_000_000 || b > 1_000_000,
                            a >= 0,
                            b >= 0,
                    ;
                }
                false
            } else {
                assert(qx * qx <= 1_000_000_000_000 && qy * qy <= 1_000_000_000_000)
                    by (nonlinear_arith)
                    requires
                        0 <= qx <= 1_000_000,
                        0 <= qy <= 1_000_000,
                ;
                qx * qx + qy * qy <= (ONE as i128) * (ONE as i128)
            }
        };
        inside != self.inverted
    }
}

impl EllipseMask {
    /// Soft coverage in `[0, ONE]`: `ONE` inside, falling linearly to `0`
    /// over `feather` past the edge (see `ellipse_gap_spec`); a zero radius
    /// covers nothing; inverted masks give `ONE` minus that.
    pub fn coverage(&self, px: i64, py: i64) -> (r: i64)
        ensures
            ({
                let inside = ellipse_inside_spec(
                    self.center_x as int,
                    self.center_y as int,
                    self.radius_x as int,
                    self.radius_y as int,
                    px as int,
                    py as int,
                );
                let c = if inside {
                    ONE as int
                } else if self.radius_x == 0 || self.radius_y == 0 {
                    0
                } else {
                    let g = ellipse_gap_spec(
                        self.center_x as int,
                        self.center_y as int,
                        self.radius_x as int,
                        self.radius_y as int,
                        px as int,
                        py as int,
                    );
                    if g == 0 {
                        ONE as int
                    } else {
                        feathered_spec(g, self.feather as int)
                    }
                };
                r == if self.inverted {
                    ONE - c
                } else {
                    c
                }
            }),
            0 <= r <= ONE,
    {
        let plain = EllipseMask { inverted: false, ..*self };
        let c = if plain.contains(px, py) {
            ONE
        } else if self.radius_x == 0 || self.radius_y == 0 {
            0
        } else {
            let g = ellipse_gap(self, px, py);
            if g == 0 {
                ONE
            } else if self.feather <= 0 || g >= self.feather as i128 {
                proof {
                    let (gg, f) = (g as int, self.feather as int);
                    if f > 0 {
                        assert(gg * 1_000_000 / f >= 1_000_000) by (nonlinear_arith)
                            requires
                                gg >= f,
                                f > 0,
                        ;
                    }
                }
                0
            } else {
                let q = g * 1_000_000 / (self.feather as i128);
                proof {
                    let (gg, f, qq) = (g as int, self.feather as int, q as int);
                    assert(0 <= qq < 1_000_000) by (nonlinear_arith)
                        requires
                            0 < gg < f,
                            qq == gg * 1_000_000 / f,
                    ;
                }
                ONE - q as i64
            }
        };
        if self.inverted {
            ONE - c
        } else {
            c
        }
    }
}

fn capped_radial(p: i64, c: i64, radius: i64) -> (r: i128)
    requires
        radius != 0,
    ensures
        r == clamp_spec(radial_spec(p as int, c as int, radius as int), 0, RADIAL_CAP as int),
{
    let d = abs_i128(p as i128 - c as i128);
    let rr = abs_i128(radius as i128);
    let q = d * 1_000_000 / rr;
    if q > RADIAL_CAP as i128 {
        RADIAL_CAP as i128
    } else {
        q
    }
}

fn ellipse_gap(m: &EllipseMask, px: i64, py: i64) -> (r: i128)
    requires
        m.radius_x != 0,
        m.radius_y != 0,
    ensures
        r == ellipse_gap_spec(
            m.center_x as int,
            m.center_y as int,
            m.radius_x as int,
            m.radius_y as int,
            px as int,
            py as int,
        ),
        r >= 0,
{
    let qx = capped_radial(px, m.center_x, m.radius_x);
    let qy = capped_radial(py, m.center_y, m.radius_y);
    assert(qx * qx <= 0x1_0000_0000_0000_0000_0000 && qy * qy <= 0x1_0000_0000_0000_0000_0000)
        by (nonlinear_arith)
        requires
            0 <= qx <= 0x100_0000_0000,
            0 <= qy <= 0x100_0000_0000,
    ;
    let rho = isqrt((qx * qx + qy * qy) as u128) as i128;
    let ax = abs_i128(m.radius_x as i128);
    let ay = abs_i128(m.radius_y as i128);
    let rmin = if ax < ay {
        ax
    } else {
        ay
    };
    if rho <= ONE as i128 {
        0
    } else {
        assert(rho * rho <= 0x2_0000_0000_0000_0000_0000);
        assert(rho <= 0x2_0000_0000_0000) by (nonlinear_arith)
            requires
                rho * rho <= 0x2_0000_0000_0000_0000_0000,
                rho >= 0,
        ;
        assert(0 <= (rho - 1_000_000) * rmin <= 0x2_0000_0000_0000 * 0x8000_0000_0000_0000)
            by (nonlinear_arith)
            requires
                1_000_000 < rho <= 0x2_0000_0000_0000,
                0 < rmin <= 0x8000_0000_0000_0000,
        ;
        (rho - ONE as i128) * rmin / 1_000_000
    }
}

/// Inverting a rectangle mask flips its answer at every point.
pub proof fn lemma_inverting_flips(m: RectangleMask, px: i64, py: i64)
    ensures
        (rect_contains_spec(m.x as int, m.y as int, m.width as int, m.height as int, px as int, py as int)
            != m.inverted) != (rect_contains_spec(
            m.x as int,
            m.y as int,
            m.width as int,
            m.height as int,
            px as int,
            py as int,
        ) != !m.inverted),
{
}


/// Distance, rounded down, from `(px, py)` to the segment from `a` to `b`:
/// to the nearer end when the foot of the perpendicular falls outside it.
pub open spec fn segment_distance(a: Point, b: Point, px: int, py: int) -> int {
    let wx = px - a.x;
    let wy = py - a.y;
    let vx = b.x - a.x;
    let vy = b.y - a.y;
    let along = wx * vx + wy * vy;
    let len2 = vx * vx + vy * vy;
    if len2 == 0 || along <= 0 {
        isqrt_spec(wx * wx + wy * wy)
    } else if along >= len2 {
        isqrt_spec((px - b.x) * (px - b.x) + (py - b.y) * (py - b.y))
    } else {
        abs_spec(wx * vy - wy * vx) / isqrt_spec(len2)
    }
}

/// Distance to the nearest of the edges that end at points `0..n` (each
/// edge joins point `i` to the point before it, the last point for `0`).
pub open spec fn path_distance(pts: Seq<Point>, px: int, py: int, n: int) -> int
    decreases n,
{
    let i = n - 1;
    let j = if i == 0 {
        pts.len() - 1
    } else {
        i - 1
    };
    let d = segment_distance(pts[i], pts[j], px, py);
    if n <= 1 {
        d
    } else {
        let rest = path_distance(pts, px, py, n - 1);
        if d < rest {
            d
        } else {
            rest
        }
    }
}

fn square_sum(x: i128, y: i128) -> (r: u128)
    requires
        -0x4000_0000_0000_0000 <= x <= 0x4000_0000_0000_0000,
        -0x4000_0000_0000_0000 <= y <= 0x4000_0000_0000_0000,
    ensures
        r == x * x + y * y,
        r <= 0x2000_0000_0000_0000_0000_0000_0000_0000,
{
    assert(0 <= x * x <= 0x1000_0000_0000_0000_0000_0000_0000_0000) by (nonlinear_arith)
        requires
            -0x4000_0000_0000_0000 <= x <= 0x4000_0000_0000_0000,
    ;
    assert(0 <= y * y <= 0x1000_0000_0000_0000_0000_0000_0000_0000) by (nonlinear_arith)
        requires
            -0x4000_0000_0000_0000 <= y <= 0x4000_0000_0000_0000,
    ;
    (x * x + y * y) as u128
}

/// `isqrt(x * x + y * y)`, which stays below `2^63`.
fn root_of_squares(x: i128, y: i128) -> (r: i128)
    requires
        -0x4000_0000_0000_0000 <= x <= 0x4000_0000_0000_0000,
        -0x4000_0000_0000_0000 <= y <= 0x4000_0000_0000_0000,
    ensures
        r == isqrt_spec(x * x + y * y),
        0 <= r <= 0x1_0000_0000_0000_0000,
{
    let n = square_sum(x, y);
    let r = isqrt(n);
    proof {
        let (rr, nn) = (r as int, n as int);
        assert(rr <= 0x1_0000_0000_0000_0000) by (nonlinear_arith)
            requires
                rr * rr <= nn,
                nn <= 0x2000_0000_0000_0000_0000_0000_0000_0000,
                rr >= 0,
        ;
    }
    r as i128
}

fn segment_dist(a: Point, b: Point, px: i64, py: i64) -> (r: i128)
    requires
        coord_ok(a.x) && coord_ok(a.y) && coord_ok(b.x) && coord_ok(b.y),
        coord_ok(px) && coord_ok(py),
    ensures
        r == segment_distance(a, b, px as int, py as int),
        0 <= r <= 0x1_0000_0000_0000_0000,
{
    let wx = px as i128 - a.x as i128;
    let wy = py as i128 - a.y as i128;
    let vx = b.x as i128 - a.x as i128;
    let vy = b.y as i128 - a.y as i128;
    assert(-0x1000_0000_0000_0000_0000_0000_0000_0000 <= wx * vx <= 0x1000_0000_0000_0000_0000_0000_0000_0000
        && -0x1000_0000_0000_0000_0000_0000_0000_0000 <= wy * vy <= 0x1000_0000_0000_0000_0000_0000_0000_0000
        && -0x1000_0000_0000_0000_0000_0000_0000_0000 <= wx * vy <= 0x1000_0000_0000_0000_0000_0000_0000_0000
        && -0x1000_0000_0000_0000_0000_0000_0000_0000 <= wy * vx <= 0x1000_0000_0000_0000_0000_0000_0000_0000)
        by (nonlinear_arith)
        requires
            -0x4000_0000_0000_0000 <= wx <= 0x4000_0000_0000_0000,
            -0x4000_0000_0000_0000 <= wy <= 0x4000_0000_0000_0000,
            -0x4000_0000_0000_0000 <= vx <= 0x4000_0000_0000_0000,
            -0x4000_0000_0000_0000 <= vy <= 0x4000_0000_0000_0000,
    ;
    let along = wx * vx + wy * vy;
    let len2 = square_sum(vx, vy) as i128;
    if len2 == 0 || along <= 0 {
        root_of_squares(wx, wy)
    } else if along >= len2 {
        root_of_squares(px as i128 - b.x as i128, py as i128 - b.y as i128)
    } else {
        let cross = wx * vy - wy * vx;
        let c = if cross < 0 {
            -cross
        } else {
            cross
        };
        let root = isqrt(len2 as u128) as i128;
        proof {
            let (rr, l) = (root as int, len2 as int);
            assert(rr >= 1) by (nonlinear_arith)
                requires
                    l < (rr + 1) * (rr + 1),
                    l >= 1,
                    rr >= 0,
            ;
        }
        let q = c / root;
        proof {
            let (x1, y1, x2, y2) = (wx as int, wy as int, vx as int, vy as int);
            let (cc, rr, l, qq) = (c as int, root as int, len2 as int, q as int);
            let w = x1 * x1 + y1 * y1;
            let (pa, pb, pc, pd) = (x1 * y2, y1 * x2, x1 * x2, y1 * y2);
            assert(pa * pb == pc * pd) by (nonlinear_arith)
                requires
                    pa == x1 * y2,
                    pb == y1 * x2,
                    pc == x1 * x2,
                    pd == y1 * y2,
            ;
            assert((pa - pb) * (pa - pb) + (pc + pd) * (pc + pd) == pa * pa + pb * pb + pc * pc + pd
                * pd) by (nonlinear_arith)
                requires
                    pa * pb == pc * pd,
            ;
            let (sx1, sy1, sx2, sy2) = (x1 * x1, y1 * y1, x2 * x2, y2 * y2);
            assert(pa * pa == sx1 * sy2) by (nonlinear_arith)
                requires
                    pa == x1 * y2,
                    sx1 == x1 * x1,
                    sy2 == y2 * y2,
            ;
            assert(pb * pb == sy1 * sx2) by (nonlinear_arith)
                requires
                    pb == y1 * x2,
                    sy1 == y1 * y1,
                    sx2 == x2 * x2,
            ;
            assert(pc * pc == sx1 * sx2) by (nonlinear_arith)
                requires
                    pc == x1 * x2,
                    sx1 == x1 * x1,
                    sx2 == x2 * x2,
            ;
            assert(pd * pd == sy1 * sy2) by (nonlinear_arith)
                requires
                    pd == y1 * y2,
                    sy1 == y1 * y1,
                    sy2 == y2 * y2,
            ;
            assert((sx1 + sy1) * (sx2 + sy2) == sx1 * sx2 + sx1 * sy2 + sy1 * sx2 + sy1 * sy2)
                by (nonlinear_arith);
            assert(l == sx2 + sy2);
            assert(w == sx1 + sy1);
            assert((pa - pb) * (pa - pb) + (pc + pd) * (pc + pd) == w * l);
            assert(cc * cc == (pa - pb) * (pa - pb)) by (nonlinear_arith)
                requires
                    cc == abs_spec(pa - pb),
            ;
            assert(0 <= (pc + pd) * (pc + pd)) by (nonlinear_arith);
            assert(0 <= w <= 0x2000_0000_0000_0000_0000_0000_0000_0000) by (nonlinear_arith)
                requires
                    -0x4000_0000_0000_0000 <= x1 <= 0x4000_0000_0000_0000,
                    -0x4000_0000_0000_0000 <= y1 <= 0x4000_0000_0000_0000,
                    w == x1 * x1 + y1 * y1,
            ;
            assert(cc * cc <= w * l);
            assert(w * l < 0x8000_0000_0000_0000_0000_0000_0000_0000 * (rr * rr)) by (nonlinear_arith)
                requires
                    0 <= w <= 0x2000_0000_0000_0000_0000_0000_0000_0000,
                    l < (rr + 1) * (rr + 1),
                    rr >= 1,
            ;
            assert(qq * rr <= cc && qq >= 0) by (nonlinear_arith)
                requires
                    qq == cc / rr,
                    rr >= 1,
                    cc >= 0,
            ;
            assert(qq * qq < 0x8000_0000_0000_0000_0000_0000_0000_0000) by (nonlinear_arith)
                requires
                    0 <= qq * rr <= cc,
                    qq >= 0,
                    cc * cc < 0x8000_0000_0000_0000_0000_0000_0000_0000 * (rr * rr),
                    rr >= 1,
            ;
            assert(qq <= 0x1_0000_0000_0000_0000) by (nonlinear_arith)
                requires
                    qq * qq < 0x8000_0000_0000_0000_0000_0000_0000_0000,
                    qq >= 0,
            ;
        }
        q
    }
}

fn nearest_edge(pts: &[Point], px: i64, py: i64) -> (r: i128)
    requires
        pts@.len() >= 1,
        points_ok(pts@),
        coord_ok(px) && coord_ok(py),
    ensures
        r == path_distance(pts@, px as int, py as int, pts@.len() as int),
        0 <= r <= 0x1_0000_0000_0000_0000,
{
    let n = pts.len();
    assert(coord_ok(pts@[0].x) && coord_ok(pts@[n - 1].x));
    let mut best = segment_dist(pts[0], pts[n - 1], px, py);
    let mut i: usize = 1;
    while i < n
        invariant
            1 <= i <= n == pts@.len(),
            points_ok(pts@),
            coord_ok(px) && coord_ok(py),
            best == path_distance(pts@, px as int, py as int, i as int),
            0 <= best <= 0x1_0000_0000_0000_0000,
        decreases n - i,
    {
        assert(coord_ok(pts@[i as int].x) && coord_ok(pts@[i - 1].x));
        let d = segment_dist(pts[i], pts[i - 1], px, py);
        if d < best {
            best = d;
        }
        i = i + 1;
    }
    best
}

} // verus!
