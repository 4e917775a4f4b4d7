//! Points, rectangles, circles and polygons in fixed-point coordinates.
use crate::fixed::{
    cos_quarter, cos_quarter_spec, floor_div, fmul, isqrt, isqrt_spec, mul_spec, saturate,
    saturate_i128, sin_quarter, sin_quarter_spec,
};
use vstd::prelude::*;

verus! {

/// Largest coordinate magnitude accepted by the polygon and distance
/// computations, whose squares and cross products must fit in 128 bits.
pub const COORD_LIMIT: i64 = 0x2000_0000_0000_0000;

/// A coordinate the polygon and distance computations can take.
pub open spec fn coord_ok(v: i64) -> bool {
    -COORD_LIMIT <= v <= COORD_LIMIT
}

#[derive(Clone, Copy, Debug, PartialEq, Eq, Structural)]
pub struct Point {
    pub x: i64,
    pub y: i64,
}

impl Point {
    pub fn new(x: i64, y: i64) -> (r: Point)
        ensures
            r == (Point { x, y }),
    {
        Point { x, y }
    }
}

pub open spec fn abs_spec(v: int) -> int {
    if v < 0 {
        -v
    } else {
        v
    }
}

/// An axis-aligned rectangle; its edges belong to it.
#[derive(Clone, Copy, Debug, PartialEq, Eq, Structural)]
pub struct Rectangle {
    pub x: i64,
    pub y: i64,
    pub width: i64,
    pub height: i64,
}

pub open spec fn rect_contains_spec(x: int, y: int, w: int, h: int, px: int, py: int) -> bool {
    px >= x && px <= x + w && py >= y && py <= y + h
}

impl Rectangle {
    pub fn new(x: i64, y: i64, width: i64, height: i64) -> (r: Rectangle)
        ensures
            r == (Rectangle { x, y, width, height }),
    {
        Rectangle { x, y, width, height }
    }

    /// Whether `(px, py)` lies in the rectangle, edges included.
    pub fn contains(&self, px: i64, py: i64) -> (r: bool)
        ensures
            r == rect_contains_spec(
                self.x as int,
                self.y as int,
                self.width as int,
                self.height as int,
                px as int,
                py as int,
            ),
    {
        px >= self.x && (px as i128) <= self.x as i128 + self.width as i128 && py >= self.y && (
        py as i128) <= self.y as i128 + self.height as i128
    }

    /// Whether the interiors of two rectangles overlap.
    pub fn intersects(&self, other: &Rectangle) -> (r: bool)
        ensures
            r == (self.x < other.x + other.width && self.x + self.width > other.x && self.y
                < other.y + other.height && self.y + self.height > other.y),
    {
        (self.x as i128) < other.x as i128 + other.width as i128 && self.x as i128
            + self.width as i128 > other.x as i128 && (self.y as i128) < other.y as i128
            + other.height as i128 && self.y as i128 + self.height as i128 > other.y as i128
    }

    /// The centre, each coordinate rounded down and saturated to `i64`.
    pub fn center(&self) -> (r: (i64, i64))
        ensures
            r.0 == saturate(self.x + self.width / 2),
            r.1 == saturate(self.y + self.height / 2),
    {
        let hx = floor_div(self.width as i128, 2);
        let hy = floor_div(self.height as i128, 2);
        (saturate_i128(self.x as i128 + hx), saturate_i128(self.y as i128 + hy))
    }
}

/// Whether `dx^2 + dy^2 <= r^2` (`cmp_le`) or `< r^2`, for `r >= 0`.
fn within_radius(dx: i128, dy: i128, r: i128, strict: bool) -> (res: bool)
    requires
        0 <= r < 0x1_0000_0000_0000_0000,
        -0x2_0000_0000_0000_0000 <= dx <= 0x2_0000_0000_0000_0000,
        -0x2_0000_0000_0000_0000 <= dy <= 0x2_0000_0000_0000_0000,
    ensures
        res == if strict {
            dx * dx + dy * dy < r * r
        } else {
            dx * dx + dy * dy <= r * r
        },
{
    let ax: u128 = if dx < 0 {
        (-dx) as u128
    } else {
        dx as u128
    };
    let ay: u128 = if dy < 0 {
        (-dy) as u128
    } else {
        dy as u128
    };
    let ur = r as u128;
    assert(ax * ax == dx * dx && ay * ay == dy * dy) by (nonlinear_arith)
        requires
            ax == abs_spec(dx as int),
            ay == abs_spec(dy as int),
    ;
    if ax > ur || ay > ur {
        assert(dx * dx + dy * dy > r * r) by (nonlinear_arith)
            requires
                ax > ur || ay > ur,
                ax * ax == dx * dx,
                ay * ay == dy * dy,
                0 <= ur,
                ur == r,
                0 <= ax,
                0 <= ay,
        ;
        return false;
    }
    assert(ax * ax <= ur * ur < 0x1_0000_0000_0000_0000_0000_0000_0000_0000 && ay * ay <= ur * ur)
        by (nonlinear_arith)
        requires
            0 <= ax <= ur,
            0 <= ay <= ur,
            ur < 0x1_0000_0000_0000_0000,
    ;
    let rest = ur * ur - ax * ax;
    if strict {
        ay * ay < rest
    } else {
        ay * ay <= rest
    }
}

/// A circle; its boundary belongs to it.
#[derive(Clone, Copy, Debug, PartialEq, Eq, Structural)]
pub struct Circle {
    pub x: i64,
    pub y: i64,
    pub radius: i64,
}

impl Circle {
    pub fn new(x: i64, y: i64, radius: i64) -> (r: Circle)
        ensures
            r == (Circle { x, y, radius }),
    {
        Circle { x, y, radius }
    }

    /// Whether `(px, py)` is no farther from the centre than the radius; a
    /// negative radius holds no point.
    pub fn contains(&self, px: i64, py: i64) -> (r: bool)
        ensures
            r == (self.radius >= 0 && (px - self.x) * (px - self.x) + (py - self.y) * (py - self.y)
                <= self.radius * self.radius),
    {
        if self.radius < 0 {
            return false;
        }
        within_radius(
            px as i128 - self.x as i128,
            py as i128 - self.y as i128,
            self.radius as i128,
            false,
        )
    }

    /// Whether the centres are closer than the sum of the radii.
    pub fn intersects(&self, other: &Circle) -> (r: bool)
        ensures
            r == (self.radius + other.radius > 0 && (other.x - self.x) * (other.x - self.x) + (
            other.y - self.y) * (other.y - self.y) < (self.radius + other.radius) * (self.radius
                + other.radius)),
    {
        let sum = self.radius as i128 + other.radius as i128;
        if sum <= 0 {
            return false;
        }
        within_radius(other.x as i128 - self.x as i128, other.y as i128 - self.y as i128, sum, true)
    }
}

/// Whether the edge from `a` to `b` crosses the horizontal ray that leaves
/// `(px, py)` toward positive `x`.
pub open spec fn edge_crosses(a: Point, b: Point, px: int, py: int) -> bool {
    let d = b.y - a.y;
    ((a.y > py) != (b.y > py)) && (if d > 0 {
        (px - a.x) * d < (b.x - a.x) * (py - a.y)
    } else {
        (px - a.x) * d > (b.x - a.x) * (py - a.y)
    })
}

/// Parity of the crossings of the edges that end at points `0..n`, each
/// edge joining point `i` to the point before it (the last point for `0`).
pub open spec fn crossings_odd(pts: Seq<Point>, px: int, py: int, n: int) -> bool
    decreases n,
{
    if n <= 0 {
        false
    } else {
        let i = n - 1;
        let j = if i == 0 {
            pts.len() - 1
        } else {
            i - 1
        };
        crossings_odd(pts, px, py, n - 1) != edge_crosses(pts[i], pts[j], px, py)
    }
}

/// Even-odd containment of `(px, py)` in the polygon through `pts`.
pub open spec fn polygon_contains_spec(pts: Seq<Point>, px: int, py: int) -> bool {
    crossings_odd(pts, px, py, pts.len() as int)
}

pub open spec fn points_ok(pts: Seq<Point>) -> bool {
    forall|i: int| 0 <= i < pts.len() ==> coord_ok(#[trigger] pts[i].x) && coord_ok(pts[i].y)
}

fn edge_test(a: Point, b: Point, px: i64, py: i64) -> (r: bool)
    requires
        coord_ok(a.x) && coord_ok(a.y) && coord_ok(b.x) && coord_ok(b.y),
        coord_ok(px) && coord_ok(py),
    ensures
        r == edge_crosses(a, b, px as int, py as int),
{
    if (a.y > py) == (b.y > py) {
        return false;
    }
    let d = b.y as i128 - a.y as i128;
    let lhs_a = px as i128 - a.x as i128;
    let rhs_a = b.x as i128 - a.x as i128;
    let rhs_b = py as i128 - a.y as i128;
    assert(-0x4000_0000_0000_0000_0000_0000_0000_0000 <= lhs_a * d
        <= 0x4000_0000_0000_0000_0000_0000_0000_0000) by (nonlinear_arith)
        requires
            -0x4000_0000_0000_0000 <= lhs_a <= 0x4000_0000_0000_0000,
            -0x4000_0000_0000_0000 <= d <= 0x4000_0000_0000_0000,
    ;
    assert(-0x4000_0000_0000_0000_0000_0000_0000_0000 <= rhs_a * rhs_b
        <= 0x4000_0000_0000_0000_0000_0000_0000_0000) by (nonlinear_arith)
        requires
            -0x4000_0000_0000_0000 <= rhs_a <= 0x4000_0000_0000_0000,
            -0x4000_0000_0000_0000 <= rhs_b <= 0x4000_0000_0000_0000,
    ;
    if d > 0 {
        lhs_a * d < rhs_a * rhs_b
    } else {
        lhs_a * d > rhs_a * rhs_b
    }
}

/// Even-odd point-in-polygon test.
pub fn polygon_contains(pts: &[Point], px: i64, py: i64) -> (r: bool)
    requires
        points_ok(pts@),
        coord_ok(px) && coord_ok(py),
    ensures
        r == polygon_contains_spec(pts@, px as int, py as int),
{
    let n = pts.len();
    let mut inside = false;
    let mut i: usize = 0;
    while i < n
        invariant
            i <= n == pts@.len(),
            points_ok(pts@),
            coord_ok(px) && coord_ok(py),
            inside == crossings_odd(pts@, px as int, py as int, i as int),
        decreases n - i,
    {
        let j = if i == 0 {
            n - 1
        } else {
            i - 1
        };
        assert(coord_ok(pts@[i as int].x) && coord_ok(pts@[j as int].x));
        if edge_test(pts[i], pts[j], px, py) {
            inside = !inside;
        }
        i = i + 1;
    }
    inside
}

/// A closed polygon through its points.
#[derive(Debug)]
pub struct Polygon {
    pub points: Vec<Point>,
}

impl Polygon {
    pub fn new(points: Vec<(i64, i64)>) -> (r: Polygon)
        ensures
            r.points@.len() == points@.len(),
            forall|i: int|
                0 <= i < points@.len() ==> #[trigger] r.points@[i] == (Point {
                    x: points@[i].0,
                    y: points@[i].1,
                }),
    {
        let mut v: Vec<Point> = Vec::new();
        let mut i: usize = 0;
        while i < points.len()
            invariant
                i <= points@.len(),
                v@.len() == i,
                forall|k: int|
                    0 <= k < i ==> #[trigger] v@[k] == (Point { x: points@[k].0, y: points@[k].1 }),
            decreases points@.len() - i,
        {
            v.push(Point { x: points[i].0, y: points[i].1 });
            i = i + 1;
        }
        Polygon { points: v }
    }

    /// Even-odd containment; a polygon with no points holds nothing.
    pub fn contains(&self, px: i64, py: i64) -> (r: bool)
        requires
            points_ok(self.points@),
            coord_ok(px) && coord_ok(py),
        ensures
            r == polygon_contains_spec(self.points@, px as int, py as int),
    {
        polygon_contains(self.points.as_slice(), px, py)
    }
}

/// Distance between two points, rounded down.
pub fn point_distance(x1: i64, y1: i64, x2: i64, y2: i64) -> (r: i64)
    requires
        coord_ok(x1) && coord_ok(y1) && coord_ok(x2) && coord_ok(y2),
    ensures
        r == isqrt_spec((x2 - x1) * (x2 - x1) + (y2 - y1) * (y2 - y1)),
{
    let dx = x2 as i128 - x1 as i128;
    let dy = y2 as i128 - y1 as i128;
    assert(0 <= dx * dx <= 0x1000_0000_0000_0000_0000_0000_0000_0000) by (nonlinear_arith)
        requires
            -0x4000_0000_0000_0000 <= dx <= 0x4000_0000_0000_0000,
    ;
    assert(0 <= dy * dy <= 0x1000_0000_0000_0000_0000_0000_0000_0000) by (nonlinear_arith)
        requires
            -0x4000_0000_0000_0000 <= dy <= 0x4000_0000_0000_0000,
    ;
    let r = isqrt((dx * dx + dy * dy) as u128);
    assert(r < 0x8000_0000_0000_0000) by (nonlinear_arith)
        requires
            r * r <= dx * dx + dy * dy,
            dx * dx + dy * dy <= 0x2000_0000_0000_0000_0000_0000_0000_0000,
            0 <= r,
    ;
    r as i64
}

/// `angle_degrees` expressed in quarter turns.
pub open spec fn degrees_to_quarters(deg: int) -> int {
    deg / 90
}

/// `(px, py)` rotated about `(cx, cy)` by `angle_degrees`, counter-clockwise.
pub open spec fn rotate_point_spec(px: int, py: int, cx: int, cy: int, deg: int) -> (int, int) {
    let a = degrees_to_quarters(deg);
    let c = cos_quarter_spec(a);
    let s = sin_quarter_spec(a);
    let dx = px - cx;
    let dy = py - cy;
    (cx + mul_spec(dx, c) - mul_spec(dy, s), cy + mul_spec(dx, s) + mul_spec(dy, c))
}

/// Rotates `(px, py)` about `(cx, cy)` by `angle_degrees` (in millionths of a degree).
pub fn rotate_point(px: i64, py: i64, cx: i64, cy: i64, angle_degrees: i64) -> (r: (i64, i64))
    requires
        -0x4000_0000 <= px <= 0x4000_0000,
        -0x4000_0000 <= py <= 0x4000_0000,
        -0x4000_0000 <= cx <= 0x4000_0000,
        -0x4000_0000 <= cy <= 0x4000_0000,
        -0x1_0000_0000_0000 <= angle_degrees <= 0x1_0000_0000_0000,
    ensures
        (r.0 as int, r.1 as int) == rotate_point_spec(
            px as int,
            py as int,
            cx as int,
            cy as int,
            angle_degrees as int,
        ),
{
    let a = floor_div(angle_degrees as i128, 90) as i64;
    let c = cos_quarter(a);
    let s = sin_quarter(a);
    let dx = px - cx;
    let dy = py - cy;
    let xs = fmul(dx, c);
    let ys = fmul(dy, s);
    let xc = fmul(dx, s);
    let yc = fmul(dy, c);
    (cx + xs - ys, cy + xc + yc)
}

} // verus!
