//! Geometry kernel: exact minimum distance from a point to a closed line
//! segment, for pointer hit-testing.
//!
//! Coordinates are fixed-point subpixel units held in plain integers, so the
//! squared distance to a segment is an exact rational number `num / den`.
//! Comparisons between distances are done by cross-multiplication and are
//! therefore exact as well; no rounding ever enters the hit-test.

use vstd::prelude::*;

verus! {

/// A point in screen space, in fixed-point subpixel units.
#[derive(Clone, Copy, PartialEq, Eq, Structural, Debug)]
pub struct ScreenPoint {
    pub x: i64,
    pub y: i64,
}

/// Largest coordinate magnitude the geometry kernel accepts. It keeps every
/// intermediate product of the exact distance computation inside `i128`.
pub const COORD_LIMIT: i64 = 0x40000;

/// Largest search radius accepted by [`DistSq::from_radius`].
pub const RADIUS_LIMIT: u64 = 0x10_0000;

/// Bound on the numerator of a well-formed squared distance.
pub const NUM_LIMIT: i128 = 0x1_0000_0000_0000_0000_0000;

/// Bound on the denominator of a well-formed squared distance.
pub const DEN_LIMIT: i128 = 0x100_0000_0000;

pub open spec fn in_bounds(p: ScreenPoint) -> bool {
    &&& -COORD_LIMIT <= p.x <= COORD_LIMIT
    &&& -COORD_LIMIT <= p.y <= COORD_LIMIT
}

pub open spec fn sq(x: int) -> int {
    x * x
}

/// Squared Euclidean distance between two points.
pub open spec fn point_dist_sq(p: ScreenPoint, q: ScreenPoint) -> int {
    sq(p.x - q.x) + sq(p.y - q.y)
}

/// Squared length of the segment from `a` to `b`.
pub open spec fn seg_len_sq(a: ScreenPoint, b: ScreenPoint) -> int {
    sq(b.x - a.x) + sq(b.y - a.y)
}

/// Dot product of `p - a` with `b - a`: the unclamped parametric projection
/// of `p` onto the segment, scaled by `seg_len_sq(a, b)`.
pub open spec fn seg_dot(p: ScreenPoint, a: ScreenPoint, b: ScreenPoint) -> int {
    (p.x - a.x) * (b.x - a.x) + (p.y - a.y) * (b.y - a.y)
}

/// Cross product of `p - a` with `b - a`: zero exactly when the three points
/// are collinear.
pub open spec fn seg_cross(p: ScreenPoint, a: ScreenPoint, b: ScreenPoint) -> int {
    (p.x - a.x) * (b.y - a.y) - (p.y - a.y) * (b.x - a.x)
}

/// Numerator of the exact squared distance from `p` to the closed segment
/// `[a, b]`. When the parametric projection of `p` falls before `a` (or the
/// segment is degenerate) this is the squared distance to `a`; when it falls
/// past `b`, the squared distance to `b`; otherwise the squared cross
/// product, which over the denominator `seg_len_sq(a, b)` is the exact
/// squared perpendicular distance.
pub open spec fn dist2_num(p: ScreenPoint, a: ScreenPoint, b: ScreenPoint) -> int {
    if seg_len_sq(a, b) == 0 || seg_dot(p, a, b) <= 0 {
        point_dist_sq(p, a)
    } else if seg_dot(p, a, b) >= seg_len_sq(a, b) {
        point_dist_sq(p, b)
    } else {
        sq(seg_cross(p, a, b))
    }
}

/// Denominator of the exact squared distance from `p` to the closed segment
/// `[a, b]`.
pub open spec fn dist2_den(p: ScreenPoint, a: ScreenPoint, b: ScreenPoint) -> int {
    if seg_len_sq(a, b) == 0 || seg_dot(p, a, b) <= 0 {
        1
    } else if seg_dot(p, a, b) >= seg_len_sq(a, b) {
        1
    } else {
        seg_len_sq(a, b)
    }
}

/// `p` lies on the closed segment `[a, b]`: collinear with it and between
/// its endpoints (equal to `a` when the segment is degenerate).
pub open spec fn on_segment(p: ScreenPoint, a: ScreenPoint, b: ScreenPoint) -> bool {
    if seg_len_sq(a, b) == 0 {
        p.x == a.x && p.y == a.y
    } else {
        seg_cross(p, a, b) == 0 && 0 <= seg_dot(p, a, b) <= seg_len_sq(a, b)
    }
}

/// An exact squared distance, as the rational `num / den`.
#[derive(Clone, Copy, PartialEq, Eq, Structural, Debug)]
pub struct DistSq {
    pub num: i128,
    pub den: i128,
}

/// A rational with a positive denominator.
pub open spec fn rat_wf(a: (int, int)) -> bool {
    a.1 > 0
}

/// Exact order on rationals with positive denominators.
pub open spec fn rlt(a: (int, int), b: (int, int)) -> bool {
    a.0 * b.1 < b.0 * a.1
}

impl DistSq {
    pub open spec fn ratio(self) -> (int, int) {
        (self.num as int, self.den as int)
    }

    pub open spec fn wf(self) -> bool {
        &&& 0 <= self.num <= NUM_LIMIT
        &&& 1 <= self.den <= DEN_LIMIT
    }

    /// The squared distance below which a pointer within radius `r` counts
    /// as hitting a feature.
    pub fn from_radius(r: u64) -> (d: DistSq)
        requires
            r <= RADIUS_LIMIT,
        ensures
            d.num == sq(r as int),
            d.den == 1,
            d.wf(),
    {
        proof {
            lemma_abs_mul_bound(r as int, r as int, RADIUS_LIMIT as int, RADIUS_LIMIT as int);
            assert((r as int) * (r as int) >= 0) by (nonlinear_arith);
        }
        DistSq { num: (r as i128) * (r as i128), den: 1 }
    }

    /// Exact comparison: `self < other` as rational numbers.
    pub fn lt(&self, other: &DistSq) -> (r: bool)
        requires
            self.wf(),
            other.wf(),
        ensures
            r == rlt(self.ratio(), other.ratio()),
    {
        proof {
            lemma_abs_mul_bound(self.num as int, other.den as int, NUM_LIMIT as int, DEN_LIMIT as int);
            lemma_abs_mul_bound(other.num as int, self.den as int, NUM_LIMIT as int, DEN_LIMIT as int);
        }
        self.num * other.den < other.num * self.den
    }
}

/// Magnitude bound on a product, from magnitude bounds on its factors.
pub proof fn lemma_abs_mul_bound(x: int, y: int, bx: int, by: int)
    by (nonlinear_arith)
    requires
        -bx <= x <= bx,
        -by <= y <= by,
        0 <= bx,
        0 <= by,
    ensures
        -(bx * by) <= x * y <= bx * by,
{
}

/// The exact squared distance from `p` to the closed segment `[a, b]`,
/// as the rational `num / den`. The parametric projection coefficient is
/// never formed, so no division-by-zero guard is needed: a degenerate
/// segment takes the endpoint branch directly.
pub fn distance_point_to_segment(p: ScreenPoint, a: ScreenPoint, b: ScreenPoint) -> (d: DistSq)
    requires
        in_bounds(p),
        in_bounds(a),
        in_bounds(b),
    ensures
        d.num == dist2_num(p, a, b),
        d.den == dist2_den(p, a, b),
        d.wf(),
{
    let ux: i128 = (p.x - a.x) as i128;
    let uy: i128 = (p.y - a.y) as i128;
    let dx: i128 = (b.x - a.x) as i128;
    let dy: i128 = (b.y - a.y) as i128;
    proof {
        let m: int = 0x80000;
        lemma_abs_mul_bound(ux as int, ux as int, m, m);
        lemma_abs_mul_bound(uy as int, uy as int, m, m);
        lemma_abs_mul_bound(dx as int, dx as int, m, m);
        lemma_abs_mul_bound(dy as int, dy as int, m, m);
        lemma_abs_mul_bound(ux as int, dx as int, m, m);
        lemma_abs_mul_bound(uy as int, dy as int, m, m);
        lemma_abs_mul_bound(ux as int, dy as int, m, m);
        lemma_abs_mul_bound(uy as int, dx as int, m, m);
        assert(ux * ux >= 0 && uy * uy >= 0 && dx * dx >= 0 && dy * dy >= 0) by (nonlinear_arith);
    }
    let dot: i128 = ux * dx + uy * dy;
    let len_sq: i128 = dx * dx + dy * dy;
    if len_sq == 0 || dot <= 0 {
        DistSq { num: ux * ux + uy * uy, den: 1 }
    } else if dot >= len_sq {
        let vx: i128 = (p.x - b.x) as i128;
        let vy: i128 = (p.y - b.y) as i128;
        proof {
            let m: int = 0x80000;
            lemma_abs_mul_bound(vx as int, vx as int, m, m);
            lemma_abs_mul_bound(vy as int, vy as int, m, m);
            assert(vx * vx >= 0 && vy * vy >= 0) by (nonlinear_arith);
        }
        DistSq { num: vx * vx + vy * vy, den: 1 }
    } else {
        let cross: i128 = ux * dy - uy * dx;
        proof {
            let m: int = 0x100_0000_0000;
            lemma_abs_mul_bound(cross as int, cross as int, m, m);
            assert(cross * cross >= 0) by (nonlinear_arith);
        }
        DistSq { num: cross * cross, den: len_sq }
    }
}

/// Floor of the square root of `n` (zero for negative arguments).
pub open spec fn sqrt_floor(n: int) -> int
    decreases n,
{
    if n <= 0 {
        0
    } else {
        let r = sqrt_floor(n - 1);
        if (r + 1) * (r + 1) <= n {
            r + 1
        } else {
            r
        }
    }
}

pub proof fn lemma_sqrt_floor_bounds(n: int)
    requires
        0 <= n,
    ensures
        0 <= sqrt_floor(n),
        sqrt_floor(n) * sqrt_floor(n) <= n,
        n < (sqrt_floor(n) + 1) * (sqrt_floor(n) + 1),
    decreases n,
{
    if n == 0 {
        assert(sqrt_floor(0) == 0);
    } else {
        lemma_sqrt_floor_bounds(n - 1);
        let r = sqrt_floor(n - 1);
        if (r + 1) * (r + 1) <= n {
            assert(sqrt_floor(n) == r + 1);
            assert(n < (r + 2) * (r + 2)) by (nonlinear_arith)
                requires
                    n - 1 < (r + 1) * (r + 1),
                    0 <= r,
            ;
        } else {
            assert(sqrt_floor(n) == r);
        }
    }
}

/// Binary search for the floor of the square root.
pub fn isqrt(n: u64) -> (r: u64)
    requires
        n < 0x100_0000_0000u64,
    ensures
        r == sqrt_floor(n as int),
        r * r <= n < (r + 1) * (r + 1),
{
    proof {
        lemma_sqrt_floor_bounds(n as int);
    }
    let mut lo: u64 = 0;
    let mut hi: u64 = 0x10_0000;
    while lo + 1 < hi
        invariant
            lo < hi <= 0x10_0000,
            (lo as int) * (lo as int) <= n as int,
            (n as int) < (hi as int) * (hi as int),
            n < 0x100_0000_0000u64,
        decreases hi - lo,
    {
        let mid: u64 = lo + (hi - lo) / 2;
        proof {
            lemma_abs_mul_bound(mid as int, mid as int, 0x10_0000, 0x10_0000);
        }
        if mid * mid <= n {
            lo = mid;
        } else {
            hi = mid;
        }
    }
    proof {
        let s = sqrt_floor(n as int);
        assert(s == lo) by (nonlinear_arith)
            requires
                s * s <= n as int,
                (n as int) < (s + 1) * (s + 1),
                (lo as int) * (lo as int) <= n as int,
                (n as int) < (lo + 1) * (lo + 1),
                0 <= s,
                0 <= lo as int,
        ;
    }
    lo
}

/// Lagrange's identity in two dimensions, relating the squared norms, the
/// dot product and the cross product of two vectors.
proof fn lemma_lagrange(ux: int, uy: int, dx: int, dy: int)
    ensures
        (ux * ux + uy * uy) * (dx * dx + dy * dy) == (ux * dx + uy * dy) * (ux * dx + uy * dy) + (
        ux * dy - uy * dx) * (ux * dy - uy * dx),
{
    let p1 = ux * dx;
    let p2 = uy * dy;
    let c1 = ux * dy;
    let c2 = uy * dx;
    assert((ux * dx + uy * dy) * (ux * dx + uy * dy) == p1 * p1 + 2 * (p1 * p2) + p2 * p2)
        by (nonlinear_arith)
        requires
            p1 == ux * dx,
            p2 == uy * dy,
    ;
    assert((ux * dy - uy * dx) * (ux * dy - uy * dx) == c1 * c1 - 2 * (c1 * c2) + c2 * c2)
        by (nonlinear_arith)
        requires
            c1 == ux * dy,
            c2 == uy * dx,
    ;
    assert(p1 * p2 == c1 * c2) by (nonlinear_arith)
        requires
            p1 == ux * dx,
            p2 == uy * dy,
            c1 == ux * dy,
            c2 == uy * dx,
    ;
    let su = ux * ux + uy * uy;
    let sx = dx * dx;
    let sy = dy * dy;
    assert(su * (sx + sy) == su * sx + su * sy) by (nonlinear_arith);
    assert(su * sx == (ux * ux) * sx + (uy * uy) * sx) by (nonlinear_arith)
        requires
            su == ux * ux + uy * uy,
    ;
    assert(su * sy == (ux * ux) * sy + (uy * uy) * sy) by (nonlinear_arith)
        requires
            su == ux * ux + uy * uy,
    ;
    assert((ux * ux) * sx == p1 * p1) by (nonlinear_arith)
        requires
            sx == dx * dx,
            p1 == ux * dx,
    ;
    assert((uy * uy) * sx == c2 * c2) by (nonlinear_arith)
        requires
            sx == dx * dx,
            c2 == uy * dx,
    ;
    assert((ux * ux) * sy == c1 * c1) by (nonlinear_arith)
        requires
            sy == dy * dy,
            c1 == ux * dy,
    ;
    assert((uy * uy) * sy == p2 * p2) by (nonlinear_arith)
        requires
            sy == dy * dy,
            p2 == uy * dy,
    ;
}

/// The distance to a segment is zero exactly when the point lies on the
/// closed segment.
pub proof fn lemma_distance_zero_iff_on_segment(p: ScreenPoint, a: ScreenPoint, b: ScreenPoint)
    ensures
        dist2_num(p, a, b) == 0 <==> on_segment(p, a, b),
{
    let ux = p.x - a.x;
    let uy = p.y - a.y;
    let dx = b.x - a.x;
    let dy = b.y - a.y;
    lemma_lagrange(ux, uy, dx, dy);
    assert((ux * ux + uy * uy == 0) <==> (ux == 0 && uy == 0)) by (nonlinear_arith);
    assert((dx * dx + dy * dy == 0) <==> (dx == 0 && dy == 0)) by (nonlinear_arith);
    assert(ux * ux + uy * uy >= 0 && dx * dx + dy * dy >= 0) by (nonlinear_arith);
    if seg_len_sq(a, b) == 0 {
        // Degenerate segment: the distance is to `a` itself.
    } else if seg_dot(p, a, b) <= 0 {
        // Closest point is `a`. If `p` is on the segment with a non-positive
        // projection, the projection is zero, and Lagrange's identity forces
        // `p == a`.
        if on_segment(p, a, b) {
            assert(ux * ux + uy * uy == 0) by (nonlinear_arith)
                requires
                    (ux * ux + uy * uy) * (dx * dx + dy * dy) == (ux * dx + uy * dy) * (ux * dx + uy
                        * dy) + (ux * dy - uy * dx) * (ux * dy - uy * dx),
                    ux * dx + uy * dy == 0,
                    ux * dy - uy * dx == 0,
                    dx * dx + dy * dy > 0,
            ;
        }
        if dist2_num(p, a, b) == 0 {
            assert(seg_cross(p, a, b) == 0);
            assert(seg_dot(p, a, b) == 0);
        }
    } else if seg_dot(p, a, b) >= seg_len_sq(a, b) {
        // Closest point is `b`: re-run the argument on the vector `p - b`.
        let vx = p.x - b.x;
        let vy = p.y - b.y;
        lemma_lagrange(vx, vy, dx, dy);
        assert((vx * vx + vy * vy == 0) <==> (vx == 0 && vy == 0)) by (nonlinear_arith);
        assert(vx * dx + vy * dy == (ux * dx + uy * dy) - (dx * dx + dy * dy)) by (nonlinear_arith)
            requires
                vx == ux - dx,
                vy == uy - dy,
        ;
        assert(vx * dy - vy * dx == ux * dy - uy * dx) by (nonlinear_arith)
            requires
                vx == ux - dx,
                vy == uy - dy,
        ;
        if on_segment(p, a, b) {
            assert(vx * vx + vy * vy == 0) by (nonlinear_arith)
                requires
                    (vx * vx + vy * vy) * (dx * dx + dy * dy) == (vx * dx + vy * dy) * (vx * dx + vy
                        * dy) + (vx * dy - vy * dx) * (vx * dy - vy * dx),
                    vx * dx + vy * dy == 0,
                    vx * dy - vy * dx == 0,
                    dx * dx + dy * dy > 0,
            ;
        }
        if dist2_num(p, a, b) == 0 {
            assert(vx == 0 && vy == 0);
            assert(seg_cross(p, a, b) == 0);
            assert(seg_dot(p, a, b) == seg_len_sq(a, b));
        }
    } else {
        // Interior projection: the numerator is the squared cross product.
        assert((seg_cross(p, a, b) * seg_cross(p, a, b) == 0) <==> (seg_cross(p, a, b) == 0))
            by (nonlinear_arith);
    }
}

/// When the parametric projection of `p` falls at or before `a`, the
/// distance is the point-to-endpoint distance to `a`; at or past `b`, the
/// distance to `b`.
pub proof fn lemma_distance_outside_projection(p: ScreenPoint, a: ScreenPoint, b: ScreenPoint)
    ensures
        seg_dot(p, a, b) <= 0 ==> dist2_num(p, a, b) == point_dist_sq(p, a) && dist2_den(p, a, b)
            == 1,
        seg_len_sq(a, b) != 0 && seg_dot(p, a, b) >= seg_len_sq(a, b) ==> dist2_num(p, a, b)
            == point_dist_sq(p, b) && dist2_den(p, a, b) == 1,
{
    assert(seg_len_sq(a, b) >= 0) by (nonlinear_arith);
}

/// A zero-length segment: the distance is exactly the distance between the
/// point and the coincident endpoints.
pub proof fn lemma_distance_degenerate_segment(p: ScreenPoint, a: ScreenPoint)
    ensures
        dist2_num(p, a, a) == point_dist_sq(p, a),
        dist2_den(p, a, a) == 1,
{
    assert(seg_len_sq(a, a) == 0) by (nonlinear_arith);
}

/// Strict order on exact rationals is transitive.
pub proof fn lemma_rlt_trans(a: (int, int), b: (int, int), c: (int, int))
    by (nonlinear_arith)
    requires
        rat_wf(a),
        rat_wf(b),
        rat_wf(c),
        rlt(a, b),
        rlt(b, c),
    ensures
        rlt(a, c),
{
}

/// `a < b` and `b <= c` give `a < c` on exact rationals.
pub proof fn lemma_rlt_rle_trans(a: (int, int), b: (int, int), c: (int, int))
    by (nonlinear_arith)
    requires
        rat_wf(a),
        rat_wf(b),
        rat_wf(c),
        rlt(a, b),
        !rlt(c, b),
    ensures
        rlt(a, c),
{
}

} // verus!
