//! Integer circle geometry: floor square roots, center distances, and the
//! circle-circle contact query that the collision systems build on.

use vstd::prelude::*;

verus! {

use crate::{Point2, dist2, in_world, COORD_LIMIT, RADIUS_LIMIT};

/// Whether `r` is the floor of the square root of `n`.
pub open spec fn is_floor_sqrt(n: int, r: int) -> bool {
    0 <= r && r * r <= n && n < (r + 1) * (r + 1)
}

/// The floor of the square root of `n`; 0 for negative arguments.
pub open spec fn floor_sqrt(n: int) -> int
    decreases n,
{
    if n <= 0 {
        0
    } else {
        let r = floor_sqrt(n - 1);
        if (r + 1) * (r + 1) <= n {
            r + 1
        } else {
            r
        }
    }
}

/// `floor_sqrt` satisfies the floor-square-root characterisation.
pub proof fn lemma_floor_sqrt_is_floor_sqrt(n: int)
    requires
        n >= 0,
    ensures
        is_floor_sqrt(n, floor_sqrt(n)),
    decreases n,
{
    if n == 0 {
    } else {
        lemma_floor_sqrt_is_floor_sqrt(n - 1);
        let r = floor_sqrt(n - 1);
        if (r + 1) * (r + 1) <= n {
            assert((r + 2) * (r + 2) == (r + 1) * (r + 1) + 2 * r + 3) by (nonlinear_arith);
        }
    }
}

/// At most one integer satisfies the floor-square-root characterisation.
pub proof fn lemma_floor_sqrt_unique(n: int, r1: int, r2: int)
    requires
        is_floor_sqrt(n, r1),
        is_floor_sqrt(n, r2),
    ensures
        r1 == r2,
{
    if r1 < r2 {
        assert(false) by (nonlinear_arith)
            requires
                0 <= r1,
                r1 < r2,
                r2 * r2 <= n,
                n < (r1 + 1) * (r1 + 1),
        ;
    }
    if r2 < r1 {
        assert(false) by (nonlinear_arith)
            requires
                0 <= r2,
                r2 < r1,
                r1 * r1 <= n,
                n < (r2 + 1) * (r2 + 1),
        ;
    }
}

/// Floor square root by binary search.
pub fn isqrt(n: u64) -> (r: u64)
    ensures
        r == floor_sqrt(n as int),
{
    let mut lo: u64 = 0;
    let mut hi: u64 = 0x1_0000_0000;
    proof {
        assert((0x1_0000_0000 as int) * (0x1_0000_0000 as int) > n as int) by (nonlinear_arith)
            requires
                n <= u64::MAX,
        ;
    }
    while lo + 1 < hi
        invariant
            lo < hi <= 0x1_0000_0000,
            lo * lo <= n,
            (n as int) < (hi as int) * (hi as int),
        decreases hi - lo,
    {
        let mid: u64 = lo + (hi - lo) / 2;
        proof {
            assert((mid as int) * (mid as int) <= 0xffff_ffff_0000_0001) by (nonlinear_arith)
                requires
                    mid <= 0xffff_ffff,
            ;
        }
        if mid * mid <= n {
            lo = mid;
        } else {
            hi = mid;
        }
    }
    proof {
        assert(is_floor_sqrt(n as int, lo as int));
        lemma_floor_sqrt_is_floor_sqrt(n as int);
        lemma_floor_sqrt_unique(n as int, lo as int, floor_sqrt(n as int));
    }
    lo
}

/// The floor of the distance between two points.
pub open spec fn center_distance_spec(a: Point2, b: Point2) -> int {
    floor_sqrt(dist2(a, b))
}

/// Floor of the Euclidean distance between two in-world points.
pub fn center_distance(a: Point2, b: Point2) -> (d: i64)
    requires
        in_world(a),
        in_world(b),
    ensures
        d == center_distance_spec(a, b),
        0 <= d <= 3_000_000_000,
{
    let dx: i64 = a.x - b.x;
    let dy: i64 = a.y - b.y;
    proof {
        assert(dx * dx + dy * dy <= 8_000_000_000_000_000_000) by (nonlinear_arith)
            requires
                -2_000_000_000 <= dx <= 2_000_000_000,
                -2_000_000_000 <= dy <= 2_000_000_000,
        ;
        assert(dx * dx >= 0) by (nonlinear_arith);
        assert(dy * dy >= 0) by (nonlinear_arith);
    }
    let n: i64 = dx * dx + dy * dy;
    let d: u64 = isqrt(n as u64);
    proof {
        lemma_floor_sqrt_is_floor_sqrt(n as int);
        assert(is_floor_sqrt(n as int, 3_000_000_000) || floor_sqrt(n as int) < 3_000_000_000)
            by (nonlinear_arith)
            requires
                n <= 8_000_000_000_000_000_000,
                is_floor_sqrt(n as int, floor_sqrt(n as int)),
        ;
    }
    d as i64
}

/// `a * b / d` rounded toward zero, for nonnegative `b` and positive `d`.
pub open spec fn mul_div_trunc(a: int, b: int, d: int) -> int {
    if a >= 0 {
        (a * b) / d
    } else {
        -((-a * b) / d)
    }
}

/// Computes `a * b / d` rounded toward zero.
pub fn scale_ratio(a: i64, b: i64, d: i64) -> (r: i64)
    requires
        d > 0,
        b >= 0,
        a > i64::MIN,
        a * b <= i64::MAX,
        -a * b <= i64::MAX,
    ensures
        r == mul_div_trunc(a as int, b as int, d as int),
        b <= d ==> (if a >= 0 {
            0 <= r <= a
        } else {
            a <= r <= 0
        }),
{
    proof {
        if b <= d {
            if a >= 0 {
                assert(a * b <= a * d) by (nonlinear_arith)
                    requires
                        a >= 0,
                        0 <= b <= d,
                ;
                vstd::arithmetic::div_mod::lemma_div_is_ordered(a * b, a * d, d as int);
                vstd::arithmetic::div_mod::lemma_div_multiples_vanish(a as int, d as int);
                assert(a * d == d * a) by (nonlinear_arith);
                vstd::arithmetic::div_mod::lemma_div_pos_is_pos(a * b, d as int);
                assert(a * b >= 0) by (nonlinear_arith)
                    requires
                        a >= 0,
                        b >= 0,
                ;
            } else {
                assert(-a * b <= -a * d) by (nonlinear_arith)
                    requires
                        a < 0,
                        0 <= b <= d,
                ;
                vstd::arithmetic::div_mod::lemma_div_is_ordered(-a * b, -a * d, d as int);
                vstd::arithmetic::div_mod::lemma_div_multiples_vanish(-a as int, d as int);
                assert(-a * d == d * (-a)) by (nonlinear_arith);
                vstd::arithmetic::div_mod::lemma_div_pos_is_pos(-a * b, d as int);
                assert(-a * b >= 0) by (nonlinear_arith)
                    requires
                        a < 0,
                        b >= 0,
                ;
            }
        }
    }
    if a >= 0 {
        proof {
            assert(a * b >= 0) by (nonlinear_arith)
                requires
                    a >= 0,
                    b >= 0,
            ;
        }
        let p: u64 = (a as u64) * (b as u64);
        let q: u64 = p / (d as u64);
        proof {
            vstd::arithmetic::div_mod::lemma_div_is_ordered(q as int, p as int, 1);
        }
        q as i64
    } else {
        let na: i64 = -a;
        proof {
            assert(na * b >= 0) by (nonlinear_arith)
                requires
                    na >= 0,
                    b >= 0,
            ;
        }
        let p: u64 = (na as u64) * (b as u64);
        let q: u64 = p / (d as u64);
        -(q as i64)
    }
}

/// Both components of a displacement are bounded by the floor of its length.
pub proof fn lemma_component_le_floor_sqrt(dx: int, dy: int)
    ensures
        dx <= floor_sqrt(dx * dx + dy * dy),
        -dx <= floor_sqrt(dx * dx + dy * dy),
{
    let n = dx * dx + dy * dy;
    assert(dx * dx + dy * dy >= dx * dx >= 0) by (nonlinear_arith);
    lemma_floor_sqrt_is_floor_sqrt(n);
    let r = floor_sqrt(n);
    if dx > r {
        assert(false) by (nonlinear_arith)
            requires
                dx > r,
                r >= 0,
                n >= dx * dx,
                n < (r + 1) * (r + 1),
        ;
    }
    if -dx > r {
        assert(false) by (nonlinear_arith)
            requires
                -dx > r,
                r >= 0,
                n >= dx * dx,
                n < (r + 1) * (r + 1),
        ;
    }
}

/// X coordinate of `p` moved onto the circle of radius `rsum` around `c`.
pub open spec fn resolve_x(p: Point2, c: Point2, rsum: int) -> int {
    let d = center_distance_spec(p, c);
    if d == 0 {
        p.x as int
    } else {
        c.x + mul_div_trunc(p.x - c.x, rsum, d)
    }
}

/// Y coordinate of `p` moved onto the circle of radius `rsum` around `c`.
pub open spec fn resolve_y(p: Point2, c: Point2, rsum: int) -> int {
    let d = center_distance_spec(p, c);
    if d == 0 {
        p.y as int
    } else {
        c.y + mul_div_trunc(p.y - c.y, rsum, d)
    }
}

/// Moves `p` along the line of centers onto the circle of radius `rsum`
/// around `c`, which is how a penetration (or a gap up to the contact margin)
/// is resolved; `p` is left in place when the centers coincide.
pub fn resolve_to_surface(p: Point2, c: Point2, rsum: i64) -> (r: Point2)
    requires
        in_world(p),
        in_world(c),
        0 <= rsum <= 2 * RADIUS_LIMIT,
    ensures
        r.x == resolve_x(p, c, rsum as int),
        r.y == resolve_y(p, c, rsum as int),
        r.x - c.x <= rsum && c.x - r.x <= rsum || r == p,
        r.y - c.y <= rsum && c.y - r.y <= rsum || r == p,
{
    let d = center_distance(p, c);
    if d == 0 {
        p
    } else {
        let dx: i64 = p.x - c.x;
        let dy: i64 = p.y - c.y;
        proof {
            lemma_component_le_floor_sqrt(dx as int, dy as int);
            assert(dx * rsum <= i64::MAX && -dx * rsum <= i64::MAX) by (nonlinear_arith)
                requires
                    -2_000_000_000 <= dx <= 2_000_000_000,
                    0 <= rsum <= 2 * RADIUS_LIMIT,
            ;
            assert(dy * rsum <= i64::MAX && -dy * rsum <= i64::MAX) by (nonlinear_arith)
                requires
                    -2_000_000_000 <= dy <= 2_000_000_000,
                    0 <= rsum <= 2 * RADIUS_LIMIT,
            ;
        }
        let ox = scale_ratio(dx, rsum, d);
        let oy = scale_ratio(dy, rsum, d);
        proof {
            lemma_scaled_component_bounded(dx as int, dy as int, rsum as int, d as int);
            lemma_scaled_component_bounded(dy as int, dx as int, rsum as int, d as int);
            assert(dy * dy + dx * dx == dx * dx + dy * dy);
        }
        Point2 { x: c.x + ox, y: c.y + oy }
    }
}

/// A displacement component scaled by `rsum / d`, where `d` is the floor
/// length of the displacement, stays within `[-rsum, rsum]`.
proof fn lemma_scaled_component_bounded(dx: int, dy: int, rsum: int, d: int)
    requires
        d == floor_sqrt(dx * dx + dy * dy),
        d > 0,
        rsum >= 0,
    ensures
        -rsum <= mul_div_trunc(dx, rsum, d) <= rsum,
{
    lemma_component_le_floor_sqrt(dx, dy);
    if dx >= 0 {
        assert(dx * rsum <= d * rsum) by (nonlinear_arith)
            requires
                0 <= dx <= d,
                rsum >= 0,
        ;
        vstd::arithmetic::div_mod::lemma_div_is_ordered(dx * rsum, d * rsum, d);
        vstd::arithmetic::div_mod::lemma_div_multiples_vanish(rsum, d);
        vstd::arithmetic::div_mod::lemma_div_pos_is_pos(dx * rsum, d);
        assert(dx * rsum >= 0) by (nonlinear_arith)
            requires
                dx >= 0,
                rsum >= 0,
        ;
    } else {
        assert(-dx * rsum <= d * rsum) by (nonlinear_arith)
            requires
                0 <= -dx <= d,
                rsum >= 0,
        ;
        vstd::arithmetic::div_mod::lemma_div_is_ordered(-dx * rsum, d * rsum, d);
        vstd::arithmetic::div_mod::lemma_div_multiples_vanish(rsum, d);
        vstd::arithmetic::div_mod::lemma_div_pos_is_pos(-dx * rsum, d);
        assert(-dx * rsum >= 0) by (nonlinear_arith)
            requires
                dx < 0,
                rsum >= 0,
        ;
    }
}

/// The gap between the boundaries of two circles: negative when they overlap.
pub open spec fn separation(a: Point2, ra: int, b: Point2, rb: int) -> int {
    center_distance_spec(a, b) - ra - rb
}

/// Circle-circle contact query: reports the boundary gap between the two
/// circles when it is at most `margin`, and nothing when they are further
/// apart.
pub fn contact_circles(a: Point2, ra: i64, b: Point2, rb: i64, margin: i64) -> (res: Option<i64>)
    requires
        in_world(a),
        in_world(b),
        0 <= ra <= RADIUS_LIMIT,
        0 <= rb <= RADIUS_LIMIT,
        0 <= margin <= RADIUS_LIMIT,
    ensures
        res is Some <==> separation(a, ra as int, b, rb as int) <= margin,
        res matches Some(sep) ==> sep == separation(a, ra as int, b, rb as int),
{
    let d = center_distance(a, b);
    let sep = d - ra - rb;
    if sep <= margin {
        Some(sep)
    } else {
        None
    }
}

} // verus!
