//! Planar geometry on millimeter coordinates: points, squared distance,
//! and an exact integer square root for computing straight-line distance.

use vstd::prelude::*;

verus! {

use crate::num::abs_spec;

/// Largest coordinate magnitude, in millimeters, that the distance
/// computation accepts without overflow.
pub const COORD_LIMIT_MM: i64 = 1_200_000_000;

/// A point of the plane, in millimeters.
#[derive(Clone, Copy, PartialEq, Eq, Structural, Debug)]
pub struct Point {
    pub x: i64,
    pub y: i64,
}

/// Both coordinates of `p` stay within `[-limit, limit]`.
pub open spec fn point_within(p: Point, limit: int) -> bool {
    &&& -limit <= p.x <= limit
    &&& -limit <= p.y <= limit
}

/// The point's coordinates stay within [`COORD_LIMIT_MM`].
pub open spec fn point_in_bounds(p: Point) -> bool {
    point_within(p, 1_200_000_000)
}

/// Squared Euclidean distance between two points.
pub open spec fn dist_sq_spec(a: Point, b: Point) -> int {
    (a.x - b.x) * (a.x - b.x) + (a.y - b.y) * (a.y - b.y)
}

/// `r` is the integer square root of `n`: the largest `r` with `r * r <= n`.
pub open spec fn is_sqrt_floor(n: int, r: int) -> bool {
    &&& 0 <= r
    &&& r * r <= n
    &&& n < (r + 1) * (r + 1)
}

/// The integer square root, defined by halving the argument's square root
/// recursively: `isqrt_spec(n)` is the floor of the square root of `n`.
pub open spec fn isqrt_spec(n: int) -> int
    decreases n,
{
    if n <= 0 {
        0
    } else {
        let r = 2 * isqrt_spec(n / 4);
        if (r + 1) * (r + 1) <= n {
            r + 1
        } else {
            r
        }
    }
}

/// Euclidean distance between two points, rounded down to whole
/// millimeters.
pub open spec fn dist_mm_spec(a: Point, b: Point) -> int {
    isqrt_spec(dist_sq_spec(a, b))
}

/// The integer square root is the unique `r` with
/// `r * r <= n < (r + 1) * (r + 1)`.
pub proof fn lemma_sqrt_floor_unique(n: int, a: int, b: int)
    by (nonlinear_arith)
    requires
        is_sqrt_floor(n, a),
        is_sqrt_floor(n, b),
    ensures
        a == b,
{
}

/// `isqrt_spec` really is the floor of the square root.
pub proof fn lemma_isqrt_spec_is_floor(n: int)
    requires
        0 <= n,
    ensures
        is_sqrt_floor(n, isqrt_spec(n)),
    decreases n,
{
    if n == 0 {
        assert(isqrt_spec(0) == 0);
    } else {
        let m = n / 4;
        vstd::arithmetic::div_mod::lemma_div_nonincreasing(n, 4);
        vstd::arithmetic::div_mod::lemma_div_pos_is_pos(n, 4);
        vstd::arithmetic::div_mod::lemma_div_decreases(n, 4);
        lemma_isqrt_spec_is_floor(m);
        let r0 = isqrt_spec(m);
        vstd::arithmetic::div_mod::lemma_fundamental_div_mod(n, 4);
        assert(4 * m <= n < 4 * m + 4);
        assert((2 * r0) * (2 * r0) <= n && n < (2 * r0 + 2) * (2 * r0 + 2)) by (nonlinear_arith)
            requires
                r0 * r0 <= m,
                m < (r0 + 1) * (r0 + 1),
                4 * m <= n < 4 * m + 4,
        ;
        let r = 2 * r0;
        if (r + 1) * (r + 1) <= n {
            assert(isqrt_spec(n) == r + 1);
            assert(n < (r + 2) * (r + 2));
        } else {
            assert(isqrt_spec(n) == r);
        }
    }
}

/// Integer square root of a 64-bit value, by binary search.
pub fn isqrt_u64(n: u64) -> (r: u64)
    ensures
        r == isqrt_spec(n as int),
        is_sqrt_floor(n as int, r as int),
{
    let mut lo: u64 = 0;
    let mut hi: u64 = 4_294_967_295;
    proof {
        assert((hi + 1) * (hi + 1) > n);
    }
    while lo < hi
        invariant
            lo <= hi <= 4_294_967_295,
            lo * lo <= n,
            n < (hi + 1) * (hi + 1),
        decreases hi - lo,
    {
        let mid: u64 = lo + (hi - lo + 1) / 2;
        proof {
            assert((mid as int) * (mid as int) <= 4_294_967_295 * 4_294_967_295)
                by (nonlinear_arith)
                requires
                    0 <= mid as int <= 4_294_967_295,
            ;
        }
        let sq: u128 = (mid as u128) * (mid as u128);
        if sq <= n as u128 {
            lo = mid;
        } else {
            hi = mid - 1;
        }
    }
    proof {
        lemma_isqrt_spec_is_floor(n as int);
        lemma_sqrt_floor_unique(n as int, lo as int, isqrt_spec(n as int));
    }
    lo
}

/// Straight-line distance between two points, in whole millimeters.
pub fn distance_mm(a: Point, b: Point) -> (r: i64)
    requires
        point_in_bounds(a),
        point_in_bounds(b),
    ensures
        r == dist_mm_spec(a, b),
        0 <= r <= 3_400_000_000,
{
    let dx: i64 = a.x - b.x;
    let dy: i64 = a.y - b.y;
    let dxu: u64 = (if dx < 0 {
        -dx
    } else {
        dx
    }) as u64;
    let dyu: u64 = (if dy < 0 {
        -dy
    } else {
        dy
    }) as u64;
    proof {
        assert(dxu * dxu == dx * dx && dxu * dxu <= 5_760_000_000_000_000_000) by (nonlinear_arith)
            requires
                dxu as int == abs_spec(dx as int),
                abs_spec(dx as int) <= 2_400_000_000,
        ;
        assert(dyu * dyu == dy * dy && dyu * dyu <= 5_760_000_000_000_000_000) by (nonlinear_arith)
            requires
                dyu as int == abs_spec(dy as int),
                abs_spec(dy as int) <= 2_400_000_000,
        ;
    }
    let sq: u64 = dxu * dxu + dyu * dyu;
    let r64: u64 = isqrt_u64(sq);
    proof {
        assert(r64 <= 3_400_000_000) by (nonlinear_arith)
            requires
                (r64 as int) * (r64 as int) <= sq as int,
                sq as int <= 11_520_000_000_000_000_000,
                0 <= r64 as int,
        ;
    }
    r64 as i64
}

} // verus!
