//! Small fixed-point helpers shared by the motion modules: flooring
//! division, absolute value, and clamping.

use vstd::prelude::*;

verus! {

use vstd::arithmetic::div_mod::lemma_div_multiples_vanish;
use vstd::arithmetic::div_mod::lemma_fundamental_div_mod_converse;

/// Largest magnitude accepted by [`div_floor_i64`] and [`abs_i64`].
pub const MAGNITUDE_LIMIT: i64 = 4_000_000_000_000_000_000;

/// `v` clamped into `[lo, hi]`.
pub open spec fn clamp_spec(v: int, lo: int, hi: int) -> int {
    if v < lo {
        lo
    } else if v > hi {
        hi
    } else {
        v
    }
}

/// The absolute value of `v`.
pub open spec fn abs_spec(v: int) -> int {
    if v < 0 {
        -v
    } else {
        v
    }
}

/// The larger of `a` and `b`.
pub open spec fn max_spec(a: int, b: int) -> int {
    if a >= b {
        a
    } else {
        b
    }
}

/// Clamps `v` into `[lo, hi]`.
pub fn clamp_i64(v: i64, lo: i64, hi: i64) -> (r: i64)
    requires
        lo <= hi,
    ensures
        r == clamp_spec(v as int, lo as int, hi as int),
{
    if v < lo {
        lo
    } else if v > hi {
        hi
    } else {
        v
    }
}

/// Absolute value of `v`.
pub fn abs_i64(v: i64) -> (r: i64)
    requires
        -MAGNITUDE_LIMIT <= v <= MAGNITUDE_LIMIT,
    ensures
        r == abs_spec(v as int),
{
    if v < 0 {
        -v
    } else {
        v
    }
}

/// Flooring (Euclidean) division by a positive divisor, matching the
/// `/` of specification arithmetic: the quotient rounds toward negative
/// infinity, so `div_floor_i64(-7, 2) == -4`.
pub fn div_floor_i64(a: i64, b: i64) -> (q: i64)
    requires
        0 < b,
        -MAGNITUDE_LIMIT <= a <= MAGNITUDE_LIMIT,
    ensures
        q == a as int / b as int,
{
    let bu: u64 = b as u64;
    if a >= 0 {
        let q0: u64 = (a as u64) / bu;
        proof {
            vstd::arithmetic::div_mod::lemma_div_nonincreasing(a as int, b as int);
            vstd::arithmetic::div_mod::lemma_div_pos_is_pos(a as int, b as int);
        }
        q0 as i64
    } else {
        let m: u64 = (-a) as u64;
        let q0: u64 = m / bu;
        let r0: u64 = m % bu;
        proof {
            vstd::arithmetic::div_mod::lemma_div_nonincreasing(m as int, b as int);
            vstd::arithmetic::div_mod::lemma_div_pos_is_pos(m as int, b as int);
            vstd::arithmetic::div_mod::lemma_fundamental_div_mod(m as int, b as int);
        }
        if r0 == 0 {
            proof {
                assert(a as int == (b as int) * (-(q0 as int))) by (nonlinear_arith)
                    requires
                        m as int == (b as int) * (q0 as int) + r0 as int,
                        r0 == 0,
                        a as int == -(m as int),
                ;
                lemma_div_multiples_vanish(-(q0 as int), b as int);
            }
            -(q0 as i64)
        } else {
            proof {
                assert(a as int == (-(q0 as int) - 1) * (b as int) + (b as int - r0 as int))
                    by (nonlinear_arith)
                    requires
                        m as int == (b as int) * (q0 as int) + r0 as int,
                        a as int == -(m as int),
                ;
                lemma_fundamental_div_mod_converse(
                    a as int,
                    b as int,
                    -(q0 as int) - 1,
                    b as int - r0 as int,
                );
            }
            -(q0 as i64) - 1
        }
    }
}

/// Flooring division by a positive divisor never grows the magnitude:
/// if `n` lies in `[-b, b]`, so does `n / g`.
pub proof fn lemma_div_floor_magnitude(n: int, g: int, b: int)
    requires
        1 <= g,
        0 <= b,
        -b <= n <= b,
    ensures
        -b <= n / g <= b,
{
    vstd::arithmetic::div_mod::lemma_div_is_ordered(n, b, g);
    vstd::arithmetic::div_mod::lemma_div_nonincreasing(b, g);
    vstd::arithmetic::mul::lemma_mul_inequality(1, g, b);
    assert(g * (-b) == -(g * b)) by (nonlinear_arith);
    vstd::arithmetic::div_mod::lemma_div_is_ordered(g * (-b), n, g);
    vstd::arithmetic::div_mod::lemma_div_multiples_vanish(-b, g);
}

} // verus!
