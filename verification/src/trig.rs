//! Fixed-point sine and cosine on millidegree angles, scaled by 1000.
//!
//! The half-turn sine uses the classical rational approximation
//! `sin x ~= 4x(180 - x) / (40500 - x(180 - x))` (degrees), which is exact
//! at 0, 30, 90, 150 and 180 degrees and within about 0.2% elsewhere —
//! ample for steering a robot.  The second half-turn is the negated first.

use vstd::prelude::*;

verus! {

use crate::angle::angle_canonical;
use crate::angle::norm_mdeg_spec;
use vstd::arithmetic::div_mod::lemma_div_is_ordered;
use vstd::arithmetic::div_mod::lemma_div_multiples_vanish;
use vstd::arithmetic::div_mod::lemma_small_mod;
use vstd::arithmetic::div_mod::lemma_mod_sub_multiples_vanish;

/// Scale of the trigonometric results: `sin 90 degrees == 1000`.
pub const TRIG_SCALE: i64 = 1000;

/// Rational approximation of sine over the first half turn,
/// `x` in millidegrees within `[0, 180_000]`, result scaled by 1000.
pub open spec fn sin_half_spec(x: int) -> int {
    let u = x * (180_000 - x);
    (4000 * u) / (40_500_000_000 - u)
}

/// Sine of a canonical millidegree angle, scaled by 1000.
pub open spec fn sin_mdeg_spec(a: int) -> int {
    if a <= 180_000 {
        sin_half_spec(a)
    } else {
        -sin_half_spec(a - 180_000)
    }
}

/// Cosine of a canonical millidegree angle, scaled by 1000: the sine a
/// quarter turn ahead.
pub open spec fn cos_mdeg_spec(a: int) -> int {
    sin_mdeg_spec(norm_mdeg_spec(a + 90_000))
}

fn sin_half(x: i64) -> (r: i64)
    requires
        0 <= x <= 180_000,
    ensures
        r == sin_half_spec(x as int),
        0 <= r <= 1000,
{
    proof {
        assert(0 <= (x as int) * (180_000 - x as int) <= 8_100_000_000) by (nonlinear_arith)
            requires
                0 <= x as int <= 180_000,
        ;
    }
    let u: i64 = x * (180_000 - x);
    let num: i64 = 4000 * u;
    let den: i64 = 40_500_000_000 - u;
    let r: i64 = ((num as u64) / (den as u64)) as i64;
    proof {
        lemma_div_is_ordered(num as int, (den as int) * 1000, den as int);
        lemma_div_multiples_vanish(1000, den as int);
    }
    r
}

/// Sine of a canonical angle, scaled by 1000.
pub fn sin_mdeg(a: i64) -> (r: i64)
    requires
        angle_canonical(a as int),
    ensures
        r == sin_mdeg_spec(a as int),
        -1000 <= r <= 1000,
{
    if a <= 180_000 {
        sin_half(a)
    } else {
        -sin_half(a - 180_000)
    }
}

/// Cosine of a canonical angle, scaled by 1000.
pub fn cos_mdeg(a: i64) -> (r: i64)
    requires
        angle_canonical(a as int),
    ensures
        r == cos_mdeg_spec(a as int),
        -1000 <= r <= 1000,
{
    let lifted: i64 = a + 90_000;
    let shifted: i64 = if lifted >= 360_000 {
        lifted - 360_000
    } else {
        lifted
    };
    proof {
        if lifted >= 360_000 {
            lemma_mod_sub_multiples_vanish(lifted as int, 360_000);
            lemma_small_mod((lifted - 360_000) as nat, 360_000nat);
        } else {
            lemma_small_mod(lifted as nat, 360_000nat);
        }
    }
    sin_mdeg(shifted)
}

} // verus!
