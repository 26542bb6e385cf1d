//! Angle utilities: canonicalization and the shortest signed angular error.
//!
//! Headings are kept in millidegrees in the canonical range `[0, 360_000)`.

use vstd::prelude::*;

verus! {

use vstd::arithmetic::div_mod::lemma_fundamental_div_mod;
use vstd::arithmetic::div_mod::lemma_mod_bound;
use vstd::arithmetic::div_mod::lemma_mod_multiples_vanish;
use vstd::arithmetic::div_mod::lemma_small_mod;

/// One full turn, in millidegrees.
pub const FULL_TURN_MDEG: i64 = 360_000;

/// Half a turn, in millidegrees.
pub const HALF_TURN_MDEG: i64 = 180_000;

/// Largest magnitude accepted by [`normalize_mdeg`].
pub const NORMALIZE_INPUT_LIMIT: i64 = 4_000_000_000_000_000_000;

/// A heading is canonical when it lies in `[0, 360)` degrees.
pub open spec fn angle_canonical(a: int) -> bool {
    0 <= a < 360_000
}

/// Mathematical normalization of an angle into `[0, 360)` degrees
/// (Euclidean remainder, so negative angles wrap upward).
pub open spec fn norm_mdeg_spec(a: int) -> int {
    a % 360_000
}

/// The signed error that takes `current` to `target` by the shorter arc,
/// in `(-180_000, 180_000]`; a tie at exactly half a turn resolves to
/// `+180_000`, so the range is half-open on the negative side.
pub open spec fn shortest_err_spec(target: int, current: int) -> int {
    180_000 - (current - target + 540_000) % 360_000
}

/// Wraps an angle into the canonical range `[0, 360)` degrees.
pub fn normalize_mdeg(a: i64) -> (r: i64)
    requires
        -NORMALIZE_INPUT_LIMIT <= a <= NORMALIZE_INPUT_LIMIT,
    ensures
        r == norm_mdeg_spec(a as int),
        angle_canonical(r as int),
{
    let shifted: i64 = a + 4_320_000_000_000_000_000;
    let r: i64 = ((shifted as u64) % 360_000u64) as i64;
    proof {
        lemma_mod_multiples_vanish(12_000_000_000_000, a as int, 360_000);
        lemma_mod_bound(shifted as int, 360_000);
    }
    r
}

/// Shortest signed angular difference from `current` to `target`, both
/// canonical.  Applying the returned error to `current` and renormalizing
/// yields `target`; the result lies in `(-180, 180]` degrees, and a tie at
/// exactly 180 degrees resolves to the positive side.
pub fn shortest_signed_error(target_mdeg: i64, current_mdeg: i64) -> (e: i64)
    requires
        angle_canonical(target_mdeg as int),
        angle_canonical(current_mdeg as int),
    ensures
        e == shortest_err_spec(target_mdeg as int, current_mdeg as int),
        -180_000 < e <= 180_000,
        norm_mdeg_spec(current_mdeg + e) == target_mdeg,
{
    let d: i64 = current_mdeg - target_mdeg + 540_000;
    let m: i64 = ((d as u64) % 360_000u64) as i64;
    let e: i64 = 180_000 - m;
    proof {
        let x = d as int;
        lemma_mod_bound(x, 360_000);
        lemma_fundamental_div_mod(x, 360_000);
        let q = x / 360_000;
        assert(current_mdeg + e == target_mdeg + 360_000 * (q - 1));
        lemma_mod_multiples_vanish(q - 1, target_mdeg as int, 360_000);
        lemma_small_mod(target_mdeg as nat, 360_000nat);
    }
    e
}

} // verus!
