//! Mecanum kinematics: the forward mixing from a body-frame intent
//! (forward, strafe, rotation) to four wheel commands, and the inverse
//! mixing from four wheel travel deltas back to a body-frame displacement.
//!
//! Conventions, used consistently throughout the crate: forward is the
//! robot's nose, strafe is positive to the robot's right, and positive
//! rotation turns clockwise (left wheels forward, right wheels backward).
//! When any mixed wheel command exceeds the voltage limit, all four are
//! scaled down jointly so the direction of travel is preserved.

use vstd::prelude::*;

verus! {

use crate::num::abs_i64;
use crate::num::abs_spec;
use crate::num::div_floor_i64;
use crate::num::max_spec;
use vstd::arithmetic::div_mod::lemma_div_is_ordered;
use vstd::arithmetic::div_mod::lemma_div_multiples_vanish;
use vstd::arithmetic::mul::lemma_mul_inequality;

/// Millidegrees per radian, rounded: converts a rotation arc ratio into
/// the crate's angle unit.
pub const MDEG_PER_RAD: i64 = 57_296;

/// Largest intent component accepted by [`drive_vector`].
pub const INTENT_LIMIT: i64 = 1_000_000_000;

/// Largest voltage limit accepted by [`drive_vector`], in millivolts.
pub const VOLTAGE_LIMIT_MAX: i64 = 1_000_000;

/// Largest wheel travel delta accepted by [`accumulate`].
pub const TRAVEL_LIMIT: i64 = 10_000_000_000_000;

/// One voltage command per wheel, in millivolts.
#[derive(Clone, Copy, PartialEq, Eq, Structural, Debug)]
pub struct WheelVoltages {
    pub front_left: i64,
    pub front_right: i64,
    pub back_left: i64,
    pub back_right: i64,
}

/// A displacement of the robot body: translation in the distance unit of
/// the wheel inputs, rotation in millidegrees.
#[derive(Clone, Copy, PartialEq, Eq, Structural, Debug)]
pub struct BodyDisplacement {
    pub dx: i64,
    pub dy: i64,
    pub dtheta_mdeg: i64,
}

/// All four wheels commanded to exactly zero.
pub open spec fn wheels_all_zero(v: WheelVoltages) -> bool {
    &&& v.front_left == 0
    &&& v.front_right == 0
    &&& v.back_left == 0
    &&& v.back_right == 0
}

/// Every wheel command within `[-limit, limit]`.
pub open spec fn wheels_within(v: WheelVoltages, limit: int) -> bool {
    &&& -limit <= v.front_left <= limit
    &&& -limit <= v.front_right <= limit
    &&& -limit <= v.back_left <= limit
    &&& -limit <= v.back_right <= limit
}

/// Front-left wheel share of an intent.
pub open spec fn mix_fl_spec(f: int, s: int, w: int) -> int {
    f - s + w
}

/// Front-right wheel share of an intent.
pub open spec fn mix_fr_spec(f: int, s: int, w: int) -> int {
    f + s - w
}

/// Back-left wheel share of an intent.
pub open spec fn mix_bl_spec(f: int, s: int, w: int) -> int {
    f + s + w
}

/// Back-right wheel share of an intent.
pub open spec fn mix_br_spec(f: int, s: int, w: int) -> int {
    f - s - w
}

/// The largest magnitude among the four mixed wheel shares.
pub open spec fn peak_magnitude_spec(f: int, s: int, w: int) -> int {
    max_spec(
        max_spec(abs_spec(mix_fl_spec(f, s, w)), abs_spec(mix_fr_spec(f, s, w))),
        max_spec(abs_spec(mix_bl_spec(f, s, w)), abs_spec(mix_br_spec(f, s, w))),
    )
}

/// One wheel share scaled from peak `m` down to `limit`, rounding the
/// magnitude toward zero.
pub open spec fn scale_to_limit_spec(v: int, limit: int, m: int) -> int {
    if v >= 0 {
        (v * limit) / m
    } else {
        -((-v * limit) / m)
    }
}

/// The full forward mapping: mixed shares, jointly rescaled only when the
/// peak magnitude exceeds the limit.  Result order: front-left,
/// front-right, back-left, back-right.
pub open spec fn drive_vector_model(f: int, s: int, w: int, limit: int) -> (int, int, int, int) {
    let fl = mix_fl_spec(f, s, w);
    let fr = mix_fr_spec(f, s, w);
    let bl = mix_bl_spec(f, s, w);
    let br = mix_br_spec(f, s, w);
    let m = peak_magnitude_spec(f, s, w);
    if m <= limit {
        (fl, fr, bl, br)
    } else {
        (
            scale_to_limit_spec(fl, limit, m),
            scale_to_limit_spec(fr, limit, m),
            scale_to_limit_spec(bl, limit, m),
            scale_to_limit_spec(br, limit, m),
        )
    }
}

/// Forward travel recovered from four wheel deltas.
pub open spec fn accum_dx_spec(fl: int, fr: int, bl: int, br: int) -> int {
    (fl + fr + bl + br) / 4
}

/// Rightward (strafe) travel recovered from four wheel deltas.
pub open spec fn accum_dy_spec(fl: int, fr: int, bl: int, br: int) -> int {
    (-fl + fr + bl - br) / 4
}

/// Rotation share recovered from four wheel deltas, in the distance unit.
pub open spec fn accum_rot_spec(fl: int, fr: int, bl: int, br: int) -> int {
    (fl - fr + bl - br) / 4
}

/// Body rotation in millidegrees: the rotation share of wheel travel over
/// the wheel-geometry constant (half track width plus half wheelbase, in
/// the same distance unit).  A zero or unset geometry yields zero
/// rotation rather than failing.
pub open spec fn accum_dtheta_spec(fl: int, fr: int, bl: int, br: int, geometry: int) -> int {
    if geometry <= 0 {
        0
    } else {
        (accum_rot_spec(fl, fr, bl, br) * 57_296) / geometry
    }
}

fn scale_wheel(v: i64, limit: i64, m: i64) -> (r: i64)
    requires
        -4_000_000_000 <= v <= 4_000_000_000,
        0 <= limit <= 1_000_000,
        0 < m <= 4_000_000_000,
        abs_spec(v as int) <= m,
    ensures
        r == scale_to_limit_spec(v as int, limit as int, m as int),
        -limit <= r <= limit,
{
    let av: i64 = abs_i64(v);
    proof {
        assert(0 <= (av as int) * (limit as int) <= 4_000_000_000_000_000) by (nonlinear_arith)
            requires
                0 <= av as int <= 4_000_000_000,
                0 <= limit as int <= 1_000_000,
        ;
    }
    let prod: i64 = av * limit;
    let q: i64 = ((prod as u64) / (m as u64)) as i64;
    proof {
        lemma_mul_inequality(av as int, m as int, limit as int);
        lemma_div_is_ordered(prod as int, (m as int) * (limit as int), m as int);
        lemma_div_multiples_vanish(limit as int, m as int);
    }
    if v >= 0 {
        q
    } else {
        -q
    }
}

/// Maps a body-frame intent (forward, strafe right, clockwise rotation,
/// all in millivolts of drive effort) to the four wheel voltages,
/// scaling all four jointly when any one would exceed `limit`.
pub fn drive_vector(forward: i64, strafe: i64, rotation: i64, limit: i64) -> (out: WheelVoltages)
    requires
        -INTENT_LIMIT <= forward <= INTENT_LIMIT,
        -INTENT_LIMIT <= strafe <= INTENT_LIMIT,
        -INTENT_LIMIT <= rotation <= INTENT_LIMIT,
        0 <= limit <= VOLTAGE_LIMIT_MAX,
    ensures
        (out.front_left as int, out.front_right as int, out.back_left as int,
        out.back_right as int) == drive_vector_model(
            forward as int,
            strafe as int,
            rotation as int,
            limit as int,
        ),
        wheels_within(out, limit as int),
{
    let fl: i64 = forward - strafe + rotation;
    let fr: i64 = forward + strafe - rotation;
    let bl: i64 = forward + strafe + rotation;
    let br: i64 = forward - strafe - rotation;
    let afl: i64 = abs_i64(fl);
    let afr: i64 = abs_i64(fr);
    let abl: i64 = abs_i64(bl);
    let abr: i64 = abs_i64(br);
    let m01: i64 = if afl >= afr {
        afl
    } else {
        afr
    };
    let m23: i64 = if abl >= abr {
        abl
    } else {
        abr
    };
    let m: i64 = if m01 >= m23 {
        m01
    } else {
        m23
    };
    if m <= limit {
        WheelVoltages { front_left: fl, front_right: fr, back_left: bl, back_right: br }
    } else {
        WheelVoltages {
            front_left: scale_wheel(fl, limit, m),
            front_right: scale_wheel(fr, limit, m),
            back_left: scale_wheel(bl, limit, m),
            back_right: scale_wheel(br, limit, m),
        }
    }
}

/// Inverse mixing: recovers the body-frame displacement from the four
/// wheel travel deltas (front-left, front-right, back-left, back-right,
/// any consistent distance unit) and the wheel-geometry constant in the
/// same unit.  Translation components round toward negative infinity.
pub fn accumulate(
    d_front_left: i64,
    d_front_right: i64,
    d_back_left: i64,
    d_back_right: i64,
    geometry: i64,
) -> (out: BodyDisplacement)
    requires
        -TRAVEL_LIMIT <= d_front_left <= TRAVEL_LIMIT,
        -TRAVEL_LIMIT <= d_front_right <= TRAVEL_LIMIT,
        -TRAVEL_LIMIT <= d_back_left <= TRAVEL_LIMIT,
        -TRAVEL_LIMIT <= d_back_right <= TRAVEL_LIMIT,
        geometry <= 1_000_000_000_000,
    ensures
        out.dx == accum_dx_spec(
            d_front_left as int,
            d_front_right as int,
            d_back_left as int,
            d_back_right as int,
        ),
        out.dy == accum_dy_spec(
            d_front_left as int,
            d_front_right as int,
            d_back_left as int,
            d_back_right as int,
        ),
        out.dtheta_mdeg == accum_dtheta_spec(
            d_front_left as int,
            d_front_right as int,
            d_back_left as int,
            d_back_right as int,
            geometry as int,
        ),
        -TRAVEL_LIMIT <= out.dx <= TRAVEL_LIMIT,
        -TRAVEL_LIMIT <= out.dy <= TRAVEL_LIMIT,
        -573_000_000_000_000_000 <= out.dtheta_mdeg <= 573_000_000_000_000_000,
{
    let sum_dx: i64 = d_front_left + d_front_right + d_back_left + d_back_right;
    let sum_dy: i64 = -d_front_left + d_front_right + d_back_left - d_back_right;
    let sum_rot: i64 = d_front_left - d_front_right + d_back_left - d_back_right;
    let dx: i64 = div_floor_i64(sum_dx, 4);
    let dy: i64 = div_floor_i64(sum_dy, 4);
    let rot: i64 = div_floor_i64(sum_rot, 4);
    proof {
        lemma_div_is_ordered(sum_dx as int, 4 * TRAVEL_LIMIT as int, 4);
        lemma_div_is_ordered(-4 * TRAVEL_LIMIT as int, sum_dx as int, 4);
        lemma_div_multiples_vanish(TRAVEL_LIMIT as int, 4);
        lemma_div_multiples_vanish(-TRAVEL_LIMIT as int, 4);
        lemma_div_is_ordered(sum_dy as int, 4 * TRAVEL_LIMIT as int, 4);
        lemma_div_is_ordered(-4 * TRAVEL_LIMIT as int, sum_dy as int, 4);
        lemma_div_is_ordered(sum_rot as int, 4 * TRAVEL_LIMIT as int, 4);
        lemma_div_is_ordered(-4 * TRAVEL_LIMIT as int, sum_rot as int, 4);
    }
    let dtheta: i64 = if geometry <= 0 {
        0
    } else {
        proof {
            crate::num::lemma_div_floor_magnitude(
                (rot as int) * 57_296,
                geometry as int,
                573_000_000_000_000_000,
            );
        }
        div_floor_i64(rot * 57_296, geometry)
    };
    BodyDisplacement { dx, dy, dtheta_mdeg: dtheta }
}

/// Law: driving a pure-translation intent through the forward mapping and
/// accumulating the very wheel amounts it commanded recovers that intent
/// exactly — same forward component, same strafe component, and no
/// rotation — whenever the intent is within the voltage limit, for any
/// wheel geometry.
pub proof fn lemma_round_trip_zero_rotation(f: int, s: int, limit: int, geometry: int)
    requires
        abs_spec(f - s) <= limit,
        abs_spec(f + s) <= limit,
    ensures
        ({
            let (fl, fr, bl, br) = drive_vector_model(f, s, 0, limit);
            &&& fl == f - s
            &&& fr == f + s
            &&& bl == f + s
            &&& br == f - s
            &&& accum_dx_spec(fl, fr, bl, br) == f
            &&& accum_dy_spec(fl, fr, bl, br) == s
            &&& accum_rot_spec(fl, fr, bl, br) == 0
            &&& accum_dtheta_spec(fl, fr, bl, br, geometry) == 0
        }),
{
    let (fl, fr, bl, br) = drive_vector_model(f, s, 0, limit);
    assert(peak_magnitude_spec(f, s, 0) <= limit);
    lemma_div_multiples_vanish(f, 4);
    lemma_div_multiples_vanish(s, 4);
    lemma_div_multiples_vanish(0, 4);
    assert(fl + fr + bl + br == 4 * f);
    assert(-fl + fr + bl - br == 4 * s);
    assert(fl - fr + bl - br == 4 * 0);
    if geometry > 0 {
        assert(accum_rot_spec(fl, fr, bl, br) * 57_296 == 4 * 0);
        lemma_div_multiples_vanish(0, geometry);
    }
}

} // verus!
