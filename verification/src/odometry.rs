//! Odometry accumulator for the four-wheel mecanum drive: integrates
//! cumulative encoder ticks into a running global pose.  This is the
//! alternate tracking path used when no absolute sensor is trusted.
//!
//! Each update takes the cumulative tick counts (not deltas), stores them
//! for the next call whatever else happens, converts the deltas to wheel
//! travel, applies the kinematics mapper's inverse mixing, rotates the
//! body-frame displacement into the global frame using the heading from
//! *before* this step, and accumulates.  The heading is renormalized into
//! `[0, 360)` degrees after every update, and the position saturates at a
//! far-away bound instead of wrapping.

use vstd::prelude::*;

verus! {

use crate::angle::angle_canonical;
use crate::angle::norm_mdeg_spec;
use crate::angle::normalize_mdeg;
use crate::kinematics::BodyDisplacement;
use crate::kinematics::accum_dtheta_spec;
use crate::kinematics::accum_dx_spec;
use crate::kinematics::accum_dy_spec;
use crate::kinematics::accumulate;
use crate::num::clamp_i64;
use crate::num::clamp_spec;
use crate::num::lemma_div_floor_magnitude;
use crate::trig::cos_mdeg;
use crate::trig::cos_mdeg_spec;
use crate::trig::sin_mdeg;
use crate::trig::sin_mdeg_spec;
use vstd::arithmetic::div_mod::lemma_div_multiples_vanish;
use vstd::arithmetic::div_mod::lemma_small_mod;

/// The position saturates at this magnitude, in micrometers.
pub const POSE_LIMIT_UM: i64 = 1_000_000_000_000_000;

/// Largest accepted tick change per wheel per update.
pub const TICK_DELTA_LIMIT: i64 = 1_000_000;

/// Largest accepted wheel displacement per tick, in micrometers.
pub const DIST_PER_TICK_LIMIT_UM: i64 = 1_000_000;

/// Largest accepted wheel-geometry constant, in micrometers.
pub const GEOMETRY_LIMIT_UM: i64 = 1_000_000_000_000;

/// The accumulated global pose: position in micrometers, heading in
/// canonical millidegrees.
#[derive(Clone, Copy, PartialEq, Eq, Structural, Debug)]
pub struct OdometryPose {
    pub x_um: i64,
    pub y_um: i64,
    pub theta_mdeg: i64,
}

/// Mecanum odometry state: previous cumulative ticks (front-left,
/// front-right, back-left, back-right), the running pose, and the wheel
/// constants fixed at construction.
#[derive(Clone, Copy, PartialEq, Eq, Structural, Debug)]
pub struct MecanumOdometry {
    pub prev_ticks_fl: i64,
    pub prev_ticks_fr: i64,
    pub prev_ticks_bl: i64,
    pub prev_ticks_br: i64,
    pub pose: OdometryPose,
    /// Linear displacement per encoder tick, micrometers.
    pub dist_per_tick_um: i64,
    /// Half track width plus half wheelbase, micrometers; zero when
    /// unset, which pins the rotation estimate to zero (fails safe).
    pub geometry_um: i64,
}

/// Accumulator invariant: pose within the saturation bound, canonical
/// heading, constants and stored ticks in range.
pub open spec fn odometry_wf(o: MecanumOdometry) -> bool {
    &&& -POSE_LIMIT_UM <= o.pose.x_um <= POSE_LIMIT_UM
    &&& -POSE_LIMIT_UM <= o.pose.y_um <= POSE_LIMIT_UM
    &&& angle_canonical(o.pose.theta_mdeg as int)
    &&& 0 <= o.dist_per_tick_um <= DIST_PER_TICK_LIMIT_UM
    &&& 0 <= o.geometry_um <= GEOMETRY_LIMIT_UM
    &&& -2_147_483_648 <= o.prev_ticks_fl <= 2_147_483_647
    &&& -2_147_483_648 <= o.prev_ticks_fr <= 2_147_483_647
    &&& -2_147_483_648 <= o.prev_ticks_bl <= 2_147_483_647
    &&& -2_147_483_648 <= o.prev_ticks_br <= 2_147_483_647
}

/// X component of a body-frame displacement rotated into the global
/// frame by the heading `theta` (trigonometric scale 1000, rounded
/// toward negative infinity).
pub open spec fn rotate_x_spec(dx: int, dy: int, theta: int) -> int {
    (cos_mdeg_spec(theta) * dx - sin_mdeg_spec(theta) * dy) / 1000
}

/// Y component of a body-frame displacement rotated into the global
/// frame.
pub open spec fn rotate_y_spec(dx: int, dy: int, theta: int) -> int {
    (sin_mdeg_spec(theta) * dx + cos_mdeg_spec(theta) * dy) / 1000
}

/// The whole effect of one odometry update on the accumulator state:
/// tick deltas against the stored cumulative counts, wheel travel, the
/// inverse mixing, the rotation into the global frame by the heading
/// from before the step, saturation, and heading renormalization.
pub open spec fn update_spec(
    o: MecanumOdometry,
    t_fl: int,
    t_fr: int,
    t_bl: int,
    t_br: int,
) -> MecanumOdometry {
    let d_fl = (t_fl - o.prev_ticks_fl) * o.dist_per_tick_um;
    let d_fr = (t_fr - o.prev_ticks_fr) * o.dist_per_tick_um;
    let d_bl = (t_bl - o.prev_ticks_bl) * o.dist_per_tick_um;
    let d_br = (t_br - o.prev_ticks_br) * o.dist_per_tick_um;
    let dx = accum_dx_spec(d_fl, d_fr, d_bl, d_br);
    let dy = accum_dy_spec(d_fl, d_fr, d_bl, d_br);
    let dtheta = accum_dtheta_spec(d_fl, d_fr, d_bl, d_br, o.geometry_um as int);
    let theta = o.pose.theta_mdeg as int;
    let gx = rotate_x_spec(dx, dy, theta);
    let gy = rotate_y_spec(dx, dy, theta);
    MecanumOdometry {
        prev_ticks_fl: t_fl as i64,
        prev_ticks_fr: t_fr as i64,
        prev_ticks_bl: t_bl as i64,
        prev_ticks_br: t_br as i64,
        pose: OdometryPose {
            x_um: clamp_spec(
                o.pose.x_um + gx,
                -POSE_LIMIT_UM as int,
                POSE_LIMIT_UM as int,
            ) as i64,
            y_um: clamp_spec(
                o.pose.y_um + gy,
                -POSE_LIMIT_UM as int,
                POSE_LIMIT_UM as int,
            ) as i64,
            theta_mdeg: norm_mdeg_spec(theta + dtheta) as i64,
        },
        dist_per_tick_um: o.dist_per_tick_um,
        geometry_um: o.geometry_um,
    }
}

/// Law: a repeated update with identical cumulative tick counts changes
/// nothing — once the counts are stored, zero deltas leave the pose
/// exactly where it was.
pub proof fn lemma_update_idempotent(
    o: MecanumOdometry,
    t_fl: int,
    t_fr: int,
    t_bl: int,
    t_br: int,
)
    requires
        -2_147_483_648 <= t_fl <= 2_147_483_647,
        -2_147_483_648 <= t_fr <= 2_147_483_647,
        -2_147_483_648 <= t_bl <= 2_147_483_647,
        -2_147_483_648 <= t_br <= 2_147_483_647,
    ensures
        update_spec(update_spec(o, t_fl, t_fr, t_bl, t_br), t_fl, t_fr, t_bl, t_br)
            == update_spec(o, t_fl, t_fr, t_bl, t_br),
{
    let once = update_spec(o, t_fl, t_fr, t_bl, t_br);
    let twice = update_spec(once, t_fl, t_fr, t_bl, t_br);
    assert(once.prev_ticks_fl == t_fl);
    assert(t_fl - once.prev_ticks_fl == 0);
    assert((t_fl - once.prev_ticks_fl) * once.dist_per_tick_um == 0) by (nonlinear_arith)
        requires
            t_fl - once.prev_ticks_fl == 0,
    ;
    assert((t_fr - once.prev_ticks_fr) * once.dist_per_tick_um == 0) by (nonlinear_arith)
        requires
            t_fr - once.prev_ticks_fr == 0,
    ;
    assert((t_bl - once.prev_ticks_bl) * once.dist_per_tick_um == 0) by (nonlinear_arith)
        requires
            t_bl - once.prev_ticks_bl == 0,
    ;
    assert((t_br - once.prev_ticks_br) * once.dist_per_tick_um == 0) by (nonlinear_arith)
        requires
            t_br - once.prev_ticks_br == 0,
    ;
    lemma_div_multiples_vanish(0, 4);
    assert(accum_dx_spec(0, 0, 0, 0) == 0);
    assert(accum_dy_spec(0, 0, 0, 0) == 0);
    if once.geometry_um > 0 {
        lemma_div_multiples_vanish(0, once.geometry_um as int);
    }
    assert(accum_dtheta_spec(0, 0, 0, 0, once.geometry_um as int) == 0);
    let theta = once.pose.theta_mdeg as int;
    let c = cos_mdeg_spec(theta);
    let s = sin_mdeg_spec(theta);
    assert(c * 0 - s * 0 == 0) by (nonlinear_arith);
    assert(s * 0 + c * 0 == 0) by (nonlinear_arith);
    lemma_div_multiples_vanish(0, 1000);
    assert(rotate_x_spec(0, 0, theta) == 0);
    assert(rotate_y_spec(0, 0, theta) == 0);
    assert(0 <= norm_mdeg_spec(o.pose.theta_mdeg as int + accum_dtheta_spec(
        ((t_fl - o.prev_ticks_fl) * o.dist_per_tick_um) as int,
        ((t_fr - o.prev_ticks_fr) * o.dist_per_tick_um) as int,
        ((t_bl - o.prev_ticks_bl) * o.dist_per_tick_um) as int,
        ((t_br - o.prev_ticks_br) * o.dist_per_tick_um) as int,
        o.geometry_um as int,
    )) < 360_000) by {
        vstd::arithmetic::div_mod::lemma_mod_bound(
            o.pose.theta_mdeg as int + accum_dtheta_spec(
                ((t_fl - o.prev_ticks_fl) * o.dist_per_tick_um) as int,
                ((t_fr - o.prev_ticks_fr) * o.dist_per_tick_um) as int,
                ((t_bl - o.prev_ticks_bl) * o.dist_per_tick_um) as int,
                ((t_br - o.prev_ticks_br) * o.dist_per_tick_um) as int,
                o.geometry_um as int,
            ),
            360_000,
        );
    };
    assert(angle_canonical(theta));
    lemma_small_mod(theta as nat, 360_000nat);
    assert(twice.pose.theta_mdeg == once.pose.theta_mdeg);
    assert(twice.pose.x_um == once.pose.x_um);
    assert(twice.pose.y_um == once.pose.y_um);
}

impl MecanumOdometry {
    /// Creates the accumulator from the initial cumulative tick counts
    /// (front-left, front-right, back-left, back-right), the starting
    /// pose, and the wheel constants.
    pub fn new(
        initial_ticks_fl: i32,
        initial_ticks_fr: i32,
        initial_ticks_bl: i32,
        initial_ticks_br: i32,
        initial_pose: OdometryPose,
        dist_per_tick_um: i64,
        geometry_um: i64,
    ) -> (o: MecanumOdometry)
        requires
            -POSE_LIMIT_UM <= initial_pose.x_um <= POSE_LIMIT_UM,
            -POSE_LIMIT_UM <= initial_pose.y_um <= POSE_LIMIT_UM,
            angle_canonical(initial_pose.theta_mdeg as int),
            0 <= dist_per_tick_um <= DIST_PER_TICK_LIMIT_UM,
            0 <= geometry_um <= GEOMETRY_LIMIT_UM,
        ensures
            odometry_wf(o),
            o.prev_ticks_fl == initial_ticks_fl,
            o.prev_ticks_fr == initial_ticks_fr,
            o.prev_ticks_bl == initial_ticks_bl,
            o.prev_ticks_br == initial_ticks_br,
            o.pose == initial_pose,
            o.dist_per_tick_um == dist_per_tick_um,
            o.geometry_um == geometry_um,
    {
        MecanumOdometry {
            prev_ticks_fl: initial_ticks_fl as i64,
            prev_ticks_fr: initial_ticks_fr as i64,
            prev_ticks_bl: initial_ticks_bl as i64,
            prev_ticks_br: initial_ticks_br as i64,
            pose: initial_pose,
            dist_per_tick_um,
            geometry_um,
        }
    }

    /// Folds new cumulative encoder ticks into the pose and returns the
    /// updated pose.  The new counts are stored for the next call
    /// regardless of any other outcome, so feeding the same counts again
    /// changes nothing.
    pub fn update(
        &mut self,
        ticks_fl: i32,
        ticks_fr: i32,
        ticks_bl: i32,
        ticks_br: i32,
    ) -> (pose: OdometryPose)
        requires
            odometry_wf(*old(self)),
            -TICK_DELTA_LIMIT <= ticks_fl - old(self).prev_ticks_fl <= TICK_DELTA_LIMIT,
            -TICK_DELTA_LIMIT <= ticks_fr - old(self).prev_ticks_fr <= TICK_DELTA_LIMIT,
            -TICK_DELTA_LIMIT <= ticks_bl - old(self).prev_ticks_bl <= TICK_DELTA_LIMIT,
            -TICK_DELTA_LIMIT <= ticks_br - old(self).prev_ticks_br <= TICK_DELTA_LIMIT,
        ensures
            odometry_wf(*final(self)),
            *final(self) == update_spec(
                *old(self),
                ticks_fl as int,
                ticks_fr as int,
                ticks_bl as int,
                ticks_br as int,
            ),
            pose == final(self).pose,
            ticks_fl == old(self).prev_ticks_fl && ticks_fr == old(self).prev_ticks_fr
                && ticks_bl == old(self).prev_ticks_bl && ticks_br == old(self).prev_ticks_br
                ==> final(self).pose == old(self).pose,
    {
        let delta_fl: i64 = ticks_fl as i64 - self.prev_ticks_fl;
        let delta_fr: i64 = ticks_fr as i64 - self.prev_ticks_fr;
        let delta_bl: i64 = ticks_bl as i64 - self.prev_ticks_bl;
        let delta_br: i64 = ticks_br as i64 - self.prev_ticks_br;
        self.prev_ticks_fl = ticks_fl as i64;
        self.prev_ticks_fr = ticks_fr as i64;
        self.prev_ticks_bl = ticks_bl as i64;
        self.prev_ticks_br = ticks_br as i64;
        proof {
            assert(-1_000_000_000_000 <= (delta_fl as int) * (self.dist_per_tick_um as int)
                <= 1_000_000_000_000 && -1_000_000_000_000 <= (delta_fr as int)
                * (self.dist_per_tick_um as int) <= 1_000_000_000_000 && -1_000_000_000_000 <= (
            delta_bl as int) * (self.dist_per_tick_um as int) <= 1_000_000_000_000
                && -1_000_000_000_000 <= (delta_br as int) * (self.dist_per_tick_um as int)
                <= 1_000_000_000_000) by (nonlinear_arith)
                requires
                    -1_000_000 <= delta_fl as int <= 1_000_000,
                    -1_000_000 <= delta_fr as int <= 1_000_000,
                    -1_000_000 <= delta_bl as int <= 1_000_000,
                    -1_000_000 <= delta_br as int <= 1_000_000,
                    0 <= self.dist_per_tick_um as int <= 1_000_000,
            ;
        }
        let d_fl: i64 = delta_fl * self.dist_per_tick_um;
        let d_fr: i64 = delta_fr * self.dist_per_tick_um;
        let d_bl: i64 = delta_bl * self.dist_per_tick_um;
        let d_br: i64 = delta_br * self.dist_per_tick_um;
        let disp: BodyDisplacement = accumulate(d_fl, d_fr, d_bl, d_br, self.geometry_um);
        let cos_t: i64 = cos_mdeg(self.pose.theta_mdeg);
        let sin_t: i64 = sin_mdeg(self.pose.theta_mdeg);
        proof {
            assert(-10_000_000_000_000_000 <= (cos_t as int) * (disp.dx as int)
                <= 10_000_000_000_000_000 && -10_000_000_000_000_000 <= (sin_t as int)
                * (disp.dy as int) <= 10_000_000_000_000_000 && -10_000_000_000_000_000 <= (
            sin_t as int) * (disp.dx as int) <= 10_000_000_000_000_000
                && -10_000_000_000_000_000 <= (cos_t as int) * (disp.dy as int)
                <= 10_000_000_000_000_000) by (nonlinear_arith)
                requires
                    -1000 <= cos_t as int <= 1000,
                    -1000 <= sin_t as int <= 1000,
                    -10_000_000_000_000 <= disp.dx as int <= 10_000_000_000_000,
                    -10_000_000_000_000 <= disp.dy as int <= 10_000_000_000_000,
            ;
            lemma_div_floor_magnitude(
                (cos_t as int) * (disp.dx as int) - (sin_t as int) * (disp.dy as int),
                1000,
                20_000_000_000_000_000,
            );
            lemma_div_floor_magnitude(
                (sin_t as int) * (disp.dx as int) + (cos_t as int) * (disp.dy as int),
                1000,
                20_000_000_000_000_000,
            );
        }
        let gx: i64 = crate::num::div_floor_i64(cos_t * disp.dx - sin_t * disp.dy, 1000);
        let gy: i64 = crate::num::div_floor_i64(sin_t * disp.dx + cos_t * disp.dy, 1000);
        let new_x: i64 = clamp_i64(self.pose.x_um + gx, -POSE_LIMIT_UM, POSE_LIMIT_UM);
        let new_y: i64 = clamp_i64(self.pose.y_um + gy, -POSE_LIMIT_UM, POSE_LIMIT_UM);
        let new_theta: i64 = normalize_mdeg(self.pose.theta_mdeg + disp.dtheta_mdeg);
        self.pose = OdometryPose { x_um: new_x, y_um: new_y, theta_mdeg: new_theta };
        proof {
            if ticks_fl == old(self).prev_ticks_fl && ticks_fr == old(self).prev_ticks_fr
                && ticks_bl == old(self).prev_ticks_bl && ticks_br == old(self).prev_ticks_br {
                let dpt = old(self).dist_per_tick_um as int;
                assert(d_fl == 0 && d_fr == 0 && d_bl == 0 && d_br == 0) by (nonlinear_arith)
                    requires
                        delta_fl == 0 && delta_fr == 0 && delta_bl == 0 && delta_br == 0,
                        d_fl == delta_fl * dpt,
                        d_fr == delta_fr * dpt,
                        d_bl == delta_bl * dpt,
                        d_br == delta_br * dpt,
                ;
                lemma_div_multiples_vanish(0, 4);
                assert(disp.dx == 0 && disp.dy == 0);
                if old(self).geometry_um > 0 {
                    lemma_div_multiples_vanish(0, old(self).geometry_um as int);
                }
                assert(disp.dtheta_mdeg == 0);
                assert(cos_t * disp.dx - sin_t * disp.dy == 0 && sin_t * disp.dx + cos_t
                    * disp.dy == 0) by (nonlinear_arith)
                    requires
                        disp.dx == 0,
                        disp.dy == 0,
                ;
                lemma_div_multiples_vanish(0, 1000);
                assert(gx == 0 && gy == 0);
                lemma_small_mod(old(self).pose.theta_mdeg as nat, 360_000nat);
            }
        }
        self.pose
    }

    /// The current pose, without updating.
    pub fn get_pose(&self) -> (pose: OdometryPose)
        ensures
            pose == self.pose,
    {
        self.pose
    }
}

} // verus!
