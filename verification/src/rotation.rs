//! Turn-in-place controller: proportional control of heading with a
//! deadband, a linear ease-in near the target, a stiction floor, and a
//! hard voltage clamp.
//!
//! The controller is driven one tick at a time: the caller reads the
//! heading sensor, calls [`RotationController::step`], commands the wheels
//! it returns, and sleeps one sensor interval.  A failed heading read
//! skips the tick without changing state or command.  There is no
//! timeout here — rotation is assumed always achievable — which mirrors
//! the translation controller's deliberate asymmetry.

use vstd::prelude::*;

verus! {

use crate::angle::angle_canonical;
use crate::angle::shortest_err_spec;
use crate::angle::shortest_signed_error;
use crate::kinematics::WheelVoltages;
use crate::kinematics::wheels_all_zero;
use crate::kinematics::wheels_within;
use crate::num::abs_spec;
use vstd::arithmetic::div_mod::lemma_div_is_ordered;
use vstd::arithmetic::div_mod::lemma_div_multiples_vanish;

/// Tuning for the rotation controller.
#[derive(Clone, Copy, PartialEq, Eq, Structural, Debug)]
pub struct RotationConfig {
    /// Proportional gain, scaled by 1000 (1200 means a gain of 1.2).
    pub kp_milli: i64,
    /// Hard limit on any commanded voltage magnitude, in millivolts.
    pub max_voltage_mv: i64,
    /// Smallest effective voltage magnitude (overcomes stiction), in
    /// millivolts.
    pub min_voltage_mv: i64,
    /// Stop tolerance around the target, in millidegrees.
    pub deadband_mdeg: i64,
    /// Angular margin inside which the command eases in linearly, in
    /// millidegrees.
    pub slow_angle_mdeg: i64,
}

/// The configuration is usable: a positive voltage window, a bounded
/// gain, and tolerances within a half turn.
pub open spec fn rotation_config_valid(c: RotationConfig) -> bool {
    &&& 0 < c.min_voltage_mv <= c.max_voltage_mv
    &&& c.max_voltage_mv <= 100_000
    &&& 0 <= c.kp_milli <= 1_000_000
    &&& 0 <= c.deadband_mdeg <= 180_000
    &&& 0 < c.slow_angle_mdeg <= 180_000
}

/// Where the controller stands.
#[derive(Clone, Copy, PartialEq, Eq, Structural, Debug)]
pub enum RotationState {
    /// Still turning toward the target.
    Seeking,
    /// Within the deadband; wheels commanded to zero.  Terminal.
    Arrived,
}

/// Drives the robot to a target heading using live heading feedback.
#[derive(Clone, Copy, PartialEq, Eq, Structural, Debug)]
pub struct RotationController {
    pub target_mdeg: i64,
    pub config: RotationConfig,
    pub state: RotationState,
}

/// Controller invariant: valid tuning and a canonical target.
pub open spec fn rotation_wf(r: RotationController) -> bool {
    &&& rotation_config_valid(r.config)
    &&& angle_canonical(r.target_mdeg as int)
}

/// Magnitude of the commanded voltage for an error magnitude `a`:
/// proportional in the error, eased in linearly inside the slow angle,
/// floored at the minimum effective voltage, clamped to the maximum.
pub open spec fn rotation_mag_spec(a: int, c: RotationConfig) -> int {
    let raw = (a * c.max_voltage_mv * c.kp_milli) / 180_000_000;
    let slowed = if a < c.slow_angle_mdeg {
        (raw * a) / c.slow_angle_mdeg as int
    } else {
        raw
    };
    let floored = if slowed < c.min_voltage_mv {
        c.min_voltage_mv as int
    } else {
        slowed
    };
    if floored > c.max_voltage_mv {
        c.max_voltage_mv as int
    } else {
        floored
    }
}

/// Signed voltage commanded for a signed error `e` outside the deadband.
pub open spec fn rotation_voltage_spec(e: int, c: RotationConfig) -> int {
    if e >= 0 {
        rotation_mag_spec(abs_spec(e), c)
    } else {
        -rotation_mag_spec(abs_spec(e), c)
    }
}

fn rotation_magnitude(a: i64, c: &RotationConfig) -> (r: i64)
    requires
        0 <= a <= 180_000,
        rotation_config_valid(*c),
    ensures
        r == rotation_mag_spec(a as int, *c),
        c.min_voltage_mv <= r <= c.max_voltage_mv,
{
    let au: u64 = a as u64;
    proof {
        assert(0 <= (a as int) * (c.max_voltage_mv as int) <= 18_000_000_000
            && 0 <= (a as int) * (c.max_voltage_mv as int) * (c.kp_milli as int)
            <= 18_000_000_000_000_000) by (nonlinear_arith)
            requires
                0 <= a as int <= 180_000,
                0 <= c.max_voltage_mv as int <= 100_000,
                0 <= c.kp_milli as int <= 1_000_000,
        ;
        lemma_div_is_ordered(
            (a as int) * (c.max_voltage_mv as int) * (c.kp_milli as int),
            180_000_000int * 100_000_000,
            180_000_000,
        );
        lemma_div_multiples_vanish(100_000_000, 180_000_000);
    }
    let raw: u64 = au * (c.max_voltage_mv as u64) * (c.kp_milli as u64) / 180_000_000;
    let slowed: u64 = if a < c.slow_angle_mdeg {
        proof {
            assert((raw as int) * (a as int) <= 18_000_000_000_000_000_000) by (nonlinear_arith)
                requires
                    0 <= raw as int <= 100_000_000,
                    0 <= a as int <= 180_000,
            ;
        }
        raw * au / (c.slow_angle_mdeg as u64)
    } else {
        raw
    };
    let floored: u64 = if slowed < c.min_voltage_mv as u64 {
        c.min_voltage_mv as u64
    } else {
        slowed
    };
    if floored > c.max_voltage_mv as u64 {
        c.max_voltage_mv
    } else {
        floored as i64
    }
}

impl RotationController {
    /// Begins a turn toward `target_mdeg` (canonical millidegrees).
    pub fn new(target_mdeg: i64, config: RotationConfig) -> (r: RotationController)
        requires
            angle_canonical(target_mdeg as int),
            rotation_config_valid(config),
        ensures
            r.target_mdeg == target_mdeg,
            r.config == config,
            r.state is Seeking,
            rotation_wf(r),
    {
        RotationController { target_mdeg, config, state: RotationState::Seeking }
    }

    /// One control tick.  `heading_mdeg` is the latest heading reading,
    /// `None` when the sensor failed this tick.  Returns the wheel
    /// command to apply, or `None` when the tick is skipped.
    ///
    /// Every command it ever returns stays within the configured maximum
    /// voltage, and reaching `Arrived` always commands exactly zero.
    pub fn step(&mut self, heading_mdeg: Option<i64>) -> (cmd: Option<WheelVoltages>)
        requires
            rotation_wf(*old(self)),
            heading_mdeg matches Some(h) ==> angle_canonical(h as int),
        ensures
            rotation_wf(*final(self)),
            final(self).target_mdeg == old(self).target_mdeg,
            final(self).config == old(self).config,
            old(self).state is Arrived ==> *final(self) == *old(self)
                && (cmd matches Some(v) && wheels_all_zero(v)),
            old(self).state is Seeking && heading_mdeg is None ==> *final(self) == *old(self)
                && cmd is None,
            old(self).state is Seeking ==> (heading_mdeg matches Some(h) ==> ({
                let e = shortest_err_spec(old(self).target_mdeg as int, h as int);
                if abs_spec(e) <= old(self).config.deadband_mdeg {
                    &&& final(self).state is Arrived
                    &&& cmd matches Some(v) && wheels_all_zero(v)
                } else {
                    let volt = rotation_voltage_spec(e, old(self).config);
                    &&& final(self).state is Seeking
                    &&& cmd matches Some(v) && v.front_left == volt && v.back_left == volt
                        && v.front_right == -volt && v.back_right == -volt
                    &&& old(self).config.min_voltage_mv <= abs_spec(volt)
                }
            })),
            cmd matches Some(v) ==> wheels_within(v, old(self).config.max_voltage_mv as int),
    {
        match self.state {
            RotationState::Arrived => {
                Some(WheelVoltages { front_left: 0, front_right: 0, back_left: 0, back_right: 0 })
            },
            RotationState::Seeking => {
                match heading_mdeg {
                    None => None,
                    Some(h) => {
                        let e: i64 = shortest_signed_error(self.target_mdeg, h);
                        let ae: i64 = if e < 0 {
                            -e
                        } else {
                            e
                        };
                        if ae <= self.config.deadband_mdeg {
                            self.state = RotationState::Arrived;
                            Some(
                                WheelVoltages {
                                    front_left: 0,
                                    front_right: 0,
                                    back_left: 0,
                                    back_right: 0,
                                },
                            )
                        } else {
                            let mag: i64 = rotation_magnitude(ae, &self.config);
                            let volt: i64 = if e >= 0 {
                                mag
                            } else {
                                -mag
                            };
                            Some(
                                WheelVoltages {
                                    front_left: volt,
                                    front_right: -volt,
                                    back_left: volt,
                                    back_right: -volt,
                                },
                            )
                        }
                    },
                }
            },
        }
    }

    /// Whether the controller has reached its target.
    pub fn is_done(&self) -> (r: bool)
        ensures
            r == (self.state is Arrived),
    {
        match self.state {
            RotationState::Arrived => true,
            RotationState::Seeking => false,
        }
    }
}

} // verus!
