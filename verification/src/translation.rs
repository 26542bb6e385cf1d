//! Drive-straight controller: seeks a goal point computed once from the
//! starting pose, under an absolute safety timeout.
//!
//! The goal is fixed at the moment both a position and a heading reading
//! succeed: `goal = start + distance * unit_vector(start_heading)`.  It is
//! never recomputed; correction while seeking is purely distance-based, so
//! the same voltage goes to all four wheels (the baseline straight-line
//! variant, chosen here over the heading-holding variant and applied
//! consistently).  Timing out is a terminal outcome of its own, distinct
//! from arrival, so a caller can tell "reached the goal" from "gave up".

use vstd::prelude::*;

verus! {

use crate::angle::angle_canonical;
use crate::geom::Point;
use crate::geom::dist_mm_spec;
use crate::geom::distance_mm;
use crate::geom::point_within;
use crate::kinematics::WheelVoltages;
use crate::kinematics::wheels_all_zero;
use crate::kinematics::wheels_within;
use crate::num::div_floor_i64;
use crate::trig::cos_mdeg;
use crate::trig::cos_mdeg_spec;
use crate::trig::sin_mdeg;
use crate::trig::sin_mdeg_spec;
use vstd::arithmetic::div_mod::lemma_div_is_ordered;
use vstd::arithmetic::div_mod::lemma_div_multiples_vanish;

/// Largest requested drive distance magnitude, in millimeters.
pub const DISTANCE_LIMIT_MM: i64 = 100_000_000;

/// Largest coordinate magnitude expected from the position sensor, in
/// millimeters.
pub const SENSOR_COORD_LIMIT_MM: i64 = 1_000_000_000;

/// Tuning for the translation controller.
#[derive(Clone, Copy, PartialEq, Eq, Structural, Debug)]
pub struct TranslationConfig {
    /// Proportional gain: microvolts per millimeter of remaining
    /// distance (8000 means 8 volts per meter).
    pub kp_uv_per_mm: i64,
    /// Hard limit on any commanded voltage magnitude, in millivolts.
    pub max_voltage_mv: i64,
    /// Smallest effective voltage magnitude (overcomes stiction), in
    /// millivolts.
    pub min_voltage_mv: i64,
    /// Radius inside which the command eases in linearly, in millimeters.
    pub slow_radius_mm: i64,
    /// Distance at or under which the goal counts as reached, in
    /// millimeters.
    pub arrive_tolerance_mm: i64,
    /// Safety timeout for the seeking phase, in milliseconds.
    pub timeout_ms: i64,
}

/// The configuration is usable: a positive voltage window, bounded gain
/// and radii, and a non-negative timeout.
pub open spec fn translation_config_valid(c: TranslationConfig) -> bool {
    &&& 0 < c.min_voltage_mv <= c.max_voltage_mv
    &&& c.max_voltage_mv <= 100_000
    &&& 0 <= c.kp_uv_per_mm <= 1_000_000
    &&& 0 < c.slow_radius_mm <= 1_000_000
    &&& 0 <= c.arrive_tolerance_mm <= 1_000_000_000
    &&& 0 <= c.timeout_ms <= 10_000_000_000
}

/// Where the controller stands.
#[derive(Clone, Copy, PartialEq, Eq, Structural, Debug)]
pub enum TranslationState {
    /// Waiting for one tick on which both position and heading read
    /// successfully, to fix the goal point.
    AwaitingStartPose,
    /// Driving toward the fixed goal point.
    Seeking,
    /// Within the arrival tolerance; wheels commanded to zero.  Terminal.
    Arrived,
    /// The safety timeout elapsed before arrival; wheels commanded to
    /// zero.  Terminal, and distinct from `Arrived`.
    TimedOut,
}

/// Drives the robot a requested distance along its starting heading.
#[derive(Clone, Copy, PartialEq, Eq, Structural, Debug)]
pub struct TranslationController {
    pub distance_mm: i64,
    pub config: TranslationConfig,
    pub state: TranslationState,
    /// Goal point, fixed when seeking begins; meaningful from then on.
    pub goal: Point,
    /// Clock reading at the moment seeking began.
    pub seek_start_ms: i64,
}

/// Controller invariant: valid tuning, a bounded distance, a goal that
/// stays within range of the distance computation, and a plausible clock
/// origin.
pub open spec fn translation_wf(t: TranslationController) -> bool {
    &&& translation_config_valid(t.config)
    &&& -DISTANCE_LIMIT_MM <= t.distance_mm <= DISTANCE_LIMIT_MM
    &&& point_within(t.goal, 1_100_000_000)
    &&& 0 <= t.seek_start_ms <= 4_000_000_000_000
}

/// X coordinate of the goal point fixed from a start pose: the start
/// plus the distance projected on the heading's cosine (scale 1000,
/// rounded toward negative infinity).
pub open spec fn goal_x_spec(start: Point, heading: int, distance: int) -> int {
    start.x + (distance * cos_mdeg_spec(heading)) / 1000
}

/// Y coordinate of the goal point fixed from a start pose.
pub open spec fn goal_y_spec(start: Point, heading: int, distance: int) -> int {
    start.y + (distance * sin_mdeg_spec(heading)) / 1000
}

/// Magnitude of the voltage commanded while `remaining` millimeters from
/// the goal: proportional in the distance, eased in linearly inside the
/// slow radius, floored at the minimum effective voltage, clamped to the
/// maximum.
pub open spec fn translation_voltage_spec(remaining: int, c: TranslationConfig) -> int {
    let raw = (remaining * c.kp_uv_per_mm) / 1000;
    let slowed = if remaining < c.slow_radius_mm {
        (raw * remaining) / c.slow_radius_mm as int
    } else {
        raw
    };
    let floored = if slowed < c.min_voltage_mv {
        c.min_voltage_mv as int
    } else {
        slowed
    };
    if floored > c.max_voltage_mv {
        c.max_voltage_mv as int
    } else {
        floored
    }
}

fn translation_magnitude(remaining: i64, c: &TranslationConfig) -> (r: i64)
    requires
        0 <= remaining <= 3_400_000_000,
        translation_config_valid(*c),
    ensures
        r == translation_voltage_spec(remaining as int, *c),
        c.min_voltage_mv <= r <= c.max_voltage_mv,
{
    let ru: u64 = remaining as u64;
    proof {
        assert(0 <= (remaining as int) * (c.kp_uv_per_mm as int) <= 3_400_000_000_000_000)
            by (nonlinear_arith)
            requires
                0 <= remaining as int <= 3_400_000_000,
                0 <= c.kp_uv_per_mm as int <= 1_000_000,
        ;
    }
    let raw: u64 = ru * (c.kp_uv_per_mm as u64) / 1000;
    let slowed: u64 = if remaining < c.slow_radius_mm {
        proof {
            assert((remaining as int) * (c.kp_uv_per_mm as int) <= 1_000_000_000_000)
                by (nonlinear_arith)
                requires
                    0 <= remaining as int <= 1_000_000,
                    0 <= c.kp_uv_per_mm as int <= 1_000_000,
            ;
            lemma_div_is_ordered(
                (remaining as int) * (c.kp_uv_per_mm as int),
                1000int * 1_000_000_000_000,
                1000,
            );
            lemma_div_multiples_vanish(1_000_000_000_000, 1000);
            assert((raw as int) * (remaining as int) <= 1_000_000_000_000_000_000)
                by (nonlinear_arith)
                requires
                    0 <= raw as int <= 1_000_000_000_000,
                    0 <= remaining as int <= 1_000_000,
            ;
        }
        raw * ru / (c.slow_radius_mm as u64)
    } else {
        raw
    };
    let floored: u64 = if slowed < c.min_voltage_mv as u64 {
        c.min_voltage_mv as u64
    } else {
        slowed
    };
    if floored > c.max_voltage_mv as u64 {
        c.max_voltage_mv
    } else {
        floored as i64
    }
}

impl TranslationController {
    /// Begins a straight drive of `distance_mm` millimeters along
    /// whatever heading the robot has when the start pose is first read.
    pub fn new(distance_mm: i64, config: TranslationConfig) -> (r: TranslationController)
        requires
            -DISTANCE_LIMIT_MM <= distance_mm <= DISTANCE_LIMIT_MM,
            translation_config_valid(config),
        ensures
            r.distance_mm == distance_mm,
            r.config == config,
            r.state is AwaitingStartPose,
            translation_wf(r),
    {
        TranslationController {
            distance_mm,
            config,
            state: TranslationState::AwaitingStartPose,
            goal: Point { x: 0, y: 0 },
            seek_start_ms: 0,
        }
    }

    /// One control tick.  `position` and `heading_mdeg` are the latest
    /// sensor readings (`None` on failure); `now_ms` is a monotone clock.
    /// Returns the wheel command to apply, or `None` when the tick is
    /// skipped.
    ///
    /// While waiting for the start pose, failed readings are retried
    /// forever.  While seeking, the tick is skipped on a failed position
    /// read; the timeout is checked first, so a dead sensor still ends in
    /// `TimedOut`.  Arrival is declared exactly when the remaining
    /// distance is within tolerance, and both terminal states command
    /// zero to every wheel.
    pub fn step(
        &mut self,
        position: Option<Point>,
        heading_mdeg: Option<i64>,
        now_ms: i64,
    ) -> (cmd: Option<WheelVoltages>)
        requires
            translation_wf(*old(self)),
            position matches Some(p) ==> point_within(
                p,
                SENSOR_COORD_LIMIT_MM as int,
            ),
            heading_mdeg matches Some(h) ==> angle_canonical(h as int),
            0 <= now_ms <= 4_000_000_000_000,
            old(self).state is Seeking ==> now_ms >= old(self).seek_start_ms,
        ensures
            translation_wf(*final(self)),
            final(self).distance_mm == old(self).distance_mm,
            final(self).config == old(self).config,
            old(self).state is Arrived ==> *final(self) == *old(self)
                && (cmd matches Some(v) && wheels_all_zero(v)),
            old(self).state is TimedOut ==> *final(self) == *old(self)
                && (cmd matches Some(v) && wheels_all_zero(v)),
            old(self).state is AwaitingStartPose ==> cmd is None && ({
                if position is Some && heading_mdeg is Some {
                    &&& final(self).state is Seeking
                    &&& final(self).goal.x == goal_x_spec(
                        position->0,
                        heading_mdeg->0 as int,
                        old(self).distance_mm as int,
                    )
                    &&& final(self).goal.y == goal_y_spec(
                        position->0,
                        heading_mdeg->0 as int,
                        old(self).distance_mm as int,
                    )
                    &&& final(self).seek_start_ms == now_ms
                } else {
                    *final(self) == *old(self)
                }
            }),
            old(self).state is Seeking ==> ({
                if now_ms - old(self).seek_start_ms > old(self).config.timeout_ms {
                    &&& final(self).state is TimedOut
                    &&& final(self).goal == old(self).goal
                    &&& final(self).seek_start_ms == old(self).seek_start_ms
                    &&& cmd matches Some(v) && wheels_all_zero(v)
                } else if position is None {
                    &&& *final(self) == *old(self)
                    &&& cmd is None
                } else {
                    let rem = dist_mm_spec(old(self).goal, position->0);
                    if rem <= old(self).config.arrive_tolerance_mm {
                        &&& final(self).state is Arrived
                        &&& final(self).goal == old(self).goal
                        &&& final(self).seek_start_ms == old(self).seek_start_ms
                        &&& cmd matches Some(v) && wheels_all_zero(v)
                    } else {
                        let volt = translation_voltage_spec(rem, old(self).config);
                        &&& *final(self) == *old(self)
                        &&& cmd matches Some(v) && v.front_left == volt && v.front_right == volt
                            && v.back_left == volt && v.back_right == volt
                        &&& old(self).config.min_voltage_mv <= volt
                    }
                }
            }),
            cmd matches Some(v) ==> wheels_within(v, old(self).config.max_voltage_mv as int),
    {
        match self.state {
            TranslationState::Arrived | TranslationState::TimedOut => {
                Some(WheelVoltages { front_left: 0, front_right: 0, back_left: 0, back_right: 0 })
            },
            TranslationState::AwaitingStartPose => {
                match (position, heading_mdeg) {
                    (Some(p), Some(h)) => {
                        let cos_h: i64 = cos_mdeg(h);
                        let sin_h: i64 = sin_mdeg(h);
                        proof {
                            assert(-100_000_000_000 <= (self.distance_mm as int) * (cos_h as int)
                                <= 100_000_000_000) by (nonlinear_arith)
                                requires
                                    -100_000_000 <= self.distance_mm as int <= 100_000_000,
                                    -1000 <= cos_h as int <= 1000,
                            ;
                            assert(-100_000_000_000 <= (self.distance_mm as int) * (sin_h as int)
                                <= 100_000_000_000) by (nonlinear_arith)
                                requires
                                    -100_000_000 <= self.distance_mm as int <= 100_000_000,
                                    -1000 <= sin_h as int <= 1000,
                            ;
                            lemma_div_multiples_vanish(100_000_000, 1000);
                            lemma_div_multiples_vanish(-100_000_000, 1000);
                            lemma_div_is_ordered(
                                (self.distance_mm as int) * (cos_h as int),
                                1000int * 100_000_000,
                                1000,
                            );
                            lemma_div_is_ordered(
                                1000int * -100_000_000,
                                (self.distance_mm as int) * (cos_h as int),
                                1000,
                            );
                            lemma_div_is_ordered(
                                (self.distance_mm as int) * (sin_h as int),
                                1000int * 100_000_000,
                                1000,
                            );
                            lemma_div_is_ordered(
                                1000int * -100_000_000,
                                (self.distance_mm as int) * (sin_h as int),
                                1000,
                            );
                        }
                        let gx: i64 = p.x + div_floor_i64(self.distance_mm * cos_h, 1000);
                        let gy: i64 = p.y + div_floor_i64(self.distance_mm * sin_h, 1000);
                        self.goal = Point { x: gx, y: gy };
                        self.seek_start_ms = now_ms;
                        self.state = TranslationState::Seeking;
                        None
                    },
                    _ => None,
                }
            },
            TranslationState::Seeking => {
                if now_ms - self.seek_start_ms > self.config.timeout_ms {
                    self.state = TranslationState::TimedOut;
                    return Some(
                        WheelVoltages {
                            front_left: 0,
                            front_right: 0,
                            back_left: 0,
                            back_right: 0,
                        },
                    );
                }
                match position {
                    None => None,
                    Some(p) => {
                        let remaining: i64 = distance_mm(self.goal, p);
                        if remaining <= self.config.arrive_tolerance_mm {
                            self.state = TranslationState::Arrived;
                            Some(
                                WheelVoltages {
                                    front_left: 0,
                                    front_right: 0,
                                    back_left: 0,
                                    back_right: 0,
                                },
                            )
                        } else {
                            let volt: i64 = translation_magnitude(remaining, &self.config);
                            Some(
                                WheelVoltages {
                                    front_left: volt,
                                    front_right: volt,
                                    back_left: volt,
                                    back_right: volt,
                                },
                            )
                        }
                    },
                }
            },
        }
    }

    /// Whether the controller has reached a terminal state.
    pub fn is_done(&self) -> (r: bool)
        ensures
            r == (self.state is Arrived || self.state is TimedOut),
    {
        match self.state {
            TranslationState::Arrived | TranslationState::TimedOut => true,
            _ => false,
        }
    }
}

} // verus!
