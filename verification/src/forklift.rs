//! Lift levels for the forklift mechanism and their target positions.
//!
//! The lift motor is position-controlled; each level is a quarter turn
//! above the previous one.  Driving the motor to the target is the
//! caller's business.

use vstd::prelude::*;

verus! {

/// The discrete heights the forklift can be sent to.
#[derive(Clone, Copy, PartialEq, Eq, Structural, Debug)]
pub enum LiftLevel {
    Floor,
    Low,
    Medium,
    High,
}

impl LiftLevel {
    /// The lift motor's target position for this level, in millidegrees
    /// of motor rotation: a quarter turn per level above the floor.
    pub fn target_position_mdeg(&self) -> (r: i64)
        ensures
            self is Floor ==> r == 0,
            self is Low ==> r == 90_000,
            self is Medium ==> r == 180_000,
            self is High ==> r == 270_000,
    {
        match self {
            LiftLevel::Floor => 0,
            LiftLevel::Low => 90_000,
            LiftLevel::Medium => 180_000,
            LiftLevel::High => 270_000,
        }
    }
}

} // verus!
