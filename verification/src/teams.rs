//! Match configuration: which alliance the robot plays for and which
//! side of the field it starts on.  The autonomous sequencer picks a
//! routine from these.

use vstd::prelude::*;

verus! {

/// The alliance the robot plays for.
#[derive(Clone, Copy, PartialEq, Eq, Structural, Debug)]
pub enum Alliance {
    Red,
    Blue,
}

/// The side of the field the robot starts on.
#[derive(Clone, Copy, PartialEq, Eq, Structural, Debug)]
pub enum Side {
    Left,
    Right,
}

} // verus!
