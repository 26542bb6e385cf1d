//! Simple on/off mechanisms (intake, router): a motor group driven at a
//! fixed target voltage, forward, reverse or off.
//!
//! The group tracks the voltage it has decided on; the caller writes
//! that value to each motor of the group independently, so one rejected
//! write never prevents attempting the others.

use vstd::prelude::*;

verus! {

/// Largest voltage magnitude a group accepts, in millivolts.
pub const GROUP_VOLTAGE_LIMIT_MV: i64 = 100_000;

/// The commanded voltage a button pair maps to: forward alone drives
/// `+target`, reverse alone drives `-target`, anything else stops.
pub open spec fn buttons_voltage_spec(target: int, forward: bool, reverse: bool) -> int {
    if forward && !reverse {
        target
    } else if reverse && !forward {
        -target
    } else {
        0
    }
}

/// A group of motors that all receive the same voltage, with a fixed
/// target magnitude for the forward and reverse commands.
#[derive(Clone, Copy, PartialEq, Eq, Structural, Debug)]
pub struct ControlledMotorGroup {
    pub target_voltage_mv: i64,
    /// The voltage currently commanded to every motor of the group.
    pub commanded_mv: i64,
}

/// Group invariant: target and command stay within the accepted range.
pub open spec fn group_wf(g: ControlledMotorGroup) -> bool {
    &&& 0 <= g.target_voltage_mv <= GROUP_VOLTAGE_LIMIT_MV
    &&& -GROUP_VOLTAGE_LIMIT_MV <= g.commanded_mv <= GROUP_VOLTAGE_LIMIT_MV
}

impl ControlledMotorGroup {
    /// A new group, stopped, with the given forward/reverse magnitude.
    pub fn new(target_voltage_mv: i64) -> (g: ControlledMotorGroup)
        requires
            0 <= target_voltage_mv <= GROUP_VOLTAGE_LIMIT_MV,
        ensures
            group_wf(g),
            g.target_voltage_mv == target_voltage_mv,
            g.commanded_mv == 0,
    {
        ControlledMotorGroup { target_voltage_mv, commanded_mv: 0 }
    }

    /// Commands every motor of the group to `voltage_mv`.
    pub fn set_voltage(&mut self, voltage_mv: i64)
        requires
            group_wf(*old(self)),
            -GROUP_VOLTAGE_LIMIT_MV <= voltage_mv <= GROUP_VOLTAGE_LIMIT_MV,
        ensures
            group_wf(*final(self)),
            final(self).commanded_mv == voltage_mv,
            final(self).target_voltage_mv == old(self).target_voltage_mv,
    {
        self.commanded_mv = voltage_mv;
    }

    /// Runs the group forward at the target voltage.
    pub fn forward(&mut self)
        requires
            group_wf(*old(self)),
        ensures
            group_wf(*final(self)),
            final(self).commanded_mv == old(self).target_voltage_mv,
            final(self).target_voltage_mv == old(self).target_voltage_mv,
    {
        let target: i64 = self.target_voltage_mv;
        self.set_voltage(target);
    }

    /// Runs the group in reverse at the target voltage.
    pub fn reverse(&mut self)
        requires
            group_wf(*old(self)),
        ensures
            group_wf(*final(self)),
            final(self).commanded_mv == -old(self).target_voltage_mv,
            final(self).target_voltage_mv == old(self).target_voltage_mv,
    {
        let target: i64 = self.target_voltage_mv;
        self.set_voltage(-target);
    }

    /// Stops the group.
    pub fn disable(&mut self)
        requires
            group_wf(*old(self)),
        ensures
            group_wf(*final(self)),
            final(self).commanded_mv == 0,
            final(self).target_voltage_mv == old(self).target_voltage_mv,
    {
        self.set_voltage(0);
    }

    /// Maps a pair of held buttons to a command: forward alone runs
    /// forward, reverse alone runs in reverse, both or neither stops.
    pub fn drive_by_buttons(&mut self, forward: bool, reverse: bool)
        requires
            group_wf(*old(self)),
        ensures
            group_wf(*final(self)),
            final(self).commanded_mv == buttons_voltage_spec(
                old(self).target_voltage_mv as int,
                forward,
                reverse,
            ),
            final(self).target_voltage_mv == old(self).target_voltage_mv,
    {
        if forward && !reverse {
            self.forward()
        } else if reverse && !forward {
            self.reverse()
        } else {
            self.disable()
        }
    }

    /// The voltage currently commanded to every motor of the group.
    pub fn commanded_voltage(&self) -> (v: i64)
        ensures
            v == self.commanded_mv,
    {
        self.commanded_mv
    }
}

} // verus!
