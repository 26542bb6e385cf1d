use mecanum_core::forklift::LiftLevel;
use mecanum_core::mechanisms::ControlledMotorGroup;
use mecanum_core::teams::Alliance;
use mecanum_core::teams::Side;

#[test]
fn group_starts_stopped() {
    let group = ControlledMotorGroup::new(12_000);
    assert_eq!(group.commanded_voltage(), 0);
}

#[test]
fn group_forward_reverse_disable() {
    let mut group = ControlledMotorGroup::new(12_000);
    group.forward();
    assert_eq!(group.commanded_voltage(), 12_000);
    group.reverse();
    assert_eq!(group.commanded_voltage(), -12_000);
    group.disable();
    assert_eq!(group.commanded_voltage(), 0);
}

#[test]
fn group_set_voltage_directly() {
    let mut group = ControlledMotorGroup::new(12_000);
    group.set_voltage(-4_500);
    assert_eq!(group.commanded_voltage(), -4_500);
}

#[test]
fn group_buttons_table() {
    let mut group = ControlledMotorGroup::new(8_000);
    group.drive_by_buttons(true, false);
    assert_eq!(group.commanded_voltage(), 8_000);
    group.drive_by_buttons(false, true);
    assert_eq!(group.commanded_voltage(), -8_000);
    group.drive_by_buttons(true, true);
    assert_eq!(group.commanded_voltage(), 0);
    group.drive_by_buttons(false, false);
    assert_eq!(group.commanded_voltage(), 0);
}

#[test]
fn lift_levels_are_quarter_turns() {
    assert_eq!(LiftLevel::Floor.target_position_mdeg(), 0);
    assert_eq!(LiftLevel::Low.target_position_mdeg(), 90_000);
    assert_eq!(LiftLevel::Medium.target_position_mdeg(), 180_000);
    assert_eq!(LiftLevel::High.target_position_mdeg(), 270_000);
}

#[test]
fn teams_compare_by_variant() {
    assert_eq!(Alliance::Red, Alliance::Red);
    assert_ne!(Alliance::Red, Alliance::Blue);
    assert_eq!(Side::Left, Side::Left);
    assert_ne!(Side::Left, Side::Right);
}
