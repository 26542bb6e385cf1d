use mecanum_core::angle::normalize_mdeg;
use mecanum_core::rotation::RotationConfig;
use mecanum_core::rotation::RotationController;
use mecanum_core::rotation::RotationState;

fn test_config() -> RotationConfig {
    RotationConfig {
        kp_milli: 1_200,
        max_voltage_mv: 12_000,
        min_voltage_mv: 6_000,
        deadband_mdeg: 10_000,
        slow_angle_mdeg: 30_000,
    }
}

#[test]
fn rotation_converges_to_half_turn() {
    // Target 180 degrees from 0: the controller must end in Arrived
    // with all wheels commanded to exactly 0, every intermediate
    // command within the maximum voltage, and the two sides opposite.
    let mut controller = RotationController::new(180_000, test_config());
    let mut heading: i64 = 0;
    let mut ticks: u32 = 0;
    while !controller.is_done() {
        assert!(ticks < 10_000, "controller failed to converge");
        ticks += 1;
        let cmd = controller.step(Some(heading)).expect("heading was supplied");
        assert!(cmd.front_left.abs() <= 12_000);
        assert!(cmd.front_right.abs() <= 12_000);
        assert!(cmd.back_left.abs() <= 12_000);
        assert!(cmd.back_right.abs() <= 12_000);
        assert_eq!(cmd.front_left, cmd.back_left);
        assert_eq!(cmd.front_right, -cmd.front_left);
        assert_eq!(cmd.back_right, -cmd.back_left);
        // Plant model: positive left-side voltage turns clockwise.
        heading = normalize_mdeg(heading + cmd.front_left / 100);
    }
    assert!(matches!(controller.state, RotationState::Arrived));
    // The final command of the run, issued on arrival, is all zero.
    let last = controller.step(Some(heading)).expect("arrived still commands");
    assert_eq!(last.front_left, 0);
    assert_eq!(last.front_right, 0);
    assert_eq!(last.back_left, 0);
    assert_eq!(last.back_right, 0);
    // And the heading really is within the deadband of the target.
    let err = (180_000 - heading).abs();
    assert!(err <= 10_000);
}

#[test]
fn rotation_failed_reading_skips_tick() {
    let mut controller = RotationController::new(90_000, test_config());
    let before = controller.state;
    let cmd = controller.step(None);
    assert!(cmd.is_none());
    assert_eq!(controller.state, before);
}

#[test]
fn rotation_within_deadband_arrives_immediately() {
    let mut controller = RotationController::new(90_000, test_config());
    let cmd = controller.step(Some(95_000)).expect("reading supplied");
    assert!(matches!(controller.state, RotationState::Arrived));
    assert_eq!(cmd.front_left, 0);
    assert_eq!(cmd.front_right, 0);
    assert_eq!(cmd.back_left, 0);
    assert_eq!(cmd.back_right, 0);
}

#[test]
fn rotation_full_proportional_command() {
    // Error of 180 degrees with gain 1.2 saturates at the maximum.
    let mut controller = RotationController::new(180_000, test_config());
    let cmd = controller.step(Some(0)).expect("reading supplied");
    assert_eq!(cmd.front_left, 12_000);
    assert_eq!(cmd.back_left, 12_000);
    assert_eq!(cmd.front_right, -12_000);
    assert_eq!(cmd.back_right, -12_000);
    assert!(matches!(controller.state, RotationState::Seeking));
}

#[test]
fn rotation_slow_angle_floors_at_minimum() {
    // 20 degrees of error: eased in inside the 30-degree slow angle and
    // floored at the minimum effective voltage.
    let mut controller = RotationController::new(180_000, test_config());
    let cmd = controller.step(Some(160_000)).expect("reading supplied");
    assert_eq!(cmd.front_left, 6_000);
    assert_eq!(cmd.front_right, -6_000);
}

#[test]
fn rotation_negative_error_turns_other_way() {
    let mut controller = RotationController::new(350_000, test_config());
    let cmd = controller.step(Some(10_000)).expect("reading supplied");
    assert!(cmd.front_left < 0);
    assert_eq!(cmd.front_right, -cmd.front_left);
}

#[test]
fn rotation_shorter_arc_wraps_through_zero() {
    // From 350 to 10 degrees the controller turns +20 through the wrap,
    // not -340 the long way round.
    let mut controller = RotationController::new(10_000, test_config());
    let cmd = controller.step(Some(350_000)).expect("reading supplied");
    assert!(cmd.front_left > 0);
}
