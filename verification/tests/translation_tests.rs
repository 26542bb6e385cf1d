use mecanum_core::geom::Point;
use mecanum_core::translation::TranslationConfig;
use mecanum_core::translation::TranslationController;
use mecanum_core::translation::TranslationState;

fn test_config() -> TranslationConfig {
    TranslationConfig {
        kp_uv_per_mm: 8_000,
        max_voltage_mv: 12_000,
        min_voltage_mv: 6_000,
        slow_radius_mm: 400,
        arrive_tolerance_mm: 50,
        timeout_ms: 30_000,
    }
}

#[test]
fn translation_times_out_when_robot_never_moves() {
    // One meter requested; the sensor reports the same position
    // forever.  The controller must end in TimedOut after the
    // configured timeout — never in Arrived.
    let mut controller = TranslationController::new(1_000_000, test_config());
    let start = Point { x: 0, y: 0 };
    // First tick fixes the goal; no command yet.
    assert!(controller.step(Some(start), Some(0), 0).is_none());
    assert!(matches!(controller.state, TranslationState::Seeking));
    let mut now: i64 = 0;
    while !controller.is_done() {
        now += 50;
        assert!(now <= 40_000, "controller neither arrived nor timed out");
        let cmd = controller.step(Some(start), Some(0), now);
        if let Some(v) = cmd {
            if matches!(controller.state, TranslationState::Seeking) {
                // Still far from the goal: the command is never zero.
                assert!(v.front_left >= 6_000 && v.front_left <= 12_000);
                assert_eq!(v.front_left, v.front_right);
                assert_eq!(v.front_left, v.back_left);
                assert_eq!(v.front_left, v.back_right);
            }
        }
    }
    assert!(matches!(controller.state, TranslationState::TimedOut));
    assert!(now > 30_000);
    // The terminal command is all zero.
    let last = controller.step(Some(start), Some(0), now).expect("terminal commands zero");
    assert_eq!(last.front_left, 0);
    assert_eq!(last.front_right, 0);
    assert_eq!(last.back_left, 0);
    assert_eq!(last.back_right, 0);
}

#[test]
fn translation_arrives_on_monotone_convergence() {
    // The sensor reports positions converging straight toward the goal:
    // the controller arrives once within tolerance and never commands
    // zero voltage (never declares arrival) while still outside it.
    let mut controller = TranslationController::new(1_000_000, test_config());
    assert!(controller.step(Some(Point { x: 0, y: 0 }), Some(0), 0).is_none());
    let mut x: i64 = 0;
    let mut now: i64 = 0;
    while !controller.is_done() {
        now += 50;
        assert!(now <= 30_000, "should arrive well before the timeout");
        let remaining_before = 1_000_000 - x;
        let cmd = controller.step(Some(Point { x, y: 0 }), Some(0), now);
        if matches!(controller.state, TranslationState::Seeking) {
            let v = cmd.expect("position was supplied");
            assert!(remaining_before > 50);
            assert!(v.front_left >= 6_000, "zero command while still far");
            x += 25_000;
        }
    }
    assert!(matches!(controller.state, TranslationState::Arrived));
    assert!((1_000_000 - x).abs() <= 50 || 1_000_000 - x <= 50);
}

#[test]
fn translation_goal_lies_along_start_heading() {
    // Heading 90 degrees: the goal is one meter along +y.  A position
    // at exactly that point arrives immediately.
    let mut controller = TranslationController::new(1_000_000, test_config());
    assert!(controller.step(Some(Point { x: 0, y: 0 }), Some(90_000), 0).is_none());
    let at_goal = Point { x: 0, y: 1_000_000 };
    let cmd = controller.step(Some(at_goal), Some(90_000), 50).expect("arrives");
    assert!(matches!(controller.state, TranslationState::Arrived));
    assert_eq!(cmd.front_left, 0);
    assert_eq!(cmd.back_right, 0);
}

#[test]
fn translation_waits_for_complete_start_pose() {
    let mut controller = TranslationController::new(500_000, test_config());
    assert!(controller.step(None, Some(0), 0).is_none());
    assert!(matches!(controller.state, TranslationState::AwaitingStartPose));
    assert!(controller.step(Some(Point { x: 0, y: 0 }), None, 10).is_none());
    assert!(matches!(controller.state, TranslationState::AwaitingStartPose));
    assert!(controller.step(Some(Point { x: 0, y: 0 }), Some(0), 20).is_none());
    assert!(matches!(controller.state, TranslationState::Seeking));
}

#[test]
fn translation_timeout_is_strict() {
    // Elapsed time exactly equal to the timeout does not yet time out.
    let mut controller = TranslationController::new(1_000_000, test_config());
    assert!(controller.step(Some(Point { x: 0, y: 0 }), Some(0), 1_000).is_none());
    let cmd = controller.step(Some(Point { x: 0, y: 0 }), Some(0), 31_000);
    assert!(matches!(controller.state, TranslationState::Seeking));
    assert!(cmd.is_some());
    controller.step(Some(Point { x: 0, y: 0 }), Some(0), 31_001);
    assert!(matches!(controller.state, TranslationState::TimedOut));
}

#[test]
fn translation_skips_tick_on_failed_position() {
    let mut controller = TranslationController::new(1_000_000, test_config());
    assert!(controller.step(Some(Point { x: 0, y: 0 }), Some(0), 0).is_none());
    let cmd = controller.step(None, Some(0), 50);
    assert!(cmd.is_none());
    assert!(matches!(controller.state, TranslationState::Seeking));
}

#[test]
fn translation_slow_radius_eases_in() {
    // 300 mm out with an 8 V/m gain: 2.4 V, eased to 1.8 V inside the
    // 400 mm slow radius, floored at the 6 V minimum.
    let mut controller = TranslationController::new(1_000_000, test_config());
    assert!(controller.step(Some(Point { x: 0, y: 0 }), Some(0), 0).is_none());
    let near = Point { x: 999_700, y: 0 };
    let cmd = controller.step(Some(near), Some(0), 50).expect("still seeking");
    assert!(matches!(controller.state, TranslationState::Seeking));
    assert_eq!(cmd.front_left, 6_000);
}

#[test]
fn translation_proportional_command_mid_range() {
    // 500 mm out, outside the slow radius: 8 V/m * 0.5 m = 4 V, floored
    // to the 6 V minimum; at 2 m out the raw 16 V clamps to 12 V.
    let mut controller = TranslationController::new(2_000_000, test_config());
    assert!(controller.step(Some(Point { x: 0, y: 0 }), Some(0), 0).is_none());
    let cmd = controller
        .step(Some(Point { x: 1_999_500, y: 0 }), Some(0), 50)
        .expect("still seeking");
    assert_eq!(cmd.front_left, 6_000);
    let cmd2 = controller.step(Some(Point { x: 0, y: 0 }), Some(0), 100).expect("far away");
    assert_eq!(cmd2.front_left, 12_000);
}
