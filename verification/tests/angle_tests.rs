use mecanum_core::angle::normalize_mdeg;
use mecanum_core::angle::shortest_signed_error;

#[test]
fn shortest_error_examples() {
    // 10 deg from 350 deg: 20 deg forward, not 340 backward.
    assert_eq!(shortest_signed_error(10_000, 350_000), 20_000);
    // 350 deg from 10 deg: 20 deg backward.
    assert_eq!(shortest_signed_error(350_000, 10_000), -20_000);
    // Ties at exactly half a turn resolve to the positive side.
    assert_eq!(shortest_signed_error(0, 180_000), 180_000);
    assert_eq!(shortest_signed_error(180_000, 0), 180_000);
}

#[test]
fn shortest_error_zero_when_equal() {
    assert_eq!(shortest_signed_error(123_456, 123_456), 0);
    assert_eq!(shortest_signed_error(0, 0), 0);
}

#[test]
fn shortest_error_range_and_wrap() {
    // Sweep both angles over the canonical range: the error always lies
    // in (-180, 180] degrees and applying it to `current` reaches
    // `target` after renormalization.
    let mut target: i64 = 0;
    while target < 360_000 {
        let mut current: i64 = 0;
        while current < 360_000 {
            let e = shortest_signed_error(target, current);
            assert!(e > -180_000 && e <= 180_000);
            assert_eq!(normalize_mdeg(current + e), target);
            current += 7_321;
        }
        target += 9_283;
    }
}

#[test]
fn normalize_examples() {
    assert_eq!(normalize_mdeg(0), 0);
    assert_eq!(normalize_mdeg(359_999), 359_999);
    assert_eq!(normalize_mdeg(360_000), 0);
    assert_eq!(normalize_mdeg(-1), 359_999);
    assert_eq!(normalize_mdeg(-50_000), 310_000);
    assert_eq!(normalize_mdeg(725_000), 5_000);
    assert_eq!(normalize_mdeg(-725_000), 355_000);
}
