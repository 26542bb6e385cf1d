use mecanum_core::kinematics::accumulate;
use mecanum_core::kinematics::drive_vector;

#[test]
fn forward_drives_all_wheels_equally() {
    let w = drive_vector(5_000, 0, 0, 12_000);
    assert_eq!(w.front_left, 5_000);
    assert_eq!(w.front_right, 5_000);
    assert_eq!(w.back_left, 5_000);
    assert_eq!(w.back_right, 5_000);
}

#[test]
fn strafe_sign_pattern() {
    let w = drive_vector(0, 5_000, 0, 12_000);
    assert_eq!(w.front_left, -5_000);
    assert_eq!(w.front_right, 5_000);
    assert_eq!(w.back_left, 5_000);
    assert_eq!(w.back_right, -5_000);
}

#[test]
fn rotation_left_against_right() {
    // Positive rotation: left wheels forward, right wheels backward.
    let w = drive_vector(0, 0, 4_000, 12_000);
    assert_eq!(w.front_left, 4_000);
    assert_eq!(w.back_left, 4_000);
    assert_eq!(w.front_right, -4_000);
    assert_eq!(w.back_right, -4_000);
}

#[test]
fn joint_scaling_preserves_direction() {
    // Forward + strafe mixes to (0, 24000, 24000, 0); the peak exceeds
    // the 12000 limit, so all four are scaled by the same 1/2.
    let w = drive_vector(12_000, 12_000, 0, 12_000);
    assert_eq!(w.front_left, 0);
    assert_eq!(w.front_right, 12_000);
    assert_eq!(w.back_left, 12_000);
    assert_eq!(w.back_right, 0);
}

#[test]
fn joint_scaling_bounds_every_wheel() {
    let w = drive_vector(9_000, -7_000, 5_000, 6_000);
    assert!(w.front_left.abs() <= 6_000);
    assert!(w.front_right.abs() <= 6_000);
    assert!(w.back_left.abs() <= 6_000);
    assert!(w.back_right.abs() <= 6_000);
}

#[test]
fn accumulate_pure_forward() {
    let d = accumulate(1_000, 1_000, 1_000, 1_000, 100_000);
    assert_eq!(d.dx, 1_000);
    assert_eq!(d.dy, 0);
    assert_eq!(d.dtheta_mdeg, 0);
}

#[test]
fn accumulate_pure_rotation() {
    // Rotation share equals the geometry constant: one radian, in
    // millidegrees.
    let d = accumulate(100_000, -100_000, 100_000, -100_000, 100_000);
    assert_eq!(d.dx, 0);
    assert_eq!(d.dy, 0);
    assert_eq!(d.dtheta_mdeg, 57_296);
}

#[test]
fn accumulate_zero_geometry_fails_safe() {
    let d = accumulate(100_000, -100_000, 100_000, -100_000, 0);
    assert_eq!(d.dtheta_mdeg, 0);
    assert_eq!(d.dx, 0);
    assert_eq!(d.dy, 0);
}

#[test]
fn round_trip_zero_rotation() {
    // Driving a pure-translation intent and accumulating the commanded
    // wheel amounts recovers the intent exactly.
    let w = drive_vector(3_000, 1_200, 0, 12_000);
    assert_eq!(
        (w.front_left, w.front_right, w.back_left, w.back_right),
        (1_800, 4_200, 4_200, 1_800)
    );
    let d = accumulate(w.front_left, w.front_right, w.back_left, w.back_right, 77_000);
    assert_eq!(d.dx, 3_000);
    assert_eq!(d.dy, 1_200);
    assert_eq!(d.dtheta_mdeg, 0);
}
