use mecanum_core::odometry::MecanumOdometry;
use mecanum_core::odometry::OdometryPose;

fn origin_pose() -> OdometryPose {
    OdometryPose { x_um: 0, y_um: 0, theta_mdeg: 0 }
}

#[test]
fn odometry_forward_motion() {
    // 100 ticks on every wheel at 1000 micrometers per tick: 100 mm
    // straight ahead, no strafe, no rotation.
    let mut odometry = MecanumOdometry::new(0, 0, 0, 0, origin_pose(), 1_000, 100_000);
    let pose = odometry.update(100, 100, 100, 100);
    assert_eq!(pose.x_um, 100_000);
    assert_eq!(pose.y_um, 0);
    assert_eq!(pose.theta_mdeg, 0);
}

#[test]
fn odometry_idempotent_under_zero_deltas() {
    // Feeding identical cumulative tick counts twice changes nothing
    // after the first call.
    let mut odometry = MecanumOdometry::new(0, 0, 0, 0, origin_pose(), 1_000, 100_000);
    let first = odometry.update(123, -45, 67, 89);
    let second = odometry.update(123, -45, 67, 89);
    assert_eq!(first, second);
    assert_eq!(odometry.get_pose(), first);
    let third = odometry.update(123, -45, 67, 89);
    assert_eq!(first, third);
}

#[test]
fn odometry_pure_rotation() {
    // Left wheels forward, right wheels back, rotation share equal to
    // the geometry constant: one radian clockwise, position unchanged.
    let mut odometry = MecanumOdometry::new(0, 0, 0, 0, origin_pose(), 1_000, 100_000);
    let pose = odometry.update(100, -100, 100, -100);
    assert_eq!(pose.x_um, 0);
    assert_eq!(pose.y_um, 0);
    assert_eq!(pose.theta_mdeg, 57_296);
}

#[test]
fn odometry_heading_normalizes_after_update() {
    let start = OdometryPose { x_um: 0, y_um: 0, theta_mdeg: 359_000 };
    let mut odometry = MecanumOdometry::new(0, 0, 0, 0, start, 1_000, 100_000);
    let pose = odometry.update(100, -100, 100, -100);
    assert_eq!(pose.theta_mdeg, (359_000 + 57_296) % 360_000);
}

#[test]
fn odometry_zero_geometry_pins_rotation() {
    // An unset wheel-geometry constant fails safe: the rotation estimate
    // stays zero instead of dividing by zero.
    let mut odometry = MecanumOdometry::new(0, 0, 0, 0, origin_pose(), 1_000, 0);
    let pose = odometry.update(100, -100, 100, -100);
    assert_eq!(pose.theta_mdeg, 0);
}

#[test]
fn odometry_rotates_displacement_by_previous_heading() {
    // Facing 90 degrees: driving "forward" in the body frame moves the
    // robot along global +y, using the heading from before the step.
    let start = OdometryPose { x_um: 0, y_um: 0, theta_mdeg: 90_000 };
    let mut odometry = MecanumOdometry::new(0, 0, 0, 0, start, 1_000, 100_000);
    let pose = odometry.update(100, 100, 100, 100);
    assert_eq!(pose.x_um, 0);
    assert_eq!(pose.y_um, 100_000);
    assert_eq!(pose.theta_mdeg, 90_000);
}

#[test]
fn odometry_accumulates_across_updates() {
    let mut odometry = MecanumOdometry::new(0, 0, 0, 0, origin_pose(), 1_000, 100_000);
    odometry.update(100, 100, 100, 100);
    let pose = odometry.update(300, 300, 300, 300);
    assert_eq!(pose.x_um, 300_000);
    assert_eq!(odometry.get_pose(), pose);
}

#[test]
fn odometry_strafe_motion() {
    // The strafe sign pattern: front-left and back-right negative moves
    // the robot to its right without turning.
    let mut odometry = MecanumOdometry::new(0, 0, 0, 0, origin_pose(), 1_000, 100_000);
    let pose = odometry.update(-100, 100, 100, -100);
    assert_eq!(pose.x_um, 0);
    assert_eq!(pose.y_um, 100_000);
    assert_eq!(pose.theta_mdeg, 0);
}
