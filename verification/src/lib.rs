//! Core motion logic for a four-wheel mecanum robot.
//!
//! The crate estimates the robot's pose from intermittently failing sensors
//! and turns motion intents ("turn to heading H", "drive forward D") into
//! per-wheel voltage commands.  Every quantity is a fixed-point integer:
//!
//! - angles in millidegrees, canonicalized to `[0, 360_000)`;
//! - distances in millimeters (odometry accumulates in micrometers);
//! - voltages in millivolts;
//! - time in milliseconds.
//!
//! The controllers are written as step functions: each tick the caller hands
//! in the latest sensor reading and the clock, and receives the next wheel
//! command.  Sleeping between ticks and talking to the actual sensor and
//! motor hardware is the caller's business; the decisions are all here.

pub mod angle;
pub mod forklift;
pub mod geom;
pub mod gps;
pub mod mechanisms;
pub mod kinematics;
pub mod num;
pub mod odometry;
pub mod rotation;
pub mod teams;
pub mod translation;
pub mod trig;

pub use angle::normalize_mdeg;
pub use angle::shortest_signed_error;
