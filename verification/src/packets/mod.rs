//! The packet types exchanged over the radio link and the robot-internal buses.
//!
//! Float fields are held as their IEEE 754 bit patterns (`F32Bits`), which is
//! how they travel on the wire.

pub mod basic_control;
pub mod basic_telemetry;
pub mod body_control;
pub mod discovery;
pub mod error_telemetry;
pub mod extended_telemetry;
pub mod kicker;
pub mod maneuvers;
pub mod power;
pub mod radio;
pub mod robot_parameters;
pub mod stspin_current;
