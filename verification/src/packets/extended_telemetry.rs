//! The debug telemetry packet with the state of every board.

use crate::packets::body_control::BodyControlExtendedTelemetry;
use crate::packets::kicker::KickerTelemetry;
use crate::packets::power::PowerTelemetry;
use crate::packets::stspin_current::CcmTelemetry;
use vstd::prelude::*;

verus! {

/// Timestamped reports of the power board, the four wheel motors, the body
/// controller and the kicker board.
#[derive(Clone, Copy, Debug)]
pub struct ExtendedTelemetry {
    pub timestamp_us_lo: u32,
    pub timestamp_us_hi: u32,
    pub power_status: PowerTelemetry,
    pub front_left_motor: CcmTelemetry,
    pub back_left_motor: CcmTelemetry,
    pub back_right_motor: CcmTelemetry,
    pub front_right_motor: CcmTelemetry,
    pub body_control_telemetry: BodyControlExtendedTelemetry,
    pub kicker_status: KickerTelemetry,
}

} // verus!
