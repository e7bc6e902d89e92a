//! The periodic status report a robot sends to the AI.

use crate::bitfields::BasicTelemetryErrors;
use crate::packets::maneuvers::{
    GlobalAccelerationTelemetry, GlobalPositionTelemetry, GlobalVelocityTelemetry,
    HeadingLineTelemetry, HeadingPivotTelemetry, LocalAccelerationTelemetry,
    LocalVelocityTelemetry, PointLineTelemetry, PointPivotTelemetry,
};
use vstd::prelude::*;

verus! {

/// Telemetry of the body control mode in effect; the variant is the mode.
#[derive(Clone, Copy, Debug, Default)]
pub enum BodyControlTelemetry {
    #[default]
    Off,
    EstopBrake,
    GlobalPosition(GlobalPositionTelemetry),
    GlobalVelocity(GlobalVelocityTelemetry),
    LocalVelocity(LocalVelocityTelemetry),
    GlobalAcceleration(GlobalAccelerationTelemetry),
    LocalAcceleration(LocalAccelerationTelemetry),
    HeadingPivot(HeadingPivotTelemetry),
    PointPivot(PointPivotTelemetry),
    HeadingLine(HeadingLineTelemetry),
    PointLine(PointLineTelemetry),
}

impl BodyControlTelemetry {
    /// The wire tag byte of the variant.
    pub open spec fn spec_tag(self) -> u8 {
        match self {
            BodyControlTelemetry::Off => 0,
            BodyControlTelemetry::EstopBrake => 1,
            BodyControlTelemetry::GlobalPosition(_) => 10,
            BodyControlTelemetry::GlobalVelocity(_) => 11,
            BodyControlTelemetry::LocalVelocity(_) => 12,
            BodyControlTelemetry::GlobalAcceleration(_) => 13,
            BodyControlTelemetry::LocalAcceleration(_) => 14,
            BodyControlTelemetry::HeadingPivot(_) => 20,
            BodyControlTelemetry::PointPivot(_) => 21,
            BodyControlTelemetry::HeadingLine(_) => 30,
            BodyControlTelemetry::PointLine(_) => 31,
        }
    }

    /// The wire tag byte of the variant.
    pub fn tag(&self) -> (r: u8)
        ensures
            r == self.spec_tag(),
    {
        match self {
            BodyControlTelemetry::Off => 0,
            BodyControlTelemetry::EstopBrake => 1,
            BodyControlTelemetry::GlobalPosition(_) => 10,
            BodyControlTelemetry::GlobalVelocity(_) => 11,
            BodyControlTelemetry::LocalVelocity(_) => 12,
            BodyControlTelemetry::GlobalAcceleration(_) => 13,
            BodyControlTelemetry::LocalAcceleration(_) => 14,
            BodyControlTelemetry::HeadingPivot(_) => 20,
            BodyControlTelemetry::PointPivot(_) => 21,
            BodyControlTelemetry::HeadingLine(_) => 30,
            BodyControlTelemetry::PointLine(_) => 31,
        }
    }
}

/// The basic status report: sequence numbers, error flags, charge levels,
/// body control telemetry and the quantized Kalman filter estimates.
#[derive(Clone, Copy, Debug, Default)]
pub struct BasicTelemetry {
    pub transmission_sequence_number: u8,
    pub control_data_sequence_number: u8,
    pub _reserved: [u8; 2],
    pub errors: BasicTelemetryErrors,
    pub battery_percent: u16,
    pub kicker_charge_percent: u16,
    /// Body control telemetry; its variant is the body control mode.
    pub control_telem: BodyControlTelemetry,
    /// Quantized position estimate: x in mm, y in mm, theta in mrad.
    pub kf_body_pos_estimate: [i16; 3],
    /// Quantized velocity estimate: vx in mm/s, vy in mm/s, omega in mrad/s.
    pub kf_body_vel_estimate: [i16; 3],
}

impl BasicTelemetry {
    /// Replaces the body control telemetry, leaving every other field as it was.
    pub fn set_maneuver_telemetry(&mut self, telem: BodyControlTelemetry)
        ensures
            *final(self) == (BasicTelemetry { control_telem: telem, ..*old(self) }),
    {
        self.control_telem = telem;
    }
}

/// The wire tag of body control telemetry is the C discriminant of its body
/// control mode, whatever the telemetry carries: `Off` 0, `EstopBrake` 1, the
/// global position, global velocity, local velocity, global acceleration and
/// local acceleration modes 10 to 14, heading pivot 20, point pivot 21,
/// heading line 30 and point line 31.
pub proof fn lemma_body_control_telemetry_tags()
    ensures
        BodyControlTelemetry::Off.spec_tag() == 0,
        BodyControlTelemetry::EstopBrake.spec_tag() == 1,
        forall|c: GlobalPositionTelemetry| #[trigger] BodyControlTelemetry::GlobalPosition(c).spec_tag() == 10,
        forall|c: GlobalVelocityTelemetry| #[trigger] BodyControlTelemetry::GlobalVelocity(c).spec_tag() == 11,
        forall|c: LocalVelocityTelemetry| #[trigger] BodyControlTelemetry::LocalVelocity(c).spec_tag() == 12,
        forall|c: GlobalAccelerationTelemetry| #[trigger] BodyControlTelemetry::GlobalAcceleration(c).spec_tag() == 13,
        forall|c: LocalAccelerationTelemetry| #[trigger] BodyControlTelemetry::LocalAcceleration(c).spec_tag() == 14,
        forall|c: HeadingPivotTelemetry| #[trigger] BodyControlTelemetry::HeadingPivot(c).spec_tag() == 20,
        forall|c: PointPivotTelemetry| #[trigger] BodyControlTelemetry::PointPivot(c).spec_tag() == 21,
        forall|c: HeadingLineTelemetry| #[trigger] BodyControlTelemetry::HeadingLine(c).spec_tag() == 30,
        forall|c: PointLineTelemetry| #[trigger] BodyControlTelemetry::PointLine(c).spec_tag() == 31,
{
}

} // verus!
