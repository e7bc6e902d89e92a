//! Extended telemetry of the body controller.

use crate::bitfields::BodyControlExtTelemetryFlags;
use crate::float_bits::F32Bits;
use crate::packets::maneuvers::{
    ExtendedGlobalAccelerationTelemetry, ExtendedGlobalPositionTelemetry,
    ExtendedGlobalVelocityTelemetry, ExtendedHeadingLineTelemetry, ExtendedHeadingPivotTelemetry,
    ExtendedLocalAccelerationTelemetry, ExtendedLocalVelocityTelemetry,
    ExtendedPointLineTelemetry, ExtendedPointPivotTelemetry,
};
use vstd::prelude::*;

verus! {

/// Extended telemetry of the body control mode in effect; the variant is the mode.
#[derive(Clone, Copy, Debug, Default)]
pub enum BodyControlManeuverExtendedTelemetry {
    #[default]
    Off,
    EstopBrake,
    GlobalPosition(ExtendedGlobalPositionTelemetry),
    GlobalVelocity(ExtendedGlobalVelocityTelemetry),
    LocalVelocity(ExtendedLocalVelocityTelemetry),
    GlobalAcceleration(ExtendedGlobalAccelerationTelemetry),
    LocalAcceleration(ExtendedLocalAccelerationTelemetry),
    HeadingPivot(ExtendedHeadingPivotTelemetry),
    PointPivot(ExtendedPointPivotTelemetry),
    HeadingLine(ExtendedHeadingLineTelemetry),
    PointLine(ExtendedPointLineTelemetry),
}

impl BodyControlManeuverExtendedTelemetry {
    /// The wire tag byte of the variant, which is the body control mode.
    pub open spec fn spec_tag(self) -> u8 {
        match self {
            BodyControlManeuverExtendedTelemetry::Off => 0,
            BodyControlManeuverExtendedTelemetry::EstopBrake => 1,
            BodyControlManeuverExtendedTelemetry::GlobalPosition(_) => 10,
            BodyControlManeuverExtendedTelemetry::GlobalVelocity(_) => 11,
            BodyControlManeuverExtendedTelemetry::LocalVelocity(_) => 12,
            BodyControlManeuverExtendedTelemetry::GlobalAcceleration(_) => 13,
            BodyControlManeuverExtendedTelemetry::LocalAcceleration(_) => 14,
            BodyControlManeuverExtendedTelemetry::HeadingPivot(_) => 20,
            BodyControlManeuverExtendedTelemetry::PointPivot(_) => 21,
            BodyControlManeuverExtendedTelemetry::HeadingLine(_) => 30,
            BodyControlManeuverExtendedTelemetry::PointLine(_) => 31,
        }
    }

    /// The wire tag byte of the variant, which is the body control mode.
    pub fn tag(&self) -> (r: u8)
        ensures
            r == self.spec_tag(),
    {
        match self {
            BodyControlManeuverExtendedTelemetry::Off => 0,
            BodyControlManeuverExtendedTelemetry::EstopBrake => 1,
            BodyControlManeuverExtendedTelemetry::GlobalPosition(_) => 10,
            BodyControlManeuverExtendedTelemetry::GlobalVelocity(_) => 11,
            BodyControlManeuverExtendedTelemetry::LocalVelocity(_) => 12,
            BodyControlManeuverExtendedTelemetry::GlobalAcceleration(_) => 13,
            BodyControlManeuverExtendedTelemetry::LocalAcceleration(_) => 14,
            BodyControlManeuverExtendedTelemetry::HeadingPivot(_) => 20,
            BodyControlManeuverExtendedTelemetry::PointPivot(_) => 21,
            BodyControlManeuverExtendedTelemetry::HeadingLine(_) => 30,
            BodyControlManeuverExtendedTelemetry::PointLine(_) => 31,
        }
    }
}

/// The body controller's full state: flags, the maneuver telemetry, and the
/// IMU, vision, trajectory, filter and control vectors, each three floats.
#[derive(Clone, Copy, Debug, Default)]
pub struct BodyControlExtendedTelemetry {
    pub flags: BodyControlExtTelemetryFlags,
    pub _reserved: [u8; 3],
    pub maneuver: BodyControlManeuverExtendedTelemetry,
    pub imu_gyro: [F32Bits; 3],
    pub imu_accel: [F32Bits; 3],
    pub vision_pose: [F32Bits; 3],
    pub body_traj_pos: [F32Bits; 3],
    pub body_traj_vel: [F32Bits; 3],
    pub kf_body_pos_prediction: [F32Bits; 3],
    pub kf_body_vel_prediction: [F32Bits; 3],
    pub kf_body_pos_estimate: [F32Bits; 3],
    pub kf_body_vel_estimate: [F32Bits; 3],
    pub body_vel_u: [F32Bits; 3],
    pub body_accel_u: [F32Bits; 3],
    pub body_accel_u_fric_comp: [F32Bits; 3],
}

impl BodyControlExtendedTelemetry {
    /// Replaces the maneuver telemetry, leaving every other field as it was.
    pub fn set_maneuver_telemetry(&mut self, telem: BodyControlManeuverExtendedTelemetry)
        ensures
            *final(self) == (BodyControlExtendedTelemetry { maneuver: telem, ..*old(self) }),
    {
        self.maneuver = telem;
    }
}

/// The wire tag of extended maneuver telemetry is the C discriminant of its
/// body control mode, whatever it carries: `Off` 0, `EstopBrake` 1, the global
/// position, global velocity, local velocity, global acceleration and local
/// acceleration modes 10 to 14, heading pivot 20, point pivot 21, heading line
/// 30 and point line 31.
pub proof fn lemma_maneuver_telemetry_tags()
    ensures
        BodyControlManeuverExtendedTelemetry::Off.spec_tag() == 0,
        BodyControlManeuverExtendedTelemetry::EstopBrake.spec_tag() == 1,
        forall|c: ExtendedGlobalPositionTelemetry| #[trigger] BodyControlManeuverExtendedTelemetry::GlobalPosition(c).spec_tag() == 10,
        forall|c: ExtendedGlobalVelocityTelemetry| #[trigger] BodyControlManeuverExtendedTelemetry::GlobalVelocity(c).spec_tag() == 11,
        forall|c: ExtendedLocalVelocityTelemetry| #[trigger] BodyControlManeuverExtendedTelemetry::LocalVelocity(c).spec_tag() == 12,
        forall|c: ExtendedGlobalAccelerationTelemetry| #[trigger] BodyControlManeuverExtendedTelemetry::GlobalAcceleration(c).spec_tag() == 13,
        forall|c: ExtendedLocalAccelerationTelemetry| #[trigger] BodyControlManeuverExtendedTelemetry::LocalAcceleration(c).spec_tag() == 14,
        forall|c: ExtendedHeadingPivotTelemetry| #[trigger] BodyControlManeuverExtendedTelemetry::HeadingPivot(c).spec_tag() == 20,
        forall|c: ExtendedPointPivotTelemetry| #[trigger] BodyControlManeuverExtendedTelemetry::PointPivot(c).spec_tag() == 21,
        forall|c: ExtendedHeadingLineTelemetry| #[trigger] BodyControlManeuverExtendedTelemetry::HeadingLine(c).spec_tag() == 30,
        forall|c: ExtendedPointLineTelemetry| #[trigger] BodyControlManeuverExtendedTelemetry::PointLine(c).spec_tag() == 31,
{
}

} // verus!
