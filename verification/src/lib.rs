//! Wire packet definitions shared between the robot firmware and the AI
//! software: bit-flag words, packet structures, the safety checks applied
//! to incoming control packets, and the C header generator for the flag words.

pub mod bitfields;
pub mod bits;
pub mod codegen;
pub mod decl;
pub mod float_bits;
pub mod layout;
pub mod packets;
pub mod radio;
pub mod text;

pub use bitfields::CcmMotionCommandFlags;
pub use packets::basic_control::{BasicControl, BodyControlCommand};
pub use packets::basic_telemetry::{BasicTelemetry, BodyControlTelemetry};
pub use packets::body_control::{BodyControlExtendedTelemetry, BodyControlManeuverExtendedTelemetry};
pub use packets::discovery::{HelloRequest, HelloResponse, TeamColor};
pub use packets::error_telemetry::ErrorTelemetry;
pub use packets::extended_telemetry::ExtendedTelemetry;
pub use packets::kicker::{DribblerCommand, KickRequest, KickerControl, KickerTelemetry};
pub use packets::maneuvers::{
    ExtendedGlobalAccelerationTelemetry, ExtendedGlobalPositionTelemetry,
    ExtendedGlobalVelocityTelemetry, ExtendedHeadingLineTelemetry, ExtendedHeadingPivotTelemetry,
    ExtendedLocalAccelerationTelemetry, ExtendedLocalVelocityTelemetry, ExtendedPointLineTelemetry,
    ExtendedPointPivotTelemetry, GlobalAccelerationCommand, GlobalAccelerationTelemetry,
    GlobalPositionCommand, GlobalPositionTelemetry, GlobalVelocityCommand, GlobalVelocityTelemetry,
    HeadingLineCommand, HeadingLineTelemetry, HeadingPivotCommand, HeadingPivotTelemetry,
    LocalAccelerationCommand, LocalAccelerationTelemetry, LocalVelocityCommand,
    LocalVelocityTelemetry, PivotDirection, PointLineCommand, PointLineTelemetry, PointPivotCommand,
    PointPivotTelemetry,
};
pub use packets::power::{BatteryInfo, PowerCommand, PowerTelemetry};
pub use packets::radio::{RadioData, RadioHeader, RadioPacket};
pub use packets::robot_parameters::{ParameterCommand, ParameterCommandCode, ParameterData, ParameterName};
pub use packets::stspin_current::{
    CcmCommand, CcmCommandData, CcmCommandType, CcmCurrentTelemetry, CcmMotionCommand,
    CcmMotionControlType, CcmParameter, CcmParameterDirection, CcmParameterOperation,
    CcmParameterPacket, CcmParameterValue, CcmResponse, CcmResponseData, CcmResponseType,
    CcmTelemetry, CcmVelocityTelemetry,
};

use crate::float_bits::{all_finite3, f32_finite, is_finite, F32Bits};
use vstd::prelude::*;

verus! {

/// Largest frame a robot receives: a radio header (8 bytes) and a control
/// packet (88 bytes).
pub const MAX_ROBOT_RX_PACKET_SIZE: usize = 96;

/// Largest frame a robot sends: a radio header (8 bytes) and a debug telemetry
/// packet (560 bytes).
pub const MAX_ROBOT_TX_PACKET_SIZE: usize = 568;

/// A `GlobalPositionCommand` is safe to execute when all its float fields are finite.
pub open spec fn bcm_global_position_safe(c: GlobalPositionCommand) -> bool {
    f32_finite(c.global_x)
        && f32_finite(c.global_y)
        && f32_finite(c.global_theta)
        && f32_finite(c.max_linear_vel)
        && f32_finite(c.max_angular_vel)
        && f32_finite(c.max_linear_acc)
        && f32_finite(c.max_angular_acc)
}

/// Whether every float field of the command is finite.
pub fn is_bcm_global_position_safe(c: &GlobalPositionCommand) -> (r: bool)
    ensures
        r == bcm_global_position_safe(*c),
{
    is_finite(c.global_x)
        && is_finite(c.global_y)
        && is_finite(c.global_theta)
        && is_finite(c.max_linear_vel)
        && is_finite(c.max_angular_vel)
        && is_finite(c.max_linear_acc)
        && is_finite(c.max_angular_acc)
}

/// A `GlobalVelocityCommand` is safe to execute when all its float fields are finite.
pub open spec fn bcm_global_vel_safe(c: GlobalVelocityCommand) -> bool {
    f32_finite(c.global_xd)
        && f32_finite(c.global_yd)
        && f32_finite(c.global_omega)
        && f32_finite(c.max_linear_acc)
        && f32_finite(c.max_angular_acc)
}

/// Whether every float field of the command is finite.
pub fn is_bcm_global_vel_safe(c: &GlobalVelocityCommand) -> (r: bool)
    ensures
        r == bcm_global_vel_safe(*c),
{
    is_finite(c.global_xd)
        && is_finite(c.global_yd)
        && is_finite(c.global_omega)
        && is_finite(c.max_linear_acc)
        && is_finite(c.max_angular_acc)
}

/// A `LocalVelocityCommand` is safe to execute when all its float fields are finite.
pub open spec fn bcm_local_vel_safe(c: LocalVelocityCommand) -> bool {
    f32_finite(c.local_xd)
        && f32_finite(c.local_yd)
        && f32_finite(c.local_omega)
        && f32_finite(c.max_linear_acc)
        && f32_finite(c.max_angular_acc)
}

/// Whether every float field of the command is finite.
pub fn is_bcm_local_vel_safe(c: &LocalVelocityCommand) -> (r: bool)
    ensures
        r == bcm_local_vel_safe(*c),
{
    is_finite(c.local_xd)
        && is_finite(c.local_yd)
        && is_finite(c.local_omega)
        && is_finite(c.max_linear_acc)
        && is_finite(c.max_angular_acc)
}

/// A `GlobalAccelerationCommand` is safe to execute when all its float fields are finite.
pub open spec fn bcm_global_accel_safe(c: GlobalAccelerationCommand) -> bool {
    f32_finite(c.global_xdd)
        && f32_finite(c.global_ydd)
        && f32_finite(c.global_alpha)
}

/// Whether every float field of the command is finite.
pub fn is_bcm_global_accel_safe(c: &GlobalAccelerationCommand) -> (r: bool)
    ensures
        r == bcm_global_accel_safe(*c),
{
    is_finite(c.global_xdd)
        && is_finite(c.global_ydd)
        && is_finite(c.global_alpha)
}

/// A `LocalAccelerationCommand` is safe to execute when all its float fields are finite.
pub open spec fn bcm_local_accel_safe(c: LocalAccelerationCommand) -> bool {
    f32_finite(c.local_xdd)
        && f32_finite(c.local_ydd)
        && f32_finite(c.local_alpha)
}

/// Whether every float field of the command is finite.
pub fn is_bcm_local_accel_safe(c: &LocalAccelerationCommand) -> (r: bool)
    ensures
        r == bcm_local_accel_safe(*c),
{
    is_finite(c.local_xdd)
        && is_finite(c.local_ydd)
        && is_finite(c.local_alpha)
}

/// A `HeadingPivotCommand` is safe to execute when all its float fields are finite.
pub open spec fn bcm_heading_pivot_safe(c: HeadingPivotCommand) -> bool {
    f32_finite(c.global_theta)
        && f32_finite(c.max_angular_vel)
        && f32_finite(c.max_angular_acc)
        && f32_finite(c.orbit_radius)
        && f32_finite(c.inset_angle)
}

/// Whether every float field of the command is finite.
pub fn is_bcm_heading_pivot_safe(c: &HeadingPivotCommand) -> (r: bool)
    ensures
        r == bcm_heading_pivot_safe(*c),
{
    is_finite(c.global_theta)
        && is_finite(c.max_angular_vel)
        && is_finite(c.max_angular_acc)
        && is_finite(c.orbit_radius)
        && is_finite(c.inset_angle)
}

/// A `PointPivotCommand` is safe to execute when all its float fields are finite.
pub open spec fn bcm_point_pivot_safe(c: PointPivotCommand) -> bool {
    f32_finite(c.target_x)
        && f32_finite(c.target_y)
        && f32_finite(c.max_angular_vel)
        && f32_finite(c.max_angular_acc)
        && f32_finite(c.orbit_radius)
        && f32_finite(c.inset_angle)
}

/// Whether every float field of the command is finite.
pub fn is_bcm_point_pivot_safe(c: &PointPivotCommand) -> (r: bool)
    ensures
        r == bcm_point_pivot_safe(*c),
{
    is_finite(c.target_x)
        && is_finite(c.target_y)
        && is_finite(c.max_angular_vel)
        && is_finite(c.max_angular_acc)
        && is_finite(c.orbit_radius)
        && is_finite(c.inset_angle)
}

/// A `HeadingLineCommand` is safe to execute when all its float fields are finite.
pub open spec fn bcm_heading_line_safe(c: HeadingLineCommand) -> bool {
    f32_finite(c.start_x)
        && f32_finite(c.start_y)
        && f32_finite(c.dir_x)
        && f32_finite(c.dir_y)
        && f32_finite(c.line_velocity)
        && f32_finite(c.global_theta)
        && f32_finite(c.max_vel_colinear)
        && f32_finite(c.max_vel_perp)
        && f32_finite(c.max_vel_angular)
        && f32_finite(c.max_accel_colinear)
        && f32_finite(c.max_accel_perp)
        && f32_finite(c.max_accel_angular)
        && f32_finite(c.colinear_start_thresh)
}

/// Whether every float field of the command is finite.
pub fn is_bcm_heading_line_safe(c: &HeadingLineCommand) -> (r: bool)
    ensures
        r == bcm_heading_line_safe(*c),
{
    is_finite(c.start_x)
        && is_finite(c.start_y)
        && is_finite(c.dir_x)
        && is_finite(c.dir_y)
        && is_finite(c.line_velocity)
        && is_finite(c.global_theta)
        && is_finite(c.max_vel_colinear)
        && is_finite(c.max_vel_perp)
        && is_finite(c.max_vel_angular)
        && is_finite(c.max_accel_colinear)
        && is_finite(c.max_accel_perp)
        && is_finite(c.max_accel_angular)
        && is_finite(c.colinear_start_thresh)
}

/// A `PointLineCommand` is safe to execute when all its float fields are finite.
pub open spec fn bcm_point_line_safe(c: PointLineCommand) -> bool {
    f32_finite(c.start_x)
        && f32_finite(c.start_y)
        && f32_finite(c.dir_x)
        && f32_finite(c.dir_y)
        && f32_finite(c.line_velocity)
        && f32_finite(c.target_x)
        && f32_finite(c.target_y)
        && f32_finite(c.max_vel_colinear)
        && f32_finite(c.max_vel_perp)
        && f32_finite(c.max_vel_angular)
        && f32_finite(c.max_accel_colinear)
        && f32_finite(c.max_accel_perp)
        && f32_finite(c.max_accel_angular)
        && f32_finite(c.colinear_start_thresh)
}

/// Whether every float field of the command is finite.
pub fn is_bcm_point_line_safe(c: &PointLineCommand) -> (r: bool)
    ensures
        r == bcm_point_line_safe(*c),
{
    is_finite(c.start_x)
        && is_finite(c.start_y)
        && is_finite(c.dir_x)
        && is_finite(c.dir_y)
        && is_finite(c.line_velocity)
        && is_finite(c.target_x)
        && is_finite(c.target_y)
        && is_finite(c.max_vel_colinear)
        && is_finite(c.max_vel_perp)
        && is_finite(c.max_vel_angular)
        && is_finite(c.max_accel_colinear)
        && is_finite(c.max_accel_perp)
        && is_finite(c.max_accel_angular)
        && is_finite(c.colinear_start_thresh)
}

/// A body control command is safe when the command of its mode is safe; the
/// `Off` and `EstopBrake` modes carry no values and are always safe.
pub open spec fn bcm_command_safe(cmd: BodyControlCommand) -> bool {
    match cmd {
        BodyControlCommand::Off | BodyControlCommand::EstopBrake => true,
        BodyControlCommand::GlobalPosition(c) => bcm_global_position_safe(c),
        BodyControlCommand::GlobalVelocity(c) => bcm_global_vel_safe(c),
        BodyControlCommand::LocalVelocity(c) => bcm_local_vel_safe(c),
        BodyControlCommand::GlobalAcceleration(c) => bcm_global_accel_safe(c),
        BodyControlCommand::LocalAcceleration(c) => bcm_local_accel_safe(c),
        BodyControlCommand::HeadingPivot(c) => bcm_heading_pivot_safe(c),
        BodyControlCommand::PointPivot(c) => bcm_point_pivot_safe(c),
        BodyControlCommand::HeadingLine(c) => bcm_heading_line_safe(c),
        BodyControlCommand::PointLine(c) => bcm_point_line_safe(c),
    }
}

/// A control packet is safe to act on when the vision update, the kick
/// velocity, the dribbler setpoint and the body control command are all
/// finite.
pub open spec fn basic_control_packet_safe(bc: BasicControl) -> bool {
    &&& f32_finite(bc.vision_position_update[0])
    &&& f32_finite(bc.vision_position_update[1])
    &&& f32_finite(bc.vision_position_update[2])
    &&& f32_finite(bc.kick_vel)
    &&& f32_finite(bc.dribbler_setpoint)
    &&& bcm_command_safe(bc.cmd)
}

/// Whether a control packet is safe to act on: every float it carries in the
/// vision update, the kicker and dribbler values and the command of its body
/// control mode is finite.
pub fn is_basic_control_packet_safe(bc: &BasicControl) -> (r: bool)
    ensures
        r == basic_control_packet_safe(*bc),
{
    let vision_ok = all_finite3(&bc.vision_position_update);
    let kicker_ok = is_finite(bc.kick_vel) && is_finite(bc.dribbler_setpoint);
    let cmd_ok = match &bc.cmd {
        BodyControlCommand::Off | BodyControlCommand::EstopBrake => true,
        BodyControlCommand::GlobalPosition(c) => is_bcm_global_position_safe(c),
        BodyControlCommand::GlobalVelocity(c) => is_bcm_global_vel_safe(c),
        BodyControlCommand::LocalVelocity(c) => is_bcm_local_vel_safe(c),
        BodyControlCommand::GlobalAcceleration(c) => is_bcm_global_accel_safe(c),
        BodyControlCommand::LocalAcceleration(c) => is_bcm_local_accel_safe(c),
        BodyControlCommand::HeadingPivot(c) => is_bcm_heading_pivot_safe(c),
        BodyControlCommand::PointPivot(c) => is_bcm_point_pivot_safe(c),
        BodyControlCommand::HeadingLine(c) => is_bcm_heading_line_safe(c),
        BodyControlCommand::PointLine(c) => is_bcm_point_line_safe(c),
    };
    vision_ok && kicker_ok && cmd_ok
}

/// Whether every float of `s` is finite.
pub open spec fn all_floats_finite(s: Seq<F32Bits>) -> bool {
    forall|i: int| 0 <= i < s.len() ==> f32_finite(#[trigger] s[i])
}

/// A body control command is judged safe exactly when every float it carries
/// is finite: a single infinite or NaN field of the command of its mode makes
/// it unsafe, and commands without floats are always safe.
pub proof fn lemma_command_safe_iff_floats_finite(cmd: BodyControlCommand)
    ensures
        bcm_command_safe(cmd) == all_floats_finite(cmd.floats()),
{
    let s = cmd.floats();
    if bcm_command_safe(cmd) {
        assert forall|i: int| 0 <= i < s.len() implies f32_finite(#[trigger] s[i]) by {}
    }
    if all_floats_finite(s) {
        assert(s.len() > 0 ==> f32_finite(s[0]));
        assert(s.len() > 1 ==> f32_finite(s[1]));
        assert(s.len() > 2 ==> f32_finite(s[2]));
        assert(s.len() > 3 ==> f32_finite(s[3]));
        assert(s.len() > 4 ==> f32_finite(s[4]));
        assert(s.len() > 5 ==> f32_finite(s[5]));
        assert(s.len() > 6 ==> f32_finite(s[6]));
        assert(s.len() > 7 ==> f32_finite(s[7]));
        assert(s.len() > 8 ==> f32_finite(s[8]));
        assert(s.len() > 9 ==> f32_finite(s[9]));
        assert(s.len() > 10 ==> f32_finite(s[10]));
        assert(s.len() > 11 ==> f32_finite(s[11]));
        assert(s.len() > 12 ==> f32_finite(s[12]));
        assert(s.len() > 13 ==> f32_finite(s[13]));
    }
}

/// A control packet is judged safe exactly when every float it carries is
/// finite: the three vision values, the kick velocity, the dribbler setpoint
/// and every float of its body control command.
pub proof fn lemma_packet_safe_iff_floats_finite(bc: BasicControl)
    ensures
        basic_control_packet_safe(bc) == all_floats_finite(bc.floats()),
{
    lemma_command_safe_iff_floats_finite(bc.cmd);
    let head = seq![
        bc.vision_position_update[0],
        bc.vision_position_update[1],
        bc.vision_position_update[2],
        bc.kick_vel,
        bc.dribbler_setpoint,
    ];
    let c = bc.cmd.floats();
    let s = bc.floats();
    assert(s == head + c);
    assert forall|i: int| 0 <= i < c.len() implies #[trigger] s[i + 5] == c[i] by {}
    if all_floats_finite(s) {
        assert(f32_finite(s[0]) && f32_finite(s[1]) && f32_finite(s[2]) && f32_finite(s[3]) && f32_finite(s[4]));
        assert forall|i: int| 0 <= i < c.len() implies f32_finite(#[trigger] c[i]) by {
            assert(f32_finite(s[i + 5]));
        }
    }
    if basic_control_packet_safe(bc) {
        assert forall|i: int| 0 <= i < s.len() implies f32_finite(#[trigger] s[i]) by {
            if i >= 5 {
                assert(s[i] == c[i - 5]);
            }
        }
    }
}

} // verus!
