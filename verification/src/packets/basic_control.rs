//! The control packet the AI sends to a robot.

use crate::bitfields::BasicControlFlags;
use crate::float_bits::F32Bits;
use crate::packets::kicker::{DribblerCommand, KickRequest};
use crate::packets::maneuvers::{
    GlobalAccelerationCommand, GlobalPositionCommand, GlobalVelocityCommand, HeadingLineCommand,
    HeadingPivotCommand, LocalAccelerationCommand, LocalVelocityCommand, PointLineCommand,
    PointPivotCommand,
};
use vstd::prelude::*;
use vstd::std_specs::cmp::PartialEqSpecImpl;

verus! {

/// The body control command; the variant is the body control mode.
#[derive(Clone, Copy, Debug, Default)]
pub enum BodyControlCommand {
    #[default]
    Off,
    EstopBrake,
    GlobalPosition(GlobalPositionCommand),
    GlobalVelocity(GlobalVelocityCommand),
    LocalVelocity(LocalVelocityCommand),
    GlobalAcceleration(GlobalAccelerationCommand),
    LocalAcceleration(LocalAccelerationCommand),
    HeadingPivot(HeadingPivotCommand),
    PointPivot(PointPivotCommand),
    HeadingLine(HeadingLineCommand),
    PointLine(PointLineCommand),
}

impl BodyControlCommand {
    /// The wire tag byte of the variant, which is the body control mode.
    pub open spec fn spec_tag(self) -> u8 {
        match self {
            BodyControlCommand::Off => 0,
            BodyControlCommand::EstopBrake => 1,
            BodyControlCommand::GlobalPosition(_) => 10,
            BodyControlCommand::GlobalVelocity(_) => 11,
            BodyControlCommand::LocalVelocity(_) => 12,
            BodyControlCommand::GlobalAcceleration(_) => 13,
            BodyControlCommand::LocalAcceleration(_) => 14,
            BodyControlCommand::HeadingPivot(_) => 20,
            BodyControlCommand::PointPivot(_) => 21,
            BodyControlCommand::HeadingLine(_) => 30,
            BodyControlCommand::PointLine(_) => 31,
        }
    }

    /// The wire tag byte of the variant, which is the body control mode.
    pub fn tag(&self) -> (r: u8)
        ensures
            r == self.spec_tag(),
    {
        match self {
            BodyControlCommand::Off => 0,
            BodyControlCommand::EstopBrake => 1,
            BodyControlCommand::GlobalPosition(_) => 10,
            BodyControlCommand::GlobalVelocity(_) => 11,
            BodyControlCommand::LocalVelocity(_) => 12,
            BodyControlCommand::GlobalAcceleration(_) => 13,
            BodyControlCommand::LocalAcceleration(_) => 14,
            BodyControlCommand::HeadingPivot(_) => 20,
            BodyControlCommand::PointPivot(_) => 21,
            BodyControlCommand::HeadingLine(_) => 30,
            BodyControlCommand::PointLine(_) => 31,
        }
    }
}

impl PartialEq for BodyControlCommand {
    /// Same mode, and equal commands for the modes that carry one.
    fn eq(&self, other: &Self) -> (r: bool) {
        match (self, other) {
            (BodyControlCommand::Off, BodyControlCommand::Off) => true,
            (BodyControlCommand::EstopBrake, BodyControlCommand::EstopBrake) => true,
            (BodyControlCommand::GlobalPosition(a), BodyControlCommand::GlobalPosition(b)) => a == b,
            (BodyControlCommand::GlobalVelocity(a), BodyControlCommand::GlobalVelocity(b)) => a == b,
            (BodyControlCommand::LocalVelocity(a), BodyControlCommand::LocalVelocity(b)) => a == b,
            (BodyControlCommand::GlobalAcceleration(a), BodyControlCommand::GlobalAcceleration(b)) => a == b,
            (BodyControlCommand::LocalAcceleration(a), BodyControlCommand::LocalAcceleration(b)) => a == b,
            (BodyControlCommand::HeadingPivot(a), BodyControlCommand::HeadingPivot(b)) => a == b,
            (BodyControlCommand::PointPivot(a), BodyControlCommand::PointPivot(b)) => a == b,
            (BodyControlCommand::HeadingLine(a), BodyControlCommand::HeadingLine(b)) => a == b,
            (BodyControlCommand::PointLine(a), BodyControlCommand::PointLine(b)) => a == b,
            _ => false,
        }
    }
}

impl PartialEqSpecImpl for BodyControlCommand {
    open spec fn obeys_eq_spec() -> bool {
        true
    }

    /// Same mode, and equal commands for the modes that carry one.
    open spec fn eq_spec(&self, other: &Self) -> bool {
        match (*self, *other) {
            (BodyControlCommand::Off, BodyControlCommand::Off) => true,
            (BodyControlCommand::EstopBrake, BodyControlCommand::EstopBrake) => true,
            (BodyControlCommand::GlobalPosition(a), BodyControlCommand::GlobalPosition(b)) => a.float_equal(b),
            (BodyControlCommand::GlobalVelocity(a), BodyControlCommand::GlobalVelocity(b)) => a.float_equal(b),
            (BodyControlCommand::LocalVelocity(a), BodyControlCommand::LocalVelocity(b)) => a.float_equal(b),
            (BodyControlCommand::GlobalAcceleration(a), BodyControlCommand::GlobalAcceleration(b)) => a.float_equal(b),
            (BodyControlCommand::LocalAcceleration(a), BodyControlCommand::LocalAcceleration(b)) => a.float_equal(b),
            (BodyControlCommand::HeadingPivot(a), BodyControlCommand::HeadingPivot(b)) => a.float_equal(b),
            (BodyControlCommand::PointPivot(a), BodyControlCommand::PointPivot(b)) => a.float_equal(b),
            (BodyControlCommand::HeadingLine(a), BodyControlCommand::HeadingLine(b)) => a.float_equal(b),
            (BodyControlCommand::PointLine(a), BodyControlCommand::PointLine(b)) => a.float_equal(b),
            _ => false,
        }
    }
}

/// A control packet: flags, a vision measurement to fuse, kicker and dribbler
/// commands, and the body control command.
#[derive(Clone, Copy, Debug, Default)]
pub struct BasicControl {
    /// Control flags (`request_shutdown` to `reset_controller`).
    pub flags: BasicControlFlags,
    /// Vision measurement to fuse before executing this command: three floats.
    pub vision_position_update: [F32Bits; 3],
    pub kick_request: KickRequest,
    pub play_song: u8,
    pub dribbler_mode: DribblerCommand,
    pub _pad: u8,
    /// Kick velocity, a float.
    pub kick_vel: F32Bits,
    /// Dribbler setpoint, a float.
    pub dribbler_setpoint: F32Bits,
    /// The body control command; its variant is the body control mode.
    pub cmd: BodyControlCommand,
}

impl BasicControl {
    /// The body control command of the packet.
    pub fn get_maneuver_command(&self) -> (r: &BodyControlCommand)
        ensures
            *r == self.cmd,
    {
        &self.cmd
    }
}

impl BodyControlCommand {
    /// The float fields of the command of the mode, in declaration order;
    /// none for `Off` and `EstopBrake`.
    pub open spec fn floats(self) -> Seq<F32Bits> {
        match self {
            BodyControlCommand::Off | BodyControlCommand::EstopBrake => Seq::empty(),
            BodyControlCommand::GlobalPosition(c) => c.floats(),
            BodyControlCommand::GlobalVelocity(c) => c.floats(),
            BodyControlCommand::LocalVelocity(c) => c.floats(),
            BodyControlCommand::GlobalAcceleration(c) => c.floats(),
            BodyControlCommand::LocalAcceleration(c) => c.floats(),
            BodyControlCommand::HeadingPivot(c) => c.floats(),
            BodyControlCommand::PointPivot(c) => c.floats(),
            BodyControlCommand::HeadingLine(c) => c.floats(),
            BodyControlCommand::PointLine(c) => c.floats(),
        }
    }
}

impl BasicControl {
    /// The floats the packet carries: the vision update, the kick velocity,
    /// the dribbler setpoint, then the floats of the body control command.
    pub open spec fn floats(self) -> Seq<F32Bits> {
        seq![
            self.vision_position_update[0],
            self.vision_position_update[1],
            self.vision_position_update[2],
            self.kick_vel,
            self.dribbler_setpoint,
        ] + self.cmd.floats()
    }
}

/// The wire tag of a body control command is the C discriminant of its body
/// control mode, whatever the command carries: `Off` 0, `EstopBrake` 1, the
/// global position, global velocity, local velocity, global acceleration and
/// local acceleration modes 10 to 14, heading pivot 20, point pivot 21,
/// heading line 30 and point line 31.
pub proof fn lemma_body_control_command_tags()
    ensures
        BodyControlCommand::Off.spec_tag() == 0,
        BodyControlCommand::EstopBrake.spec_tag() == 1,
        forall|c: GlobalPositionCommand| #[trigger] BodyControlCommand::GlobalPosition(c).spec_tag() == 10,
        forall|c: GlobalVelocityCommand| #[trigger] BodyControlCommand::GlobalVelocity(c).spec_tag() == 11,
        forall|c: LocalVelocityCommand| #[trigger] BodyControlCommand::LocalVelocity(c).spec_tag() == 12,
        forall|c: GlobalAccelerationCommand| #[trigger] BodyControlCommand::GlobalAcceleration(c).spec_tag() == 13,
        forall|c: LocalAccelerationCommand| #[trigger] BodyControlCommand::LocalAcceleration(c).spec_tag() == 14,
        forall|c: HeadingPivotCommand| #[trigger] BodyControlCommand::HeadingPivot(c).spec_tag() == 20,
        forall|c: PointPivotCommand| #[trigger] BodyControlCommand::PointPivot(c).spec_tag() == 21,
        forall|c: HeadingLineCommand| #[trigger] BodyControlCommand::HeadingLine(c).spec_tag() == 30,
        forall|c: PointLineCommand| #[trigger] BodyControlCommand::PointLine(c).spec_tag() == 31,
{
}

} // verus!
