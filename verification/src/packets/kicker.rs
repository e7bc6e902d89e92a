//! Kicker board commands and telemetry.

use crate::bitfields::{KickerCommandFlags, KickerStatusFlags};
use crate::float_bits::F32Bits;
use crate::packets::stspin_current::CcmTelemetry;
use vstd::prelude::*;

verus! {

/// What the kicker should do with the ball.
#[derive(Clone, Copy, Debug, PartialEq, Eq, Structural, Default)]
pub enum KickRequest {
    #[default]
    Disable,
    Arm,
    KickNow,
    KickTouch,
    KickCaptured,
    ChipNow,
    ChipTouch,
    ChipCaptured,
}

impl KickRequest {
    /// The wire value of the variant.
    pub open spec fn spec_wire_value(self) -> u8 {
        match self {
            KickRequest::Disable => 0u8,
            KickRequest::Arm => 1u8,
            KickRequest::KickNow => 2u8,
            KickRequest::KickTouch => 3u8,
            KickRequest::KickCaptured => 4u8,
            KickRequest::ChipNow => 5u8,
            KickRequest::ChipTouch => 6u8,
            KickRequest::ChipCaptured => 7u8,
        }
    }

    /// The wire value of the variant.
    pub fn wire_value(self) -> (r: u8)
        ensures
            r == (match self {
                KickRequest::Disable => 0u8,
                KickRequest::Arm => 1u8,
                KickRequest::KickNow => 2u8,
                KickRequest::KickTouch => 3u8,
                KickRequest::KickCaptured => 4u8,
                KickRequest::ChipNow => 5u8,
                KickRequest::ChipTouch => 6u8,
                KickRequest::ChipCaptured => 7u8,
            }),
            r == self.spec_wire_value(),
    {
        match self {
            KickRequest::Disable => 0,
            KickRequest::Arm => 1,
            KickRequest::KickNow => 2,
            KickRequest::KickTouch => 3,
            KickRequest::KickCaptured => 4,
            KickRequest::ChipNow => 5,
            KickRequest::ChipTouch => 6,
            KickRequest::ChipCaptured => 7,
        }
    }
}

/// How the dribbler should run.
#[derive(Clone, Copy, Debug, PartialEq, Eq, Structural, Default)]
pub enum DribblerCommand {
    #[default]
    Disable,
    HardReceive,
    SoftReceive,
    Dribble,
    Velocity,
    Current,
}

impl DribblerCommand {
    /// The wire value of the variant.
    pub open spec fn spec_wire_value(self) -> u8 {
        match self {
            DribblerCommand::Disable => 0u8,
            DribblerCommand::HardReceive => 1u8,
            DribblerCommand::SoftReceive => 2u8,
            DribblerCommand::Dribble => 3u8,
            DribblerCommand::Velocity => 4u8,
            DribblerCommand::Current => 5u8,
        }
    }

    /// The wire value of the variant.
    pub fn wire_value(self) -> (r: u8)
        ensures
            r == (match self {
                DribblerCommand::Disable => 0u8,
                DribblerCommand::HardReceive => 1u8,
                DribblerCommand::SoftReceive => 2u8,
                DribblerCommand::Dribble => 3u8,
                DribblerCommand::Velocity => 4u8,
                DribblerCommand::Current => 5u8,
            }),
            r == self.spec_wire_value(),
    {
        match self {
            DribblerCommand::Disable => 0,
            DribblerCommand::HardReceive => 1,
            DribblerCommand::SoftReceive => 2,
            DribblerCommand::Dribble => 3,
            DribblerCommand::Velocity => 4,
            DribblerCommand::Current => 5,
        }
    }
}

/// A command to the kicker board; `kick_speed` and `drib_setpoint` are floats.
#[derive(Clone, Copy, Debug, Default)]
pub struct KickerControl {
    pub flags: KickerCommandFlags,
    pub dribbler_mode: DribblerCommand,
    pub kick_request: KickRequest,
    pub kick_speed: F32Bits,
    pub drib_setpoint: F32Bits,
}

/// The kicker board's report; `rail_voltage` and `battery_voltage` are floats.
#[derive(Clone, Copy, Debug, Default)]
pub struct KickerTelemetry {
    pub status: KickerStatusFlags,
    pub charge_pct: u16,
    pub rail_voltage: F32Bits,
    pub battery_voltage: F32Bits,
    pub kicker_image_hash: [u8; 4],
    pub dribbler_motor: CcmTelemetry,
}

/// The wire value of every `KickRequest` variant is the one the C side uses,
/// `Disable` 0, `Arm` 1, `KickNow` 2, `KickTouch` 3, `KickCaptured` 4, `ChipNow` 5, `ChipTouch` 6,
/// `ChipCaptured` 7.
pub proof fn lemma_kick_request_wire_values()
    ensures
        KickRequest::Disable.spec_wire_value() == 0,
        KickRequest::Arm.spec_wire_value() == 1,
        KickRequest::KickNow.spec_wire_value() == 2,
        KickRequest::KickTouch.spec_wire_value() == 3,
        KickRequest::KickCaptured.spec_wire_value() == 4,
        KickRequest::ChipNow.spec_wire_value() == 5,
        KickRequest::ChipTouch.spec_wire_value() == 6,
        KickRequest::ChipCaptured.spec_wire_value() == 7,
{
}

/// The wire value of every `DribblerCommand` variant is the one the C side uses,
/// `Disable` 0, `HardReceive` 1, `SoftReceive` 2, `Dribble` 3, `Velocity` 4, `Current` 5.
pub proof fn lemma_dribbler_command_wire_values()
    ensures
        DribblerCommand::Disable.spec_wire_value() == 0,
        DribblerCommand::HardReceive.spec_wire_value() == 1,
        DribblerCommand::SoftReceive.spec_wire_value() == 2,
        DribblerCommand::Dribble.spec_wire_value() == 3,
        DribblerCommand::Velocity.spec_wire_value() == 4,
        DribblerCommand::Current.spec_wire_value() == 5,
{
}

} // verus!
