//! The radio frame: header and payload.

use crate::packets::basic_control::BasicControl;
use crate::packets::basic_telemetry::BasicTelemetry;
use crate::packets::discovery::{HelloRequest, HelloResponse};
use crate::packets::error_telemetry::ErrorTelemetry;
use crate::packets::extended_telemetry::ExtendedTelemetry;
use crate::packets::robot_parameters::ParameterCommand;
use vstd::prelude::*;

verus! {

/// The radio frame header: payload CRC and length.
#[derive(Clone, Copy, Debug, Default)]
pub struct RadioHeader {
    pub crc32: u32,
    pub _reserved: [u8; 2],
    pub data_length: u16,
}

/// The payload of a radio frame; the variant is the command code.
#[derive(Clone, Copy, Debug)]
pub enum RadioData {
    HelloRequest(HelloRequest),
    HelloResponse(HelloResponse),
    Telemetry(BasicTelemetry),
    ControlDebugTelemetry(ExtendedTelemetry),
    RobotParameterCommand(ParameterCommand),
    ErrorTelemetry(ErrorTelemetry),
    Control(BasicControl),
}

impl RadioData {
    /// The wire tag byte of the variant, which is the command code.
    pub open spec fn spec_tag(self) -> u8 {
        match self {
            RadioData::HelloRequest(_) => 21,
            RadioData::HelloResponse(_) => 22,
            RadioData::Telemetry(_) => 41,
            RadioData::ControlDebugTelemetry(_) => 42,
            RadioData::RobotParameterCommand(_) => 43,
            RadioData::ErrorTelemetry(_) => 44,
            RadioData::Control(_) => 61,
        }
    }

    /// The wire tag byte of the variant, which is the command code.
    pub fn tag(&self) -> (r: u8)
        ensures
            r == self.spec_tag(),
    {
        match self {
            RadioData::HelloRequest(_) => 21,
            RadioData::HelloResponse(_) => 22,
            RadioData::Telemetry(_) => 41,
            RadioData::ControlDebugTelemetry(_) => 42,
            RadioData::RobotParameterCommand(_) => 43,
            RadioData::ErrorTelemetry(_) => 44,
            RadioData::Control(_) => 61,
        }
    }
}

/// A radio frame.
#[derive(Clone, Copy, Debug)]
pub struct RadioPacket {
    pub header: RadioHeader,
    pub data: RadioData,
}

/// The wire tag of a radio payload is its C command code, whatever the payload
/// holds: hello request 21, hello response 22, telemetry 41, control debug
/// telemetry 42, robot parameter command 43, error telemetry 44 and control
/// 61.
pub proof fn lemma_radio_command_codes()
    ensures
        forall|c: HelloRequest| #[trigger] RadioData::HelloRequest(c).spec_tag() == 21,
        forall|c: HelloResponse| #[trigger] RadioData::HelloResponse(c).spec_tag() == 22,
        forall|c: BasicTelemetry| #[trigger] RadioData::Telemetry(c).spec_tag() == 41,
        forall|c: ExtendedTelemetry| #[trigger] RadioData::ControlDebugTelemetry(c).spec_tag() == 42,
        forall|c: ParameterCommand| #[trigger] RadioData::RobotParameterCommand(c).spec_tag() == 43,
        forall|c: ErrorTelemetry| #[trigger] RadioData::ErrorTelemetry(c).spec_tag() == 44,
        forall|c: BasicControl| #[trigger] RadioData::Control(c).spec_tag() == 61,
{
}

} // verus!
