//! Helpers over whole packets: the payloads a robot receives or sends, and
//! the safety check of received payloads.

use crate::{all_floats_finite, is_basic_control_packet_safe, lemma_packet_safe_iff_floats_finite};
use crate::packets::basic_control::BasicControl;
use crate::packets::basic_telemetry::BasicTelemetry;
use crate::packets::error_telemetry::ErrorTelemetry;
use crate::packets::extended_telemetry::ExtendedTelemetry;
use crate::packets::robot_parameters::ParameterCommand;
#[allow(unused_imports)]
use crate::basic_control_packet_safe;
use vstd::prelude::*;

verus! {

/// A payload the AI sends to a robot.
#[derive(Clone, Copy)]
pub enum DataPacket {
    BasicControl(BasicControl),
    ParameterCommand(ParameterCommand),
}

/// A payload a robot sends to the AI.
#[derive(Clone, Copy)]
pub enum TelemetryPacket {
    Basic(BasicTelemetry),
    Extended(ExtendedTelemetry),
    ParameterCommandResponse(ParameterCommand),
    ErrorTelemetry(ErrorTelemetry),
}

/// A received payload is safe when it is a parameter command or a safe control
/// packet.
pub open spec fn data_packet_safe(pkt: DataPacket) -> bool {
    match pkt {
        DataPacket::BasicControl(bc) => basic_control_packet_safe(bc),
        DataPacket::ParameterCommand(_) => true,
    }
}

/// Whether a received payload is safe to act on.
pub fn is_data_packet_safe(pkt: &DataPacket) -> (r: bool)
    ensures
        r == data_packet_safe(*pkt),
{
    match pkt {
        DataPacket::BasicControl(bc) => is_basic_control_packet_safe(bc),
        DataPacket::ParameterCommand(_) => true,
    }
}

/// A received payload is judged safe exactly when it is a parameter command
/// or a control packet every float of which is finite.
pub proof fn lemma_data_packet_safe_iff_floats_finite(pkt: DataPacket)
    ensures
        data_packet_safe(pkt) == match pkt {
            DataPacket::BasicControl(bc) => all_floats_finite(bc.floats()),
            DataPacket::ParameterCommand(_) => true,
        },
{
    match pkt {
        DataPacket::BasicControl(bc) => lemma_packet_safe_iff_floats_finite(bc),
        DataPacket::ParameterCommand(_) => {},
    }
}

} // verus!
