//! Packets of the motor controller bus: motion commands, telemetry and the
//! parameter read/write protocol.

use crate::bitfields::{CcmMotionCommandFlags, CcmTelemetryStatus};
use crate::float_bits::F32Bits;
use vstd::prelude::*;

verus! {

/// How a motor controller drives its motor.
#[derive(Clone, Copy, Debug, PartialEq, Eq, Structural, Default)]
pub enum CcmMotionControlType {
    #[default]
    MotorOff,
    DutyOpenloop,
    VoltageOpenloop,
    Current,
    Velocity,
    VelocityCurrent,
}

impl CcmMotionControlType {
    /// The wire value of the variant.
    pub open spec fn spec_wire_value(self) -> u8 {
        match self {
            CcmMotionControlType::MotorOff => 0u8,
            CcmMotionControlType::DutyOpenloop => 1u8,
            CcmMotionControlType::VoltageOpenloop => 2u8,
            CcmMotionControlType::Current => 3u8,
            CcmMotionControlType::Velocity => 4u8,
            CcmMotionControlType::VelocityCurrent => 5u8,
        }
    }

    /// The wire value of the control type.
    pub fn wire_value(self) -> (r: u8)
        ensures
            r == (match self {
                CcmMotionControlType::MotorOff => 0u8,
                CcmMotionControlType::DutyOpenloop => 1u8,
                CcmMotionControlType::VoltageOpenloop => 2u8,
                CcmMotionControlType::Current => 3u8,
                CcmMotionControlType::Velocity => 4u8,
                CcmMotionControlType::VelocityCurrent => 5u8,
            }),
            r == self.spec_wire_value(),
    {
        match self {
            CcmMotionControlType::MotorOff => 0,
            CcmMotionControlType::DutyOpenloop => 1,
            CcmMotionControlType::VoltageOpenloop => 2,
            CcmMotionControlType::Current => 3,
            CcmMotionControlType::Velocity => 4,
            CcmMotionControlType::VelocityCurrent => 5,
        }
    }
}

/// A motion command to a motor controller; `setpoint` is a float.
#[derive(Clone, Copy, Debug)]
pub struct CcmMotionCommand {
    pub flags: CcmMotionCommandFlags,
    pub motion_control_type: CcmMotionControlType,
    pub _reserved: [u8; 1],
    pub current_setpoint_ma: i16,
    pub setpoint: F32Bits,
}

/// Electrical telemetry of a motor controller, with a window of current samples.
#[derive(Clone, Copy, Debug, Default)]
pub struct CcmCurrentTelemetry {
    pub bus_voltage_mv: u16,
    pub motor_voltage_cmd_mv: u16,
    pub current_setpoint_ma: i16,
    pub hall_vel_est_drads: i16,
    pub current_samples_ma: [u16; 20],
}

/// Velocity telemetry of a motor controller; both fields are floats in rad/s.
#[derive(Clone, Copy, Debug, Default)]
pub struct CcmVelocityTelemetry {
    pub vel_setpoint_rads: F32Bits,
    pub wheel_vel_rads: F32Bits,
}

/// Full telemetry report of a motor controller.
#[derive(Clone, Copy, Debug, Default)]
pub struct CcmTelemetry {
    pub status: CcmTelemetryStatus,
    pub motion_control_type: CcmMotionControlType,
    pub gain_stage_index: u8,
    pub current_telemetry: CcmCurrentTelemetry,
    pub velocity_telemetry: CcmVelocityTelemetry,
}

/// Kind of a command sent to a motor controller.
#[derive(Clone, Copy, Debug, PartialEq, Eq, Structural)]
pub enum CcmCommandType {
    Params,
    Motion,
}

impl CcmCommandType {
    /// The wire value of the variant.
    pub open spec fn spec_wire_value(self) -> u8 {
        match self {
            CcmCommandType::Params => 0x20u8,
            CcmCommandType::Motion => 0x21u8,
        }
    }

    /// The wire value of the command type.
    pub fn wire_value(self) -> (r: u8)
        ensures
            r == (match self {
                CcmCommandType::Params => 0x20u8,
                CcmCommandType::Motion => 0x21u8,
            }),
            r == self.spec_wire_value(),
    {
        match self {
            CcmCommandType::Params => 0x20,
            CcmCommandType::Motion => 0x21,
        }
    }
}

/// A tunable parameter of a motor controller.
#[derive(Clone, Copy, Debug, PartialEq, Eq, Structural, Default)]
pub enum CcmParameter {
    #[default]
    CurrentPiGainP,
    CurrentPiGainI,
    CurrentPiErrIlim,
    CurrentPiAntijitter,
    FirmwareImageHash,
}

impl CcmParameter {
    /// The wire value of the variant.
    pub open spec fn spec_wire_value(self) -> u8 {
        match self {
            CcmParameter::CurrentPiGainP => 0u8,
            CcmParameter::CurrentPiGainI => 1u8,
            CcmParameter::CurrentPiErrIlim => 2u8,
            CcmParameter::CurrentPiAntijitter => 3u8,
            CcmParameter::FirmwareImageHash => 100u8,
        }
    }

    /// The wire value of the parameter.
    pub fn wire_value(self) -> (r: u8)
        ensures
            r == (match self {
                CcmParameter::CurrentPiGainP => 0u8,
                CcmParameter::CurrentPiGainI => 1u8,
                CcmParameter::CurrentPiErrIlim => 2u8,
                CcmParameter::CurrentPiAntijitter => 3u8,
                CcmParameter::FirmwareImageHash => 100u8,
            }),
            r == self.spec_wire_value(),
    {
        match self {
            CcmParameter::CurrentPiGainP => 0,
            CcmParameter::CurrentPiGainI => 1,
            CcmParameter::CurrentPiErrIlim => 2,
            CcmParameter::CurrentPiAntijitter => 3,
            CcmParameter::FirmwareImageHash => 100,
        }
    }
}

/// Whether a parameter packet reads or writes.
#[derive(Clone, Copy, Debug, PartialEq, Eq, Structural, Default)]
pub enum CcmParameterOperation {
    #[default]
    Read,
    Write,
}

/// Whether a parameter packet is a command or its reply.
#[derive(Clone, Copy, Debug, PartialEq, Eq, Structural, Default)]
pub enum CcmParameterDirection {
    #[default]
    Command,
    Reply,
}

/// The unsigned value of four bytes read little-endian.
pub open spec fn le_value(b: [u8; 4]) -> int {
    b[0] + 256 * b[1] + 65536 * b[2] + 16777216 * b[3]
}

/// The 32-bit two's complement reading of an unsigned value below 2^32.
pub open spec fn as_signed32(u: int) -> int {
    if u < 0x8000_0000 {
        u
    } else {
        u - 0x1_0000_0000
    }
}

/// The 32-bit two's complement encoding of a signed value, as an unsigned value.
pub open spec fn as_unsigned32(v: int) -> int {
    if v >= 0 {
        v
    } else {
        v + 0x1_0000_0000
    }
}

/// A 4-byte parameter value, kept as its little-endian bytes.
#[derive(Clone, Copy, Debug, Default)]
pub struct CcmParameterValue(pub [u8; 4]);

impl CcmParameterValue {
    /// The bytes read as a little-endian `u32`.
    pub fn as_u32(self) -> (r: u32)
        ensures
            r == le_value(self.0),
    {
        let b0 = self.0[0];
        let b1 = self.0[1];
        let b2 = self.0[2];
        let b3 = self.0[3];
        let r: u32 = (b0 as u32) | ((b1 as u32) << 8u32) | ((b2 as u32) << 16u32) | ((b3 as u32) << 24u32);
        assert((b0 as u32) | ((b1 as u32) << 8u32) | ((b2 as u32) << 16u32) | ((b3 as u32) << 24u32)
            == b0 + 256 * b1 + 65536 * b2 + 16777216 * b3) by (bit_vector);
        r
    }

    /// The bytes read as a little-endian `i32`.
    pub fn as_i32(self) -> (r: i32)
        ensures
            r == as_signed32(le_value(self.0)),
    {
        let u = self.as_u32();
        let r = u as i32;
        assert(u < 0x8000_0000u32 ==> u as i32 == u) by (bit_vector);
        assert(u >= 0x8000_0000u32 ==> u as i32 == u - 0x1_0000_0000) by (bit_vector);
        r
    }

    /// The little-endian bytes of `v`.
    pub fn from_u32(v: u32) -> (r: Self)
        ensures
            le_value(r.0) == v,
    {
        assert((v & 0xffu32) < 256 && ((v >> 8u32) & 0xffu32) < 256 && ((v >> 16u32) & 0xffu32) < 256
            && ((v >> 24u32) & 0xffu32) < 256) by (bit_vector);
        let b0 = (v & 0xffu32) as u8;
        let b1 = ((v >> 8u32) & 0xffu32) as u8;
        let b2 = ((v >> 16u32) & 0xffu32) as u8;
        let b3 = ((v >> 24u32) & 0xffu32) as u8;
        assert(v == (v & 0xffu32) + 256 * ((v >> 8u32) & 0xffu32) + 65536 * ((v >> 16u32) & 0xffu32)
            + 16777216 * ((v >> 24u32) & 0xffu32)) by (bit_vector);
        let r = Self([b0, b1, b2, b3]);
        assert(r.0[0] == b0 && r.0[1] == b1 && r.0[2] == b2 && r.0[3] == b3);
        r
    }

    /// The little-endian bytes of the two's complement encoding of `v`.
    pub fn from_i32(v: i32) -> (r: Self)
        ensures
            le_value(r.0) == as_unsigned32(v as int),
    {
        let u = v as u32;
        assert(v >= 0 ==> (v as u32) == v) by (bit_vector);
        assert(v < 0 ==> (v as u32) == v + 0x1_0000_0000) by (bit_vector);
        Self::from_u32(u)
    }
}

/// The little-endian value of four bytes determines the bytes: two byte
/// arrays with the same value are equal. So `from_u32(x.as_u32())` and
/// `from_i32(x.as_i32())` give back the bytes of `x`.
pub proof fn lemma_le_value_injective(a: [u8; 4], b: [u8; 4])
    requires
        le_value(a) == le_value(b),
    ensures
        a == b,
{
    let (a0, a1, a2, a3) = (a[0] as int, a[1] as int, a[2] as int, a[3] as int);
    let (b0, b1, b2, b3) = (b[0] as int, b[1] as int, b[2] as int, b[3] as int);
    assert(a0 == b0 && a1 == b1 && a2 == b2 && a3 == b3) by (nonlinear_arith)
        requires
            0 <= a0 < 256, 0 <= a1 < 256, 0 <= a2 < 256, 0 <= a3 < 256,
            0 <= b0 < 256, 0 <= b1 < 256, 0 <= b2 < 256, 0 <= b3 < 256,
            a0 + 256 * a1 + 65536 * a2 + 16777216 * a3 == b0 + 256 * b1 + 65536 * b2 + 16777216 * b3,
    ;
    assert(a =~= b);
}

/// Reading back a value written with `from_i32` gives the same `i32`, and the
/// unsigned encoding of the signed reading of a `u32` is that `u32`.
pub proof fn lemma_signed_roundtrip(v: i32, u: u32)
    ensures
        as_signed32(as_unsigned32(v as int)) == v,
        as_unsigned32(as_signed32(u as int)) == u,
{
}

/// A parameter read, write or reply exchanged with a motor controller.
#[derive(Clone, Copy, Debug, Default)]
pub struct CcmParameterPacket {
    pub parameter: CcmParameter,
    pub parameter_operation: CcmParameterOperation,
    pub parameter_direction: CcmParameterDirection,
    pub _reserved: [u8; 1],
    pub value: CcmParameterValue,
}

/// The body of a motor controller command; which field is meaningful is given
/// by the `cmd_type` of the enclosing `CcmCommand`.
#[derive(Copy)]
pub union CcmCommandData {
    pub param: CcmParameterPacket,
    pub motion: CcmMotionCommand,
}

impl Clone for CcmCommandData {
    /// A bitwise copy.
    fn clone(&self) -> (r: Self)
        ensures
            r == *self,
    {
        *self
    }
}

/// A command to a motor controller.
#[derive(Clone, Copy)]
pub struct CcmCommand {
    pub cmd_type: CcmCommandType,
    pub _reserved: [u8; 3],
    pub crc32: u32,
    pub data: CcmCommandData,
}

/// Kind of a response from a motor controller.
#[derive(Clone, Copy, Debug, PartialEq, Eq, Structural)]
pub enum CcmResponseType {
    Params,
    Telem,
}

impl CcmResponseType {
    /// The wire value of the variant.
    pub open spec fn spec_wire_value(self) -> u8 {
        match self {
            CcmResponseType::Params => 0x80u8,
            CcmResponseType::Telem => 0x81u8,
        }
    }

    /// The wire value of the response type.
    pub fn wire_value(self) -> (r: u8)
        ensures
            r == (match self {
                CcmResponseType::Params => 0x80u8,
                CcmResponseType::Telem => 0x81u8,
            }),
            r == self.spec_wire_value(),
    {
        match self {
            CcmResponseType::Params => 0x80,
            CcmResponseType::Telem => 0x81,
        }
    }
}

/// The body of a motor controller response; which field is meaningful is given
/// by the `resp_type` of the enclosing `CcmResponse`.
#[derive(Copy)]
pub union CcmResponseData {
    pub params: CcmParameterPacket,
    pub motion: CcmTelemetry,
}

impl Clone for CcmResponseData {
    /// A bitwise copy.
    fn clone(&self) -> (r: Self)
        ensures
            r == *self,
    {
        *self
    }
}

/// A response from a motor controller.
#[derive(Clone, Copy)]
pub struct CcmResponse {
    pub resp_type: CcmResponseType,
    pub seq_num: u8,
    pub _reserved: [u8; 2],
    pub timestamp: u32,
    pub data: CcmResponseData,
}

/// A motor controller telemetry report in which every field is zero.
pub open spec fn ccm_telemetry_is_zero(t: CcmTelemetry) -> bool {
    &&& t.status.0 == 0
    &&& t.motion_control_type == CcmMotionControlType::MotorOff
    &&& t.gain_stage_index == 0
    &&& t.current_telemetry.bus_voltage_mv == 0
    &&& t.current_telemetry.motor_voltage_cmd_mv == 0
    &&& t.current_telemetry.current_setpoint_ma == 0
    &&& t.current_telemetry.hall_vel_est_drads == 0
    &&& forall|i: int| 0 <= i < 20 ==> t.current_telemetry.current_samples_ma[i] == 0
    &&& t.velocity_telemetry.vel_setpoint_rads == 0
    &&& t.velocity_telemetry.wheel_vel_rads == 0
}

impl Default for CcmResponse {
    /// A parameter response with every other byte zero: sequence number,
    /// reserved bytes, timestamp, and the body read as a telemetry report (the
    /// widest body).
    fn default() -> (r: Self)
        ensures
            r.resp_type == CcmResponseType::Params,
            r.seq_num == 0,
            r._reserved[0] == 0 && r._reserved[1] == 0,
            r.timestamp == 0,
            is_variant(r.data, "motion"),
            ccm_telemetry_is_zero(get_union_field::<CcmResponseData, CcmTelemetry>(r.data, "motion")),
    {
        let telemetry = CcmTelemetry {
            status: CcmTelemetryStatus(0),
            motion_control_type: CcmMotionControlType::MotorOff,
            gain_stage_index: 0,
            current_telemetry: CcmCurrentTelemetry {
                bus_voltage_mv: 0,
                motor_voltage_cmd_mv: 0,
                current_setpoint_ma: 0,
                hall_vel_est_drads: 0,
                current_samples_ma: [0u16; 20],
            },
            velocity_telemetry: CcmVelocityTelemetry { vel_setpoint_rads: 0, wheel_vel_rads: 0 },
        };
        CcmResponse {
            resp_type: CcmResponseType::Params,
            seq_num: 0,
            _reserved: [0u8; 2],
            timestamp: 0,
            data: CcmResponseData { motion: telemetry },
        }
    }
}

/// The wire value of every `CcmMotionControlType` variant is the one the C side uses,
/// `MotorOff` 0, `DutyOpenloop` 1, `VoltageOpenloop` 2, `Current` 3, `Velocity` 4,
/// `VelocityCurrent` 5.
pub proof fn lemma_ccm_motion_control_type_wire_values()
    ensures
        CcmMotionControlType::MotorOff.spec_wire_value() == 0,
        CcmMotionControlType::DutyOpenloop.spec_wire_value() == 1,
        CcmMotionControlType::VoltageOpenloop.spec_wire_value() == 2,
        CcmMotionControlType::Current.spec_wire_value() == 3,
        CcmMotionControlType::Velocity.spec_wire_value() == 4,
        CcmMotionControlType::VelocityCurrent.spec_wire_value() == 5,
{
}

/// The wire value of every `CcmCommandType` variant is the one the C side uses,
/// `Params` 0x20, `Motion` 0x21.
pub proof fn lemma_ccm_command_type_wire_values()
    ensures
        CcmCommandType::Params.spec_wire_value() == 0x20,
        CcmCommandType::Motion.spec_wire_value() == 0x21,
{
}

/// The wire value of every `CcmParameter` variant is the one the C side uses,
/// `CurrentPiGainP` 0, `CurrentPiGainI` 1, `CurrentPiErrIlim` 2, `CurrentPiAntijitter` 3,
/// `FirmwareImageHash` 100.
pub proof fn lemma_ccm_parameter_wire_values()
    ensures
        CcmParameter::CurrentPiGainP.spec_wire_value() == 0,
        CcmParameter::CurrentPiGainI.spec_wire_value() == 1,
        CcmParameter::CurrentPiErrIlim.spec_wire_value() == 2,
        CcmParameter::CurrentPiAntijitter.spec_wire_value() == 3,
        CcmParameter::FirmwareImageHash.spec_wire_value() == 100,
{
}

/// The wire value of every `CcmResponseType` variant is the one the C side uses,
/// `Params` 0x80, `Telem` 0x81.
pub proof fn lemma_ccm_response_type_wire_values()
    ensures
        CcmResponseType::Params.spec_wire_value() == 0x80,
        CcmResponseType::Telem.spec_wire_value() == 0x81,
{
}

} // verus!
