//! Runtime reads and writes of robot parameters.

use crate::float_bits::F32Bits;
use vstd::prelude::*;

verus! {

/// What a parameter command asks for or answers.
#[derive(Clone, Copy, Debug, PartialEq, Eq, Structural)]
pub enum ParameterCommandCode {
    Read,
    Write,
    Ack,
    NackInvalidName,
    NackInvalidTypeForName,
}

impl ParameterCommandCode {
    /// The wire value of the variant.
    pub open spec fn spec_wire_value(self) -> u8 {
        match self {
            ParameterCommandCode::Read => 0u8,
            ParameterCommandCode::Write => 1u8,
            ParameterCommandCode::Ack => 2u8,
            ParameterCommandCode::NackInvalidName => 3u8,
            ParameterCommandCode::NackInvalidTypeForName => 4u8,
        }
    }

    /// The wire value of the variant.
    pub fn wire_value(self) -> (r: u8)
        ensures
            r == (match self {
                ParameterCommandCode::Read => 0u8,
                ParameterCommandCode::Write => 1u8,
                ParameterCommandCode::Ack => 2u8,
                ParameterCommandCode::NackInvalidName => 3u8,
                ParameterCommandCode::NackInvalidTypeForName => 4u8,
            }),
            r == self.spec_wire_value(),
    {
        match self {
            ParameterCommandCode::Read => 0,
            ParameterCommandCode::Write => 1,
            ParameterCommandCode::Ack => 2,
            ParameterCommandCode::NackInvalidName => 3,
            ParameterCommandCode::NackInvalidTypeForName => 4,
        }
    }
}

/// A runtime-tunable robot parameter.
#[derive(Clone, Copy, Debug, PartialEq, Eq, Structural)]
pub enum ParameterName {
    KfProcessStd,
    KfMeasurementStd,
    KfMaxState,
    PhysWheel,
    PhysInertia,
    PhysMotorModel,
    PhysFrictionModel,
    FrictionCompGating,
    PoseControlGain,
    TrajRecomputeError,
    PoseFbPidiiLinear,
    PoseFbPidiiAngular,
    TwistFbPidiiLinear,
    TwistFbPidiiAngular,
}

impl ParameterName {
    /// The wire value of the variant.
    pub open spec fn spec_wire_value(self) -> u8 {
        match self {
            ParameterName::KfProcessStd => 0u8,
            ParameterName::KfMeasurementStd => 1u8,
            ParameterName::KfMaxState => 2u8,
            ParameterName::PhysWheel => 3u8,
            ParameterName::PhysInertia => 4u8,
            ParameterName::PhysMotorModel => 5u8,
            ParameterName::PhysFrictionModel => 6u8,
            ParameterName::FrictionCompGating => 7u8,
            ParameterName::PoseControlGain => 8u8,
            ParameterName::TrajRecomputeError => 9u8,
            ParameterName::PoseFbPidiiLinear => 10u8,
            ParameterName::PoseFbPidiiAngular => 11u8,
            ParameterName::TwistFbPidiiLinear => 12u8,
            ParameterName::TwistFbPidiiAngular => 13u8,
        }
    }

    /// The wire value of the variant.
    pub fn wire_value(self) -> (r: u8)
        ensures
            r == (match self {
                ParameterName::KfProcessStd => 0u8,
                ParameterName::KfMeasurementStd => 1u8,
                ParameterName::KfMaxState => 2u8,
                ParameterName::PhysWheel => 3u8,
                ParameterName::PhysInertia => 4u8,
                ParameterName::PhysMotorModel => 5u8,
                ParameterName::PhysFrictionModel => 6u8,
                ParameterName::FrictionCompGating => 7u8,
                ParameterName::PoseControlGain => 8u8,
                ParameterName::TrajRecomputeError => 9u8,
                ParameterName::PoseFbPidiiLinear => 10u8,
                ParameterName::PoseFbPidiiAngular => 11u8,
                ParameterName::TwistFbPidiiLinear => 12u8,
                ParameterName::TwistFbPidiiAngular => 13u8,
            }),
            r == self.spec_wire_value(),
    {
        match self {
            ParameterName::KfProcessStd => 0,
            ParameterName::KfMeasurementStd => 1,
            ParameterName::KfMaxState => 2,
            ParameterName::PhysWheel => 3,
            ParameterName::PhysInertia => 4,
            ParameterName::PhysMotorModel => 5,
            ParameterName::PhysFrictionModel => 6,
            ParameterName::FrictionCompGating => 7,
            ParameterName::PoseControlGain => 8,
            ParameterName::TrajRecomputeError => 9,
            ParameterName::PoseFbPidiiLinear => 10,
            ParameterName::PoseFbPidiiAngular => 11,
            ParameterName::TwistFbPidiiLinear => 12,
            ParameterName::TwistFbPidiiAngular => 13,
        }
    }
}

/// A parameter value: one to six floats; the variant gives the count.
#[derive(Clone, Copy, Debug)]
pub enum ParameterData {
    F32([F32Bits; 1]),
    Vec2F32([F32Bits; 2]),
    Vec3F32([F32Bits; 3]),
    Vec4F32([F32Bits; 4]),
    Vec5F32([F32Bits; 5]),
    Vec6F32([F32Bits; 6]),
}

impl ParameterData {
    /// The wire tag byte of the variant.
    pub open spec fn spec_tag(self) -> u8 {
        match self {
            ParameterData::F32(_) => 0u8,
            ParameterData::Vec2F32(_) => 1u8,
            ParameterData::Vec3F32(_) => 2u8,
            ParameterData::Vec4F32(_) => 3u8,
            ParameterData::Vec5F32(_) => 4u8,
            ParameterData::Vec6F32(_) => 5u8,
        }
    }

    /// The wire tag byte of the variant.
    pub fn tag(&self) -> (r: u8)
        ensures
            r == (match *self {
                ParameterData::F32(_) => 0u8,
                ParameterData::Vec2F32(_) => 1u8,
                ParameterData::Vec3F32(_) => 2u8,
                ParameterData::Vec4F32(_) => 3u8,
                ParameterData::Vec5F32(_) => 4u8,
                ParameterData::Vec6F32(_) => 5u8,
            }),
            r == self.spec_tag(),
    {
        match self {
            ParameterData::F32(_) => 0,
            ParameterData::Vec2F32(_) => 1,
            ParameterData::Vec3F32(_) => 2,
            ParameterData::Vec4F32(_) => 3,
            ParameterData::Vec5F32(_) => 4,
            ParameterData::Vec6F32(_) => 5,
        }
    }
}

/// A parameter command or its response.
#[derive(Clone, Copy, Debug)]
pub struct ParameterCommand {
    pub command_code: ParameterCommandCode,
    pub parameter_name: ParameterName,
    pub _pad: [u8; 2],
    pub data: ParameterData,
}

/// The wire value of every `ParameterCommandCode` variant is the one the C side uses,
/// `Read` 0, `Write` 1, `Ack` 2, `NackInvalidName` 3, `NackInvalidTypeForName` 4.
pub proof fn lemma_parameter_command_code_wire_values()
    ensures
        ParameterCommandCode::Read.spec_wire_value() == 0,
        ParameterCommandCode::Write.spec_wire_value() == 1,
        ParameterCommandCode::Ack.spec_wire_value() == 2,
        ParameterCommandCode::NackInvalidName.spec_wire_value() == 3,
        ParameterCommandCode::NackInvalidTypeForName.spec_wire_value() == 4,
{
}

/// The wire value of every `ParameterName` variant is the one the C side uses,
/// `KfProcessStd` 0, `KfMeasurementStd` 1, `KfMaxState` 2, `PhysWheel` 3, `PhysInertia` 4,
/// `PhysMotorModel` 5, `PhysFrictionModel` 6, `FrictionCompGating` 7, `PoseControlGain` 8,
/// `TrajRecomputeError` 9, `PoseFbPidiiLinear` 10, `PoseFbPidiiAngular` 11, `TwistFbPidiiLinear`
/// 12, `TwistFbPidiiAngular` 13.
pub proof fn lemma_parameter_name_wire_values()
    ensures
        ParameterName::KfProcessStd.spec_wire_value() == 0,
        ParameterName::KfMeasurementStd.spec_wire_value() == 1,
        ParameterName::KfMaxState.spec_wire_value() == 2,
        ParameterName::PhysWheel.spec_wire_value() == 3,
        ParameterName::PhysInertia.spec_wire_value() == 4,
        ParameterName::PhysMotorModel.spec_wire_value() == 5,
        ParameterName::PhysFrictionModel.spec_wire_value() == 6,
        ParameterName::FrictionCompGating.spec_wire_value() == 7,
        ParameterName::PoseControlGain.spec_wire_value() == 8,
        ParameterName::TrajRecomputeError.spec_wire_value() == 9,
        ParameterName::PoseFbPidiiLinear.spec_wire_value() == 10,
        ParameterName::PoseFbPidiiAngular.spec_wire_value() == 11,
        ParameterName::TwistFbPidiiLinear.spec_wire_value() == 12,
        ParameterName::TwistFbPidiiAngular.spec_wire_value() == 13,
{
}

/// The wire tag of every `ParameterData` variant is the one the C side uses,
/// whatever values it carries: `F32` 0, `Vec2F32` 1, `Vec3F32` 2, `Vec4F32` 3, `Vec5F32` 4,
/// `Vec6F32` 5.
pub proof fn lemma_parameter_data_tags()
    ensures
        forall|d: [F32Bits; 1]| #[trigger] ParameterData::F32(d).spec_tag() == 0,
        forall|d: [F32Bits; 2]| #[trigger] ParameterData::Vec2F32(d).spec_tag() == 1,
        forall|d: [F32Bits; 3]| #[trigger] ParameterData::Vec3F32(d).spec_tag() == 2,
        forall|d: [F32Bits; 4]| #[trigger] ParameterData::Vec4F32(d).spec_tag() == 3,
        forall|d: [F32Bits; 5]| #[trigger] ParameterData::Vec5F32(d).spec_tag() == 4,
        forall|d: [F32Bits; 6]| #[trigger] ParameterData::Vec6F32(d).spec_tag() == 5,
{
}

} // verus!
