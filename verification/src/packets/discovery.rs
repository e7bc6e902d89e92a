//! Discovery handshake between a robot and the AI.

use crate::bitfields::DiscoveryFlags;
use vstd::prelude::*;

verus! {

/// The team a robot plays for.
#[derive(Clone, Copy, Debug, PartialEq, Eq, Structural)]
pub enum TeamColor {
    Yellow,
    Blue,
}

impl TeamColor {
    /// The wire value of the variant.
    pub open spec fn spec_wire_value(self) -> u8 {
        match self {
            TeamColor::Yellow => 0u8,
            TeamColor::Blue => 1u8,
        }
    }

    /// The wire value of the color.
    pub fn wire_value(self) -> (r: u8)
        ensures
            r == (match self {
                TeamColor::Yellow => 0u8,
                TeamColor::Blue => 1u8,
            }),
            r == self.spec_wire_value(),
    {
        match self {
            TeamColor::Yellow => 0,
            TeamColor::Blue => 1,
        }
    }
}

/// A robot's announcement of itself and of the firmware it runs.
#[derive(Clone, Copy, Debug)]
pub struct HelloRequest {
    pub robot_id: u8,
    pub color: TeamColor,
    pub flags: DiscoveryFlags,
    pub _reserved: [u8; 1],
    pub coms_hash: [u8; 4],
    pub controls_hash: [u8; 4],
    pub firmware_hash: [u8; 4],
}

/// The AI's reply with the address the robot should talk to.
#[derive(Clone, Copy, Debug)]
pub struct HelloResponse {
    pub ipv4: [u8; 4],
    pub port: u16,
}

/// The wire value of every `TeamColor` variant is the one the C side uses,
/// `Yellow` 0, `Blue` 1.
pub proof fn lemma_team_color_wire_values()
    ensures
        TeamColor::Yellow.spec_wire_value() == 0,
        TeamColor::Blue.spec_wire_value() == 1,
{
}

} // verus!
