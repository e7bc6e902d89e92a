//! Power board telemetry and commands.

use crate::bitfields::{BatteryStatus, PowerCommandFlags, PowerStatus};
use vstd::prelude::*;

verus! {

/// Battery pack state: status flags, pack and cell voltages in mV, and charge
/// percentages.
#[derive(Clone, Copy, Debug, Default)]
pub struct BatteryInfo {
    pub status: BatteryStatus,
    pub battery_mv: u16,
    pub cell1_mv: u16,
    pub cell2_mv: u16,
    pub cell3_mv: u16,
    pub cell4_mv: u16,
    pub cell5_mv: u16,
    pub cell6_mv: u16,
    pub battery_pct: u8,
    pub cell1_pct: u8,
    pub cell2_pct: u8,
    pub cell3_pct: u8,
    pub cell4_pct: u8,
    pub cell5_pct: u8,
    pub cell6_pct: u8,
    pub _reserved: u8,
}

/// Power board report: rail status flags and the battery state.
#[derive(Clone, Copy, Debug, Default)]
pub struct PowerTelemetry {
    pub status: PowerStatus,
    pub battery_info: BatteryInfo,
}

/// Shutdown request sent to the power board.
#[derive(Clone, Copy, Debug, Default)]
pub struct PowerCommand {
    pub flags: PowerCommandFlags,
}

} // verus!
