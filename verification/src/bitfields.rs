//! The flag words of the wire packets.
//!
//! Each type is a newtype over an unsigned integer whose named flags are packed
//! least-significant-bit first in the order they are listed; the remaining high
//! bits are reserved and no accessor touches them. Every flag has a getter, a
//! `with_` builder that returns a copy with the flag written, and a `set_`
//! setter that writes it in place.

use crate::bits::{bit16, bit32, bit8, get_bit16, get_bit32, get_bit8, put_bit16, put_bit32, put_bit8, with_bit16, with_bit32, with_bit8};
use vstd::prelude::*;

verus! {

/// Control flags carried by a `BasicControl` packet.
///
/// A `u32` whose bits 0 to 8 hold the named flags and whose bits 9 to 31 are reserved.
#[derive(Clone, Copy, Default, Debug, PartialEq, Eq, Structural)]
pub struct BasicControlFlags(pub u32);

impl BasicControlFlags {
    /// The `request_shutdown` flag, bit 0.
    pub fn request_shutdown(self) -> (r: bool)
        ensures
            r == bit32(self.0, 0),
    {
        get_bit32(self.0, 0)
    }

    /// A copy with the `request_shutdown` flag (bit 0) set to `v`.
    pub fn with_request_shutdown(self, v: bool) -> (r: Self)
        ensures
            r.0 == with_bit32(self.0, 0, v),
    {
        Self(put_bit32(self.0, 0, v))
    }

    /// Sets the `request_shutdown` flag (bit 0) to `v` in place.
    pub fn set_request_shutdown(&mut self, v: bool)
        ensures
            final(self).0 == with_bit32(old(self).0, 0, v),
    {
        *self = self.with_request_shutdown(v);
    }

    /// The `reboot_robot` flag, bit 1.
    pub fn reboot_robot(self) -> (r: bool)
        ensures
            r == bit32(self.0, 1),
    {
        get_bit32(self.0, 1)
    }

    /// A copy with the `reboot_robot` flag (bit 1) set to `v`.
    pub fn with_reboot_robot(self, v: bool) -> (r: Self)
        ensures
            r.0 == with_bit32(self.0, 1, v),
    {
        Self(put_bit32(self.0, 1, v))
    }

    /// Sets the `reboot_robot` flag (bit 1) to `v` in place.
    pub fn set_reboot_robot(&mut self, v: bool)
        ensures
            final(self).0 == with_bit32(old(self).0, 1, v),
    {
        *self = self.with_reboot_robot(v);
    }

    /// The `game_state_in_stop` flag, bit 2.
    pub fn game_state_in_stop(self) -> (r: bool)
        ensures
            r == bit32(self.0, 2),
    {
        get_bit32(self.0, 2)
    }

    /// A copy with the `game_state_in_stop` flag (bit 2) set to `v`.
    pub fn with_game_state_in_stop(self, v: bool) -> (r: Self)
        ensures
            r.0 == with_bit32(self.0, 2, v),
    {
        Self(put_bit32(self.0, 2, v))
    }

    /// Sets the `game_state_in_stop` flag (bit 2) to `v` in place.
    pub fn set_game_state_in_stop(&mut self, v: bool)
        ensures
            final(self).0 == with_bit32(old(self).0, 2, v),
    {
        *self = self.with_game_state_in_stop(v);
    }

    /// The `game_state_in_halt` flag, bit 3.
    pub fn game_state_in_halt(self) -> (r: bool)
        ensures
            r == bit32(self.0, 3),
    {
        get_bit32(self.0, 3)
    }

    /// A copy with the `game_state_in_halt` flag (bit 3) set to `v`.
    pub fn with_game_state_in_halt(self, v: bool) -> (r: Self)
        ensures
            r.0 == with_bit32(self.0, 3, v),
    {
        Self(put_bit32(self.0, 3, v))
    }

    /// Sets the `game_state_in_halt` flag (bit 3) to `v` in place.
    pub fn set_game_state_in_halt(&mut self, v: bool)
        ensures
            final(self).0 == with_bit32(old(self).0, 3, v),
    {
        *self = self.with_game_state_in_halt(v);
    }

    /// The `emergency_stop` flag, bit 4.
    pub fn emergency_stop(self) -> (r: bool)
        ensures
            r == bit32(self.0, 4),
    {
        get_bit32(self.0, 4)
    }

    /// A copy with the `emergency_stop` flag (bit 4) set to `v`.
    pub fn with_emergency_stop(self, v: bool) -> (r: Self)
        ensures
            r.0 == with_bit32(self.0, 4, v),
    {
        Self(put_bit32(self.0, 4, v))
    }

    /// Sets the `emergency_stop` flag (bit 4) to `v` in place.
    pub fn set_emergency_stop(&mut self, v: bool)
        ensures
            final(self).0 == with_bit32(old(self).0, 4, v),
    {
        *self = self.with_emergency_stop(v);
    }

    /// The `wheel_vel_control_enabled` flag, bit 5.
    pub fn wheel_vel_control_enabled(self) -> (r: bool)
        ensures
            r == bit32(self.0, 5),
    {
        get_bit32(self.0, 5)
    }

    /// A copy with the `wheel_vel_control_enabled` flag (bit 5) set to `v`.
    pub fn with_wheel_vel_control_enabled(self, v: bool) -> (r: Self)
        ensures
            r.0 == with_bit32(self.0, 5, v),
    {
        Self(put_bit32(self.0, 5, v))
    }

    /// Sets the `wheel_vel_control_enabled` flag (bit 5) to `v` in place.
    pub fn set_wheel_vel_control_enabled(&mut self, v: bool)
        ensures
            final(self).0 == with_bit32(old(self).0, 5, v),
    {
        *self = self.with_wheel_vel_control_enabled(v);
    }

    /// The `wheel_torque_control_enabled` flag, bit 6.
    pub fn wheel_torque_control_enabled(self) -> (r: bool)
        ensures
            r == bit32(self.0, 6),
    {
        get_bit32(self.0, 6)
    }

    /// A copy with the `wheel_torque_control_enabled` flag (bit 6) set to `v`.
    pub fn with_wheel_torque_control_enabled(self, v: bool) -> (r: Self)
        ensures
            r.0 == with_bit32(self.0, 6, v),
    {
        Self(put_bit32(self.0, 6, v))
    }

    /// Sets the `wheel_torque_control_enabled` flag (bit 6) to `v` in place.
    pub fn set_wheel_torque_control_enabled(&mut self, v: bool)
        ensures
            final(self).0 == with_bit32(old(self).0, 6, v),
    {
        *self = self.with_wheel_torque_control_enabled(v);
    }

    /// The `vision_update` flag, bit 7.
    pub fn vision_update(self) -> (r: bool)
        ensures
            r == bit32(self.0, 7),
    {
        get_bit32(self.0, 7)
    }

    /// A copy with the `vision_update` flag (bit 7) set to `v`.
    pub fn with_vision_update(self, v: bool) -> (r: Self)
        ensures
            r.0 == with_bit32(self.0, 7, v),
    {
        Self(put_bit32(self.0, 7, v))
    }

    /// Sets the `vision_update` flag (bit 7) to `v` in place.
    pub fn set_vision_update(&mut self, v: bool)
        ensures
            final(self).0 == with_bit32(old(self).0, 7, v),
    {
        *self = self.with_vision_update(v);
    }

    /// The `reset_controller` flag, bit 8.
    pub fn reset_controller(self) -> (r: bool)
        ensures
            r == bit32(self.0, 8),
    {
        get_bit32(self.0, 8)
    }

    /// A copy with the `reset_controller` flag (bit 8) set to `v`.
    pub fn with_reset_controller(self, v: bool) -> (r: Self)
        ensures
            r.0 == with_bit32(self.0, 8, v),
    {
        Self(put_bit32(self.0, 8, v))
    }

    /// Sets the `reset_controller` flag (bit 8) to `v` in place.
    pub fn set_reset_controller(&mut self, v: bool)
        ensures
            final(self).0 == with_bit32(old(self).0, 8, v),
    {
        *self = self.with_reset_controller(v);
    }
}

/// Error and status flags reported in a `BasicTelemetry` packet.
///
/// A `u32` whose bits 0 to 26 hold the named flags and whose bits 27 to 31 are reserved.
#[derive(Clone, Copy, Default, Debug, PartialEq, Eq, Structural)]
pub struct BasicTelemetryErrors(pub u32);

impl BasicTelemetryErrors {
    /// The `power_error` flag, bit 0.
    pub fn power_error(self) -> (r: bool)
        ensures
            r == bit32(self.0, 0),
    {
        get_bit32(self.0, 0)
    }

    /// A copy with the `power_error` flag (bit 0) set to `v`.
    pub fn with_power_error(self, v: bool) -> (r: Self)
        ensures
            r.0 == with_bit32(self.0, 0, v),
    {
        Self(put_bit32(self.0, 0, v))
    }

    /// Sets the `power_error` flag (bit 0) to `v` in place.
    pub fn set_power_error(&mut self, v: bool)
        ensures
            final(self).0 == with_bit32(old(self).0, 0, v),
    {
        *self = self.with_power_error(v);
    }

    /// The `power_board_error` flag, bit 1.
    pub fn power_board_error(self) -> (r: bool)
        ensures
            r == bit32(self.0, 1),
    {
        get_bit32(self.0, 1)
    }

    /// A copy with the `power_board_error` flag (bit 1) set to `v`.
    pub fn with_power_board_error(self, v: bool) -> (r: Self)
        ensures
            r.0 == with_bit32(self.0, 1, v),
    {
        Self(put_bit32(self.0, 1, v))
    }

    /// Sets the `power_board_error` flag (bit 1) to `v` in place.
    pub fn set_power_board_error(&mut self, v: bool)
        ensures
            final(self).0 == with_bit32(old(self).0, 1, v),
    {
        *self = self.with_power_board_error(v);
    }

    /// The `battery_error` flag, bit 2.
    pub fn battery_error(self) -> (r: bool)
        ensures
            r == bit32(self.0, 2),
    {
        get_bit32(self.0, 2)
    }

    /// A copy with the `battery_error` flag (bit 2) set to `v`.
    pub fn with_battery_error(self, v: bool) -> (r: Self)
        ensures
            r.0 == with_bit32(self.0, 2, v),
    {
        Self(put_bit32(self.0, 2, v))
    }

    /// Sets the `battery_error` flag (bit 2) to `v` in place.
    pub fn set_battery_error(&mut self, v: bool)
        ensures
            final(self).0 == with_bit32(old(self).0, 2, v),
    {
        *self = self.with_battery_error(v);
    }

    /// The `battery_low` flag, bit 3.
    pub fn battery_low(self) -> (r: bool)
        ensures
            r == bit32(self.0, 3),
    {
        get_bit32(self.0, 3)
    }

    /// A copy with the `battery_low` flag (bit 3) set to `v`.
    pub fn with_battery_low(self, v: bool) -> (r: Self)
        ensures
            r.0 == with_bit32(self.0, 3, v),
    {
        Self(put_bit32(self.0, 3, v))
    }

    /// Sets the `battery_low` flag (bit 3) to `v` in place.
    pub fn set_battery_low(&mut self, v: bool)
        ensures
            final(self).0 == with_bit32(old(self).0, 3, v),
    {
        *self = self.with_battery_low(v);
    }

    /// The `battery_crit` flag, bit 4.
    pub fn battery_crit(self) -> (r: bool)
        ensures
            r == bit32(self.0, 4),
    {
        get_bit32(self.0, 4)
    }

    /// A copy with the `battery_crit` flag (bit 4) set to `v`.
    pub fn with_battery_crit(self, v: bool) -> (r: Self)
        ensures
            r.0 == with_bit32(self.0, 4, v),
    {
        Self(put_bit32(self.0, 4, v))
    }

    /// Sets the `battery_crit` flag (bit 4) to `v` in place.
    pub fn set_battery_crit(&mut self, v: bool)
        ensures
            final(self).0 == with_bit32(old(self).0, 4, v),
    {
        *self = self.with_battery_crit(v);
    }

    /// The `shutdown_pending` flag, bit 5.
    pub fn shutdown_pending(self) -> (r: bool)
        ensures
            r == bit32(self.0, 5),
    {
        get_bit32(self.0, 5)
    }

    /// A copy with the `shutdown_pending` flag (bit 5) set to `v`.
    pub fn with_shutdown_pending(self, v: bool) -> (r: Self)
        ensures
            r.0 == with_bit32(self.0, 5, v),
    {
        Self(put_bit32(self.0, 5, v))
    }

    /// Sets the `shutdown_pending` flag (bit 5) to `v` in place.
    pub fn set_shutdown_pending(&mut self, v: bool)
        ensures
            final(self).0 == with_bit32(old(self).0, 5, v),
    {
        *self = self.with_shutdown_pending(v);
    }

    /// The `tipped_error` flag, bit 6.
    pub fn tipped_error(self) -> (r: bool)
        ensures
            r == bit32(self.0, 6),
    {
        get_bit32(self.0, 6)
    }

    /// A copy with the `tipped_error` flag (bit 6) set to `v`.
    pub fn with_tipped_error(self, v: bool) -> (r: Self)
        ensures
            r.0 == with_bit32(self.0, 6, v),
    {
        Self(put_bit32(self.0, 6, v))
    }

    /// Sets the `tipped_error` flag (bit 6) to `v` in place.
    pub fn set_tipped_error(&mut self, v: bool)
        ensures
            final(self).0 == with_bit32(old(self).0, 6, v),
    {
        *self = self.with_tipped_error(v);
    }

    /// The `breakbeam_error` flag, bit 7.
    pub fn breakbeam_error(self) -> (r: bool)
        ensures
            r == bit32(self.0, 7),
    {
        get_bit32(self.0, 7)
    }

    /// A copy with the `breakbeam_error` flag (bit 7) set to `v`.
    pub fn with_breakbeam_error(self, v: bool) -> (r: Self)
        ensures
            r.0 == with_bit32(self.0, 7, v),
    {
        Self(put_bit32(self.0, 7, v))
    }

    /// Sets the `breakbeam_error` flag (bit 7) to `v` in place.
    pub fn set_breakbeam_error(&mut self, v: bool)
        ensures
            final(self).0 == with_bit32(old(self).0, 7, v),
    {
        *self = self.with_breakbeam_error(v);
    }

    /// The `breakbeam_ball_detected` flag, bit 8.
    pub fn breakbeam_ball_detected(self) -> (r: bool)
        ensures
            r == bit32(self.0, 8),
    {
        get_bit32(self.0, 8)
    }

    /// A copy with the `breakbeam_ball_detected` flag (bit 8) set to `v`.
    pub fn with_breakbeam_ball_detected(self, v: bool) -> (r: Self)
        ensures
            r.0 == with_bit32(self.0, 8, v),
    {
        Self(put_bit32(self.0, 8, v))
    }

    /// Sets the `breakbeam_ball_detected` flag (bit 8) to `v` in place.
    pub fn set_breakbeam_ball_detected(&mut self, v: bool)
        ensures
            final(self).0 == with_bit32(old(self).0, 8, v),
    {
        *self = self.with_breakbeam_ball_detected(v);
    }

    /// The `accelerometer_0_error` flag, bit 9.
    pub fn accelerometer_0_error(self) -> (r: bool)
        ensures
            r == bit32(self.0, 9),
    {
        get_bit32(self.0, 9)
    }

    /// A copy with the `accelerometer_0_error` flag (bit 9) set to `v`.
    pub fn with_accelerometer_0_error(self, v: bool) -> (r: Self)
        ensures
            r.0 == with_bit32(self.0, 9, v),
    {
        Self(put_bit32(self.0, 9, v))
    }

    /// Sets the `accelerometer_0_error` flag (bit 9) to `v` in place.
    pub fn set_accelerometer_0_error(&mut self, v: bool)
        ensures
            final(self).0 == with_bit32(old(self).0, 9, v),
    {
        *self = self.with_accelerometer_0_error(v);
    }

    /// The `accelerometer_1_error` flag, bit 10.
    pub fn accelerometer_1_error(self) -> (r: bool)
        ensures
            r == bit32(self.0, 10),
    {
        get_bit32(self.0, 10)
    }

    /// A copy with the `accelerometer_1_error` flag (bit 10) set to `v`.
    pub fn with_accelerometer_1_error(self, v: bool) -> (r: Self)
        ensures
            r.0 == with_bit32(self.0, 10, v),
    {
        Self(put_bit32(self.0, 10, v))
    }

    /// Sets the `accelerometer_1_error` flag (bit 10) to `v` in place.
    pub fn set_accelerometer_1_error(&mut self, v: bool)
        ensures
            final(self).0 == with_bit32(old(self).0, 10, v),
    {
        *self = self.with_accelerometer_1_error(v);
    }

    /// The `gyroscope_0_error` flag, bit 11.
    pub fn gyroscope_0_error(self) -> (r: bool)
        ensures
            r == bit32(self.0, 11),
    {
        get_bit32(self.0, 11)
    }

    /// A copy with the `gyroscope_0_error` flag (bit 11) set to `v`.
    pub fn with_gyroscope_0_error(self, v: bool) -> (r: Self)
        ensures
            r.0 == with_bit32(self.0, 11, v),
    {
        Self(put_bit32(self.0, 11, v))
    }

    /// Sets the `gyroscope_0_error` flag (bit 11) to `v` in place.
    pub fn set_gyroscope_0_error(&mut self, v: bool)
        ensures
            final(self).0 == with_bit32(old(self).0, 11, v),
    {
        *self = self.with_gyroscope_0_error(v);
    }

    /// The `gyroscope_1_error` flag, bit 12.
    pub fn gyroscope_1_error(self) -> (r: bool)
        ensures
            r == bit32(self.0, 12),
    {
        get_bit32(self.0, 12)
    }

    /// A copy with the `gyroscope_1_error` flag (bit 12) set to `v`.
    pub fn with_gyroscope_1_error(self, v: bool) -> (r: Self)
        ensures
            r.0 == with_bit32(self.0, 12, v),
    {
        Self(put_bit32(self.0, 12, v))
    }

    /// Sets the `gyroscope_1_error` flag (bit 12) to `v` in place.
    pub fn set_gyroscope_1_error(&mut self, v: bool)
        ensures
            final(self).0 == with_bit32(old(self).0, 12, v),
    {
        *self = self.with_gyroscope_1_error(v);
    }

    /// The `motor_fl_general_error` flag, bit 13.
    pub fn motor_fl_general_error(self) -> (r: bool)
        ensures
            r == bit32(self.0, 13),
    {
        get_bit32(self.0, 13)
    }

    /// A copy with the `motor_fl_general_error` flag (bit 13) set to `v`.
    pub fn with_motor_fl_general_error(self, v: bool) -> (r: Self)
        ensures
            r.0 == with_bit32(self.0, 13, v),
    {
        Self(put_bit32(self.0, 13, v))
    }

    /// Sets the `motor_fl_general_error` flag (bit 13) to `v` in place.
    pub fn set_motor_fl_general_error(&mut self, v: bool)
        ensures
            final(self).0 == with_bit32(old(self).0, 13, v),
    {
        *self = self.with_motor_fl_general_error(v);
    }

    /// The `motor_fl_hall_error` flag, bit 14.
    pub fn motor_fl_hall_error(self) -> (r: bool)
        ensures
            r == bit32(self.0, 14),
    {
        get_bit32(self.0, 14)
    }

    /// A copy with the `motor_fl_hall_error` flag (bit 14) set to `v`.
    pub fn with_motor_fl_hall_error(self, v: bool) -> (r: Self)
        ensures
            r.0 == with_bit32(self.0, 14, v),
    {
        Self(put_bit32(self.0, 14, v))
    }

    /// Sets the `motor_fl_hall_error` flag (bit 14) to `v` in place.
    pub fn set_motor_fl_hall_error(&mut self, v: bool)
        ensures
            final(self).0 == with_bit32(old(self).0, 14, v),
    {
        *self = self.with_motor_fl_hall_error(v);
    }

    /// The `motor_bl_general_error` flag, bit 15.
    pub fn motor_bl_general_error(self) -> (r: bool)
        ensures
            r == bit32(self.0, 15),
    {
        get_bit32(self.0, 15)
    }

    /// A copy with the `motor_bl_general_error` flag (bit 15) set to `v`.
    pub fn with_motor_bl_general_error(self, v: bool) -> (r: Self)
        ensures
            r.0 == with_bit32(self.0, 15, v),
    {
        Self(put_bit32(self.0, 15, v))
    }

    /// Sets the `motor_bl_general_error` flag (bit 15) to `v` in place.
    pub fn set_motor_bl_general_error(&mut self, v: bool)
        ensures
            final(self).0 == with_bit32(old(self).0, 15, v),
    {
        *self = self.with_motor_bl_general_error(v);
    }

    /// The `motor_bl_hall_error` flag, bit 16.
    pub fn motor_bl_hall_error(self) -> (r: bool)
        ensures
            r == bit32(self.0, 16),
    {
        get_bit32(self.0, 16)
    }

    /// A copy with the `motor_bl_hall_error` flag (bit 16) set to `v`.
    pub fn with_motor_bl_hall_error(self, v: bool) -> (r: Self)
        ensures
            r.0 == with_bit32(self.0, 16, v),
    {
        Self(put_bit32(self.0, 16, v))
    }

    /// Sets the `motor_bl_hall_error` flag (bit 16) to `v` in place.
    pub fn set_motor_bl_hall_error(&mut self, v: bool)
        ensures
            final(self).0 == with_bit32(old(self).0, 16, v),
    {
        *self = self.with_motor_bl_hall_error(v);
    }

    /// The `motor_br_general_error` flag, bit 17.
    pub fn motor_br_general_error(self) -> (r: bool)
        ensures
            r == bit32(self.0, 17),
    {
        get_bit32(self.0, 17)
    }

    /// A copy with the `motor_br_general_error` flag (bit 17) set to `v`.
    pub fn with_motor_br_general_error(self, v: bool) -> (r: Self)
        ensures
            r.0 == with_bit32(self.0, 17, v),
    {
        Self(put_bit32(self.0, 17, v))
    }

    /// Sets the `motor_br_general_error` flag (bit 17) to `v` in place.
    pub fn set_motor_br_general_error(&mut self, v: bool)
        ensures
            final(self).0 == with_bit32(old(self).0, 17, v),
    {
        *self = self.with_motor_br_general_error(v);
    }

    /// The `motor_br_hall_error` flag, bit 18.
    pub fn motor_br_hall_error(self) -> (r: bool)
        ensures
            r == bit32(self.0, 18),
    {
        get_bit32(self.0, 18)
    }

    /// A copy with the `motor_br_hall_error` flag (bit 18) set to `v`.
    pub fn with_motor_br_hall_error(self, v: bool) -> (r: Self)
        ensures
            r.0 == with_bit32(self.0, 18, v),
    {
        Self(put_bit32(self.0, 18, v))
    }

    /// Sets the `motor_br_hall_error` flag (bit 18) to `v` in place.
    pub fn set_motor_br_hall_error(&mut self, v: bool)
        ensures
            final(self).0 == with_bit32(old(self).0, 18, v),
    {
        *self = self.with_motor_br_hall_error(v);
    }

    /// The `motor_fr_general_error` flag, bit 19.
    pub fn motor_fr_general_error(self) -> (r: bool)
        ensures
            r == bit32(self.0, 19),
    {
        get_bit32(self.0, 19)
    }

    /// A copy with the `motor_fr_general_error` flag (bit 19) set to `v`.
    pub fn with_motor_fr_general_error(self, v: bool) -> (r: Self)
        ensures
            r.0 == with_bit32(self.0, 19, v),
    {
        Self(put_bit32(self.0, 19, v))
    }

    /// Sets the `motor_fr_general_error` flag (bit 19) to `v` in place.
    pub fn set_motor_fr_general_error(&mut self, v: bool)
        ensures
            final(self).0 == with_bit32(old(self).0, 19, v),
    {
        *self = self.with_motor_fr_general_error(v);
    }

    /// The `motor_fr_hall_error` flag, bit 20.
    pub fn motor_fr_hall_error(self) -> (r: bool)
        ensures
            r == bit32(self.0, 20),
    {
        get_bit32(self.0, 20)
    }

    /// A copy with the `motor_fr_hall_error` flag (bit 20) set to `v`.
    pub fn with_motor_fr_hall_error(self, v: bool) -> (r: Self)
        ensures
            r.0 == with_bit32(self.0, 20, v),
    {
        Self(put_bit32(self.0, 20, v))
    }

    /// Sets the `motor_fr_hall_error` flag (bit 20) to `v` in place.
    pub fn set_motor_fr_hall_error(&mut self, v: bool)
        ensures
            final(self).0 == with_bit32(old(self).0, 20, v),
    {
        *self = self.with_motor_fr_hall_error(v);
    }

    /// The `motor_drib_general_error` flag, bit 21.
    pub fn motor_drib_general_error(self) -> (r: bool)
        ensures
            r == bit32(self.0, 21),
    {
        get_bit32(self.0, 21)
    }

    /// A copy with the `motor_drib_general_error` flag (bit 21) set to `v`.
    pub fn with_motor_drib_general_error(self, v: bool) -> (r: Self)
        ensures
            r.0 == with_bit32(self.0, 21, v),
    {
        Self(put_bit32(self.0, 21, v))
    }

    /// Sets the `motor_drib_general_error` flag (bit 21) to `v` in place.
    pub fn set_motor_drib_general_error(&mut self, v: bool)
        ensures
            final(self).0 == with_bit32(old(self).0, 21, v),
    {
        *self = self.with_motor_drib_general_error(v);
    }

    /// The `motor_drib_hall_error` flag, bit 22.
    pub fn motor_drib_hall_error(self) -> (r: bool)
        ensures
            r == bit32(self.0, 22),
    {
        get_bit32(self.0, 22)
    }

    /// A copy with the `motor_drib_hall_error` flag (bit 22) set to `v`.
    pub fn with_motor_drib_hall_error(self, v: bool) -> (r: Self)
        ensures
            r.0 == with_bit32(self.0, 22, v),
    {
        Self(put_bit32(self.0, 22, v))
    }

    /// Sets the `motor_drib_hall_error` flag (bit 22) to `v` in place.
    pub fn set_motor_drib_hall_error(&mut self, v: bool)
        ensures
            final(self).0 == with_bit32(old(self).0, 22, v),
    {
        *self = self.with_motor_drib_hall_error(v);
    }

    /// The `kicker_board_error` flag, bit 23.
    pub fn kicker_board_error(self) -> (r: bool)
        ensures
            r == bit32(self.0, 23),
    {
        get_bit32(self.0, 23)
    }

    /// A copy with the `kicker_board_error` flag (bit 23) set to `v`.
    pub fn with_kicker_board_error(self, v: bool) -> (r: Self)
        ensures
            r.0 == with_bit32(self.0, 23, v),
    {
        Self(put_bit32(self.0, 23, v))
    }

    /// Sets the `kicker_board_error` flag (bit 23) to `v` in place.
    pub fn set_kicker_board_error(&mut self, v: bool)
        ensures
            final(self).0 == with_bit32(old(self).0, 23, v),
    {
        *self = self.with_kicker_board_error(v);
    }

    /// The `chipper_available` flag, bit 24.
    pub fn chipper_available(self) -> (r: bool)
        ensures
            r == bit32(self.0, 24),
    {
        get_bit32(self.0, 24)
    }

    /// A copy with the `chipper_available` flag (bit 24) set to `v`.
    pub fn with_chipper_available(self, v: bool) -> (r: Self)
        ensures
            r.0 == with_bit32(self.0, 24, v),
    {
        Self(put_bit32(self.0, 24, v))
    }

    /// Sets the `chipper_available` flag (bit 24) to `v` in place.
    pub fn set_chipper_available(&mut self, v: bool)
        ensures
            final(self).0 == with_bit32(old(self).0, 24, v),
    {
        *self = self.with_chipper_available(v);
    }

    /// The `kicker_available` flag, bit 25.
    pub fn kicker_available(self) -> (r: bool)
        ensures
            r == bit32(self.0, 25),
    {
        get_bit32(self.0, 25)
    }

    /// A copy with the `kicker_available` flag (bit 25) set to `v`.
    pub fn with_kicker_available(self, v: bool) -> (r: Self)
        ensures
            r.0 == with_bit32(self.0, 25, v),
    {
        Self(put_bit32(self.0, 25, v))
    }

    /// Sets the `kicker_available` flag (bit 25) to `v` in place.
    pub fn set_kicker_available(&mut self, v: bool)
        ensures
            final(self).0 == with_bit32(old(self).0, 25, v),
    {
        *self = self.with_kicker_available(v);
    }

    /// The `controller_reset` flag, bit 26.
    pub fn controller_reset(self) -> (r: bool)
        ensures
            r == bit32(self.0, 26),
    {
        get_bit32(self.0, 26)
    }

    /// A copy with the `controller_reset` flag (bit 26) set to `v`.
    pub fn with_controller_reset(self, v: bool) -> (r: Self)
        ensures
            r.0 == with_bit32(self.0, 26, v),
    {
        Self(put_bit32(self.0, 26, v))
    }

    /// Sets the `controller_reset` flag (bit 26) to `v` in place.
    pub fn set_controller_reset(&mut self, v: bool)
        ensures
            final(self).0 == with_bit32(old(self).0, 26, v),
    {
        *self = self.with_controller_reset(v);
    }
}

/// Flags of a `BodyControlExtendedTelemetry` packet.
///
/// A `u8` whose bits 0 to 0 hold the named flags and whose bits 1 to 7 are reserved.
#[derive(Clone, Copy, Default, Debug, PartialEq, Eq, Structural)]
pub struct BodyControlExtTelemetryFlags(pub u8);

impl BodyControlExtTelemetryFlags {
    /// The `vision_update` flag, bit 0.
    pub fn vision_update(self) -> (r: bool)
        ensures
            r == bit8(self.0, 0),
    {
        get_bit8(self.0, 0)
    }

    /// A copy with the `vision_update` flag (bit 0) set to `v`.
    pub fn with_vision_update(self, v: bool) -> (r: Self)
        ensures
            r.0 == with_bit8(self.0, 0, v),
    {
        Self(put_bit8(self.0, 0, v))
    }

    /// Sets the `vision_update` flag (bit 0) to `v` in place.
    pub fn set_vision_update(&mut self, v: bool)
        ensures
            final(self).0 == with_bit8(old(self).0, 0, v),
    {
        *self = self.with_vision_update(v);
    }
}

/// Battery status flags of a `BatteryInfo` record.
///
/// A `u16` whose bits 0 to 6 hold the named flags and whose bits 7 to 15 are reserved.
#[derive(Clone, Copy, Default, Debug, PartialEq, Eq, Structural)]
pub struct BatteryStatus(pub u16);

impl BatteryStatus {
    /// The `battery_ok` flag, bit 0.
    pub fn battery_ok(self) -> (r: bool)
        ensures
            r == bit16(self.0, 0),
    {
        get_bit16(self.0, 0)
    }

    /// A copy with the `battery_ok` flag (bit 0) set to `v`.
    pub fn with_battery_ok(self, v: bool) -> (r: Self)
        ensures
            r.0 == with_bit16(self.0, 0, v),
    {
        Self(put_bit16(self.0, 0, v))
    }

    /// Sets the `battery_ok` flag (bit 0) to `v` in place.
    pub fn set_battery_ok(&mut self, v: bool)
        ensures
            final(self).0 == with_bit16(old(self).0, 0, v),
    {
        *self = self.with_battery_ok(v);
    }

    /// The `battery_balance_connected` flag, bit 1.
    pub fn battery_balance_connected(self) -> (r: bool)
        ensures
            r == bit16(self.0, 1),
    {
        get_bit16(self.0, 1)
    }

    /// A copy with the `battery_balance_connected` flag (bit 1) set to `v`.
    pub fn with_battery_balance_connected(self, v: bool) -> (r: Self)
        ensures
            r.0 == with_bit16(self.0, 1, v),
    {
        Self(put_bit16(self.0, 1, v))
    }

    /// Sets the `battery_balance_connected` flag (bit 1) to `v` in place.
    pub fn set_battery_balance_connected(&mut self, v: bool)
        ensures
            final(self).0 == with_bit16(old(self).0, 1, v),
    {
        *self = self.with_battery_balance_connected(v);
    }

    /// The `battery_low` flag, bit 2.
    pub fn battery_low(self) -> (r: bool)
        ensures
            r == bit16(self.0, 2),
    {
        get_bit16(self.0, 2)
    }

    /// A copy with the `battery_low` flag (bit 2) set to `v`.
    pub fn with_battery_low(self, v: bool) -> (r: Self)
        ensures
            r.0 == with_bit16(self.0, 2, v),
    {
        Self(put_bit16(self.0, 2, v))
    }

    /// Sets the `battery_low` flag (bit 2) to `v` in place.
    pub fn set_battery_low(&mut self, v: bool)
        ensures
            final(self).0 == with_bit16(old(self).0, 2, v),
    {
        *self = self.with_battery_low(v);
    }

    /// The `battery_critical` flag, bit 3.
    pub fn battery_critical(self) -> (r: bool)
        ensures
            r == bit16(self.0, 3),
    {
        get_bit16(self.0, 3)
    }

    /// A copy with the `battery_critical` flag (bit 3) set to `v`.
    pub fn with_battery_critical(self, v: bool) -> (r: Self)
        ensures
            r.0 == with_bit16(self.0, 3, v),
    {
        Self(put_bit16(self.0, 3, v))
    }

    /// Sets the `battery_critical` flag (bit 3) to `v` in place.
    pub fn set_battery_critical(&mut self, v: bool)
        ensures
            final(self).0 == with_bit16(old(self).0, 3, v),
    {
        *self = self.with_battery_critical(v);
    }

    /// The `battery_cell_low` flag, bit 4.
    pub fn battery_cell_low(self) -> (r: bool)
        ensures
            r == bit16(self.0, 4),
    {
        get_bit16(self.0, 4)
    }

    /// A copy with the `battery_cell_low` flag (bit 4) set to `v`.
    pub fn with_battery_cell_low(self, v: bool) -> (r: Self)
        ensures
            r.0 == with_bit16(self.0, 4, v),
    {
        Self(put_bit16(self.0, 4, v))
    }

    /// Sets the `battery_cell_low` flag (bit 4) to `v` in place.
    pub fn set_battery_cell_low(&mut self, v: bool)
        ensures
            final(self).0 == with_bit16(old(self).0, 4, v),
    {
        *self = self.with_battery_cell_low(v);
    }

    /// The `battery_cell_critical` flag, bit 5.
    pub fn battery_cell_critical(self) -> (r: bool)
        ensures
            r == bit16(self.0, 5),
    {
        get_bit16(self.0, 5)
    }

    /// A copy with the `battery_cell_critical` flag (bit 5) set to `v`.
    pub fn with_battery_cell_critical(self, v: bool) -> (r: Self)
        ensures
            r.0 == with_bit16(self.0, 5, v),
    {
        Self(put_bit16(self.0, 5, v))
    }

    /// Sets the `battery_cell_critical` flag (bit 5) to `v` in place.
    pub fn set_battery_cell_critical(&mut self, v: bool)
        ensures
            final(self).0 == with_bit16(old(self).0, 5, v),
    {
        *self = self.with_battery_cell_critical(v);
    }

    /// The `battery_cell_imbalance_warn` flag, bit 6.
    pub fn battery_cell_imbalance_warn(self) -> (r: bool)
        ensures
            r == bit16(self.0, 6),
    {
        get_bit16(self.0, 6)
    }

    /// A copy with the `battery_cell_imbalance_warn` flag (bit 6) set to `v`.
    pub fn with_battery_cell_imbalance_warn(self, v: bool) -> (r: Self)
        ensures
            r.0 == with_bit16(self.0, 6, v),
    {
        Self(put_bit16(self.0, 6, v))
    }

    /// Sets the `battery_cell_imbalance_warn` flag (bit 6) to `v` in place.
    pub fn set_battery_cell_imbalance_warn(&mut self, v: bool)
        ensures
            final(self).0 == with_bit16(old(self).0, 6, v),
    {
        *self = self.with_battery_cell_imbalance_warn(v);
    }
}

/// Power board status flags of a `PowerTelemetry` packet.
///
/// A `u32` whose bits 0 to 5 hold the named flags and whose bits 6 to 31 are reserved.
#[derive(Clone, Copy, Default, Debug, PartialEq, Eq, Structural)]
pub struct PowerStatus(pub u32);

impl PowerStatus {
    /// The `power_ok` flag, bit 0.
    pub fn power_ok(self) -> (r: bool)
        ensures
            r == bit32(self.0, 0),
    {
        get_bit32(self.0, 0)
    }

    /// A copy with the `power_ok` flag (bit 0) set to `v`.
    pub fn with_power_ok(self, v: bool) -> (r: Self)
        ensures
            r.0 == with_bit32(self.0, 0, v),
    {
        Self(put_bit32(self.0, 0, v))
    }

    /// Sets the `power_ok` flag (bit 0) to `v` in place.
    pub fn set_power_ok(&mut self, v: bool)
        ensures
            final(self).0 == with_bit32(old(self).0, 0, v),
    {
        *self = self.with_power_ok(v);
    }

    /// The `power_rail_3v3_ok` flag, bit 1.
    pub fn power_rail_3v3_ok(self) -> (r: bool)
        ensures
            r == bit32(self.0, 1),
    {
        get_bit32(self.0, 1)
    }

    /// A copy with the `power_rail_3v3_ok` flag (bit 1) set to `v`.
    pub fn with_power_rail_3v3_ok(self, v: bool) -> (r: Self)
        ensures
            r.0 == with_bit32(self.0, 1, v),
    {
        Self(put_bit32(self.0, 1, v))
    }

    /// Sets the `power_rail_3v3_ok` flag (bit 1) to `v` in place.
    pub fn set_power_rail_3v3_ok(&mut self, v: bool)
        ensures
            final(self).0 == with_bit32(old(self).0, 1, v),
    {
        *self = self.with_power_rail_3v3_ok(v);
    }

    /// The `power_rail_5v0_ok` flag, bit 2.
    pub fn power_rail_5v0_ok(self) -> (r: bool)
        ensures
            r == bit32(self.0, 2),
    {
        get_bit32(self.0, 2)
    }

    /// A copy with the `power_rail_5v0_ok` flag (bit 2) set to `v`.
    pub fn with_power_rail_5v0_ok(self, v: bool) -> (r: Self)
        ensures
            r.0 == with_bit32(self.0, 2, v),
    {
        Self(put_bit32(self.0, 2, v))
    }

    /// Sets the `power_rail_5v0_ok` flag (bit 2) to `v` in place.
    pub fn set_power_rail_5v0_ok(&mut self, v: bool)
        ensures
            final(self).0 == with_bit32(old(self).0, 2, v),
    {
        *self = self.with_power_rail_5v0_ok(v);
    }

    /// The `power_rail_12v0_ok` flag, bit 3.
    pub fn power_rail_12v0_ok(self) -> (r: bool)
        ensures
            r == bit32(self.0, 3),
    {
        get_bit32(self.0, 3)
    }

    /// A copy with the `power_rail_12v0_ok` flag (bit 3) set to `v`.
    pub fn with_power_rail_12v0_ok(self, v: bool) -> (r: Self)
        ensures
            r.0 == with_bit32(self.0, 3, v),
    {
        Self(put_bit32(self.0, 3, v))
    }

    /// Sets the `power_rail_12v0_ok` flag (bit 3) to `v` in place.
    pub fn set_power_rail_12v0_ok(&mut self, v: bool)
        ensures
            final(self).0 == with_bit32(old(self).0, 3, v),
    {
        *self = self.with_power_rail_12v0_ok(v);
    }

    /// The `high_current_operations_allowed` flag, bit 4.
    pub fn high_current_operations_allowed(self) -> (r: bool)
        ensures
            r == bit32(self.0, 4),
    {
        get_bit32(self.0, 4)
    }

    /// A copy with the `high_current_operations_allowed` flag (bit 4) set to `v`.
    pub fn with_high_current_operations_allowed(self, v: bool) -> (r: Self)
        ensures
            r.0 == with_bit32(self.0, 4, v),
    {
        Self(put_bit32(self.0, 4, v))
    }

    /// Sets the `high_current_operations_allowed` flag (bit 4) to `v` in place.
    pub fn set_high_current_operations_allowed(&mut self, v: bool)
        ensures
            final(self).0 == with_bit32(old(self).0, 4, v),
    {
        *self = self.with_high_current_operations_allowed(v);
    }

    /// The `shutdown_requested` flag, bit 5.
    pub fn shutdown_requested(self) -> (r: bool)
        ensures
            r == bit32(self.0, 5),
    {
        get_bit32(self.0, 5)
    }

    /// A copy with the `shutdown_requested` flag (bit 5) set to `v`.
    pub fn with_shutdown_requested(self, v: bool) -> (r: Self)
        ensures
            r.0 == with_bit32(self.0, 5, v),
    {
        Self(put_bit32(self.0, 5, v))
    }

    /// Sets the `shutdown_requested` flag (bit 5) to `v` in place.
    pub fn set_shutdown_requested(&mut self, v: bool)
        ensures
            final(self).0 == with_bit32(old(self).0, 5, v),
    {
        *self = self.with_shutdown_requested(v);
    }
}

/// Shutdown flags of a `PowerCommand` packet.
///
/// A `u32` whose bits 0 to 3 hold the named flags and whose bits 4 to 31 are reserved.
#[derive(Clone, Copy, Default, Debug, PartialEq, Eq, Structural)]
pub struct PowerCommandFlags(pub u32);

impl PowerCommandFlags {
    /// The `request_shutdown` flag, bit 0.
    pub fn request_shutdown(self) -> (r: bool)
        ensures
            r == bit32(self.0, 0),
    {
        get_bit32(self.0, 0)
    }

    /// A copy with the `request_shutdown` flag (bit 0) set to `v`.
    pub fn with_request_shutdown(self, v: bool) -> (r: Self)
        ensures
            r.0 == with_bit32(self.0, 0, v),
    {
        Self(put_bit32(self.0, 0, v))
    }

    /// Sets the `request_shutdown` flag (bit 0) to `v` in place.
    pub fn set_request_shutdown(&mut self, v: bool)
        ensures
            final(self).0 == with_bit32(old(self).0, 0, v),
    {
        *self = self.with_request_shutdown(v);
    }

    /// The `cancel_shutdown` flag, bit 1.
    pub fn cancel_shutdown(self) -> (r: bool)
        ensures
            r == bit32(self.0, 1),
    {
        get_bit32(self.0, 1)
    }

    /// A copy with the `cancel_shutdown` flag (bit 1) set to `v`.
    pub fn with_cancel_shutdown(self, v: bool) -> (r: Self)
        ensures
            r.0 == with_bit32(self.0, 1, v),
    {
        Self(put_bit32(self.0, 1, v))
    }

    /// Sets the `cancel_shutdown` flag (bit 1) to `v` in place.
    pub fn set_cancel_shutdown(&mut self, v: bool)
        ensures
            final(self).0 == with_bit32(old(self).0, 1, v),
    {
        *self = self.with_cancel_shutdown(v);
    }

    /// The `ready_shutdown` flag, bit 2.
    pub fn ready_shutdown(self) -> (r: bool)
        ensures
            r == bit32(self.0, 2),
    {
        get_bit32(self.0, 2)
    }

    /// A copy with the `ready_shutdown` flag (bit 2) set to `v`.
    pub fn with_ready_shutdown(self, v: bool) -> (r: Self)
        ensures
            r.0 == with_bit32(self.0, 2, v),
    {
        Self(put_bit32(self.0, 2, v))
    }

    /// Sets the `ready_shutdown` flag (bit 2) to `v` in place.
    pub fn set_ready_shutdown(&mut self, v: bool)
        ensures
            final(self).0 == with_bit32(old(self).0, 2, v),
    {
        *self = self.with_ready_shutdown(v);
    }

    /// The `force_shutdown` flag, bit 3.
    pub fn force_shutdown(self) -> (r: bool)
        ensures
            r == bit32(self.0, 3),
    {
        get_bit32(self.0, 3)
    }

    /// A copy with the `force_shutdown` flag (bit 3) set to `v`.
    pub fn with_force_shutdown(self, v: bool) -> (r: Self)
        ensures
            r.0 == with_bit32(self.0, 3, v),
    {
        Self(put_bit32(self.0, 3, v))
    }

    /// Sets the `force_shutdown` flag (bit 3) to `v` in place.
    pub fn set_force_shutdown(&mut self, v: bool)
        ensures
            final(self).0 == with_bit32(old(self).0, 3, v),
    {
        *self = self.with_force_shutdown(v);
    }
}

/// Repository state flags of a `HelloRequest` packet.
///
/// A `u8` whose bits 0 to 2 hold the named flags and whose bits 3 to 7 are reserved.
#[derive(Clone, Copy, Default, Debug, PartialEq, Eq, Structural)]
pub struct DiscoveryFlags(pub u8);

impl DiscoveryFlags {
    /// The `coms_repo_dirty` flag, bit 0.
    pub fn coms_repo_dirty(self) -> (r: bool)
        ensures
            r == bit8(self.0, 0),
    {
        get_bit8(self.0, 0)
    }

    /// A copy with the `coms_repo_dirty` flag (bit 0) set to `v`.
    pub fn with_coms_repo_dirty(self, v: bool) -> (r: Self)
        ensures
            r.0 == with_bit8(self.0, 0, v),
    {
        Self(put_bit8(self.0, 0, v))
    }

    /// Sets the `coms_repo_dirty` flag (bit 0) to `v` in place.
    pub fn set_coms_repo_dirty(&mut self, v: bool)
        ensures
            final(self).0 == with_bit8(old(self).0, 0, v),
    {
        *self = self.with_coms_repo_dirty(v);
    }

    /// The `controls_repo_dirty` flag, bit 1.
    pub fn controls_repo_dirty(self) -> (r: bool)
        ensures
            r == bit8(self.0, 1),
    {
        get_bit8(self.0, 1)
    }

    /// A copy with the `controls_repo_dirty` flag (bit 1) set to `v`.
    pub fn with_controls_repo_dirty(self, v: bool) -> (r: Self)
        ensures
            r.0 == with_bit8(self.0, 1, v),
    {
        Self(put_bit8(self.0, 1, v))
    }

    /// Sets the `controls_repo_dirty` flag (bit 1) to `v` in place.
    pub fn set_controls_repo_dirty(&mut self, v: bool)
        ensures
            final(self).0 == with_bit8(old(self).0, 1, v),
    {
        *self = self.with_controls_repo_dirty(v);
    }

    /// The `firmware_repo_dirty` flag, bit 2.
    pub fn firmware_repo_dirty(self) -> (r: bool)
        ensures
            r == bit8(self.0, 2),
    {
        get_bit8(self.0, 2)
    }

    /// A copy with the `firmware_repo_dirty` flag (bit 2) set to `v`.
    pub fn with_firmware_repo_dirty(self, v: bool) -> (r: Self)
        ensures
            r.0 == with_bit8(self.0, 2, v),
    {
        Self(put_bit8(self.0, 2, v))
    }

    /// Sets the `firmware_repo_dirty` flag (bit 2) to `v` in place.
    pub fn set_firmware_repo_dirty(&mut self, v: bool)
        ensures
            final(self).0 == with_bit8(old(self).0, 2, v),
    {
        *self = self.with_firmware_repo_dirty(v);
    }
}

/// Command flags of a `KickerControl` packet.
///
/// A `u16` whose bits 0 to 2 hold the named flags and whose bits 3 to 15 are reserved.
#[derive(Clone, Copy, Default, Debug, PartialEq, Eq, Structural)]
pub struct KickerCommandFlags(pub u16);

impl KickerCommandFlags {
    /// The `telemetry_enabled` flag, bit 0.
    pub fn telemetry_enabled(self) -> (r: bool)
        ensures
            r == bit16(self.0, 0),
    {
        get_bit16(self.0, 0)
    }

    /// A copy with the `telemetry_enabled` flag (bit 0) set to `v`.
    pub fn with_telemetry_enabled(self, v: bool) -> (r: Self)
        ensures
            r.0 == with_bit16(self.0, 0, v),
    {
        Self(put_bit16(self.0, 0, v))
    }

    /// Sets the `telemetry_enabled` flag (bit 0) to `v` in place.
    pub fn set_telemetry_enabled(&mut self, v: bool)
        ensures
            final(self).0 == with_bit16(old(self).0, 0, v),
    {
        *self = self.with_telemetry_enabled(v);
    }

    /// The `enable_charging` flag, bit 1.
    pub fn enable_charging(self) -> (r: bool)
        ensures
            r == bit16(self.0, 1),
    {
        get_bit16(self.0, 1)
    }

    /// A copy with the `enable_charging` flag (bit 1) set to `v`.
    pub fn with_enable_charging(self, v: bool) -> (r: Self)
        ensures
            r.0 == with_bit16(self.0, 1, v),
    {
        Self(put_bit16(self.0, 1, v))
    }

    /// Sets the `enable_charging` flag (bit 1) to `v` in place.
    pub fn set_enable_charging(&mut self, v: bool)
        ensures
            final(self).0 == with_bit16(old(self).0, 1, v),
    {
        *self = self.with_enable_charging(v);
    }

    /// The `request_power_down` flag, bit 2.
    pub fn request_power_down(self) -> (r: bool)
        ensures
            r == bit16(self.0, 2),
    {
        get_bit16(self.0, 2)
    }

    /// A copy with the `request_power_down` flag (bit 2) set to `v`.
    pub fn with_request_power_down(self, v: bool) -> (r: Self)
        ensures
            r.0 == with_bit16(self.0, 2, v),
    {
        Self(put_bit16(self.0, 2, v))
    }

    /// Sets the `request_power_down` flag (bit 2) to `v` in place.
    pub fn set_request_power_down(&mut self, v: bool)
        ensures
            final(self).0 == with_bit16(old(self).0, 2, v),
    {
        *self = self.with_request_power_down(v);
    }
}

/// Status flags of a `KickerTelemetry` packet.
///
/// A `u16` whose bits 0 to 6 hold the named flags and whose bits 7 to 15 are reserved.
#[derive(Clone, Copy, Default, Debug, PartialEq, Eq, Structural)]
pub struct KickerStatusFlags(pub u16);

impl KickerStatusFlags {
    /// The `error_detected` flag, bit 0.
    pub fn error_detected(self) -> (r: bool)
        ensures
            r == bit16(self.0, 0),
    {
        get_bit16(self.0, 0)
    }

    /// A copy with the `error_detected` flag (bit 0) set to `v`.
    pub fn with_error_detected(self, v: bool) -> (r: Self)
        ensures
            r.0 == with_bit16(self.0, 0, v),
    {
        Self(put_bit16(self.0, 0, v))
    }

    /// Sets the `error_detected` flag (bit 0) to `v` in place.
    pub fn set_error_detected(&mut self, v: bool)
        ensures
            final(self).0 == with_bit16(old(self).0, 0, v),
    {
        *self = self.with_error_detected(v);
    }

    /// The `dribbler_error` flag, bit 1.
    pub fn dribbler_error(self) -> (r: bool)
        ensures
            r == bit16(self.0, 1),
    {
        get_bit16(self.0, 1)
    }

    /// A copy with the `dribbler_error` flag (bit 1) set to `v`.
    pub fn with_dribbler_error(self, v: bool) -> (r: Self)
        ensures
            r.0 == with_bit16(self.0, 1, v),
    {
        Self(put_bit16(self.0, 1, v))
    }

    /// Sets the `dribbler_error` flag (bit 1) to `v` in place.
    pub fn set_dribbler_error(&mut self, v: bool)
        ensures
            final(self).0 == with_bit16(old(self).0, 1, v),
    {
        *self = self.with_dribbler_error(v);
    }

    /// The `power_down_requested` flag, bit 2.
    pub fn power_down_requested(self) -> (r: bool)
        ensures
            r == bit16(self.0, 2),
    {
        get_bit16(self.0, 2)
    }

    /// A copy with the `power_down_requested` flag (bit 2) set to `v`.
    pub fn with_power_down_requested(self, v: bool) -> (r: Self)
        ensures
            r.0 == with_bit16(self.0, 2, v),
    {
        Self(put_bit16(self.0, 2, v))
    }

    /// Sets the `power_down_requested` flag (bit 2) to `v` in place.
    pub fn set_power_down_requested(&mut self, v: bool)
        ensures
            final(self).0 == with_bit16(old(self).0, 2, v),
    {
        *self = self.with_power_down_requested(v);
    }

    /// The `power_down_complete` flag, bit 3.
    pub fn power_down_complete(self) -> (r: bool)
        ensures
            r == bit16(self.0, 3),
    {
        get_bit16(self.0, 3)
    }

    /// A copy with the `power_down_complete` flag (bit 3) set to `v`.
    pub fn with_power_down_complete(self, v: bool) -> (r: Self)
        ensures
            r.0 == with_bit16(self.0, 3, v),
    {
        Self(put_bit16(self.0, 3, v))
    }

    /// Sets the `power_down_complete` flag (bit 3) to `v` in place.
    pub fn set_power_down_complete(&mut self, v: bool)
        ensures
            final(self).0 == with_bit16(old(self).0, 3, v),
    {
        *self = self.with_power_down_complete(v);
    }

    /// The `ball_detected` flag, bit 4.
    pub fn ball_detected(self) -> (r: bool)
        ensures
            r == bit16(self.0, 4),
    {
        get_bit16(self.0, 4)
    }

    /// A copy with the `ball_detected` flag (bit 4) set to `v`.
    pub fn with_ball_detected(self, v: bool) -> (r: Self)
        ensures
            r.0 == with_bit16(self.0, 4, v),
    {
        Self(put_bit16(self.0, 4, v))
    }

    /// Sets the `ball_detected` flag (bit 4) to `v` in place.
    pub fn set_ball_detected(&mut self, v: bool)
        ensures
            final(self).0 == with_bit16(old(self).0, 4, v),
    {
        *self = self.with_ball_detected(v);
    }

    /// The `charge_full` flag, bit 5.
    pub fn charge_full(self) -> (r: bool)
        ensures
            r == bit16(self.0, 5),
    {
        get_bit16(self.0, 5)
    }

    /// A copy with the `charge_full` flag (bit 5) set to `v`.
    pub fn with_charge_full(self, v: bool) -> (r: Self)
        ensures
            r.0 == with_bit16(self.0, 5, v),
    {
        Self(put_bit16(self.0, 5, v))
    }

    /// Sets the `charge_full` flag (bit 5) to `v` in place.
    pub fn set_charge_full(&mut self, v: bool)
        ensures
            final(self).0 == with_bit16(old(self).0, 5, v),
    {
        *self = self.with_charge_full(v);
    }

    /// The `dribbler_fw_loaded` flag, bit 6.
    pub fn dribbler_fw_loaded(self) -> (r: bool)
        ensures
            r == bit16(self.0, 6),
    {
        get_bit16(self.0, 6)
    }

    /// A copy with the `dribbler_fw_loaded` flag (bit 6) set to `v`.
    pub fn with_dribbler_fw_loaded(self, v: bool) -> (r: Self)
        ensures
            r.0 == with_bit16(self.0, 6, v),
    {
        Self(put_bit16(self.0, 6, v))
    }

    /// Sets the `dribbler_fw_loaded` flag (bit 6) to `v` in place.
    pub fn set_dribbler_fw_loaded(&mut self, v: bool)
        ensures
            final(self).0 == with_bit16(old(self).0, 6, v),
    {
        *self = self.with_dribbler_fw_loaded(v);
    }
}

/// Command flags of a `CcmMotionCommand` packet.
///
/// A `u32` whose bits 0 to 3 hold the named flags and whose bits 4 to 31 are reserved.
#[derive(Clone, Copy, Default, Debug, PartialEq, Eq, Structural)]
pub struct CcmMotionCommandFlags(pub u32);

impl CcmMotionCommandFlags {
    /// The `reset` flag, bit 0.
    pub fn reset(self) -> (r: bool)
        ensures
            r == bit32(self.0, 0),
    {
        get_bit32(self.0, 0)
    }

    /// A copy with the `reset` flag (bit 0) set to `v`.
    pub fn with_reset(self, v: bool) -> (r: Self)
        ensures
            r.0 == with_bit32(self.0, 0, v),
    {
        Self(put_bit32(self.0, 0, v))
    }

    /// Sets the `reset` flag (bit 0) to `v` in place.
    pub fn set_reset(&mut self, v: bool)
        ensures
            final(self).0 == with_bit32(old(self).0, 0, v),
    {
        *self = self.with_reset(v);
    }

    /// The `enable_telemetry` flag, bit 1.
    pub fn enable_telemetry(self) -> (r: bool)
        ensures
            r == bit32(self.0, 1),
    {
        get_bit32(self.0, 1)
    }

    /// A copy with the `enable_telemetry` flag (bit 1) set to `v`.
    pub fn with_enable_telemetry(self, v: bool) -> (r: Self)
        ensures
            r.0 == with_bit32(self.0, 1, v),
    {
        Self(put_bit32(self.0, 1, v))
    }

    /// Sets the `enable_telemetry` flag (bit 1) to `v` in place.
    pub fn set_enable_telemetry(&mut self, v: bool)
        ensures
            final(self).0 == with_bit32(old(self).0, 1, v),
    {
        *self = self.with_enable_telemetry(v);
    }

    /// The `enable_motion` flag, bit 2.
    pub fn enable_motion(self) -> (r: bool)
        ensures
            r == bit32(self.0, 2),
    {
        get_bit32(self.0, 2)
    }

    /// A copy with the `enable_motion` flag (bit 2) set to `v`.
    pub fn with_enable_motion(self, v: bool) -> (r: Self)
        ensures
            r.0 == with_bit32(self.0, 2, v),
    {
        Self(put_bit32(self.0, 2, v))
    }

    /// Sets the `enable_motion` flag (bit 2) to `v` in place.
    pub fn set_enable_motion(&mut self, v: bool)
        ensures
            final(self).0 == with_bit32(old(self).0, 2, v),
    {
        *self = self.with_enable_motion(v);
    }

    /// The `calibrate_current` flag, bit 3.
    pub fn calibrate_current(self) -> (r: bool)
        ensures
            r == bit32(self.0, 3),
    {
        get_bit32(self.0, 3)
    }

    /// A copy with the `calibrate_current` flag (bit 3) set to `v`.
    pub fn with_calibrate_current(self, v: bool) -> (r: Self)
        ensures
            r.0 == with_bit32(self.0, 3, v),
    {
        Self(put_bit32(self.0, 3, v))
    }

    /// Sets the `calibrate_current` flag (bit 3) to `v` in place.
    pub fn set_calibrate_current(&mut self, v: bool)
        ensures
            final(self).0 == with_bit32(old(self).0, 3, v),
    {
        *self = self.with_calibrate_current(v);
    }
}

/// Error and reset-cause flags of a `CcmTelemetry` packet.
///
/// A `u16` whose bits 0 to 15 hold the named flags.
#[derive(Clone, Copy, Default, Debug, PartialEq, Eq, Structural)]
pub struct CcmTelemetryStatus(pub u16);

impl CcmTelemetryStatus {
    /// The `master_error` flag, bit 0.
    pub fn master_error(self) -> (r: bool)
        ensures
            r == bit16(self.0, 0),
    {
        get_bit16(self.0, 0)
    }

    /// A copy with the `master_error` flag (bit 0) set to `v`.
    pub fn with_master_error(self, v: bool) -> (r: Self)
        ensures
            r.0 == with_bit16(self.0, 0, v),
    {
        Self(put_bit16(self.0, 0, v))
    }

    /// Sets the `master_error` flag (bit 0) to `v` in place.
    pub fn set_master_error(&mut self, v: bool)
        ensures
            final(self).0 == with_bit16(old(self).0, 0, v),
    {
        *self = self.with_master_error(v);
    }

    /// The `hall_power_error` flag, bit 1.
    pub fn hall_power_error(self) -> (r: bool)
        ensures
            r == bit16(self.0, 1),
    {
        get_bit16(self.0, 1)
    }

    /// A copy with the `hall_power_error` flag (bit 1) set to `v`.
    pub fn with_hall_power_error(self, v: bool) -> (r: Self)
        ensures
            r.0 == with_bit16(self.0, 1, v),
    {
        Self(put_bit16(self.0, 1, v))
    }

    /// Sets the `hall_power_error` flag (bit 1) to `v` in place.
    pub fn set_hall_power_error(&mut self, v: bool)
        ensures
            final(self).0 == with_bit16(old(self).0, 1, v),
    {
        *self = self.with_hall_power_error(v);
    }

    /// The `hall_disconnected_error` flag, bit 2.
    pub fn hall_disconnected_error(self) -> (r: bool)
        ensures
            r == bit16(self.0, 2),
    {
        get_bit16(self.0, 2)
    }

    /// A copy with the `hall_disconnected_error` flag (bit 2) set to `v`.
    pub fn with_hall_disconnected_error(self, v: bool) -> (r: Self)
        ensures
            r.0 == with_bit16(self.0, 2, v),
    {
        Self(put_bit16(self.0, 2, v))
    }

    /// Sets the `hall_disconnected_error` flag (bit 2) to `v` in place.
    pub fn set_hall_disconnected_error(&mut self, v: bool)
        ensures
            final(self).0 == with_bit16(old(self).0, 2, v),
    {
        *self = self.with_hall_disconnected_error(v);
    }

    /// The `bldc_transition_error` flag, bit 3.
    pub fn bldc_transition_error(self) -> (r: bool)
        ensures
            r == bit16(self.0, 3),
    {
        get_bit16(self.0, 3)
    }

    /// A copy with the `bldc_transition_error` flag (bit 3) set to `v`.
    pub fn with_bldc_transition_error(self, v: bool) -> (r: Self)
        ensures
            r.0 == with_bit16(self.0, 3, v),
    {
        Self(put_bit16(self.0, 3, v))
    }

    /// Sets the `bldc_transition_error` flag (bit 3) to `v` in place.
    pub fn set_bldc_transition_error(&mut self, v: bool)
        ensures
            final(self).0 == with_bit16(old(self).0, 3, v),
    {
        *self = self.with_bldc_transition_error(v);
    }

    /// The `bldc_commutation_watchdog_error` flag, bit 4.
    pub fn bldc_commutation_watchdog_error(self) -> (r: bool)
        ensures
            r == bit16(self.0, 4),
    {
        get_bit16(self.0, 4)
    }

    /// A copy with the `bldc_commutation_watchdog_error` flag (bit 4) set to `v`.
    pub fn with_bldc_commutation_watchdog_error(self, v: bool) -> (r: Self)
        ensures
            r.0 == with_bit16(self.0, 4, v),
    {
        Self(put_bit16(self.0, 4, v))
    }

    /// Sets the `bldc_commutation_watchdog_error` flag (bit 4) to `v` in place.
    pub fn set_bldc_commutation_watchdog_error(&mut self, v: bool)
        ensures
            final(self).0 == with_bit16(old(self).0, 4, v),
    {
        *self = self.with_bldc_commutation_watchdog_error(v);
    }

    /// The `enc_disconnected_error` flag, bit 5.
    pub fn enc_disconnected_error(self) -> (r: bool)
        ensures
            r == bit16(self.0, 5),
    {
        get_bit16(self.0, 5)
    }

    /// A copy with the `enc_disconnected_error` flag (bit 5) set to `v`.
    pub fn with_enc_disconnected_error(self, v: bool) -> (r: Self)
        ensures
            r.0 == with_bit16(self.0, 5, v),
    {
        Self(put_bit16(self.0, 5, v))
    }

    /// Sets the `enc_disconnected_error` flag (bit 5) to `v` in place.
    pub fn set_enc_disconnected_error(&mut self, v: bool)
        ensures
            final(self).0 == with_bit16(old(self).0, 5, v),
    {
        *self = self.with_enc_disconnected_error(v);
    }

    /// The `overcurrent_error` flag, bit 6.
    pub fn overcurrent_error(self) -> (r: bool)
        ensures
            r == bit16(self.0, 6),
    {
        get_bit16(self.0, 6)
    }

    /// A copy with the `overcurrent_error` flag (bit 6) set to `v`.
    pub fn with_overcurrent_error(self, v: bool) -> (r: Self)
        ensures
            r.0 == with_bit16(self.0, 6, v),
    {
        Self(put_bit16(self.0, 6, v))
    }

    /// Sets the `overcurrent_error` flag (bit 6) to `v` in place.
    pub fn set_overcurrent_error(&mut self, v: bool)
        ensures
            final(self).0 == with_bit16(old(self).0, 6, v),
    {
        *self = self.with_overcurrent_error(v);
    }

    /// The `undervoltage_error` flag, bit 7.
    pub fn undervoltage_error(self) -> (r: bool)
        ensures
            r == bit16(self.0, 7),
    {
        get_bit16(self.0, 7)
    }

    /// A copy with the `undervoltage_error` flag (bit 7) set to `v`.
    pub fn with_undervoltage_error(self, v: bool) -> (r: Self)
        ensures
            r.0 == with_bit16(self.0, 7, v),
    {
        Self(put_bit16(self.0, 7, v))
    }

    /// Sets the `undervoltage_error` flag (bit 7) to `v` in place.
    pub fn set_undervoltage_error(&mut self, v: bool)
        ensures
            final(self).0 == with_bit16(old(self).0, 7, v),
    {
        *self = self.with_undervoltage_error(v);
    }

    /// The `overvoltage_error` flag, bit 8.
    pub fn overvoltage_error(self) -> (r: bool)
        ensures
            r == bit16(self.0, 8),
    {
        get_bit16(self.0, 8)
    }

    /// A copy with the `overvoltage_error` flag (bit 8) set to `v`.
    pub fn with_overvoltage_error(self, v: bool) -> (r: Self)
        ensures
            r.0 == with_bit16(self.0, 8, v),
    {
        Self(put_bit16(self.0, 8, v))
    }

    /// Sets the `overvoltage_error` flag (bit 8) to `v` in place.
    pub fn set_overvoltage_error(&mut self, v: bool)
        ensures
            final(self).0 == with_bit16(old(self).0, 8, v),
    {
        *self = self.with_overvoltage_error(v);
    }

    /// The `torque_limited` flag, bit 9.
    pub fn torque_limited(self) -> (r: bool)
        ensures
            r == bit16(self.0, 9),
    {
        get_bit16(self.0, 9)
    }

    /// A copy with the `torque_limited` flag (bit 9) set to `v`.
    pub fn with_torque_limited(self, v: bool) -> (r: Self)
        ensures
            r.0 == with_bit16(self.0, 9, v),
    {
        Self(put_bit16(self.0, 9, v))
    }

    /// Sets the `torque_limited` flag (bit 9) to `v` in place.
    pub fn set_torque_limited(&mut self, v: bool)
        ensures
            final(self).0 == with_bit16(old(self).0, 9, v),
    {
        *self = self.with_torque_limited(v);
    }

    /// The `control_loop_time_error` flag, bit 10.
    pub fn control_loop_time_error(self) -> (r: bool)
        ensures
            r == bit16(self.0, 10),
    {
        get_bit16(self.0, 10)
    }

    /// A copy with the `control_loop_time_error` flag (bit 10) set to `v`.
    pub fn with_control_loop_time_error(self, v: bool) -> (r: Self)
        ensures
            r.0 == with_bit16(self.0, 10, v),
    {
        Self(put_bit16(self.0, 10, v))
    }

    /// Sets the `control_loop_time_error` flag (bit 10) to `v` in place.
    pub fn set_control_loop_time_error(&mut self, v: bool)
        ensures
            final(self).0 == with_bit16(old(self).0, 10, v),
    {
        *self = self.with_control_loop_time_error(v);
    }

    /// The `reset_watchdog_independent` flag, bit 11.
    pub fn reset_watchdog_independent(self) -> (r: bool)
        ensures
            r == bit16(self.0, 11),
    {
        get_bit16(self.0, 11)
    }

    /// A copy with the `reset_watchdog_independent` flag (bit 11) set to `v`.
    pub fn with_reset_watchdog_independent(self, v: bool) -> (r: Self)
        ensures
            r.0 == with_bit16(self.0, 11, v),
    {
        Self(put_bit16(self.0, 11, v))
    }

    /// Sets the `reset_watchdog_independent` flag (bit 11) to `v` in place.
    pub fn set_reset_watchdog_independent(&mut self, v: bool)
        ensures
            final(self).0 == with_bit16(old(self).0, 11, v),
    {
        *self = self.with_reset_watchdog_independent(v);
    }

    /// The `reset_watchdog_window` flag, bit 12.
    pub fn reset_watchdog_window(self) -> (r: bool)
        ensures
            r == bit16(self.0, 12),
    {
        get_bit16(self.0, 12)
    }

    /// A copy with the `reset_watchdog_window` flag (bit 12) set to `v`.
    pub fn with_reset_watchdog_window(self, v: bool) -> (r: Self)
        ensures
            r.0 == with_bit16(self.0, 12, v),
    {
        Self(put_bit16(self.0, 12, v))
    }

    /// Sets the `reset_watchdog_window` flag (bit 12) to `v` in place.
    pub fn set_reset_watchdog_window(&mut self, v: bool)
        ensures
            final(self).0 == with_bit16(old(self).0, 12, v),
    {
        *self = self.with_reset_watchdog_window(v);
    }

    /// The `reset_low_power` flag, bit 13.
    pub fn reset_low_power(self) -> (r: bool)
        ensures
            r == bit16(self.0, 13),
    {
        get_bit16(self.0, 13)
    }

    /// A copy with the `reset_low_power` flag (bit 13) set to `v`.
    pub fn with_reset_low_power(self, v: bool) -> (r: Self)
        ensures
            r.0 == with_bit16(self.0, 13, v),
    {
        Self(put_bit16(self.0, 13, v))
    }

    /// Sets the `reset_low_power` flag (bit 13) to `v` in place.
    pub fn set_reset_low_power(&mut self, v: bool)
        ensures
            final(self).0 == with_bit16(old(self).0, 13, v),
    {
        *self = self.with_reset_low_power(v);
    }

    /// The `reset_software` flag, bit 14.
    pub fn reset_software(self) -> (r: bool)
        ensures
            r == bit16(self.0, 14),
    {
        get_bit16(self.0, 14)
    }

    /// A copy with the `reset_software` flag (bit 14) set to `v`.
    pub fn with_reset_software(self, v: bool) -> (r: Self)
        ensures
            r.0 == with_bit16(self.0, 14, v),
    {
        Self(put_bit16(self.0, 14, v))
    }

    /// Sets the `reset_software` flag (bit 14) to `v` in place.
    pub fn set_reset_software(&mut self, v: bool)
        ensures
            final(self).0 == with_bit16(old(self).0, 14, v),
    {
        *self = self.with_reset_software(v);
    }

    /// The `reset_pin` flag, bit 15.
    pub fn reset_pin(self) -> (r: bool)
        ensures
            r == bit16(self.0, 15),
    {
        get_bit16(self.0, 15)
    }

    /// A copy with the `reset_pin` flag (bit 15) set to `v`.
    pub fn with_reset_pin(self, v: bool) -> (r: Self)
        ensures
            r.0 == with_bit16(self.0, 15, v),
    {
        Self(put_bit16(self.0, 15, v))
    }

    /// Sets the `reset_pin` flag (bit 15) to `v` in place.
    pub fn set_reset_pin(&mut self, v: bool)
        ensures
            final(self).0 == with_bit16(old(self).0, 15, v),
    {
        *self = self.with_reset_pin(v);
    }
}

} // verus!
