use ateam_common_packets::bits::{
    get_field16, get_field32, get_field64, get_field8, put_field16, put_field32, put_field64,
    put_field8,
};
use ateam_common_packets::bitfields::{
    BasicControlFlags, BasicTelemetryErrors, BatteryStatus, BodyControlExtTelemetryFlags,
    CcmMotionCommandFlags, CcmTelemetryStatus, DiscoveryFlags, KickerCommandFlags,
    KickerStatusFlags, PowerCommandFlags, PowerStatus,
};

#[test]
fn ccm_error_bitfield_positions() {
    let mut v = CcmTelemetryStatus::default();
    v.set_reset_pin(true);
    assert_eq!(v.0 as u64, 1u64 << 15, "set_reset_pin must be bit 15");

    let mut v = CcmTelemetryStatus::default();
    v.set_master_error(true);
    v.set_hall_power_error(true);
    v.set_hall_disconnected_error(true);
    v.set_bldc_transition_error(true);
    v.set_bldc_commutation_watchdog_error(true);
    v.set_enc_disconnected_error(true);
    v.set_overcurrent_error(true);
    v.set_undervoltage_error(true);
    v.set_overvoltage_error(true);
    v.set_torque_limited(true);
    v.set_control_loop_time_error(true);
    v.set_reset_watchdog_independent(true);
    v.set_reset_watchdog_window(true);
    v.set_reset_low_power(true);
    v.set_reset_software(true);
    v.set_reset_pin(true);
    assert_eq!(v.0 as u64, (1u64 << 16) - 1);
}

#[test]
fn battery_info_bitfield_positions() {
    let mut v = BatteryStatus::default();
    v.set_battery_cell_imbalance_warn(true);
    assert_eq!(v.0 as u64, 1u64 << 6, "set_battery_cell_imbalance_warn must be bit 6");

    let mut v = BatteryStatus::default();
    v.set_battery_ok(true);
    v.set_battery_balance_connected(true);
    v.set_battery_low(true);
    v.set_battery_critical(true);
    v.set_battery_cell_low(true);
    v.set_battery_cell_critical(true);
    v.set_battery_cell_imbalance_warn(true);
    assert_eq!(v.0 as u64, (1u64 << 7) - 1);
}

#[test]
fn power_telemetry_bitfield_positions() {
    let mut v = PowerStatus::default();
    v.set_shutdown_requested(true);
    assert_eq!(v.0 as u64, 1u64 << 5, "set_shutdown_requested must be bit 5");

    let mut v = PowerStatus::default();
    v.set_power_ok(true);
    v.set_power_rail_3v3_ok(true);
    v.set_power_rail_5v0_ok(true);
    v.set_power_rail_12v0_ok(true);
    v.set_high_current_operations_allowed(true);
    v.set_shutdown_requested(true);
    assert_eq!(v.0 as u64, (1u64 << 6) - 1);
}

#[test]
fn kicker_telemetry_bitfield_positions() {
    let mut v = KickerStatusFlags::default();
    v.set_dribbler_fw_loaded(true);
    assert_eq!(v.0 as u64, 1u64 << 6, "set_dribbler_fw_loaded must be bit 6");

    let mut v = KickerStatusFlags::default();
    v.set_error_detected(true);
    v.set_dribbler_error(true);
    v.set_power_down_requested(true);
    v.set_power_down_complete(true);
    v.set_ball_detected(true);
    v.set_charge_full(true);
    v.set_dribbler_fw_loaded(true);
    assert_eq!(v.0 as u64, (1u64 << 7) - 1);
}

#[test]
fn basic_telemetry_bitfield_positions() {
    let mut v = BasicTelemetryErrors::default();
    v.set_controller_reset(true);
    assert_eq!(v.0 as u64, 1u64 << 26, "set_controller_reset must be bit 26");

    let mut v = BasicTelemetryErrors::default();
    v.set_power_error(true);
    v.set_power_board_error(true);
    v.set_battery_error(true);
    v.set_battery_low(true);
    v.set_battery_crit(true);
    v.set_shutdown_pending(true);
    v.set_tipped_error(true);
    v.set_breakbeam_error(true);
    v.set_breakbeam_ball_detected(true);
    v.set_accelerometer_0_error(true);
    v.set_accelerometer_1_error(true);
    v.set_gyroscope_0_error(true);
    v.set_gyroscope_1_error(true);
    v.set_motor_fl_general_error(true);
    v.set_motor_fl_hall_error(true);
    v.set_motor_bl_general_error(true);
    v.set_motor_bl_hall_error(true);
    v.set_motor_br_general_error(true);
    v.set_motor_br_hall_error(true);
    v.set_motor_fr_general_error(true);
    v.set_motor_fr_hall_error(true);
    v.set_motor_drib_general_error(true);
    v.set_motor_drib_hall_error(true);
    v.set_kicker_board_error(true);
    v.set_chipper_available(true);
    v.set_kicker_available(true);
    v.set_controller_reset(true);
    assert_eq!(v.0 as u64, (1u64 << 27) - 1);
    // Reserved bits above position 26 stay clear when every status bit is set.
    assert_eq!((v.0 >> 27) & 0x1f, 0, "bits 27-31 must not bleed into reserved region");
}

#[test]
fn basic_control_flag_positions() {
    let f = BasicControlFlags::default()
        .with_request_shutdown(true)
        .with_reboot_robot(true)
        .with_game_state_in_stop(true)
        .with_game_state_in_halt(true)
        .with_emergency_stop(true)
        .with_wheel_vel_control_enabled(true)
        .with_wheel_torque_control_enabled(true)
        .with_vision_update(true)
        .with_reset_controller(true);
    assert_eq!(f.0, 0x1ff);
    assert_eq!(BasicControlFlags::default().with_vision_update(true).0, 1 << 7);
    assert!(BasicControlFlags(1 << 8).reset_controller());
    assert!(!BasicControlFlags(1 << 8).vision_update());
}

#[test]
fn small_flag_words_positions() {
    assert_eq!(BodyControlExtTelemetryFlags::default().with_vision_update(true).0, 1);
    assert_eq!(PowerCommandFlags::default().with_force_shutdown(true).0, 1 << 3);
    assert_eq!(DiscoveryFlags::default().with_firmware_repo_dirty(true).0, 1 << 2);
    assert_eq!(KickerCommandFlags::default().with_request_power_down(true).0, 1 << 2);
    assert_eq!(CcmMotionCommandFlags::default().with_calibrate_current(true).0, 1 << 3);
}

#[test]
fn flag_write_then_read_keeps_other_bits() {
    let base = BasicTelemetryErrors(0xA5A5_A5A5);
    for on in [false, true] {
        let w = base.with_motor_br_hall_error(on);
        assert_eq!(w.motor_br_hall_error(), on);
        assert_eq!(w.0 & !(1 << 18), base.0 & !(1 << 18));
        assert_eq!(w.with_motor_br_hall_error(!on).with_motor_br_hall_error(on), w);
    }
    let same = base.with_tipped_error(base.tipped_error());
    assert_eq!(same, base);
    let mut s = base;
    s.set_kicker_available(false);
    assert_eq!(s, base.with_kicker_available(false));
    assert!(!s.kicker_available());
}

#[test]
fn reserved_bits_survive_flag_writes() {
    let v = BatteryStatus(0xff80).with_battery_ok(true).with_battery_cell_imbalance_warn(false);
    assert_eq!(v.0, 0xff81);
    let k = KickerStatusFlags(0xffff).with_charge_full(false);
    assert_eq!(k.0, 0xffdf);
}

#[test]
fn numeric_fields_mask_and_shift() {
    let w = put_field32(0xffff_ffff, 4, 6, 0x15);
    assert_eq!(w, 0xffff_fd5f);
    assert_eq!(get_field32(w, 4, 6), 0x15);
    assert_eq!(get_field32(put_field32(0, 4, 6, 0xff), 4, 6), 0x3f);
    assert_eq!(put_field32(0x1234_5678, 0, 32, 7), 7);
    assert_eq!(get_field8(0b1011_0100, 2, 3), 0b101);
    assert_eq!(put_field8(0, 5, 3, 0xff), 0b1110_0000);
    assert_eq!(get_field16(0xabcd, 8, 8), 0xab);
    assert_eq!(put_field16(0xabcd, 8, 8, 0x12), 0x12cd);
    assert_eq!(get_field64(u64::MAX, 0, 64), u64::MAX);
    assert_eq!(put_field64(0, 60, 4, 0xf), 0xf000_0000_0000_0000);
}
