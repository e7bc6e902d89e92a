use ateam_common_packets::bitfields::{BasicControlFlags, CcmTelemetryStatus};
use ateam_common_packets::codegen::{parse_bitfield_structs, BitfieldStruct};

const FLAG_WORDS_SOURCE: &str = r#"#[wire_bitfield(u32)]
pub struct BasicControlFlags {
    pub request_shutdown: bool,
    pub reboot_robot: bool,
    pub game_state_in_stop: bool,
    pub game_state_in_halt: bool,
    pub emergency_stop: bool,
    pub wheel_vel_control_enabled: bool,
    pub wheel_torque_control_enabled: bool,
    pub vision_update: bool,
    pub reset_controller: bool,
    #[bits(23)]
    _reserved: u32,
}

#[wire_bitfield(u32)]
pub struct BasicTelemetryErrors {
    pub power_error: bool,
    pub power_board_error: bool,
    pub battery_error: bool,
    pub battery_low: bool,
    pub battery_crit: bool,
    pub shutdown_pending: bool,
    pub tipped_error: bool,
    pub breakbeam_error: bool,
    pub breakbeam_ball_detected: bool,
    pub accelerometer_0_error: bool,
    pub accelerometer_1_error: bool,
    pub gyroscope_0_error: bool,
    pub gyroscope_1_error: bool,
    pub motor_fl_general_error: bool,
    pub motor_fl_hall_error: bool,
    pub motor_bl_general_error: bool,
    pub motor_bl_hall_error: bool,
    pub motor_br_general_error: bool,
    pub motor_br_hall_error: bool,
    pub motor_fr_general_error: bool,
    pub motor_fr_hall_error: bool,
    pub motor_drib_general_error: bool,
    pub motor_drib_hall_error: bool,
    pub kicker_board_error: bool,
    pub chipper_available: bool,
    pub kicker_available: bool,
    pub controller_reset: bool,
    #[bits(5)]
    _reserved: u32,
}

#[wire_bitfield(u8)]
pub struct BodyControlExtTelemetryFlags {
    pub vision_update: bool,
    #[bits(7)]
    _reserved: u8,
}

#[wire_bitfield(u16)]
pub struct BatteryStatus {
    pub battery_ok: bool,
    pub battery_balance_connected: bool,
    pub battery_low: bool,
    pub battery_critical: bool,
    pub battery_cell_low: bool,
    pub battery_cell_critical: bool,
    pub battery_cell_imbalance_warn: bool,
    #[bits(9)]
    _reserved: u16,
}

#[wire_bitfield(u32)]
pub struct PowerStatus {
    pub power_ok: bool,
    pub power_rail_3v3_ok: bool,
    pub power_rail_5v0_ok: bool,
    pub power_rail_12v0_ok: bool,
    pub high_current_operations_allowed: bool,
    pub shutdown_requested: bool,
    #[bits(26)]
    _reserved: u32,
}

#[wire_bitfield(u32)]
pub struct PowerCommandFlags {
    pub request_shutdown: bool,
    pub cancel_shutdown: bool,
    pub ready_shutdown: bool,
    pub force_shutdown: bool,
    #[bits(28)]
    _reserved: u32,
}

#[wire_bitfield(u8)]
pub struct DiscoveryFlags {
    pub coms_repo_dirty: bool,
    pub controls_repo_dirty: bool,
    pub firmware_repo_dirty: bool,
    #[bits(5)]
    _reserved: u8,
}

#[wire_bitfield(u16)]
pub struct KickerCommandFlags {
    pub telemetry_enabled: bool,
    pub enable_charging: bool,
    pub request_power_down: bool,
    #[bits(13)]
    _reserved: u16,
}

#[wire_bitfield(u16)]
pub struct KickerStatusFlags {
    pub error_detected: bool,
    pub dribbler_error: bool,
    pub power_down_requested: bool,
    pub power_down_complete: bool,
    pub ball_detected: bool,
    pub charge_full: bool,
    pub dribbler_fw_loaded: bool,
    #[bits(9)]
    _reserved: u16,
}

#[wire_bitfield(u32)]
pub struct CcmMotionCommandFlags {
    pub reset: bool,
    pub enable_telemetry: bool,
    pub enable_motion: bool,
    pub calibrate_current: bool,
    #[bits(28)]
    _reserved: u32,
}

#[wire_bitfield(u16)]
pub struct CcmTelemetryStatus {
    pub master_error: bool,
    pub hall_power_error: bool,
    pub hall_disconnected_error: bool,
    pub bldc_transition_error: bool,
    pub bldc_commutation_watchdog_error: bool,
    pub enc_disconnected_error: bool,
    pub overcurrent_error: bool,
    pub undervoltage_error: bool,
    pub overvoltage_error: bool,
    pub torque_limited: bool,
    pub control_loop_time_error: bool,
    pub reset_watchdog_independent: bool,
    pub reset_watchdog_window: bool,
    pub reset_low_power: bool,
    pub reset_software: bool,
    pub reset_pin: bool,
}
"#;

fn base_width(base: &str) -> u32 {
    match base {
        "u8" => 8,
        "u16" => 16,
        "u32" => 32,
        "u64" => 64,
        _ => panic!("unexpected base type {}", base),
    }
}

fn offsets(s: &BitfieldStruct) -> Vec<(String, u32, bool)> {
    let mut out = Vec::new();
    let mut off = 0u32;
    for f in &s.fields {
        out.push((f.name.clone(), off, f.reserved));
        off += f.bits;
    }
    out
}

fn set_basic_control(w: &mut BasicControlFlags, name: &str) {
    match name {
        "request_shutdown" => w.set_request_shutdown(true),
        "reboot_robot" => w.set_reboot_robot(true),
        "game_state_in_stop" => w.set_game_state_in_stop(true),
        "game_state_in_halt" => w.set_game_state_in_halt(true),
        "emergency_stop" => w.set_emergency_stop(true),
        "wheel_vel_control_enabled" => w.set_wheel_vel_control_enabled(true),
        "wheel_torque_control_enabled" => w.set_wheel_torque_control_enabled(true),
        "vision_update" => w.set_vision_update(true),
        "reset_controller" => w.set_reset_controller(true),
        _ => panic!("no flag named {}", name),
    }
}

fn set_ccm_status(w: &mut CcmTelemetryStatus, name: &str) {
    match name {
        "master_error" => w.set_master_error(true),
        "hall_power_error" => w.set_hall_power_error(true),
        "hall_disconnected_error" => w.set_hall_disconnected_error(true),
        "bldc_transition_error" => w.set_bldc_transition_error(true),
        "bldc_commutation_watchdog_error" => w.set_bldc_commutation_watchdog_error(true),
        "enc_disconnected_error" => w.set_enc_disconnected_error(true),
        "overcurrent_error" => w.set_overcurrent_error(true),
        "undervoltage_error" => w.set_undervoltage_error(true),
        "overvoltage_error" => w.set_overvoltage_error(true),
        "torque_limited" => w.set_torque_limited(true),
        "control_loop_time_error" => w.set_control_loop_time_error(true),
        "reset_watchdog_independent" => w.set_reset_watchdog_independent(true),
        "reset_watchdog_window" => w.set_reset_watchdog_window(true),
        "reset_low_power" => w.set_reset_low_power(true),
        "reset_software" => w.set_reset_software(true),
        "reset_pin" => w.set_reset_pin(true),
        _ => panic!("no flag named {}", name),
    }
}

#[test]
fn flag_word_declarations_parse_in_order() {
    let out = parse_bitfield_structs(FLAG_WORDS_SOURCE);
    let names: Vec<&str> = out.iter().map(|s| s.name.as_str()).collect();
    assert_eq!(
        names,
        vec![
            "BasicControlFlags",
            "BasicTelemetryErrors",
            "BodyControlExtTelemetryFlags",
            "BatteryStatus",
            "PowerStatus",
            "PowerCommandFlags",
            "DiscoveryFlags",
            "KickerCommandFlags",
            "KickerStatusFlags",
            "CcmMotionCommandFlags",
            "CcmTelemetryStatus",
        ]
    );
    let bases: Vec<&str> = out.iter().map(|s| s.base_type.as_str()).collect();
    assert_eq!(bases, vec!["u32", "u32", "u8", "u16", "u32", "u32", "u8", "u16", "u16", "u32", "u16"]);
}

#[test]
fn flag_word_declarations_fill_their_base_type() {
    let out = parse_bitfield_structs(FLAG_WORDS_SOURCE);
    assert_eq!(out.len(), 11);
    for s in &out {
        let used: u32 = s.fields.iter().map(|f| f.bits).sum();
        assert_eq!(used, base_width(&s.base_type), "{}", s.name);
        for f in &s.fields {
            assert_eq!(f.reserved, f.name.starts_with('_'), "{}::{}", s.name, f.name);
            if !f.reserved {
                assert!(f.is_bool && f.bits == 1, "{}::{}", s.name, f.name);
            }
        }
    }
}

#[test]
fn declared_offsets_match_flag_accessors() {
    let out = parse_bitfield_structs(FLAG_WORDS_SOURCE);
    let first = &out[0];
    assert_eq!(first.name, "BasicControlFlags");
    for (name, off, reserved) in offsets(first) {
        if reserved {
            continue;
        }
        let mut w = BasicControlFlags::default();
        set_basic_control(&mut w, &name);
        assert_eq!(w.0, 1u32 << off, "{}", name);
    }
    let last = &out[out.len() - 1];
    assert_eq!(last.name, "CcmTelemetryStatus");
    for (name, off, reserved) in offsets(last) {
        if reserved {
            continue;
        }
        let mut w = CcmTelemetryStatus::default();
        set_ccm_status(&mut w, &name);
        assert_eq!(w.0, 1u16 << off, "{}", name);
    }
}
