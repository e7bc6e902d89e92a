use ateam_common_packets::CcmResponse;
use ateam_common_packets::packets::stspin_current::CcmParameterValue;
use ateam_common_packets::radio::{is_data_packet_safe, DataPacket, TelemetryPacket};
use ateam_common_packets::{
    is_basic_control_packet_safe, is_bcm_global_accel_safe, is_bcm_global_position_safe,
    is_bcm_global_vel_safe, is_bcm_heading_line_safe, is_bcm_heading_pivot_safe,
    is_bcm_local_accel_safe, is_bcm_local_vel_safe, is_bcm_point_line_safe,
    is_bcm_point_pivot_safe, BasicControl, BasicTelemetry, BodyControlCommand,
    BodyControlExtendedTelemetry, BodyControlManeuverExtendedTelemetry, BodyControlTelemetry,
    CcmCommandType, CcmMotionControlType, CcmParameter, CcmResponseType, DribblerCommand,
    ErrorTelemetry, ExtendedGlobalVelocityTelemetry, GlobalAccelerationCommand,
    GlobalPositionCommand, GlobalPositionTelemetry, GlobalVelocityCommand, HeadingLineCommand,
    HeadingPivotCommand, KickRequest, LocalAccelerationCommand, LocalVelocityCommand,
    ParameterCommand, ParameterCommandCode, ParameterData, ParameterName, PointLineCommand,
    PointPivotCommand, RadioData, TeamColor, HelloResponse, MAX_ROBOT_RX_PACKET_SIZE,
    MAX_ROBOT_TX_PACKET_SIZE,
};
use ateam_common_packets::float_bits::{all_finite3, is_finite};

fn b(x: f32) -> u32 {
    x.to_bits()
}

#[test]
fn parameter_value_little_endian() {
    let v = CcmParameterValue::from_u32(0x1234_5678);
    assert_eq!(v.0, [0x78, 0x56, 0x34, 0x12]);
    assert_eq!(v.as_u32(), 0x1234_5678);
    assert_eq!(CcmParameterValue([0xff; 4]).as_i32(), -1);
    assert_eq!(CcmParameterValue([0xff; 4]).as_u32(), u32::MAX);
    assert_eq!(CcmParameterValue::from_i32(-2).0, [0xfe, 0xff, 0xff, 0xff]);
    assert_eq!(CcmParameterValue::from_i32(i32::MIN).as_i32(), i32::MIN);
    assert_eq!(CcmParameterValue([0, 0, 0, 0x80]).as_i32(), i32::MIN);
    assert_eq!(CcmParameterValue([1, 0, 0, 0]).as_u32(), 1);
}

#[test]
fn parameter_value_round_trips() {
    for x in [0u32, 1, 0x7fff_ffff, 0x8000_0000, 0xdead_beef, u32::MAX] {
        assert_eq!(CcmParameterValue::from_u32(x).as_u32(), x);
        assert_eq!(CcmParameterValue::from_u32(x).0, x.to_le_bytes());
    }
    for x in [0i32, -1, 42, i32::MAX, i32::MIN] {
        assert_eq!(CcmParameterValue::from_i32(x).as_i32(), x);
    }
    let bytes = [9u8, 8, 7, 6];
    assert_eq!(CcmParameterValue::from_u32(CcmParameterValue(bytes).as_u32()).0, bytes);
    assert_eq!(CcmParameterValue::from_i32(CcmParameterValue(bytes).as_i32()).0, bytes);
}

#[test]
fn float_bits_finiteness() {
    assert!(is_finite(b(0.0)));
    assert!(is_finite(b(-1.5)));
    assert!(is_finite(b(f32::MAX)));
    assert!(is_finite(b(f32::MIN_POSITIVE / 2.0)));
    assert!(!is_finite(b(f32::INFINITY)));
    assert!(!is_finite(b(f32::NEG_INFINITY)));
    assert!(!is_finite(b(f32::NAN)));
    for x in [0.0f32, 3.25, -7e30, f32::INFINITY, f32::NAN] {
        assert_eq!(is_finite(b(x)), x.is_finite());
    }
    assert!(all_finite3(&[b(1.0), b(2.0), b(3.0)]));
    assert!(!all_finite3(&[b(1.0), b(f32::NAN), b(3.0)]));
}

#[test]
fn maneuver_commands_safety() {
    let mut gp = GlobalPositionCommand::default();
    assert!(is_bcm_global_position_safe(&gp));
    gp.max_angular_acc = b(f32::INFINITY);
    assert!(!is_bcm_global_position_safe(&gp));

    let mut gv = GlobalVelocityCommand::default();
    gv.global_xd = b(1.0);
    assert!(is_bcm_global_vel_safe(&gv));
    gv.global_omega = b(f32::NAN);
    assert!(!is_bcm_global_vel_safe(&gv));

    let mut lv = LocalVelocityCommand::default();
    assert!(is_bcm_local_vel_safe(&lv));
    lv.max_linear_acc = b(f32::NEG_INFINITY);
    assert!(!is_bcm_local_vel_safe(&lv));

    let mut ga = GlobalAccelerationCommand::default();
    assert!(is_bcm_global_accel_safe(&ga));
    ga.global_alpha = b(f32::NAN);
    assert!(!is_bcm_global_accel_safe(&ga));

    let mut la = LocalAccelerationCommand::default();
    assert!(is_bcm_local_accel_safe(&la));
    la.local_xdd = b(f32::INFINITY);
    assert!(!is_bcm_local_accel_safe(&la));

    let mut hp = HeadingPivotCommand::default();
    assert!(is_bcm_heading_pivot_safe(&hp));
    hp.inset_angle = b(f32::NAN);
    assert!(!is_bcm_heading_pivot_safe(&hp));

    let mut pp = PointPivotCommand::default();
    assert!(is_bcm_point_pivot_safe(&pp));
    pp.target_y = b(f32::INFINITY);
    assert!(!is_bcm_point_pivot_safe(&pp));

    let mut hl = HeadingLineCommand::default();
    assert!(is_bcm_heading_line_safe(&hl));
    hl.colinear_start_thresh = b(f32::NAN);
    assert!(!is_bcm_heading_line_safe(&hl));

    let mut pl = PointLineCommand::default();
    assert!(is_bcm_point_line_safe(&pl));
    pl.target_x = b(f32::NAN);
    assert!(!is_bcm_point_line_safe(&pl));
}

#[test]
fn control_packet_safety() {
    let mut bc = BasicControl::default();
    assert!(is_basic_control_packet_safe(&bc));
    bc.vision_position_update = [b(1.0), b(f32::NAN), b(0.0)];
    assert!(!is_basic_control_packet_safe(&bc));
    bc.vision_position_update = [b(1.0), b(2.0), b(0.0)];
    bc.kick_vel = b(f32::INFINITY);
    assert!(!is_basic_control_packet_safe(&bc));
    bc.kick_vel = b(3.0);
    bc.dribbler_setpoint = b(f32::NAN);
    assert!(!is_basic_control_packet_safe(&bc));
    bc.dribbler_setpoint = b(0.5);
    assert!(is_basic_control_packet_safe(&bc));

    let mut bad = GlobalPositionCommand::default();
    bad.global_theta = b(f32::NAN);
    bc.cmd = BodyControlCommand::GlobalPosition(bad);
    assert!(!is_basic_control_packet_safe(&bc));
    bc.cmd = BodyControlCommand::EstopBrake;
    assert!(is_basic_control_packet_safe(&bc));
    bc.cmd = BodyControlCommand::GlobalPosition(GlobalPositionCommand::default());
    assert!(is_basic_control_packet_safe(&bc));

    assert!(is_data_packet_safe(&DataPacket::BasicControl(bc)));
    bc.kick_vel = b(f32::NAN);
    assert!(!is_data_packet_safe(&DataPacket::BasicControl(bc)));
    let pc = ParameterCommand {
        command_code: ParameterCommandCode::Write,
        parameter_name: ParameterName::PhysWheel,
        _pad: [0; 2],
        data: ParameterData::F32([b(f32::NAN)]),
    };
    assert!(is_data_packet_safe(&DataPacket::ParameterCommand(pc)));
    let _ = TelemetryPacket::ErrorTelemetry(ErrorTelemetry::default());
}

#[test]
fn wire_tags_and_values() {
    assert_eq!(BodyControlCommand::Off.tag(), 0);
    assert_eq!(BodyControlCommand::EstopBrake.tag(), 1);
    assert_eq!(BodyControlCommand::GlobalPosition(GlobalPositionCommand::default()).tag(), 10);
    assert_eq!(BodyControlCommand::PointLine(PointLineCommand::default()).tag(), 31);
    assert_eq!(BodyControlTelemetry::GlobalPosition(GlobalPositionTelemetry::default()).tag(), 10);
    assert_eq!(
        BodyControlManeuverExtendedTelemetry::GlobalVelocity(ExtendedGlobalVelocityTelemetry {
            cmd_echo: GlobalVelocityCommand::default()
        })
        .tag(),
        11
    );
    assert_eq!(RadioData::HelloResponse(HelloResponse { ipv4: [10, 0, 0, 1], port: 42000 }).tag(), 22);
    assert_eq!(RadioData::Control(BasicControl::default()).tag(), 61);
    assert_eq!(RadioData::ErrorTelemetry(ErrorTelemetry::default()).tag(), 44);
    assert_eq!(KickRequest::ChipCaptured.wire_value(), 7);
    assert_eq!(DribblerCommand::Current.wire_value(), 5);
    assert_eq!(TeamColor::Blue.wire_value(), 1);
    assert_eq!(ParameterName::TwistFbPidiiAngular.wire_value(), 13);
    assert_eq!(ParameterCommandCode::NackInvalidTypeForName.wire_value(), 4);
    assert_eq!(CcmMotionControlType::VelocityCurrent.wire_value(), 5);
    assert_eq!(CcmCommandType::Motion.wire_value(), 0x21);
    assert_eq!(CcmParameter::FirmwareImageHash.wire_value(), 100);
    assert_eq!(CcmResponseType::Params.wire_value(), 0x80);
    assert_eq!(ParameterData::Vec6F32([0; 6]).tag(), 5);
    assert_eq!(MAX_ROBOT_RX_PACKET_SIZE, 96);
    assert_eq!(MAX_ROBOT_TX_PACKET_SIZE, 568);
}

#[test]
fn maneuver_telemetry_setters() {
    let mut t = BasicTelemetry::default();
    t.battery_percent = 77;
    t.set_maneuver_telemetry(BodyControlTelemetry::EstopBrake);
    assert_eq!(t.control_telem.tag(), 1);
    assert_eq!(t.battery_percent, 77);

    let mut e = BodyControlExtendedTelemetry::default();
    e.imu_gyro = [b(1.0), b(2.0), b(3.0)];
    e.set_maneuver_telemetry(BodyControlManeuverExtendedTelemetry::EstopBrake);
    assert_eq!(e.maneuver.tag(), 1);
    assert_eq!(e.imu_gyro, [b(1.0), b(2.0), b(3.0)]);

    let mut bc = BasicControl::default();
    bc.cmd = BodyControlCommand::EstopBrake;
    assert_eq!(bc.get_maneuver_command().tag(), 1);
}

#[test]
fn error_telemetry_default_is_zero() {
    let e = ErrorTelemetry::default();
    assert_eq!(e.timestamp, 0);
    assert_eq!(e.error_message, [0u8; 60]);
}

#[test]
fn command_equality_follows_float_equality() {
    let mut a = GlobalAccelerationCommand::default();
    let mut c = GlobalAccelerationCommand::default();
    assert!(a == c);
    a.global_xdd = b(0.0);
    c.global_xdd = b(-0.0);
    assert!(a == c);
    a.global_ydd = b(f32::NAN);
    c.global_ydd = b(f32::NAN);
    assert!(a != c);
    assert!(a != a);
    let mut p = HeadingPivotCommand::default();
    let q = p;
    assert!(p == q);
    p.compute_inset_angle = 1;
    assert!(p != q);
    assert!(BodyControlCommand::Off == BodyControlCommand::Off);
    assert!(BodyControlCommand::Off != BodyControlCommand::EstopBrake);
    assert!(
        BodyControlCommand::HeadingPivot(q) == BodyControlCommand::HeadingPivot(q)
    );
    assert!(
        BodyControlCommand::HeadingPivot(q) != BodyControlCommand::HeadingPivot(p)
    );
    assert!(
        BodyControlCommand::GlobalAcceleration(c) != BodyControlCommand::LocalAcceleration(LocalAccelerationCommand::default())
    );
}

#[test]
fn ccm_response_default_is_zero_parameter_response() {
    let r = CcmResponse::default();
    assert_eq!(r.resp_type, CcmResponseType::Params);
    assert_eq!(r.seq_num, 0);
    assert_eq!(r._reserved, [0, 0]);
    assert_eq!(r.timestamp, 0);
}
