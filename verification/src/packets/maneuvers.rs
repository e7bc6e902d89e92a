//! Per-mode body control commands and telemetry.

use crate::float_bits::{f32_eq, float_eq, F32Bits};
use vstd::std_specs::cmp::PartialEqSpecImpl;
use vstd::prelude::*;

verus! {

/// Telemetry of the global position mode.
#[derive(Clone, Copy, Debug, Default)]
pub struct GlobalPositionTelemetry {
    pub reserved: u32,
}

/// Telemetry of the global velocity mode.
#[derive(Clone, Copy, Debug, Default)]
pub struct GlobalVelocityTelemetry {
    pub reserved: u32,
}

/// Telemetry of the local velocity mode.
#[derive(Clone, Copy, Debug, Default)]
pub struct LocalVelocityTelemetry {
    pub reserved: u32,
}

/// Telemetry of the global acceleration mode.
#[derive(Clone, Copy, Debug, Default)]
pub struct GlobalAccelerationTelemetry {
    pub reserved: u32,
}

/// Telemetry of the local acceleration mode.
#[derive(Clone, Copy, Debug, Default)]
pub struct LocalAccelerationTelemetry {
    pub reserved: u32,
}

/// Direction of a pivot maneuver.
#[derive(Clone, Copy, Debug, PartialEq, Eq, Structural, Default)]
pub enum PivotDirection {
    #[default]
    Forward,
    Backward,
}

/// Telemetry of the heading pivot mode.
#[derive(Clone, Copy, Debug, Default)]
pub struct HeadingPivotTelemetry {
    pub reserved: u32,
}

/// Telemetry of the point pivot mode.
#[derive(Clone, Copy, Debug, Default)]
pub struct PointPivotTelemetry {
    pub reserved: u32,
}

/// Telemetry of the heading line mode.
#[derive(Clone, Copy, Debug, Default)]
pub struct HeadingLineTelemetry {
    pub reserved: u32,
}

/// Telemetry of the point line mode.
#[derive(Clone, Copy, Debug, Default)]
pub struct PointLineTelemetry {
    pub reserved: u32,
}

/// Drive to a pose in the field frame, with velocity and acceleration limits. Every field is a
/// float.
#[derive(Clone, Copy, Debug, Default)]
pub struct GlobalPositionCommand {
    pub global_x: F32Bits,
    pub global_y: F32Bits,
    pub global_theta: F32Bits,
    pub max_linear_vel: F32Bits,
    pub max_angular_vel: F32Bits,
    pub max_linear_acc: F32Bits,
    pub max_angular_acc: F32Bits,
}

/// Extended telemetry of the global position mode: the command being executed.
#[derive(Clone, Copy, Debug)]
pub struct ExtendedGlobalPositionTelemetry {
    pub cmd_echo: GlobalPositionCommand,
}

/// Track a velocity in the field frame, with acceleration limits. Every field is a float.
#[derive(Clone, Copy, Debug, Default)]
pub struct GlobalVelocityCommand {
    pub global_xd: F32Bits,
    pub global_yd: F32Bits,
    pub global_omega: F32Bits,
    pub max_linear_acc: F32Bits,
    pub max_angular_acc: F32Bits,
}

/// Extended telemetry of the global velocity mode: the command being executed.
#[derive(Clone, Copy, Debug)]
pub struct ExtendedGlobalVelocityTelemetry {
    pub cmd_echo: GlobalVelocityCommand,
}

/// Track a velocity in the robot frame, with acceleration limits. Every field is a float.
#[derive(Clone, Copy, Debug, Default)]
pub struct LocalVelocityCommand {
    pub local_xd: F32Bits,
    pub local_yd: F32Bits,
    pub local_omega: F32Bits,
    pub max_linear_acc: F32Bits,
    pub max_angular_acc: F32Bits,
}

/// Extended telemetry of the local velocity mode: the command being executed.
#[derive(Clone, Copy, Debug)]
pub struct ExtendedLocalVelocityTelemetry {
    pub cmd_echo: LocalVelocityCommand,
}

/// Apply an acceleration in the field frame. Every field is a float.
#[derive(Clone, Copy, Debug, Default)]
pub struct GlobalAccelerationCommand {
    pub global_xdd: F32Bits,
    pub global_ydd: F32Bits,
    pub global_alpha: F32Bits,
}

/// Extended telemetry of the global acceleration mode: the command being executed.
#[derive(Clone, Copy, Debug)]
pub struct ExtendedGlobalAccelerationTelemetry {
    pub cmd_echo: GlobalAccelerationCommand,
}

/// Apply an acceleration in the robot frame. Every field is a float.
#[derive(Clone, Copy, Debug, Default)]
pub struct LocalAccelerationCommand {
    pub local_xdd: F32Bits,
    pub local_ydd: F32Bits,
    pub local_alpha: F32Bits,
}

/// Extended telemetry of the local acceleration mode: the command being executed.
#[derive(Clone, Copy, Debug)]
pub struct ExtendedLocalAccelerationTelemetry {
    pub cmd_echo: LocalAccelerationCommand,
}

/// Pivot around the ball to a heading in the field frame. The float fields come first; `direction`,
/// `compute_inset_angle` and `reserved` are bytes.
#[derive(Clone, Copy, Debug, Default)]
pub struct HeadingPivotCommand {
    pub global_theta: F32Bits,
    pub max_angular_vel: F32Bits,
    pub max_angular_acc: F32Bits,
    pub orbit_radius: F32Bits,
    pub inset_angle: F32Bits,
    pub direction: PivotDirection,
    pub compute_inset_angle: u8,
    pub reserved: [u8; 2],
}

/// Pivot around the ball to face a point in the field frame. The float fields come first;
/// `direction`, `compute_inset_angle` and `reserved` are bytes.
#[derive(Clone, Copy, Debug, Default)]
pub struct PointPivotCommand {
    pub target_x: F32Bits,
    pub target_y: F32Bits,
    pub max_angular_vel: F32Bits,
    pub max_angular_acc: F32Bits,
    pub orbit_radius: F32Bits,
    pub inset_angle: F32Bits,
    pub direction: PivotDirection,
    pub compute_inset_angle: u8,
    pub reserved: [u8; 2],
}

/// Drive along a line while holding a heading. Every field is a float.
#[derive(Clone, Copy, Debug, Default)]
pub struct HeadingLineCommand {
    pub start_x: F32Bits,
    pub start_y: F32Bits,
    pub dir_x: F32Bits,
    pub dir_y: F32Bits,
    pub line_velocity: F32Bits,
    pub global_theta: F32Bits,
    pub max_vel_colinear: F32Bits,
    pub max_vel_perp: F32Bits,
    pub max_vel_angular: F32Bits,
    pub max_accel_colinear: F32Bits,
    pub max_accel_perp: F32Bits,
    pub max_accel_angular: F32Bits,
    pub colinear_start_thresh: F32Bits,
}

/// Drive along a line while facing a point. Every field is a float.
#[derive(Clone, Copy, Debug, Default)]
pub struct PointLineCommand {
    pub start_x: F32Bits,
    pub start_y: F32Bits,
    pub dir_x: F32Bits,
    pub dir_y: F32Bits,
    pub line_velocity: F32Bits,
    pub target_x: F32Bits,
    pub target_y: F32Bits,
    pub max_vel_colinear: F32Bits,
    pub max_vel_perp: F32Bits,
    pub max_vel_angular: F32Bits,
    pub max_accel_colinear: F32Bits,
    pub max_accel_perp: F32Bits,
    pub max_accel_angular: F32Bits,
    pub colinear_start_thresh: F32Bits,
}

/// Extended telemetry of the heading pivot mode: the command being executed.
#[derive(Clone, Copy, Debug)]
pub struct ExtendedHeadingPivotTelemetry {
    pub cmd_echo: HeadingPivotCommand,
}

/// Extended telemetry of the point pivot mode: the command being executed.
#[derive(Clone, Copy, Debug)]
pub struct ExtendedPointPivotTelemetry {
    pub cmd_echo: PointPivotCommand,
}

/// Extended telemetry of the heading line mode: the command being executed.
#[derive(Clone, Copy, Debug)]
pub struct ExtendedHeadingLineTelemetry {
    pub cmd_echo: HeadingLineCommand,
}

/// Extended telemetry of the point line mode: the command being executed.
#[derive(Clone, Copy, Debug)]
pub struct ExtendedPointLineTelemetry {
    pub cmd_echo: PointLineCommand,
}

impl PartialEq for GlobalPositionCommand {
    /// Field-by-field equality, with IEEE 754 equality on the floats.
    fn eq(&self, other: &Self) -> (r: bool) {
        float_eq(self.global_x, other.global_x)
            && float_eq(self.global_y, other.global_y)
            && float_eq(self.global_theta, other.global_theta)
            && float_eq(self.max_linear_vel, other.max_linear_vel)
            && float_eq(self.max_angular_vel, other.max_angular_vel)
            && float_eq(self.max_linear_acc, other.max_linear_acc)
            && float_eq(self.max_angular_acc, other.max_angular_acc)
    }
}

impl GlobalPositionCommand {
    /// Field-by-field equality, with IEEE 754 equality on the floats.
    pub open spec fn float_equal(self, other: Self) -> bool {
        f32_eq(self.global_x, other.global_x)
            && f32_eq(self.global_y, other.global_y)
            && f32_eq(self.global_theta, other.global_theta)
            && f32_eq(self.max_linear_vel, other.max_linear_vel)
            && f32_eq(self.max_angular_vel, other.max_angular_vel)
            && f32_eq(self.max_linear_acc, other.max_linear_acc)
            && f32_eq(self.max_angular_acc, other.max_angular_acc)
    }
}

impl PartialEqSpecImpl for GlobalPositionCommand {
    open spec fn obeys_eq_spec() -> bool {
        true
    }

    open spec fn eq_spec(&self, other: &Self) -> bool {
        self.float_equal(*other)
    }
}

impl PartialEq for GlobalVelocityCommand {
    /// Field-by-field equality, with IEEE 754 equality on the floats.
    fn eq(&self, other: &Self) -> (r: bool) {
        float_eq(self.global_xd, other.global_xd)
            && float_eq(self.global_yd, other.global_yd)
            && float_eq(self.global_omega, other.global_omega)
            && float_eq(self.max_linear_acc, other.max_linear_acc)
            && float_eq(self.max_angular_acc, other.max_angular_acc)
    }
}

impl GlobalVelocityCommand {
    /// Field-by-field equality, with IEEE 754 equality on the floats.
    pub open spec fn float_equal(self, other: Self) -> bool {
        f32_eq(self.global_xd, other.global_xd)
            && f32_eq(self.global_yd, other.global_yd)
            && f32_eq(self.global_omega, other.global_omega)
            && f32_eq(self.max_linear_acc, other.max_linear_acc)
            && f32_eq(self.max_angular_acc, other.max_angular_acc)
    }
}

impl PartialEqSpecImpl for GlobalVelocityCommand {
    open spec fn obeys_eq_spec() -> bool {
        true
    }

    open spec fn eq_spec(&self, other: &Self) -> bool {
        self.float_equal(*other)
    }
}

impl PartialEq for LocalVelocityCommand {
    /// Field-by-field equality, with IEEE 754 equality on the floats.
    fn eq(&self, other: &Self) -> (r: bool) {
        float_eq(self.local_xd, other.local_xd)
            && float_eq(self.local_yd, other.local_yd)
            && float_eq(self.local_omega, other.local_omega)
            && float_eq(self.max_linear_acc, other.max_linear_acc)
            && float_eq(self.max_angular_acc, other.max_angular_acc)
    }
}

impl LocalVelocityCommand {
    /// Field-by-field equality, with IEEE 754 equality on the floats.
    pub open spec fn float_equal(self, other: Self) -> bool {
        f32_eq(self.local_xd, other.local_xd)
            && f32_eq(self.local_yd, other.local_yd)
            && f32_eq(self.local_omega, other.local_omega)
            && f32_eq(self.max_linear_acc, other.max_linear_acc)
            && f32_eq(self.max_angular_acc, other.max_angular_acc)
    }
}

impl PartialEqSpecImpl for LocalVelocityCommand {
    open spec fn obeys_eq_spec() -> bool {
        true
    }

    open spec fn eq_spec(&self, other: &Self) -> bool {
        self.float_equal(*other)
    }
}

impl PartialEq for GlobalAccelerationCommand {
    /// Field-by-field equality, with IEEE 754 equality on the floats.
    fn eq(&self, other: &Self) -> (r: bool) {
        float_eq(self.global_xdd, other.global_xdd)
            && float_eq(self.global_ydd, other.global_ydd)
            && float_eq(self.global_alpha, other.global_alpha)
    }
}

impl GlobalAccelerationCommand {
    /// Field-by-field equality, with IEEE 754 equality on the floats.
    pub open spec fn float_equal(self, other: Self) -> bool {
        f32_eq(self.global_xdd, other.global_xdd)
            && f32_eq(self.global_ydd, other.global_ydd)
            && f32_eq(self.global_alpha, other.global_alpha)
    }
}

impl PartialEqSpecImpl for GlobalAccelerationCommand {
    open spec fn obeys_eq_spec() -> bool {
        true
    }

    open spec fn eq_spec(&self, other: &Self) -> bool {
        self.float_equal(*other)
    }
}

impl PartialEq for LocalAccelerationCommand {
    /// Field-by-field equality, with IEEE 754 equality on the floats.
    fn eq(&self, other: &Self) -> (r: bool) {
        float_eq(self.local_xdd, other.local_xdd)
            && float_eq(self.local_ydd, other.local_ydd)
            && float_eq(self.local_alpha, other.local_alpha)
    }
}

impl LocalAccelerationCommand {
    /// Field-by-field equality, with IEEE 754 equality on the floats.
    pub open spec fn float_equal(self, other: Self) -> bool {
        f32_eq(self.local_xdd, other.local_xdd)
            && f32_eq(self.local_ydd, other.local_ydd)
            && f32_eq(self.local_alpha, other.local_alpha)
    }
}

impl PartialEqSpecImpl for LocalAccelerationCommand {
    open spec fn obeys_eq_spec() -> bool {
        true
    }

    open spec fn eq_spec(&self, other: &Self) -> bool {
        self.float_equal(*other)
    }
}

impl PartialEq for HeadingPivotCommand {
    /// Field-by-field equality, with IEEE 754 equality on the floats.
    fn eq(&self, other: &Self) -> (r: bool) {
        float_eq(self.global_theta, other.global_theta)
            && float_eq(self.max_angular_vel, other.max_angular_vel)
            && float_eq(self.max_angular_acc, other.max_angular_acc)
            && float_eq(self.orbit_radius, other.orbit_radius)
            && float_eq(self.inset_angle, other.inset_angle)
            && self.direction == other.direction
            && self.compute_inset_angle == other.compute_inset_angle
            && self.reserved[0] == other.reserved[0]
            && self.reserved[1] == other.reserved[1]
    }
}

impl HeadingPivotCommand {
    /// Field-by-field equality, with IEEE 754 equality on the floats.
    pub open spec fn float_equal(self, other: Self) -> bool {
        f32_eq(self.global_theta, other.global_theta)
            && f32_eq(self.max_angular_vel, other.max_angular_vel)
            && f32_eq(self.max_angular_acc, other.max_angular_acc)
            && f32_eq(self.orbit_radius, other.orbit_radius)
            && f32_eq(self.inset_angle, other.inset_angle)
            && self.direction == other.direction
            && self.compute_inset_angle == other.compute_inset_angle
            && self.reserved[0] == other.reserved[0]
            && self.reserved[1] == other.reserved[1]
    }
}

impl PartialEqSpecImpl for HeadingPivotCommand {
    open spec fn obeys_eq_spec() -> bool {
        true
    }

    open spec fn eq_spec(&self, other: &Self) -> bool {
        self.float_equal(*other)
    }
}

impl PartialEq for PointPivotCommand {
    /// Field-by-field equality, with IEEE 754 equality on the floats.
    fn eq(&self, other: &Self) -> (r: bool) {
        float_eq(self.target_x, other.target_x)
            && float_eq(self.target_y, other.target_y)
            && float_eq(self.max_angular_vel, other.max_angular_vel)
            && float_eq(self.max_angular_acc, other.max_angular_acc)
            && float_eq(self.orbit_radius, other.orbit_radius)
            && float_eq(self.inset_angle, other.inset_angle)
            && self.direction == other.direction
            && self.compute_inset_angle == other.compute_inset_angle
            && self.reserved[0] == other.reserved[0]
            && self.reserved[1] == other.reserved[1]
    }
}

impl PointPivotCommand {
    /// Field-by-field equality, with IEEE 754 equality on the floats.
    pub open spec fn float_equal(self, other: Self) -> bool {
        f32_eq(self.target_x, other.target_x)
            && f32_eq(self.target_y, other.target_y)
            && f32_eq(self.max_angular_vel, other.max_angular_vel)
            && f32_eq(self.max_angular_acc, other.max_angular_acc)
            && f32_eq(self.orbit_radius, other.orbit_radius)
            && f32_eq(self.inset_angle, other.inset_angle)
            && self.direction == other.direction
            && self.compute_inset_angle == other.compute_inset_angle
            && self.reserved[0] == other.reserved[0]
            && self.reserved[1] == other.reserved[1]
    }
}

impl PartialEqSpecImpl for PointPivotCommand {
    open spec fn obeys_eq_spec() -> bool {
        true
    }

    open spec fn eq_spec(&self, other: &Self) -> bool {
        self.float_equal(*other)
    }
}

impl PartialEq for HeadingLineCommand {
    /// Field-by-field equality, with IEEE 754 equality on the floats.
    fn eq(&self, other: &Self) -> (r: bool) {
        float_eq(self.start_x, other.start_x)
            && float_eq(self.start_y, other.start_y)
            && float_eq(self.dir_x, other.dir_x)
            && float_eq(self.dir_y, other.dir_y)
            && float_eq(self.line_velocity, other.line_velocity)
            && float_eq(self.global_theta, other.global_theta)
            && float_eq(self.max_vel_colinear, other.max_vel_colinear)
            && float_eq(self.max_vel_perp, other.max_vel_perp)
            && float_eq(self.max_vel_angular, other.max_vel_angular)
            && float_eq(self.max_accel_colinear, other.max_accel_colinear)
            && float_eq(self.max_accel_perp, other.max_accel_perp)
            && float_eq(self.max_accel_angular, other.max_accel_angular)
            && float_eq(self.colinear_start_thresh, other.colinear_start_thresh)
    }
}

impl HeadingLineCommand {
    /// Field-by-field equality, with IEEE 754 equality on the floats.
    pub open spec fn float_equal(self, other: Self) -> bool {
        f32_eq(self.start_x, other.start_x)
            && f32_eq(self.start_y, other.start_y)
            && f32_eq(self.dir_x, other.dir_x)
            && f32_eq(self.dir_y, other.dir_y)
            && f32_eq(self.line_velocity, other.line_velocity)
            && f32_eq(self.global_theta, other.global_theta)
            && f32_eq(self.max_vel_colinear, other.max_vel_colinear)
            && f32_eq(self.max_vel_perp, other.max_vel_perp)
            && f32_eq(self.max_vel_angular, other.max_vel_angular)
            && f32_eq(self.max_accel_colinear, other.max_accel_colinear)
            && f32_eq(self.max_accel_perp, other.max_accel_perp)
            && f32_eq(self.max_accel_angular, other.max_accel_angular)
            && f32_eq(self.colinear_start_thresh, other.colinear_start_thresh)
    }
}

impl PartialEqSpecImpl for HeadingLineCommand {
    open spec fn obeys_eq_spec() -> bool {
        true
    }

    open spec fn eq_spec(&self, other: &Self) -> bool {
        self.float_equal(*other)
    }
}

impl PartialEq for PointLineCommand {
    /// Field-by-field equality, with IEEE 754 equality on the floats.
    fn eq(&self, other: &Self) -> (r: bool) {
        float_eq(self.start_x, other.start_x)
            && float_eq(self.start_y, other.start_y)
            && float_eq(self.dir_x, other.dir_x)
            && float_eq(self.dir_y, other.dir_y)
            && float_eq(self.line_velocity, other.line_velocity)
            && float_eq(self.target_x, other.target_x)
            && float_eq(self.target_y, other.target_y)
            && float_eq(self.max_vel_colinear, other.max_vel_colinear)
            && float_eq(self.max_vel_perp, other.max_vel_perp)
            && float_eq(self.max_vel_angular, other.max_vel_angular)
            && float_eq(self.max_accel_colinear, other.max_accel_colinear)
            && float_eq(self.max_accel_perp, other.max_accel_perp)
            && float_eq(self.max_accel_angular, other.max_accel_angular)
            && float_eq(self.colinear_start_thresh, other.colinear_start_thresh)
    }
}

impl PointLineCommand {
    /// Field-by-field equality, with IEEE 754 equality on the floats.
    pub open spec fn float_equal(self, other: Self) -> bool {
        f32_eq(self.start_x, other.start_x)
            && f32_eq(self.start_y, other.start_y)
            && f32_eq(self.dir_x, other.dir_x)
            && f32_eq(self.dir_y, other.dir_y)
            && f32_eq(self.line_velocity, other.line_velocity)
            && f32_eq(self.target_x, other.target_x)
            && f32_eq(self.target_y, other.target_y)
            && f32_eq(self.max_vel_colinear, other.max_vel_colinear)
            && f32_eq(self.max_vel_perp, other.max_vel_perp)
            && f32_eq(self.max_vel_angular, other.max_vel_angular)
            && f32_eq(self.max_accel_colinear, other.max_accel_colinear)
            && f32_eq(self.max_accel_perp, other.max_accel_perp)
            && f32_eq(self.max_accel_angular, other.max_accel_angular)
            && f32_eq(self.colinear_start_thresh, other.colinear_start_thresh)
    }
}

impl PartialEqSpecImpl for PointLineCommand {
    open spec fn obeys_eq_spec() -> bool {
        true
    }

    open spec fn eq_spec(&self, other: &Self) -> bool {
        self.float_equal(*other)
    }
}

impl GlobalPositionCommand {
    /// The command's float fields, in declaration order.
    pub open spec fn floats(self) -> Seq<F32Bits> {
        seq![
            self.global_x,
            self.global_y,
            self.global_theta,
            self.max_linear_vel,
            self.max_angular_vel,
            self.max_linear_acc,
            self.max_angular_acc,
        ]
    }
}

impl GlobalVelocityCommand {
    /// The command's float fields, in declaration order.
    pub open spec fn floats(self) -> Seq<F32Bits> {
        seq![
            self.global_xd,
            self.global_yd,
            self.global_omega,
            self.max_linear_acc,
            self.max_angular_acc,
        ]
    }
}

impl LocalVelocityCommand {
    /// The command's float fields, in declaration order.
    pub open spec fn floats(self) -> Seq<F32Bits> {
        seq![
            self.local_xd,
            self.local_yd,
            self.local_omega,
            self.max_linear_acc,
            self.max_angular_acc,
        ]
    }
}

impl GlobalAccelerationCommand {
    /// The command's float fields, in declaration order.
    pub open spec fn floats(self) -> Seq<F32Bits> {
        seq![self.global_xdd, self.global_ydd, self.global_alpha]
    }
}

impl LocalAccelerationCommand {
    /// The command's float fields, in declaration order.
    pub open spec fn floats(self) -> Seq<F32Bits> {
        seq![self.local_xdd, self.local_ydd, self.local_alpha]
    }
}

impl HeadingPivotCommand {
    /// The command's float fields, in declaration order.
    pub open spec fn floats(self) -> Seq<F32Bits> {
        seq![
            self.global_theta,
            self.max_angular_vel,
            self.max_angular_acc,
            self.orbit_radius,
            self.inset_angle,
        ]
    }
}

impl PointPivotCommand {
    /// The command's float fields, in declaration order.
    pub open spec fn floats(self) -> Seq<F32Bits> {
        seq![
            self.target_x,
            self.target_y,
            self.max_angular_vel,
            self.max_angular_acc,
            self.orbit_radius,
            self.inset_angle,
        ]
    }
}

impl HeadingLineCommand {
    /// The command's float fields, in declaration order.
    pub open spec fn floats(self) -> Seq<F32Bits> {
        seq![
            self.start_x,
            self.start_y,
            self.dir_x,
            self.dir_y,
            self.line_velocity,
            self.global_theta,
            self.max_vel_colinear,
            self.max_vel_perp,
            self.max_vel_angular,
            self.max_accel_colinear,
            self.max_accel_perp,
            self.max_accel_angular,
            self.colinear_start_thresh,
        ]
    }
}

impl PointLineCommand {
    /// The command's float fields, in declaration order.
    pub open spec fn floats(self) -> Seq<F32Bits> {
        seq![
            self.start_x,
            self.start_y,
            self.dir_x,
            self.dir_y,
            self.line_velocity,
            self.target_x,
            self.target_y,
            self.max_vel_colinear,
            self.max_vel_perp,
            self.max_vel_angular,
            self.max_accel_colinear,
            self.max_accel_perp,
            self.max_accel_angular,
            self.colinear_start_thresh,
        ]
    }
}

} // verus!
