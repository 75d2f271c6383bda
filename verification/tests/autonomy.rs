use tpt_chassis::autonomy::{
    AutonomyError, AutonomyStack, ControlCommand, LaneKeepingStack, SensorKind, SensorSample,
    VehicleState,
};
use tpt_chassis::Error;

#[test]
fn control_command_clamps_steering() {
    let c = ControlCommand::new(9999, 50, 0, 0);
    assert_eq!(c.steer_deci_deg, ControlCommand::MAX_STEER);
    assert_eq!(c.throttle_pct, 50);
    let c = ControlCommand::new(-9999, 200, 0, 0);
    assert_eq!(c.steer_deci_deg, -ControlCommand::MAX_STEER);
    assert_eq!(c.throttle_pct, 100);
}

#[test]
fn stack_commands_toward_lane_center() {
    let mut stack = LaneKeepingStack::new(10, 1000);
    // Offset +20cm to the right -> steer right (positive), proportional.
    stack
        .ingest(SensorSample {
            kind: SensorKind::Camera,
            timestamp: 100,
            value: 20,
        })
        .unwrap();
    assert!(stack.has_control());
    let cmd = stack
        .next_command(VehicleState {
            speed_cmps: 500,
            timestamp: 100,
        })
        .unwrap()
        .unwrap();
    assert_eq!(cmd.steer_deci_deg, 200); // 20 * 10
    assert!(cmd.throttle_pct > 0); // below cruise speed
}

#[test]
fn stack_centers_when_on_lane() {
    let mut stack = LaneKeepingStack::new(10, 1000);
    stack
        .ingest(SensorSample {
            kind: SensorKind::Camera,
            timestamp: 100,
            value: 0,
        })
        .unwrap();
    let cmd = stack
        .next_command(VehicleState {
            speed_cmps: 500,
            timestamp: 100,
        })
        .unwrap()
        .unwrap();
    assert_eq!(cmd.steer_deci_deg, 0);
}

#[test]
fn stack_not_ready_without_samples() {
    let mut stack = LaneKeepingStack::new(10, 1000);
    assert!(!stack.has_control());
    let cmd = stack
        .next_command(VehicleState {
            speed_cmps: 0,
            timestamp: 0,
        })
        .unwrap();
    assert!(cmd.is_none());
}

#[test]
fn steering_does_not_exceed_bounds_at_large_offset() {
    let mut stack = LaneKeepingStack::new(10, 1000);
    stack
        .ingest(SensorSample {
            kind: SensorKind::Lidar,
            timestamp: 1,
            value: 1000,
        })
        .unwrap();
    let cmd = stack
        .next_command(VehicleState {
            speed_cmps: 0,
            timestamp: 1,
        })
        .unwrap()
        .unwrap();
    assert_eq!(cmd.steer_deci_deg, ControlCommand::MAX_STEER);
}

#[test]
fn stack_relinquishes_control_without_data() {
    let mut stack = LaneKeepingStack::new(10, 1000);
    let cmd = stack
        .next_command(VehicleState {
            speed_cmps: 0,
            timestamp: 0,
        })
        .unwrap();
    assert!(cmd.is_none());
    assert!(!stack.has_control());
}

#[test]
fn lane_keeper_throttle_is_speed_deficit_percentage() {
    let mut stack = LaneKeepingStack::new(10, 1000);
    stack
        .ingest(SensorSample {
            kind: SensorKind::Camera,
            timestamp: 7,
            value: -3,
        })
        .unwrap();
    let cmd = stack
        .next_command(VehicleState {
            speed_cmps: 500,
            timestamp: 9,
        })
        .unwrap()
        .unwrap();
    assert_eq!(cmd.steer_deci_deg, -30);
    assert_eq!(cmd.throttle_pct, 50);
    assert_eq!(cmd.brake_pct, 0);
    assert_eq!(cmd.timestamp, 7);
    let cmd = stack
        .next_command(VehicleState {
            speed_cmps: 1000,
            timestamp: 9,
        })
        .unwrap()
        .unwrap();
    assert_eq!(cmd.throttle_pct, 0);
    let cmd = stack
        .next_command(VehicleState {
            speed_cmps: 250,
            timestamp: 9,
        })
        .unwrap()
        .unwrap();
    assert_eq!(cmd.throttle_pct, 75);
}

#[test]
fn lane_keeper_ignores_non_lateral_sensors() {
    let mut stack = LaneKeepingStack::new(10, 1000);
    for kind in [SensorKind::Radar, SensorKind::Gps, SensorKind::Odometry] {
        assert_eq!(
            stack.ingest(SensorSample {
                kind,
                timestamp: 5,
                value: 40,
            }),
            Ok(())
        );
    }
    assert!(!stack.has_control());
}

#[test]
fn lane_keeper_saturates_negative_offsets() {
    let mut stack = LaneKeepingStack::new(100, 1000);
    stack
        .ingest(SensorSample {
            kind: SensorKind::Camera,
            timestamp: 1,
            value: -1000,
        })
        .unwrap();
    let cmd = stack
        .next_command(VehicleState {
            speed_cmps: 2000,
            timestamp: 1,
        })
        .unwrap()
        .unwrap();
    assert_eq!(cmd.steer_deci_deg, -ControlCommand::MAX_STEER);
    assert_eq!(cmd.throttle_pct, 0);
}

#[test]
fn clamp_steer_keeps_values_in_range() {
    assert_eq!(ControlCommand::clamp_steer(301), 300);
    assert_eq!(ControlCommand::clamp_steer(-301), -300);
    assert_eq!(ControlCommand::clamp_steer(-7), -7);
    let c = ControlCommand::new(12, 101, 250, 42);
    assert_eq!(c.brake_pct, 100);
    assert_eq!(c.throttle_pct, 100);
    assert_eq!(c.timestamp, 42);
}

#[test]
fn autonomy_error_from_core_error() {
    assert_eq!(
        AutonomyError::from(Error::ResourceExhausted),
        AutonomyError::Core(Error::ResourceExhausted)
    );
}

#[test]
fn lane_keeper_clamps_large_offsets_without_truncation() {
    // 65556 cm times gain 10 is far right: steering clamps to the maximum.
    let mut stack = LaneKeepingStack::new(10, 1000);
    stack
        .ingest(SensorSample {
            kind: SensorKind::Lidar,
            timestamp: 3,
            value: 65556,
        })
        .unwrap();
    let cmd = stack
        .next_command(VehicleState {
            speed_cmps: 500,
            timestamp: 3,
        })
        .unwrap()
        .unwrap();
    assert_eq!(cmd.steer_deci_deg, ControlCommand::MAX_STEER);
    assert_eq!(cmd.throttle_pct, 50);
    assert_eq!(cmd.timestamp, 3);
}
