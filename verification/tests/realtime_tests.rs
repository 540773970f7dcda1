use reachy_mini_rust::realtime::{
    CommandType, JointLimits, MotionCommand, PIDController, PIDGains, RealtimeConfig,
    RealtimeController, TrajectoryGenerator,
};

fn one_joint_config() -> RealtimeConfig {
    RealtimeConfig {
        control_frequency: 100_000,
        max_joint_velocity: 90_000,
        max_joint_acceleration: 180_000,
        position_tolerance: 1000,
        velocity_tolerance: 5000,
        enable_safety_limits: true,
        emergency_stop_enabled: true,
        pid_gains: vec![(
            "head_pan".to_string(),
            PIDGains {
                kp: 1000,
                ki: 100,
                kd: 50,
                max_integral: 10_000,
                max_output: 100_000,
            },
        )],
        joint_limits: vec![(
            "head_pan".to_string(),
            JointLimits {
                min_position: -180_000,
                max_position: 180_000,
                max_velocity: 90_000,
                max_acceleration: 180_000,
                max_torque: 10_000,
            },
        )],
        sensor_update_rate: 200_000,
        command_timeout_ms: 1000,
    }
}

fn position_command(target: i64, timestamp: u64) -> MotionCommand {
    MotionCommand {
        joint_name: "head_pan".to_string(),
        command_type: CommandType::Position,
        target_position: Some(target),
        target_velocity: None,
        target_torque: None,
        duration: None,
        timestamp,
    }
}

#[test]
fn realtime_test_realtime_config_validation() {
    let config = RealtimeConfig::default();
    assert!(config.validate().is_ok());

    let mut invalid_config = config.clone();
    invalid_config.control_frequency = -1000;
    assert!(invalid_config.validate().is_err());
}

#[test]
fn test_pid_controller() {
    let gains = PIDGains::default();
    let mut controller = PIDController::new(gains, 1000);

    let output = controller.update(1000, 0, 1010);
    assert!(output > 0);
}

#[test]
fn test_trajectory_generator() {
    let trajectory = TrajectoryGenerator::new(0, 1000, 0, 1000, 2000, 0);

    let position = trajectory.get_position(0);
    assert_eq!(position, 0);

    let velocity = trajectory.get_velocity(0);
    assert!(velocity >= 0);
}

#[test]
fn test_realtime_controller_creation() {
    let config = RealtimeConfig::default();
    let controller = RealtimeController::new(config);
    assert!(controller.is_ok());
}

#[test]
fn test_controller_rejects_mismatched_tables() {
    let mut config = one_joint_config();
    config.pid_gains[0].0 = "head_tilt".to_string();
    let controller = RealtimeController::new(config);
    assert!(controller.is_err());
}

#[test]
fn test_add_command_grows_queue() {
    let mut controller = RealtimeController::new(one_joint_config()).unwrap();
    assert!(controller.add_command(position_command(1000, 0)).is_ok());
    assert_eq!(controller.get_status().unwrap().active_commands, 1);
    assert!(controller.add_command(position_command(2000, 0)).is_ok());
    assert_eq!(controller.get_status().unwrap().active_commands, 2);
}

#[test]
fn test_stop_clears_queue_and_trajectories() {
    let mut controller = RealtimeController::new(one_joint_config()).unwrap();
    controller.start().unwrap();
    controller.add_command(position_command(90_000, 100)).unwrap();
    controller.control_tick(100);
    assert_eq!(controller.active_trajectory_count(), 1);

    controller.stop().unwrap();
    assert!(!controller.is_running());
    assert_eq!(controller.active_trajectory_count(), 0);
    assert_eq!(controller.get_status().unwrap().active_commands, 0);
}

#[test]
fn test_stop_command_removes_trajectory() {
    let mut controller = RealtimeController::new(one_joint_config()).unwrap();
    controller.start().unwrap();
    controller.add_command(position_command(90_000, 100)).unwrap();
    controller.control_tick(100);
    assert_eq!(controller.active_trajectory_count(), 1);

    let stop = MotionCommand {
        joint_name: "head_pan".to_string(),
        command_type: CommandType::Stop,
        target_position: None,
        target_velocity: None,
        target_torque: None,
        duration: None,
        timestamp: 150,
    };
    controller.add_command(stop).unwrap();
    controller.control_tick(200);
    assert_eq!(controller.active_trajectory_count(), 0);
}

#[test]
fn test_unknown_joint_is_ignored() {
    let mut controller = RealtimeController::new(one_joint_config()).unwrap();
    controller.start().unwrap();
    let mut cmd = position_command(90_000, 100);
    cmd.joint_name = "left_knee".to_string();
    controller.add_command(cmd).unwrap();
    controller.control_tick(100);
    assert_eq!(controller.active_trajectory_count(), 0);
}

#[test]
fn test_reserved_command_types_are_ignored() {
    let mut controller = RealtimeController::new(one_joint_config()).unwrap();
    controller.start().unwrap();
    let mut cmd = position_command(90_000, 100);
    cmd.command_type = CommandType::Velocity;
    controller.add_command(cmd).unwrap();
    controller.control_tick(100);
    assert_eq!(controller.active_trajectory_count(), 0);
}

#[test]
fn test_control_tick_emits_actuator_outputs() {
    let mut controller = RealtimeController::new(one_joint_config()).unwrap();
    controller.start().unwrap();
    controller.add_command(position_command(90_000, 100)).unwrap();
    controller.control_tick(100);

    // The next tick evaluates the PID controller of the active trajectory.
    let outputs = controller.control_tick(150);
    assert_eq!(outputs.len(), 1);
    assert_eq!(outputs[0].0, "head_pan");
    assert!(outputs[0].1.abs() <= 100_000);
}

#[test]
fn test_sensor_tick_tracks_trajectory() {
    let mut controller = RealtimeController::new(one_joint_config()).unwrap();
    controller.start().unwrap();
    controller.add_command(position_command(90_000, 100)).unwrap();
    controller.control_tick(100);
    let reference = controller.trajectories[0].as_ref().unwrap().get_position(800);

    controller.sensor_tick(800);
    let data = controller.get_sensor_data().unwrap();
    assert_eq!(data.timestamp, 800);
    assert!((data.joint_states[0].position - reference).abs() <= 1);
    assert!(data.joint_states[0].is_moving);
    assert!(data.imu_data.is_some());
}
