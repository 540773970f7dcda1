use reachy_mini_rust::config::ConfigError;
use reachy_mini_rust::realtime::{
    CommandType, JointLimits, MotionCommand, PIDController, PIDGains, RealtimeConfig,
    RealtimeController, TrajectoryGenerator,
};

fn one_joint_config() -> RealtimeConfig {
    RealtimeConfig {
        control_frequency: 100_000,
        max_joint_velocity: 90_000,
        max_joint_acceleration: 180_000,
        position_tolerance: 1000,
        velocity_tolerance: 5000,
        enable_safety_limits: true,
        emergency_stop_enabled: true,
        pid_gains: vec![(
            "head_pan".to_string(),
            PIDGains {
                kp: 1000,
                ki: 100,
                kd: 50,
                max_integral: 10_000,
                max_output: 100_000,
            },
        )],
        joint_limits: vec![(
            "head_pan".to_string(),
            JointLimits {
                min_position: -180_000,
                max_position: 180_000,
                max_velocity: 90_000,
                max_acceleration: 180_000,
                max_torque: 10_000,
            },
        )],
        sensor_update_rate: 200_000,
        command_timeout_ms: 1000,
    }
}

fn position_command(target: i64, timestamp: u64) -> MotionCommand {
    MotionCommand {
        joint_name: "head_pan".to_string(),
        command_type: CommandType::Position,
        target_position: Some(target),
        target_velocity: None,
        target_torque: None,
        duration: None,
        timestamp,
    }
}

#[test]
fn test_limits_and_gains_invariants_enforced() {
    // min_position must lie strictly below max_position.
    let bad_limits = JointLimits {
        min_position: 180_000,
        max_position: -180_000,
        max_velocity: 90_000,
        max_acceleration: 180_000,
        max_torque: 10_000,
    };
    assert_eq!(
        bad_limits.validate(),
        Err(ConfigError::LimitsMinNotBelowMax)
    );

    let bad_velocity = JointLimits {
        max_velocity: 0,
        ..JointLimits::default()
    };
    assert_eq!(
        bad_velocity.validate(),
        Err(ConfigError::LimitsMaxVelocityNotPositive)
    );

    let bad_gains = PIDGains {
        kp: -1,
        ..PIDGains::default()
    };
    assert_eq!(bad_gains.validate(), Err(ConfigError::PidKpNegative));

    let bad_output = PIDGains {
        max_output: 0,
        ..PIDGains::default()
    };
    assert_eq!(
        bad_output.validate(),
        Err(ConfigError::PidMaxOutputNotPositive)
    );

    let mut bad_config = one_joint_config();
    bad_config.control_frequency = 0;
    assert_eq!(
        bad_config.validate(),
        Err(ConfigError::ControlFrequencyNotPositive)
    );

    let mut bad_config = one_joint_config();
    bad_config.max_joint_velocity = 0;
    assert_eq!(
        bad_config.validate(),
        Err(ConfigError::MaxJointVelocityNotPositive)
    );

    let mut bad_config = one_joint_config();
    bad_config.max_joint_acceleration = 0;
    assert_eq!(
        bad_config.validate(),
        Err(ConfigError::MaxJointAccelerationNotPositive)
    );

    let mut bad_config = one_joint_config();
    bad_config.sensor_update_rate = 0;
    assert_eq!(
        bad_config.validate(),
        Err(ConfigError::SensorUpdateRateNotPositive)
    );

    let mut bad_config = one_joint_config();
    bad_config.pid_gains[0].1.ki = -5;
    assert_eq!(
        bad_config.validate(),
        Err(ConfigError::JointGainsInvalid("head_pan".to_string()))
    );

    let mut bad_config = one_joint_config();
    bad_config.joint_limits[0].1.max_torque = 0;
    assert_eq!(
        bad_config.validate(),
        Err(ConfigError::JointLimitsInvalid("head_pan".to_string()))
    );

    // The controller rejects every invalid configuration.
    let mut bad_config = one_joint_config();
    bad_config.pid_gains[0].1.kd = -1;
    assert!(RealtimeController::new(bad_config).is_err());

    // A joint listed twice is rejected at construction.
    let mut bad_config = one_joint_config();
    bad_config.pid_gains.push(("head_pan".to_string(), bad_config.pid_gains[0].1));
    bad_config
        .joint_limits
        .push(("head_pan".to_string(), bad_config.joint_limits[0].1));
    assert_eq!(
        RealtimeController::new(bad_config).err(),
        Some(ConfigError::DuplicateJointName)
    );
}

#[test]
fn test_pid_proportional_step_is_dt_independent() {
    // kp = 1, ki = kd = 0, max_output = 100: a unit error yields exactly
    // the proportional term, whatever the time step.
    let gains = PIDGains {
        kp: 1000,
        ki: 0,
        kd: 0,
        max_integral: 10_000,
        max_output: 100_000,
    };
    let mut fast = PIDController::new(gains, 0);
    let fast_output = fast.update(1000, 0, 5);
    assert!(fast_output > 0 && fast_output <= 1000);
    assert_eq!(fast_output, 1000);

    let mut slow = PIDController::new(gains, 0);
    let slow_output = slow.update(1000, 0, 777);
    assert_eq!(slow_output, fast_output);
}

#[test]
fn test_pid_output_always_within_bounds() {
    // Arbitrary error/dt sequences never push the output past max_output.
    let gains = PIDGains {
        kp: 900_000,
        ki: 700_000,
        kd: 550_000,
        max_integral: 1_000_000,
        max_output: 250_000,
    };
    let mut controller = PIDController::new(gains, 0);
    let mut seed: u64 = 0x1234_5678_9abc_def0;
    let mut now: u64 = 1;
    for _ in 0..500 {
        seed ^= seed << 13;
        seed ^= seed >> 7;
        seed ^= seed << 17;
        let setpoint = (seed % 2_000_000_000_000_000) as i64 - 1_000_000_000_000_000;
        seed ^= seed << 13;
        seed ^= seed >> 7;
        seed ^= seed << 17;
        let measurement = (seed % 2_000_000_000_000_000) as i64 - 1_000_000_000_000_000;
        seed ^= seed << 13;
        seed ^= seed >> 7;
        seed ^= seed << 17;
        now += seed % 5000;
        let output = controller.update(setpoint, measurement, now);
        assert!(-250_000 <= output && output <= 250_000);
    }
}

#[test]
fn test_trajectory_endpoints_and_monotonicity() {
    let trajectory = TrajectoryGenerator::new(0, 90_000, 0, 90_000, 180_000, 1000);
    // Exact start and exact arrival.
    assert_eq!(trajectory.get_position(1000), 0);
    assert_eq!(trajectory.get_position(1000 + trajectory.duration), 90_000);
    assert_eq!(trajectory.get_position(1000 + trajectory.duration + 500), 90_000);

    // Monotone toward the target across the whole move.
    let mut previous = trajectory.get_position(1000);
    let mut t = 1000;
    while t <= 1000 + trajectory.duration {
        let p = trajectory.get_position(t);
        assert!(p >= previous);
        assert!(p <= 90_000);
        previous = p;
        t += 25;
    }

    // A decreasing move mirrors it.
    let down = TrajectoryGenerator::new(50_000, -30_000, 0, 90_000, 180_000, 0);
    let mut previous = down.get_position(0);
    let mut t = 0;
    while t <= down.duration {
        let p = down.get_position(t);
        assert!(p <= previous);
        previous = p;
        t += 25;
    }
    assert_eq!(down.get_position(down.duration), -30_000);
}

#[test]
fn test_trajectory_duration_follows_kinematic_formula() {
    // Triangular profile: d <= v^2/a, duration = 2 * sqrt(d / a).
    let triangular = TrajectoryGenerator::new(0, 250, 0, 1000, 2000, 0);
    assert_eq!(triangular.duration, 706);

    // Trapezoidal profile: duration = 2 v / a + (d - v^2/a) / v.
    let trapezoidal = TrajectoryGenerator::new(0, 1000, 0, 1000, 2000, 0);
    assert_eq!(trapezoidal.duration, 1500);

    let longer = TrajectoryGenerator::new(0, 4000, 0, 1000, 2000, 0);
    assert_eq!(longer.duration, 4500);

    // Zero distance: the move is over immediately.
    let still = TrajectoryGenerator::new(500, 500, 0, 1000, 2000, 0);
    assert_eq!(still.duration, 0);
    assert_eq!(still.get_position(0), 500);
}

#[test]
fn test_position_command_is_clamped_to_limits() {
    // A target of 200 degrees against [-180, 180] produces a trajectory
    // whose target is exactly 180 degrees.
    let mut controller = RealtimeController::new(one_joint_config()).unwrap();
    controller.start().unwrap();
    controller.add_command(position_command(200_000, 100)).unwrap();
    controller.control_tick(100);
    let trajectory = controller.trajectories[0].as_ref().unwrap();
    assert_eq!(trajectory.target_position, 180_000);
}

#[test]
fn test_stale_command_never_becomes_trajectory() {
    let mut controller = RealtimeController::new(one_joint_config()).unwrap();
    controller.start().unwrap();
    // Enqueued at t = 0, drained at t = 2000 with a 1000 ms timeout.
    controller.add_command(position_command(90_000, 0)).unwrap();
    controller.control_tick(2000);
    assert_eq!(controller.active_trajectory_count(), 0);

    // A fresh command at drain time does become a trajectory.
    controller.add_command(position_command(90_000, 2100)).unwrap();
    controller.control_tick(2100);
    assert_eq!(controller.active_trajectory_count(), 1);
}

#[test]
fn test_emergency_stop_clears_and_latches() {
    let mut controller = RealtimeController::new(one_joint_config()).unwrap();
    controller.start().unwrap();
    controller.add_command(position_command(90_000, 100)).unwrap();
    controller.control_tick(100);
    assert_eq!(controller.active_trajectory_count(), 1);

    controller.set_emergency_stop(true).unwrap();
    let outputs = controller.control_tick(110);
    assert_eq!(outputs.len(), 0);
    assert_eq!(controller.active_trajectory_count(), 0);

    // While the stop flag is set the count stays at zero tick after tick.
    controller.control_tick(120);
    assert_eq!(controller.active_trajectory_count(), 0);
    controller.control_tick(130);
    assert_eq!(controller.active_trajectory_count(), 0);

    // Clearing the flag alone does not resume motion; a new command does.
    controller.set_emergency_stop(false).unwrap();
    controller.control_tick(140);
    assert_eq!(controller.active_trajectory_count(), 0);
    controller.add_command(position_command(90_000, 150)).unwrap();
    controller.control_tick(150);
    assert_eq!(controller.active_trajectory_count(), 1);
}

#[test]
fn test_start_is_idempotent() {
    let mut controller = RealtimeController::new(one_joint_config()).unwrap();
    controller.start().unwrap();
    assert!(controller.is_running());
    assert!(controller.get_status().unwrap().is_running);

    // Starting again changes nothing and reports running exactly once.
    controller.start().unwrap();
    assert!(controller.is_running());
    assert!(controller.get_status().unwrap().is_running);

    controller.stop().unwrap();
    assert!(!controller.is_running());
    controller.stop().unwrap();
    assert!(!controller.is_running());
}

#[test]
fn test_end_to_end_position_convergence() {
    // Joint "head_pan", limits [-180, 180] degrees, start position 0:
    // submit a move to 90 degrees and run both loops past the computed
    // duration.
    let mut controller = RealtimeController::new(one_joint_config()).unwrap();
    controller.start().unwrap();
    let t0: u64 = 10_000;
    controller.add_command(position_command(90_000, t0)).unwrap();
    controller.control_tick(t0);
    let duration = controller.trajectories[0].as_ref().unwrap().duration;
    assert!(duration > 0);

    let mut t = t0;
    while t <= t0 + duration + 100 {
        controller.control_tick(t);
        controller.sensor_tick(t);
        t += 10;
    }

    // The trajectory is removed and the sensed position has converged to
    // the target within the tracking tolerance.
    assert_eq!(controller.active_trajectory_count(), 0);
    let data = controller.get_sensor_data().unwrap();
    assert!((data.joint_states[0].position - 90_000).abs() <= 300);
    let status = controller.get_status().unwrap();
    assert!((status.joint_states[0].position - 90_000).abs() <= 300);
}
