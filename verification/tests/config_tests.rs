use reachy_mini_rust::config::{
    Config, ConfigBuilder, ConfigManager, Environment, FeatureDetectorType, GPIOMode, JointLimits,
    LogLevel, LoggingConfig, NetworkConfig, PIDGains, RealtimeConfig, SensorType, ServoConfig,
    SystemConfig, VisionConfig,
};

#[test]
fn test_config_validation() {
    let config = Config::default();
    assert!(config.validate().is_ok());
}

#[test]
fn test_system_config_validation() {
    let mut config = SystemConfig::default();
    assert!(config.validate().is_ok());

    config.name = String::new();
    assert!(config.validate().is_err());
}

#[test]
fn config_test_vision_config_validation() {
    let mut config = VisionConfig::default();
    assert!(config.validate().is_ok());

    config.resolution = (0, 0);
    assert!(config.validate().is_err());
}

#[test]
fn config_test_realtime_config_validation() {
    let config = RealtimeConfig::default();
    assert!(config.validate().is_ok());
}

#[test]
fn config_test_hardware_config_validation() {
    let config = reachy_mini_rust::config::HardwareConfig::default();
    assert!(config.validate().is_ok());
}

#[test]
fn test_logging_config_validation() {
    let mut config = LoggingConfig::default();
    assert!(config.validate().is_ok());

    config.max_file_size_mb = 0;
    assert!(config.validate().is_err());
}

#[test]
fn test_network_config_validation() {
    let mut config = NetworkConfig::default();
    assert!(config.validate().is_ok());

    config.port = 0;
    assert!(config.validate().is_err());
}

#[test]
fn test_config_builder() {
    let config = ConfigBuilder::new()
        .system(SystemConfig {
            name: "TestSystem".to_string(),
            ..SystemConfig::default()
        })
        .build();

    assert!(config.is_ok());
    let config = config.unwrap();
    assert_eq!(config.system.name, "TestSystem");
}

#[test]
fn test_config_manager() {
    let manager = ConfigManager::new();
    let config = manager.get_config();
    assert_eq!(config.system.name, "ReachyMini");
}

#[test]
fn test_pid_gains_validation() {
    let gains = PIDGains {
        kp: 1000,
        ki: 100,
        kd: 10,
        max_integral: 10_000,
        max_output: 100_000,
    };
    assert!(gains.validate().is_ok());

    let mut invalid_gains = gains.clone();
    invalid_gains.kp = -1000;
    assert!(invalid_gains.validate().is_err());
}

#[test]
fn test_joint_limits_validation() {
    let limits = JointLimits {
        min_position: -180_000,
        max_position: 180_000,
        max_velocity: 90_000,
        max_acceleration: 180_000,
        max_torque: 10_000,
    };
    assert!(limits.validate().is_ok());

    let mut invalid_limits = limits.clone();
    invalid_limits.min_position = 200_000;
    assert!(invalid_limits.validate().is_err());
}

#[test]
fn config_test_servo_config_validation() {
    let config = ServoConfig {
        id: 1,
        min_angle: -180_000,
        max_angle: 180_000,
        center_offset: 0,
        direction: 1,
        max_speed: 100,
        max_torque: 1023,
        enabled: true,
    };
    assert!(config.validate().is_ok());

    let mut invalid_config = config.clone();
    invalid_config.direction = 0;
    assert!(invalid_config.validate().is_err());
}

#[test]
fn test_environment_enum() {
    let env = Environment::Development;
    assert_eq!(env, Environment::Development);

    let env = Environment::Production;
    assert_eq!(env, Environment::Production);
}

#[test]
fn test_feature_detector_type() {
    let detector = FeatureDetectorType::SIFT;
    match detector {
        FeatureDetectorType::SIFT => assert!(true),
        _ => assert!(false),
    }
}

#[test]
fn test_sensor_type() {
    let sensor = SensorType::IMU;
    match sensor {
        SensorType::IMU => assert!(true),
        _ => assert!(false),
    }
}

#[test]
fn test_gpio_mode() {
    let mode = GPIOMode::Output;
    match mode {
        GPIOMode::Output => assert!(true),
        _ => assert!(false),
    }
}

#[test]
fn test_log_level() {
    let level = LogLevel::Info;
    match level {
        LogLevel::Info => assert!(true),
        _ => assert!(false),
    }
}

#[test]
fn test_config_manager_rejects_invalid_update() {
    let mut manager = ConfigManager::new();
    let mut bad = Config::default();
    bad.system.max_threads = 0;
    assert!(manager.update_config(bad).is_err());
    assert!(manager.validate().is_ok());
}

#[test]
fn test_config_summary_reflects_config() {
    let manager = ConfigManager::new();
    let summary = manager.get_summary();
    assert_eq!(summary.system_name, "ReachyMini");
    assert_eq!(summary.network_port, 8080);
    assert!(summary.realtime_enabled);
}
