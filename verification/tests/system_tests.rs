use reachy_mini_rust::ai::{AIConfig, DataType, ModelConfig, TensorData};
use reachy_mini_rust::hardware::{HardwareCommand, HardwareConfig, ServoConfig};
use reachy_mini_rust::vision::VisionConfig;
use reachy_mini_rust::{Config, ReachyMiniSystem};

#[test]
fn test_system_creation() {
    let config = Config {
        name: "test".to_string(),
        version: "0.1.0".to_string(),
    };

    let system = ReachyMiniSystem::new(config).unwrap();
    assert!(!system.is_running());
}

#[test]
fn test_system_lifecycle() {
    let config = Config {
        name: "test".to_string(),
        version: "0.1.0".to_string(),
    };

    let mut system = ReachyMiniSystem::new(config).unwrap();

    system.start().unwrap();
    assert!(system.is_running());

    system.stop().unwrap();
    assert!(!system.is_running());
}

#[test]
fn test_system_status_reports_identity() {
    let config = Config {
        name: "robot".to_string(),
        version: "2.0.0".to_string(),
    };
    let mut system = ReachyMiniSystem::new(config).unwrap();
    system.start().unwrap();
    let status = system.get_status().unwrap();
    assert!(status.is_running);
    assert_eq!(status.name, "robot");
    assert_eq!(status.version, "2.0.0");
}

#[test]
fn hardware_test_hardware_config_validation() {
    let config = HardwareConfig::default();
    assert!(config.validate().is_ok());

    let mut invalid_config = HardwareConfig::default();
    invalid_config.baud_rate = 0;
    assert!(invalid_config.validate().is_err());
}

#[test]
fn hardware_test_servo_config_validation() {
    let config = ServoConfig::default();
    assert!(config.validate().is_ok());

    let mut invalid_config = ServoConfig::default();
    invalid_config.servo_ids.clear();
    assert!(invalid_config.validate().is_err());
}

#[test]
fn test_servo_move_command() {
    let command = HardwareCommand::ServoMove {
        id: 1,
        position: 1000,
        speed: Some(500),
    };
    match command {
        HardwareCommand::ServoMove { id, position, speed } => {
            assert_eq!(id, 1);
            assert_eq!(position, 1000);
            assert_eq!(speed, Some(500));
        }
        _ => assert!(false),
    }
}

#[test]
fn vision_test_vision_config_validation() {
    let config = VisionConfig::default();
    assert!(config.validate().is_ok());

    let mut invalid_config = config.clone();
    invalid_config.camera_index = -1;
    assert!(invalid_config.validate().is_err());
}

#[test]
fn test_ai_config_validation() {
    let config = AIConfig::default();
    assert!(config.validate().is_ok());

    let mut invalid_config = AIConfig::default();
    invalid_config.batch_size = 0;
    assert!(invalid_config.validate().is_err());
}

#[test]
fn test_model_config_validation() {
    let config = ModelConfig {
        model_path: "test.onnx".to_string(),
        input_shape: vec![1, 3, 224, 224],
        output_names: vec!["output".to_string()],
        confidence_threshold: 500,
        nms_threshold: 400,
        class_names: vec!["test".to_string()],
    };
    assert!(config.validate().is_ok());

    let mut invalid_config = config.clone();
    invalid_config.confidence_threshold = 1500;
    assert!(invalid_config.validate().is_err());
}

#[test]
fn test_tensor_data_creation() {
    let tensor = TensorData {
        data: vec![1000, 2000, 3000, 4000],
        shape: vec![2, 2],
        dtype: DataType::Float32,
    };

    assert_eq!(tensor.data.len(), 4);
    assert_eq!(tensor.shape, vec![2, 2]);
}
