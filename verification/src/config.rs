//! The validated configuration tree.
//!
//! Every configuration type carries a `valid()` spec describing its
//! documented constraints, and an executable `validate` whose result is
//! `Ok(())` exactly when `valid()` holds; on failure it reports the first
//! offending field in declaration order.
//!
//! Quantities that are physically continuous (frequencies, thresholds,
//! angles, voltages) are fixed-point integers in thousandths of the unit.

use vstd::prelude::*;
use vstd::string::*;
use crate::common::ConfigValidation;

verus! {

/// Description of the first configuration rule a value breaks.
#[derive(Debug, Clone, PartialEq, Eq)]
pub enum ConfigError {
    SystemNameEmpty,
    SystemVersionEmpty,
    SystemMaxThreadsZero,
    SystemShutdownTimeoutZero,
    VisionResolutionZero,
    VisionFpsZero,
    VisionBufferSizeZero,
    VisionThreadsZero,
    FaceModelPathEmpty,
    FaceConfidenceOutOfRange,
    FaceNmsOutOfRange,
    FaceMaxFacesZero,
    FeatureMaxFeaturesZero,
    FeatureQualityOutOfRange,
    FeatureMinDistanceNotPositive,
    CalibrationFileEmpty,
    CalibrationBoardSizeNotPositive,
    CalibrationSquareSizeNotPositive,
    RealtimeControlFrequencyNotPositive,
    RealtimeSensorFrequencyNotPositive,
    RealtimeMaxAccelerationNotPositive,
    RealtimeMaxVelocityNotPositive,
    RealtimePositionToleranceNotPositive,
    RealtimeVelocityToleranceNotPositive,
    /// The named joint's PID gains broke a rule.
    JointGainsInvalid(String),
    /// The named joint's limits broke a rule.
    JointLimitsInvalid(String),
    PidKpNegative,
    PidKiNegative,
    PidKdNegative,
    PidMaxIntegralNotPositive,
    PidMaxOutputNotPositive,
    PidGainOutOfRange,
    LimitsMinNotBelowMax,
    LimitsMaxVelocityNotPositive,
    LimitsMaxAccelerationNotPositive,
    LimitsMaxTorqueNotPositive,
    LimitsOutOfRange,
    SafetyForceLimitNotPositive,
    SafetyTemperatureLimitNotPositive,
    SafetyVoltageRangeInvalid,
    SafetyWatchdogTimeoutZero,
    HardwareSerialPortEmpty,
    HardwareBaudRateZero,
    HardwareTimeoutZero,
    HardwareHeartbeatZero,
    /// The named servo's configuration broke a rule.
    ServoInvalid(String),
    /// The named sensor's configuration broke a rule.
    SensorInvalid(String),
    ServoAngleRangeInvalid,
    ServoDirectionInvalid,
    ServoMaxSpeedZero,
    ServoMaxTorqueZero,
    ServoIdsEmpty,
    ServoTemperatureLimitZero,
    ServoVoltageRangeInvalid,
    SensorFrequencyNotPositive,
    SensorCalibrationSamplesZero,
    /// The named GPIO pin's configuration broke a rule.
    GpioPinInvalid(String),
    GpioPinNumberTooLarge,
    LoggingMaxFileSizeZero,
    LoggingMaxFilesZero,
    NetworkBindAddressEmpty,
    NetworkPortZero,
    NetworkMaxConnectionsZero,
    NetworkTimeoutZero,
    WebSocketPathEmpty,
    WebSocketMaxFrameSizeZero,
    WebSocketMaxMessageSizeZero,
    WebSocketPingIntervalZero,
    WebSocketPongTimeoutZero,
    HttpMaxRequestSizeZero,
    HttpRequestTimeoutZero,
    StaticFilesPathEmpty,
    StaticFilesIndexEmpty,
    CorsOriginsEmpty,
    CorsMethodsEmpty,
    AuthSecretTooShort,
    AuthTokenExpiryZero,
    AuthRefreshExpiryZero,
    RateLimitRequestsZero,
    RateLimitBurstZero,
    EncryptionAlgorithmEmpty,
    EncryptionKeySizeZero,
    PerfThreadPoolZero,
    PerfAsyncThreadsZero,
    PerfMemoryPoolZero,
    PerfGcIntervalZero,
    CacheMaxSizeZero,
    CacheTtlZero,
    CacheCleanupIntervalZero,
    AiModelPathEmpty,
    AiBatchSizeZero,
    AiMaxSequenceLengthZero,
    AiInferenceTimeoutZero,
    /// The named model's configuration broke a rule.
    ModelInvalid(String),
    ModelPathEmpty,
    ModelInputShapeEmpty,
    ModelOutputNamesEmpty,
    ModelConfidenceOutOfRange,
    ModelNmsOutOfRange,
    JointTablesMismatched,
    DuplicateJointName,
    ControlFrequencyNotPositive,
    MaxJointVelocityNotPositive,
    MaxJointAccelerationNotPositive,
    SensorUpdateRateNotPositive,
    CameraIndexNegative,
    FrameSizeNotPositive,
    FrameRateNotPositive,
    FrameBufferZero,
}

/// Index of the first element of `s` failing `ok`, or `-1` when all pass.
pub open spec fn first_failing<T>(s: Seq<T>, ok: spec_fn(T) -> bool) -> int
    decreases s.len(),
{
    if s.len() == 0 {
        -1
    } else if !ok(s[0]) {
        0
    } else {
        let r = first_failing(s.skip(1), ok);
        if r == -1 {
            -1
        } else {
            r + 1
        }
    }
}

/// What [`first_failing`] returns: `-1` exactly when every element passes,
/// otherwise the least failing index.
pub proof fn lemma_first_failing<T>(s: Seq<T>, ok: spec_fn(T) -> bool)
    ensures
        first_failing(s, ok) >= -1,
        (first_failing(s, ok) == -1) <==> (forall|i: int| 0 <= i < s.len() ==> ok(s[i])),
        first_failing(s, ok) >= 0 ==> {
            &&& first_failing(s, ok) < s.len()
            &&& !ok(s[first_failing(s, ok)])
            &&& forall|j: int| 0 <= j < first_failing(s, ok) ==> ok(s[j])
        },
    decreases s.len(),
{
    if s.len() > 0 {
        let t = s.skip(1);
        lemma_first_failing(t, ok);
        assert(forall|i: int| 0 <= i < t.len() ==> t[i] == s[i + 1]);
        let f = first_failing(s, ok);
        if ok(s[0]) {
            let ft = first_failing(t, ok);
            if ft == -1 {
                assert(f == -1);
                assert forall|i: int| 0 <= i < s.len() implies ok(s[i]) by {
                    if i > 0 {
                        assert(ok(t[i - 1]));
                    }
                }
            } else {
                assert(f == ft + 1);
                assert(!ok(s[f]));
                assert forall|j: int| 0 <= j < f implies ok(s[j]) by {
                    if j > 0 {
                        assert(ok(t[j - 1]));
                    }
                }
            }
        } else {
            assert(f == 0);
        }
    }
}

/// Deployment environment of the system.
#[derive(Debug, Clone, Copy, PartialEq, Eq, Structural)]
pub enum Environment {
    Development,
    Testing,
    Staging,
    Production,
}

/// Severity threshold for log output.
#[derive(Debug, Clone, Copy, PartialEq, Eq, Structural)]
pub enum LogLevel {
    Trace,
    Debug,
    Info,
    Warn,
    Error,
}

/// How often log files are rotated.
#[derive(Debug, Clone, Copy, PartialEq, Eq, Structural)]
pub enum RotationInterval {
    Hourly,
    Daily,
    Weekly,
    Monthly,
}

/// Keypoint detector family used by the vision pipeline.
#[derive(Debug, Clone, Copy, PartialEq, Eq, Structural)]
pub enum FeatureDetectorType {
    SIFT,
    SURF,
    ORB,
    FAST,
    BRIEF,
}

/// Kind of a physical sensor.
#[derive(Debug, Clone, Copy, PartialEq, Eq, Structural)]
pub enum SensorType {
    IMU,
    ForceTorque,
    Temperature,
    Voltage,
    Current,
}

/// Direction/function of a GPIO pin.
#[derive(Debug, Clone, Copy, PartialEq, Eq, Structural)]
pub enum GPIOMode {
    Input,
    Output,
    PWM,
}

/// Pull resistor configuration of a GPIO pin.
#[derive(Debug, Clone, Copy, PartialEq, Eq, Structural)]
pub enum GPIOPull {
    Floating,
    Up,
    Down,
}

/// Identity, directories and sizing of the whole process.
#[derive(Debug, Clone)]
pub struct SystemConfig {
    pub name: String,
    pub version: String,
    pub environment: Environment,
    pub debug_mode: bool,
    pub max_threads: usize,
    pub work_directory: String,
    pub data_directory: String,
    pub log_directory: String,
    pub temp_directory: String,
    pub shutdown_timeout_ms: u64,
}

impl SystemConfig {
    pub open spec fn valid(&self) -> bool {
        &&& self.name@.len() > 0
        &&& self.version@.len() > 0
        &&& self.max_threads > 0
        &&& self.shutdown_timeout_ms > 0
    }

    pub open spec fn validate_spec(&self) -> Result<(), ConfigError> {
        if self.name@.len() == 0 {
            Err(ConfigError::SystemNameEmpty)
        } else if self.version@.len() == 0 {
            Err(ConfigError::SystemVersionEmpty)
        } else if self.max_threads == 0 {
            Err(ConfigError::SystemMaxThreadsZero)
        } else if self.shutdown_timeout_ms == 0 {
            Err(ConfigError::SystemShutdownTimeoutZero)
        } else {
            Ok(())
        }
    }

    pub fn validate(&self) -> (r: Result<(), ConfigError>)
        ensures
            r == self.validate_spec(),
            r is Ok <==> self.valid(),
    {
        if self.name.as_str().is_empty() {
            return Err(ConfigError::SystemNameEmpty);
        }
        if self.version.as_str().is_empty() {
            return Err(ConfigError::SystemVersionEmpty);
        }
        if self.max_threads == 0 {
            return Err(ConfigError::SystemMaxThreadsZero);
        }
        if self.shutdown_timeout_ms == 0 {
            return Err(ConfigError::SystemShutdownTimeoutZero);
        }
        Ok(())
    }
}

impl ConfigValidation for SystemConfig {
    fn validate(&self) -> Result<(), ConfigError> {
        SystemConfig::validate(self)
    }
}

/// Relies on `num_cpus::get`: the number of logical CPUs available to the
/// process, documented to always be at least 1.
#[verifier::external_body]
fn available_cpus() -> (r: usize)
    ensures
        r >= 1,
{
    num_cpus::get()
}

impl Default for SystemConfig {
    /// A development configuration named after the robot.
    fn default() -> (r: Self)
        ensures
            r.valid(),
            r.name@ == "ReachyMini"@,
            r.version@ == "1.0.0"@,
            r.environment == Environment::Development,
            r.debug_mode,
            r.shutdown_timeout_ms == 5000,
    {
        proof {
            reveal_strlit("ReachyMini");
            reveal_strlit("1.0.0");
        }
        SystemConfig {
            name: "ReachyMini".to_owned(),
            version: "1.0.0".to_owned(),
            environment: Environment::Development,
            debug_mode: true,
            max_threads: available_cpus(),
            work_directory: ".".to_owned(),
            data_directory: "./data".to_owned(),
            log_directory: "./logs".to_owned(),
            temp_directory: "./temp".to_owned(),
            shutdown_timeout_ms: 5000,
        }
    }
}

/// Face detection thresholds; confidence values in thousandths.
#[derive(Debug, Clone)]
pub struct FaceDetectionConfig {
    pub enabled: bool,
    pub model_path: String,
    pub confidence_threshold: i64,
    pub nms_threshold: i64,
    pub max_faces: usize,
}

impl FaceDetectionConfig {
    pub open spec fn valid(&self) -> bool {
        &&& self.enabled ==> self.model_path@.len() > 0
        &&& 0 <= self.confidence_threshold <= 1000
        &&& 0 <= self.nms_threshold <= 1000
        &&& self.max_faces > 0
    }

    pub open spec fn validate_spec(&self) -> Result<(), ConfigError> {
        if self.enabled && self.model_path@.len() == 0 {
            Err(ConfigError::FaceModelPathEmpty)
        } else if self.confidence_threshold < 0 || self.confidence_threshold > 1000 {
            Err(ConfigError::FaceConfidenceOutOfRange)
        } else if self.nms_threshold < 0 || self.nms_threshold > 1000 {
            Err(ConfigError::FaceNmsOutOfRange)
        } else if self.max_faces == 0 {
            Err(ConfigError::FaceMaxFacesZero)
        } else {
            Ok(())
        }
    }

    pub fn validate(&self) -> (r: Result<(), ConfigError>)
        ensures
            r == self.validate_spec(),
            r is Ok <==> self.valid(),
    {
        if self.enabled && self.model_path.as_str().is_empty() {
            return Err(ConfigError::FaceModelPathEmpty);
        }
        if self.confidence_threshold < 0 || self.confidence_threshold > 1000 {
            return Err(ConfigError::FaceConfidenceOutOfRange);
        }
        if self.nms_threshold < 0 || self.nms_threshold > 1000 {
            return Err(ConfigError::FaceNmsOutOfRange);
        }
        if self.max_faces == 0 {
            return Err(ConfigError::FaceMaxFacesZero);
        }
        Ok(())
    }
}

impl ConfigValidation for FaceDetectionConfig {
    fn validate(&self) -> Result<(), ConfigError> {
        FaceDetectionConfig::validate(self)
    }
}

impl Default for FaceDetectionConfig {
    /// Face detection on, with moderate thresholds.
    fn default() -> (r: Self)
        ensures
            r.valid(),
            r.enabled,
            r.confidence_threshold == 700,
            r.nms_threshold == 400,
            r.max_faces == 10,
    {
        proof {
            reveal_strlit("models/face_detection.xml");
        }
        FaceDetectionConfig {
            enabled: true,
            model_path: "models/face_detection.xml".to_owned(),
            confidence_threshold: 700,
            nms_threshold: 400,
            max_faces: 10,
        }
    }
}

/// Feature detection tuning; quality level in thousandths, distance in
/// thousandths of a pixel.
#[derive(Debug, Clone)]
pub struct FeatureDetectionConfig {
    pub enabled: bool,
    pub detector_type: FeatureDetectorType,
    pub max_features: usize,
    pub quality_level: i64,
    pub min_distance: i64,
}

impl FeatureDetectionConfig {
    pub open spec fn valid(&self) -> bool {
        &&& self.max_features > 0
        &&& 0 < self.quality_level <= 1000
        &&& self.min_distance > 0
    }

    pub open spec fn validate_spec(&self) -> Result<(), ConfigError> {
        if self.max_features == 0 {
            Err(ConfigError::FeatureMaxFeaturesZero)
        } else if self.quality_level <= 0 || self.quality_level > 1000 {
            Err(ConfigError::FeatureQualityOutOfRange)
        } else if self.min_distance <= 0 {
            Err(ConfigError::FeatureMinDistanceNotPositive)
        } else {
            Ok(())
        }
    }

    pub fn validate(&self) -> (r: Result<(), ConfigError>)
        ensures
            r == self.validate_spec(),
            r is Ok <==> self.valid(),
    {
        if self.max_features == 0 {
            return Err(ConfigError::FeatureMaxFeaturesZero);
        }
        if self.quality_level <= 0 || self.quality_level > 1000 {
            return Err(ConfigError::FeatureQualityOutOfRange);
        }
        if self.min_distance <= 0 {
            return Err(ConfigError::FeatureMinDistanceNotPositive);
        }
        Ok(())
    }
}

impl ConfigValidation for FeatureDetectionConfig {
    fn validate(&self) -> Result<(), ConfigError> {
        FeatureDetectionConfig::validate(self)
    }
}

impl Default for FeatureDetectionConfig {
    /// SIFT features with a low quality floor.
    fn default() -> (r: Self)
        ensures
            r.valid(),
            r.enabled,
            r.detector_type == FeatureDetectorType::SIFT,
            r.max_features == 1000,
            r.quality_level == 10,
            r.min_distance == 10_000,
    {
        FeatureDetectionConfig {
            enabled: true,
            detector_type: FeatureDetectorType::SIFT,
            max_features: 1000,
            quality_level: 10,
            min_distance: 10_000,
        }
    }
}

/// Camera calibration inputs; square size in thousandths of a millimetre.
#[derive(Debug)]
pub struct CameraCalibrationConfig {
    pub enabled: bool,
    pub calibration_file: String,
    pub board_size: (i32, i32),
    pub square_size: i64,
    pub auto_calibrate: bool,
}

impl CameraCalibrationConfig {
    pub open spec fn valid(&self) -> bool {
        &&& self.enabled ==> self.calibration_file@.len() > 0
        &&& self.board_size.0 > 0
        &&& self.board_size.1 > 0
        &&& self.square_size > 0
    }

    pub open spec fn validate_spec(&self) -> Result<(), ConfigError> {
        if self.enabled && self.calibration_file@.len() == 0 {
            Err(ConfigError::CalibrationFileEmpty)
        } else if self.board_size.0 <= 0 || self.board_size.1 <= 0 {
            Err(ConfigError::CalibrationBoardSizeNotPositive)
        } else if self.square_size <= 0 {
            Err(ConfigError::CalibrationSquareSizeNotPositive)
        } else {
            Ok(())
        }
    }

    pub fn validate(&self) -> (r: Result<(), ConfigError>)
        ensures
            r == self.validate_spec(),
            r is Ok <==> self.valid(),
    {
        if self.enabled && self.calibration_file.as_str().is_empty() {
            return Err(ConfigError::CalibrationFileEmpty);
        }
        if self.board_size.0 <= 0 || self.board_size.1 <= 0 {
            return Err(ConfigError::CalibrationBoardSizeNotPositive);
        }
        if self.square_size <= 0 {
            return Err(ConfigError::CalibrationSquareSizeNotPositive);
        }
        Ok(())
    }
}

impl ConfigValidation for CameraCalibrationConfig {
    fn validate(&self) -> Result<(), ConfigError> {
        CameraCalibrationConfig::validate(self)
    }
}

impl Default for CameraCalibrationConfig {
    /// Calibration disabled, standard 9x6 board of 25 mm squares.
    fn default() -> (r: Self)
        ensures
            r.valid(),
            !r.enabled,
            r.board_size == (9i32, 6i32),
            r.square_size == 25_000,
    {
        proof {
            reveal_strlit("calibration.yaml");
        }
        CameraCalibrationConfig {
            enabled: false,
            calibration_file: "calibration.yaml".to_owned(),
            board_size: (9, 6),
            square_size: 25_000,
            auto_calibrate: false,
        }
    }
}

/// The vision pipeline's capture and detection settings.
#[derive(Debug)]
pub struct VisionConfig {
    pub enabled: bool,
    pub camera_id: u32,
    pub resolution: (u32, u32),
    pub fps: u32,
    pub buffer_size: usize,
    pub processing_threads: usize,
    pub face_detection: FaceDetectionConfig,
    pub feature_detection: FeatureDetectionConfig,
    pub calibration: CameraCalibrationConfig,
}

impl VisionConfig {
    pub open spec fn valid(&self) -> bool {
        &&& self.resolution.0 > 0
        &&& self.resolution.1 > 0
        &&& self.fps > 0
        &&& self.buffer_size > 0
        &&& self.processing_threads > 0
        &&& self.face_detection.valid()
        &&& self.feature_detection.valid()
        &&& self.calibration.valid()
    }

    pub open spec fn validate_spec(&self) -> Result<(), ConfigError> {
        if self.resolution.0 == 0 || self.resolution.1 == 0 {
            Err(ConfigError::VisionResolutionZero)
        } else if self.fps == 0 {
            Err(ConfigError::VisionFpsZero)
        } else if self.buffer_size == 0 {
            Err(ConfigError::VisionBufferSizeZero)
        } else if self.processing_threads == 0 {
            Err(ConfigError::VisionThreadsZero)
        } else if self.face_detection.validate_spec() is Err {
            self.face_detection.validate_spec()
        } else if self.feature_detection.validate_spec() is Err {
            self.feature_detection.validate_spec()
        } else if self.calibration.validate_spec() is Err {
            self.calibration.validate_spec()
        } else {
            Ok(())
        }
    }

    pub fn validate(&self) -> (r: Result<(), ConfigError>)
        ensures
            r == self.validate_spec(),
            r is Ok <==> self.valid(),
    {
        if self.resolution.0 == 0 || self.resolution.1 == 0 {
            return Err(ConfigError::VisionResolutionZero);
        }
        if self.fps == 0 {
            return Err(ConfigError::VisionFpsZero);
        }
        if self.buffer_size == 0 {
            return Err(ConfigError::VisionBufferSizeZero);
        }
        if self.processing_threads == 0 {
            return Err(ConfigError::VisionThreadsZero);
        }
        if let Err(e) = self.face_detection.validate() {
            return Err(e);
        }
        if let Err(e) = self.feature_detection.validate() {
            return Err(e);
        }
        if let Err(e) = self.calibration.validate() {
            return Err(e);
        }
        Ok(())
    }
}

impl ConfigValidation for VisionConfig {
    fn validate(&self) -> Result<(), ConfigError> {
        VisionConfig::validate(self)
    }
}

impl Default for VisionConfig {
    /// VGA capture at 30 fps with default detectors.
    fn default() -> (r: Self)
        ensures
            r.valid(),
            r.enabled,
            r.camera_id == 0,
            r.resolution == (640u32, 480u32),
            r.fps == 30,
            r.buffer_size == 10,
            r.processing_threads == 2,
    {
        VisionConfig {
            enabled: true,
            camera_id: 0,
            resolution: (640, 480),
            fps: 30,
            buffer_size: 10,
            processing_threads: 2,
            face_detection: FaceDetectionConfig::default(),
            feature_detection: FeatureDetectionConfig::default(),
            calibration: CameraCalibrationConfig::default(),
        }
    }
}

/// Per-joint PID gains in thousandths: `kp`, `ki`, `kd` are the loop gains,
/// `max_integral` bounds the accumulator and `max_output` the control effort.
#[derive(Debug, Clone, Copy, PartialEq, Eq, Structural)]
pub struct PIDGains {
    pub kp: i64,
    pub ki: i64,
    pub kd: i64,
    pub max_integral: i64,
    pub max_output: i64,
}

impl PIDGains {
    pub open spec fn valid(&self) -> bool {
        &&& self.kp >= 0
        &&& self.ki >= 0
        &&& self.kd >= 0
        &&& self.max_integral > 0
        &&& self.max_output > 0
    }

    pub open spec fn validate_spec(&self) -> Result<(), ConfigError> {
        if self.kp < 0 {
            Err(ConfigError::PidKpNegative)
        } else if self.ki < 0 {
            Err(ConfigError::PidKiNegative)
        } else if self.kd < 0 {
            Err(ConfigError::PidKdNegative)
        } else if self.max_integral <= 0 {
            Err(ConfigError::PidMaxIntegralNotPositive)
        } else if self.max_output <= 0 {
            Err(ConfigError::PidMaxOutputNotPositive)
        } else {
            Ok(())
        }
    }

    pub fn validate(&self) -> (r: Result<(), ConfigError>)
        ensures
            r == self.validate_spec(),
            r is Ok <==> self.valid(),
    {
        if self.kp < 0 {
            return Err(ConfigError::PidKpNegative);
        }
        if self.ki < 0 {
            return Err(ConfigError::PidKiNegative);
        }
        if self.kd < 0 {
            return Err(ConfigError::PidKdNegative);
        }
        if self.max_integral <= 0 {
            return Err(ConfigError::PidMaxIntegralNotPositive);
        }
        if self.max_output <= 0 {
            return Err(ConfigError::PidMaxOutputNotPositive);
        }
        Ok(())
    }
}

impl ConfigValidation for PIDGains {
    fn validate(&self) -> Result<(), ConfigError> {
        PIDGains::validate(self)
    }
}

/// Per-joint motion limits in thousandths of a degree (positions), of a
/// degree per second (velocity), per second squared (acceleration), and of
/// a torque unit.
#[derive(Debug, Clone, Copy, PartialEq, Eq, Structural)]
pub struct JointLimits {
    pub min_position: i64,
    pub max_position: i64,
    pub max_velocity: i64,
    pub max_acceleration: i64,
    pub max_torque: i64,
}

impl JointLimits {
    pub open spec fn valid(&self) -> bool {
        &&& self.min_position < self.max_position
        &&& self.max_velocity > 0
        &&& self.max_acceleration > 0
        &&& self.max_torque > 0
    }

    pub open spec fn validate_spec(&self) -> Result<(), ConfigError> {
        if self.min_position >= self.max_position {
            Err(ConfigError::LimitsMinNotBelowMax)
        } else if self.max_velocity <= 0 {
            Err(ConfigError::LimitsMaxVelocityNotPositive)
        } else if self.max_acceleration <= 0 {
            Err(ConfigError::LimitsMaxAccelerationNotPositive)
        } else if self.max_torque <= 0 {
            Err(ConfigError::LimitsMaxTorqueNotPositive)
        } else {
            Ok(())
        }
    }

    pub fn validate(&self) -> (r: Result<(), ConfigError>)
        ensures
            r == self.validate_spec(),
            r is Ok <==> self.valid(),
    {
        if self.min_position >= self.max_position {
            return Err(ConfigError::LimitsMinNotBelowMax);
        }
        if self.max_velocity <= 0 {
            return Err(ConfigError::LimitsMaxVelocityNotPositive);
        }
        if self.max_acceleration <= 0 {
            return Err(ConfigError::LimitsMaxAccelerationNotPositive);
        }
        if self.max_torque <= 0 {
            return Err(ConfigError::LimitsMaxTorqueNotPositive);
        }
        Ok(())
    }
}

impl ConfigValidation for JointLimits {
    fn validate(&self) -> Result<(), ConfigError> {
        JointLimits::validate(self)
    }
}

/// Hard safety bounds; forces, temperatures and voltages in thousandths.
#[derive(Debug)]
pub struct SafetyConfig {
    pub emergency_stop_enabled: bool,
    pub collision_detection: bool,
    pub force_limit: i64,
    pub temperature_limit: i64,
    pub voltage_range: (i64, i64),
    pub watchdog_timeout_ms: u64,
}

impl SafetyConfig {
    pub open spec fn valid(&self) -> bool {
        &&& self.force_limit > 0
        &&& self.temperature_limit > 0
        &&& self.voltage_range.0 < self.voltage_range.1
        &&& self.watchdog_timeout_ms > 0
    }

    pub open spec fn validate_spec(&self) -> Result<(), ConfigError> {
        if self.force_limit <= 0 {
            Err(ConfigError::SafetyForceLimitNotPositive)
        } else if self.temperature_limit <= 0 {
            Err(ConfigError::SafetyTemperatureLimitNotPositive)
        } else if self.voltage_range.0 >= self.voltage_range.1 {
            Err(ConfigError::SafetyVoltageRangeInvalid)
        } else if self.watchdog_timeout_ms == 0 {
            Err(ConfigError::SafetyWatchdogTimeoutZero)
        } else {
            Ok(())
        }
    }

    pub fn validate(&self) -> (r: Result<(), ConfigError>)
        ensures
            r == self.validate_spec(),
            r is Ok <==> self.valid(),
    {
        if self.force_limit <= 0 {
            return Err(ConfigError::SafetyForceLimitNotPositive);
        }
        if self.temperature_limit <= 0 {
            return Err(ConfigError::SafetyTemperatureLimitNotPositive);
        }
        if self.voltage_range.0 >= self.voltage_range.1 {
            return Err(ConfigError::SafetyVoltageRangeInvalid);
        }
        if self.watchdog_timeout_ms == 0 {
            return Err(ConfigError::SafetyWatchdogTimeoutZero);
        }
        Ok(())
    }
}

impl ConfigValidation for SafetyConfig {
    fn validate(&self) -> Result<(), ConfigError> {
        SafetyConfig::validate(self)
    }
}

impl Default for SafetyConfig {
    /// Emergency stop and collision detection on, household supply limits.
    fn default() -> (r: Self)
        ensures
            r.valid(),
            r.emergency_stop_enabled,
            r.collision_detection,
            r.force_limit == 50_000,
            r.temperature_limit == 80_000,
            r.voltage_range == (11_000i64, 13_000i64),
            r.watchdog_timeout_ms == 1000,
    {
        SafetyConfig {
            emergency_stop_enabled: true,
            collision_detection: true,
            force_limit: 50_000,
            temperature_limit: 80_000,
            voltage_range: (11_000, 13_000),
            watchdog_timeout_ms: 1000,
        }
    }
}

/// Whether every named entry in a gains table passes validation.
pub open spec fn gains_entry_ok(e: (String, PIDGains)) -> bool {
    e.1.valid()
}

/// Whether every named entry in a limits table passes validation.
pub open spec fn limits_entry_ok(e: (String, JointLimits)) -> bool {
    e.1.valid()
}

/// The gains predicate as a first-class spec function.
pub open spec fn gains_ok_fn() -> spec_fn((String, PIDGains)) -> bool {
    |e: (String, PIDGains)| gains_entry_ok(e)
}

/// The limits predicate as a first-class spec function.
pub open spec fn limits_ok_fn() -> spec_fn((String, JointLimits)) -> bool {
    |e: (String, JointLimits)| limits_entry_ok(e)
}

/// The realtime section of the configuration tree: loop rates and per-joint
/// tables.  Frequencies in thousandths of a hertz, kinematic bounds in
/// thousandths of a degree-based unit.
#[derive(Debug)]
pub struct RealtimeConfig {
    pub enabled: bool,
    pub control_frequency: i64,
    pub sensor_frequency: i64,
    pub max_acceleration: i64,
    pub max_velocity: i64,
    pub position_tolerance: i64,
    pub velocity_tolerance: i64,
    pub pid_gains: Vec<(String, PIDGains)>,
    pub joint_limits: Vec<(String, JointLimits)>,
    pub safety: SafetyConfig,
}

impl RealtimeConfig {
    pub open spec fn valid(&self) -> bool {
        &&& self.control_frequency > 0
        &&& self.sensor_frequency > 0
        &&& self.max_acceleration > 0
        &&& self.max_velocity > 0
        &&& self.position_tolerance > 0
        &&& self.velocity_tolerance > 0
        &&& forall|i: int| 0 <= i < self.pid_gains@.len() ==> gains_entry_ok(#[trigger] self.pid_gains@[i])
        &&& forall|i: int| 0 <= i < self.joint_limits@.len() ==> limits_entry_ok(#[trigger] self.joint_limits@[i])
        &&& self.safety.valid()
    }

    pub open spec fn validate_spec(&self) -> Result<(), ConfigError> {
        if self.control_frequency <= 0 {
            Err(ConfigError::RealtimeControlFrequencyNotPositive)
        } else if self.sensor_frequency <= 0 {
            Err(ConfigError::RealtimeSensorFrequencyNotPositive)
        } else if self.max_acceleration <= 0 {
            Err(ConfigError::RealtimeMaxAccelerationNotPositive)
        } else if self.max_velocity <= 0 {
            Err(ConfigError::RealtimeMaxVelocityNotPositive)
        } else if self.position_tolerance <= 0 {
            Err(ConfigError::RealtimePositionToleranceNotPositive)
        } else if self.velocity_tolerance <= 0 {
            Err(ConfigError::RealtimeVelocityToleranceNotPositive)
        } else if first_failing(self.pid_gains@, gains_ok_fn()) >= 0 {
            Err(
                ConfigError::JointGainsInvalid(
                    self.pid_gains@[first_failing(self.pid_gains@, gains_ok_fn())].0,
                ),
            )
        } else if first_failing(self.joint_limits@, limits_ok_fn()) >= 0 {
            Err(
                ConfigError::JointLimitsInvalid(
                    self.joint_limits@[first_failing(self.joint_limits@, limits_ok_fn())].0,
                ),
            )
        } else if self.safety.validate_spec() is Err {
            self.safety.validate_spec()
        } else {
            Ok(())
        }
    }

    pub fn validate(&self) -> (r: Result<(), ConfigError>)
        ensures
            r == self.validate_spec(),
            r is Ok <==> self.valid(),
    {
        proof {
            lemma_first_failing(self.pid_gains@, gains_ok_fn());
            lemma_first_failing(self.joint_limits@, limits_ok_fn());
        }
        if self.control_frequency <= 0 {
            return Err(ConfigError::RealtimeControlFrequencyNotPositive);
        }
        if self.sensor_frequency <= 0 {
            return Err(ConfigError::RealtimeSensorFrequencyNotPositive);
        }
        if self.max_acceleration <= 0 {
            return Err(ConfigError::RealtimeMaxAccelerationNotPositive);
        }
        if self.max_velocity <= 0 {
            return Err(ConfigError::RealtimeMaxVelocityNotPositive);
        }
        if self.position_tolerance <= 0 {
            return Err(ConfigError::RealtimePositionToleranceNotPositive);
        }
        if self.velocity_tolerance <= 0 {
            return Err(ConfigError::RealtimeVelocityToleranceNotPositive);
        }
        let mut i: usize = 0;
        while i < self.pid_gains.len()
            invariant
                i <= self.pid_gains@.len(),
                forall|j: int| 0 <= j < i ==> gains_entry_ok(#[trigger] self.pid_gains@[j]),
                self.control_frequency > 0,
                self.sensor_frequency > 0,
                self.max_acceleration > 0,
                self.max_velocity > 0,
                self.position_tolerance > 0,
                self.velocity_tolerance > 0,
            decreases self.pid_gains@.len() - i,
        {
            if let Err(_cause) = self.pid_gains[i].1.validate() {
                proof {
                    let okf = gains_ok_fn();
                    let sq = self.pid_gains@;
                    lemma_first_failing(sq, okf);
                    let f = first_failing(sq, okf);
                    assert(!okf(sq[i as int]));
                    if f == -1 {
                        assert(okf(sq[i as int]));
                        assert(false);
                    }
                    if 0 <= f < i {
                        assert(gains_entry_ok(sq[f]));
                        assert(!okf(sq[f]));
                        assert(false);
                    }
                    if f > i {
                        assert(okf(sq[i as int]));
                        assert(false);
                    }
                    assert(f == i);
                }
                return Err(ConfigError::JointGainsInvalid(self.pid_gains[i].0.clone()));
            }
            i = i + 1;
        }
        let mut i: usize = 0;
        while i < self.joint_limits.len()
            invariant
                i <= self.joint_limits@.len(),
                forall|j: int| 0 <= j < i ==> limits_entry_ok(#[trigger] self.joint_limits@[j]),
                forall|j: int| 0 <= j < self.pid_gains@.len()
                    ==> gains_entry_ok(#[trigger] self.pid_gains@[j]),
                self.control_frequency > 0,
                self.sensor_frequency > 0,
                self.max_acceleration > 0,
                self.max_velocity > 0,
                self.position_tolerance > 0,
                self.velocity_tolerance > 0,
            decreases self.joint_limits@.len() - i,
        {
            if let Err(_cause) = self.joint_limits[i].1.validate() {
                proof {
                    lemma_first_failing(self.pid_gains@, gains_ok_fn());
                    assert(forall|j: int| 0 <= j < self.pid_gains@.len()
                        ==> (gains_ok_fn())(#[trigger] self.pid_gains@[j]));
                    let okf = limits_ok_fn();
                    let sq = self.joint_limits@;
                    lemma_first_failing(sq, okf);
                    let f = first_failing(sq, okf);
                    assert(!okf(sq[i as int]));
                    if f == -1 {
                        assert(okf(sq[i as int]));
                        assert(false);
                    }
                    if 0 <= f < i {
                        assert(limits_entry_ok(sq[f]));
                        assert(!okf(sq[f]));
                        assert(false);
                    }
                    if f > i {
                        assert(okf(sq[i as int]));
                        assert(false);
                    }
                    assert(f == i);
                }
                return Err(ConfigError::JointLimitsInvalid(self.joint_limits[i].0.clone()));
            }
            i = i + 1;
        }
        proof {
            assert(forall|j: int| 0 <= j < self.pid_gains@.len()
                ==> (gains_ok_fn())(#[trigger] self.pid_gains@[j]));
            assert(forall|j: int| 0 <= j < self.joint_limits@.len()
                ==> (limits_ok_fn())(#[trigger] self.joint_limits@[j]));
        }
        if let Err(e) = self.safety.validate() {
            return Err(e);
        }
        Ok(())
    }
}

impl ConfigValidation for RealtimeConfig {
    fn validate(&self) -> Result<(), ConfigError> {
        RealtimeConfig::validate(self)
    }
}

/// Appends the default gains and limits rows for one named joint.
fn push_default_joint(
    gains: &mut Vec<(String, PIDGains)>,
    limits: &mut Vec<(String, JointLimits)>,
    name: &str,
)
    ensures
        final(gains)@.len() == old(gains)@.len() + 1,
        final(limits)@.len() == old(limits)@.len() + 1,
        forall|j: int| 0 <= j < old(gains)@.len() ==> final(gains)@[j] == old(gains)@[j],
        forall|j: int| 0 <= j < old(limits)@.len() ==> final(limits)@[j] == old(limits)@[j],
        final(gains)@.last().0@ == name@,
        final(gains)@.last().1 == default_pid_gains(),
        final(limits)@.last().0@ == name@,
        final(limits)@.last().1 == default_joint_limits(),
{
    gains.push(
        (
            name.to_owned(),
            PIDGains { kp: 1000, ki: 100, kd: 10, max_integral: 10_000, max_output: 100_000 },
        ),
    );
    limits.push(
        (
            name.to_owned(),
            JointLimits {
                min_position: -180_000,
                max_position: 180_000,
                max_velocity: 90_000,
                max_acceleration: 180_000,
                max_torque: 10_000,
            },
        ),
    );
}

/// The gains every joint starts with.
pub open spec fn default_pid_gains() -> PIDGains {
    PIDGains { kp: 1000, ki: 100, kd: 10, max_integral: 10_000, max_output: 100_000 }
}

/// The limits every joint starts with.
pub open spec fn default_joint_limits() -> JointLimits {
    JointLimits {
        min_position: -180_000i64,
        max_position: 180_000,
        max_velocity: 90_000,
        max_acceleration: 180_000,
        max_torque: 10_000,
    }
}

impl Default for RealtimeConfig {
    /// 100 Hz control, 1 kHz sensing, default tables for the eight joints.
    fn default() -> (r: Self)
        ensures
            r.valid(),
            r.enabled,
            r.control_frequency == 100_000,
            r.sensor_frequency == 1_000_000,
            r.max_acceleration == 180_000,
            r.max_velocity == 90_000,
            r.position_tolerance == 1000,
            r.velocity_tolerance == 5000,
            r.pid_gains@.len() == 8,
            r.joint_limits@.len() == 8,
            forall|i: int| 0 <= i < 8 ==> (#[trigger] r.pid_gains@[i]).1 == default_pid_gains(),
            forall|i: int| 0 <= i < 8 ==> (#[trigger] r.joint_limits@[i]).1
                == default_joint_limits(),
    {
        let mut pid_gains: Vec<(String, PIDGains)> = Vec::new();
        let mut joint_limits: Vec<(String, JointLimits)> = Vec::new();
        push_default_joint(&mut pid_gains, &mut joint_limits, "head_pan");
        push_default_joint(&mut pid_gains, &mut joint_limits, "head_tilt");
        push_default_joint(&mut pid_gains, &mut joint_limits, "left_shoulder_pitch");
        push_default_joint(&mut pid_gains, &mut joint_limits, "left_shoulder_roll");
        push_default_joint(&mut pid_gains, &mut joint_limits, "left_elbow_pitch");
        push_default_joint(&mut pid_gains, &mut joint_limits, "right_shoulder_pitch");
        push_default_joint(&mut pid_gains, &mut joint_limits, "right_shoulder_roll");
        push_default_joint(&mut pid_gains, &mut joint_limits, "right_elbow_pitch");
        RealtimeConfig {
            enabled: true,
            control_frequency: 100_000,
            sensor_frequency: 1_000_000,
            max_acceleration: 180_000,
            max_velocity: 90_000,
            position_tolerance: 1000,
            velocity_tolerance: 5000,
            pid_gains,
            joint_limits,
            safety: SafetyConfig::default(),
        }
    }
}


/// Named servo rows all valid.
pub open spec fn servo_entry_ok(e: (String, ServoConfig)) -> bool {
    e.1.valid()
}

/// The servo predicate as a first-class spec function.
pub open spec fn servo_ok_fn() -> spec_fn((String, ServoConfig)) -> bool {
    |e: (String, ServoConfig)| servo_entry_ok(e)
}

/// Named sensor rows all valid.
pub open spec fn sensor_entry_ok(e: (String, SensorConfig)) -> bool {
    e.1.valid()
}

/// The sensor predicate as a first-class spec function.
pub open spec fn sensor_ok_fn() -> spec_fn((String, SensorConfig)) -> bool {
    |e: (String, SensorConfig)| sensor_entry_ok(e)
}

/// Named GPIO pin rows all valid.
pub open spec fn pin_entry_ok(e: (String, GPIOPinConfig)) -> bool {
    e.1.valid()
}

/// The pin predicate as a first-class spec function.
pub open spec fn pin_ok_fn() -> spec_fn((String, GPIOPinConfig)) -> bool {
    |e: (String, GPIOPinConfig)| pin_entry_ok(e)
}

/// One servo's mechanical parameters; angles in thousandths of a degree.
#[derive(Debug, Clone, Copy, PartialEq, Eq, Structural)]
pub struct ServoConfig {
    pub id: u8,
    pub min_angle: i64,
    pub max_angle: i64,
    pub center_offset: i64,
    pub direction: i8,
    pub max_speed: u16,
    pub max_torque: u16,
    pub enabled: bool,
}

impl ServoConfig {
    pub open spec fn valid(&self) -> bool {
        &&& self.min_angle < self.max_angle
        &&& (self.direction == 1 || self.direction == -1)
        &&& self.max_speed > 0
        &&& self.max_torque > 0
    }

    pub open spec fn validate_spec(&self) -> Result<(), ConfigError> {
        if self.min_angle >= self.max_angle {
            Err(ConfigError::ServoAngleRangeInvalid)
        } else if self.direction != 1 && self.direction != -1 {
            Err(ConfigError::ServoDirectionInvalid)
        } else if self.max_speed == 0 {
            Err(ConfigError::ServoMaxSpeedZero)
        } else if self.max_torque == 0 {
            Err(ConfigError::ServoMaxTorqueZero)
        } else {
            Ok(())
        }
    }

    pub fn validate(&self) -> (r: Result<(), ConfigError>)
        ensures
            r == self.validate_spec(),
            (r is Ok) <==> self.valid(),
    {
        if self.min_angle >= self.max_angle {
            return Err(ConfigError::ServoAngleRangeInvalid);
        }
        if self.direction != 1 && self.direction != -1 {
            return Err(ConfigError::ServoDirectionInvalid);
        }
        if self.max_speed == 0 {
            return Err(ConfigError::ServoMaxSpeedZero);
        }
        if self.max_torque == 0 {
            return Err(ConfigError::ServoMaxTorqueZero);
        }
        Ok(())
    }
}

impl ConfigValidation for ServoConfig {
    fn validate(&self) -> Result<(), ConfigError> {
        ServoConfig::validate(self)
    }
}

/// One sensor's bus address and rate; the rate is in thousandths of a
/// hertz.
#[derive(Debug, Clone)]
pub struct SensorConfig {
    pub sensor_type: SensorType,
    pub address: u8,
    pub frequency: i64,
    pub enabled: bool,
    pub calibration_file: Option<String>,
}

impl SensorConfig {
    pub open spec fn valid(&self) -> bool {
        self.frequency > 0
    }

    pub open spec fn validate_spec(&self) -> Result<(), ConfigError> {
        if self.frequency <= 0 {
            Err(ConfigError::SensorFrequencyNotPositive)
        } else {
            Ok(())
        }
    }

    pub fn validate(&self) -> (r: Result<(), ConfigError>)
        ensures
            r == self.validate_spec(),
            (r is Ok) <==> self.valid(),
    {
        if self.frequency <= 0 {
            return Err(ConfigError::SensorFrequencyNotPositive);
        }
        Ok(())
    }
}

impl ConfigValidation for SensorConfig {
    fn validate(&self) -> Result<(), ConfigError> {
        SensorConfig::validate(self)
    }
}

/// One GPIO pin's direction and pull.
#[derive(Debug, Clone, Copy, PartialEq, Eq, Structural)]
pub struct GPIOPinConfig {
    pub pin: u8,
    pub mode: GPIOMode,
    pub pull: GPIOPull,
    pub initial_state: bool,
}

impl GPIOPinConfig {
    pub open spec fn valid(&self) -> bool {
        self.pin <= 40
    }

    pub open spec fn validate_spec(&self) -> Result<(), ConfigError> {
        if self.pin > 40 {
            Err(ConfigError::GpioPinNumberTooLarge)
        } else {
            Ok(())
        }
    }

    pub fn validate(&self) -> (r: Result<(), ConfigError>)
        ensures
            r == self.validate_spec(),
            (r is Ok) <==> self.valid(),
    {
        if self.pin > 40 {
            return Err(ConfigError::GpioPinNumberTooLarge);
        }
        Ok(())
    }
}

impl ConfigValidation for GPIOPinConfig {
    fn validate(&self) -> Result<(), ConfigError> {
        GPIOPinConfig::validate(self)
    }
}

/// The named GPIO pin table.
#[derive(Debug, Clone)]
pub struct GPIOConfig {
    pub enabled: bool,
    pub pins: Vec<(String, GPIOPinConfig)>,
}

impl GPIOConfig {
    pub open spec fn valid(&self) -> bool {
        forall|i: int| 0 <= i < self.pins@.len() ==> pin_entry_ok(#[trigger] self.pins@[i])
    }

    pub open spec fn validate_spec(&self) -> Result<(), ConfigError> {
        if first_failing(self.pins@, pin_ok_fn()) >= 0 {
            Err(ConfigError::GpioPinInvalid(self.pins@[first_failing(self.pins@, pin_ok_fn())].0))
        } else {
            Ok(())
        }
    }

    pub fn validate(&self) -> (r: Result<(), ConfigError>)
        ensures
            r == self.validate_spec(),
            (r is Ok) <==> self.valid(),
    {
        proof {
            lemma_first_failing(self.pins@, pin_ok_fn());
        }
        let mut i: usize = 0;
        while i < self.pins.len()
            invariant
                i <= self.pins@.len(),
                forall|j: int| 0 <= j < i ==> pin_entry_ok(#[trigger] self.pins@[j]),
            decreases self.pins@.len() - i,
        {
            if let Err(_cause) = self.pins[i].1.validate() {
                proof {
                    let okf = pin_ok_fn();
                    let sq = self.pins@;
                    lemma_first_failing(sq, okf);
                    let f = first_failing(sq, okf);
                    assert(!okf(sq[i as int]));
                    if f == -1 {
                        assert(okf(sq[i as int]));
                        assert(false);
                    }
                    if 0 <= f < i {
                        assert(pin_entry_ok(sq[f]));
                        assert(!okf(sq[f]));
                        assert(false);
                    }
                    if f > i {
                        assert(okf(sq[i as int]));
                        assert(false);
                    }
                    assert(f == i);
                }
                return Err(ConfigError::GpioPinInvalid(self.pins[i].0.clone()));
            }
            i = i + 1;
        }
        proof {
            assert(forall|j: int| 0 <= j < self.pins@.len() ==> (pin_ok_fn())(
                #[trigger] self.pins@[j],
            ));
        }
        Ok(())
    }
}

impl ConfigValidation for GPIOConfig {
    fn validate(&self) -> Result<(), ConfigError> {
        GPIOConfig::validate(self)
    }
}

/// Appends one named pin row.
fn push_pin(pins: &mut Vec<(String, GPIOPinConfig)>, name: &str, cfg: GPIOPinConfig)
    requires
        cfg.valid(),
    ensures
        final(pins)@.len() == old(pins)@.len() + 1,
        forall|j: int| 0 <= j < old(pins)@.len() ==> final(pins)@[j] == old(pins)@[j],
        final(pins)@.last().0@ == name@,
        final(pins)@.last().1 == cfg,
{
    pins.push((name.to_owned(), cfg));
}

impl Default for GPIOConfig {
    /// Three status LEDs and the emergency-stop button.
    fn default() -> (r: Self)
        ensures
            r.valid(),
            r.enabled,
            r.pins@.len() == 4,
    {
        let mut pins: Vec<(String, GPIOPinConfig)> = Vec::new();
        push_pin(
            &mut pins,
            "led_red",
            GPIOPinConfig {
                pin: 18,
                mode: GPIOMode::Output,
                pull: GPIOPull::Floating,
                initial_state: false,
            },
        );
        push_pin(
            &mut pins,
            "led_green",
            GPIOPinConfig {
                pin: 19,
                mode: GPIOMode::Output,
                pull: GPIOPull::Floating,
                initial_state: false,
            },
        );
        push_pin(
            &mut pins,
            "led_blue",
            GPIOPinConfig {
                pin: 20,
                mode: GPIOMode::Output,
                pull: GPIOPull::Floating,
                initial_state: false,
            },
        );
        push_pin(
            &mut pins,
            "emergency_stop",
            GPIOPinConfig {
                pin: 21,
                mode: GPIOMode::Input,
                pull: GPIOPull::Up,
                initial_state: false,
            },
        );
        GPIOConfig { enabled: true, pins }
    }
}

/// The hardware section of the configuration tree: transport settings and
/// the named servo and sensor tables.
#[derive(Debug)]
pub struct HardwareConfig {
    pub enabled: bool,
    pub serial_port: String,
    pub baud_rate: u32,
    pub timeout_ms: u64,
    pub retry_count: u32,
    pub heartbeat_interval_ms: u64,
    pub servos: Vec<(String, ServoConfig)>,
    pub sensors: Vec<(String, SensorConfig)>,
    pub gpio: GPIOConfig,
}

impl HardwareConfig {
    pub open spec fn valid(&self) -> bool {
        &&& self.enabled ==> self.serial_port@.len() > 0
        &&& self.baud_rate > 0
        &&& self.timeout_ms > 0
        &&& self.heartbeat_interval_ms > 0
        &&& forall|i: int| 0 <= i < self.servos@.len() ==> servo_entry_ok(#[trigger] self.servos@[i])
        &&& forall|i: int| 0 <= i < self.sensors@.len() ==> sensor_entry_ok(
            #[trigger] self.sensors@[i],
        )
        &&& self.gpio.valid()
    }

    pub open spec fn validate_spec(&self) -> Result<(), ConfigError> {
        if self.enabled && self.serial_port@.len() == 0 {
            Err(ConfigError::HardwareSerialPortEmpty)
        } else if self.baud_rate == 0 {
            Err(ConfigError::HardwareBaudRateZero)
        } else if self.timeout_ms == 0 {
            Err(ConfigError::HardwareTimeoutZero)
        } else if self.heartbeat_interval_ms == 0 {
            Err(ConfigError::HardwareHeartbeatZero)
        } else if first_failing(self.servos@, servo_ok_fn()) >= 0 {
            Err(
                ConfigError::ServoInvalid(
                    self.servos@[first_failing(self.servos@, servo_ok_fn())].0,
                ),
            )
        } else if first_failing(self.sensors@, sensor_ok_fn()) >= 0 {
            Err(
                ConfigError::SensorInvalid(
                    self.sensors@[first_failing(self.sensors@, sensor_ok_fn())].0,
                ),
            )
        } else if self.gpio.validate_spec() is Err {
            self.gpio.validate_spec()
        } else {
            Ok(())
        }
    }

    pub fn validate(&self) -> (r: Result<(), ConfigError>)
        ensures
            r == self.validate_spec(),
            (r is Ok) <==> self.valid(),
    {
        proof {
            lemma_first_failing(self.servos@, servo_ok_fn());
            lemma_first_failing(self.sensors@, sensor_ok_fn());
        }
        if self.enabled && self.serial_port.as_str().is_empty() {
            return Err(ConfigError::HardwareSerialPortEmpty);
        }
        if self.baud_rate == 0 {
            return Err(ConfigError::HardwareBaudRateZero);
        }
        if self.timeout_ms == 0 {
            return Err(ConfigError::HardwareTimeoutZero);
        }
        if self.heartbeat_interval_ms == 0 {
            return Err(ConfigError::HardwareHeartbeatZero);
        }
        let mut i: usize = 0;
        while i < self.servos.len()
            invariant
                i <= self.servos@.len(),
                forall|j: int| 0 <= j < i ==> servo_entry_ok(#[trigger] self.servos@[j]),
                self.enabled ==> self.serial_port@.len() > 0,
                self.baud_rate > 0,
                self.timeout_ms > 0,
                self.heartbeat_interval_ms > 0,
            decreases self.servos@.len() - i,
        {
            if let Err(_cause) = self.servos[i].1.validate() {
                proof {
                    let okf = servo_ok_fn();
                    let sq = self.servos@;
                    lemma_first_failing(sq, okf);
                    let f = first_failing(sq, okf);
                    assert(!okf(sq[i as int]));
                    if f == -1 {
                        assert(okf(sq[i as int]));
                        assert(false);
                    }
                    if 0 <= f < i {
                        assert(servo_entry_ok(sq[f]));
                        assert(!okf(sq[f]));
                        assert(false);
                    }
                    if f > i {
                        assert(okf(sq[i as int]));
                        assert(false);
                    }
                    assert(f == i);
                }
                return Err(ConfigError::ServoInvalid(self.servos[i].0.clone()));
            }
            i = i + 1;
        }
        let mut i: usize = 0;
        while i < self.sensors.len()
            invariant
                i <= self.sensors@.len(),
                forall|j: int| 0 <= j < i ==> sensor_entry_ok(#[trigger] self.sensors@[j]),
                forall|j: int| 0 <= j < self.servos@.len() ==> servo_entry_ok(
                    #[trigger] self.servos@[j],
                ),
                self.enabled ==> self.serial_port@.len() > 0,
                self.baud_rate > 0,
                self.timeout_ms > 0,
                self.heartbeat_interval_ms > 0,
            decreases self.sensors@.len() - i,
        {
            if let Err(_cause) = self.sensors[i].1.validate() {
                proof {
                    lemma_first_failing(self.servos@, servo_ok_fn());
                    assert(forall|j: int| 0 <= j < self.servos@.len() ==> (servo_ok_fn())(
                        #[trigger] self.servos@[j],
                    ));
                    let okf = sensor_ok_fn();
                    let sq = self.sensors@;
                    lemma_first_failing(sq, okf);
                    let f = first_failing(sq, okf);
                    assert(!okf(sq[i as int]));
                    if f == -1 {
                        assert(okf(sq[i as int]));
                        assert(false);
                    }
                    if 0 <= f < i {
                        assert(sensor_entry_ok(sq[f]));
                        assert(!okf(sq[f]));
                        assert(false);
                    }
                    if f > i {
                        assert(okf(sq[i as int]));
                        assert(false);
                    }
                    assert(f == i);
                }
                return Err(ConfigError::SensorInvalid(self.sensors[i].0.clone()));
            }
            i = i + 1;
        }
        proof {
            assert(forall|j: int| 0 <= j < self.servos@.len() ==> (servo_ok_fn())(
                #[trigger] self.servos@[j],
            ));
            assert(forall|j: int| 0 <= j < self.sensors@.len() ==> (sensor_ok_fn())(
                #[trigger] self.sensors@[j],
            ));
        }
        if let Err(e) = self.gpio.validate() {
            return Err(e);
        }
        Ok(())
    }
}

impl ConfigValidation for HardwareConfig {
    fn validate(&self) -> Result<(), ConfigError> {
        HardwareConfig::validate(self)
    }
}

/// Appends one named servo row with the default mechanical parameters.
fn push_servo(servos: &mut Vec<(String, ServoConfig)>, name: &str, id: u8)
    ensures
        final(servos)@.len() == old(servos)@.len() + 1,
        forall|j: int| 0 <= j < old(servos)@.len() ==> final(servos)@[j] == old(servos)@[j],
        final(servos)@.last().1.valid(),
{
    servos.push(
        (
            name.to_owned(),
            ServoConfig {
                id,
                min_angle: -180_000,
                max_angle: 180_000,
                center_offset: 0,
                direction: 1,
                max_speed: 100,
                max_torque: 1023,
                enabled: true,
            },
        ),
    );
}

impl Default for HardwareConfig {
    /// A USB serial transport with the robot's eight servos and its two
    /// sensor buses.
    fn default() -> (r: Self)
        ensures
            r.valid(),
            r.enabled,
            r.baud_rate == 115200,
            r.timeout_ms == 1000,
            r.retry_count == 3,
            r.heartbeat_interval_ms == 100,
            r.servos@.len() == 8,
            r.sensors@.len() == 2,
    {
        proof {
            reveal_strlit("/dev/ttyUSB0");
        }
        let mut servos: Vec<(String, ServoConfig)> = Vec::new();
        push_servo(&mut servos, "head_pan", 1);
        push_servo(&mut servos, "head_tilt", 2);
        push_servo(&mut servos, "left_shoulder_pitch", 3);
        push_servo(&mut servos, "left_shoulder_roll", 4);
        push_servo(&mut servos, "left_elbow_pitch", 5);
        push_servo(&mut servos, "right_shoulder_pitch", 6);
        push_servo(&mut servos, "right_shoulder_roll", 7);
        push_servo(&mut servos, "right_elbow_pitch", 8);
        let mut sensors: Vec<(String, SensorConfig)> = Vec::new();
        sensors.push(
            (
                "imu".to_owned(),
                SensorConfig {
                    sensor_type: SensorType::IMU,
                    address: 0x68,
                    frequency: 100_000,
                    enabled: true,
                    calibration_file: Some("imu_calibration.yaml".to_owned()),
                },
            ),
        );
        sensors.push(
            (
                "force_torque".to_owned(),
                SensorConfig {
                    sensor_type: SensorType::ForceTorque,
                    address: 0x40,
                    frequency: 50_000,
                    enabled: true,
                    calibration_file: Some("ft_calibration.yaml".to_owned()),
                },
            ),
        );
        HardwareConfig {
            enabled: true,
            serial_port: "/dev/ttyUSB0".to_owned(),
            baud_rate: 115200,
            timeout_ms: 1000,
            retry_count: 3,
            heartbeat_interval_ms: 100,
            servos,
            sensors,
            gpio: GPIOConfig::default(),
        }
    }
}

/// Log sinks, sizes and per-module levels.
#[derive(Debug, Clone)]
pub struct LoggingConfig {
    pub level: LogLevel,
    pub console_output: bool,
    pub file_output: bool,
    pub log_directory: String,
    pub max_file_size_mb: u64,
    pub max_files: u32,
    pub rotation_interval: RotationInterval,
    pub modules: Vec<(String, LogLevel)>,
}

impl LoggingConfig {
    pub open spec fn valid(&self) -> bool {
        &&& self.max_file_size_mb > 0
        &&& self.max_files > 0
    }

    pub open spec fn validate_spec(&self) -> Result<(), ConfigError> {
        if self.max_file_size_mb == 0 {
            Err(ConfigError::LoggingMaxFileSizeZero)
        } else if self.max_files == 0 {
            Err(ConfigError::LoggingMaxFilesZero)
        } else {
            Ok(())
        }
    }

    pub fn validate(&self) -> (r: Result<(), ConfigError>)
        ensures
            r == self.validate_spec(),
            (r is Ok) <==> self.valid(),
    {
        if self.max_file_size_mb == 0 {
            return Err(ConfigError::LoggingMaxFileSizeZero);
        }
        if self.max_files == 0 {
            return Err(ConfigError::LoggingMaxFilesZero);
        }
        Ok(())
    }
}

impl ConfigValidation for LoggingConfig {
    fn validate(&self) -> Result<(), ConfigError> {
        LoggingConfig::validate(self)
    }
}

impl Default for LoggingConfig {
    /// Daily-rotated console and file logging at the informational level.
    fn default() -> (r: Self)
        ensures
            r.valid(),
            r.level == LogLevel::Info,
            r.console_output,
            r.file_output,
            r.max_file_size_mb == 100,
            r.max_files == 10,
            r.rotation_interval == RotationInterval::Daily,
            r.modules@.len() == 5,
    {
        let mut modules: Vec<(String, LogLevel)> = Vec::new();
        modules.push(("reachy_mini".to_owned(), LogLevel::Info));
        modules.push(("vision".to_owned(), LogLevel::Debug));
        modules.push(("realtime".to_owned(), LogLevel::Warn));
        modules.push(("hardware".to_owned(), LogLevel::Info));
        modules.push(("ai".to_owned(), LogLevel::Info));
        LoggingConfig {
            level: LogLevel::Info,
            console_output: true,
            file_output: true,
            log_directory: "./logs".to_owned(),
            max_file_size_mb: 100,
            max_files: 10,
            rotation_interval: RotationInterval::Daily,
            modules,
        }
    }
}

/// WebSocket endpoint limits.
#[derive(Debug, Clone)]
pub struct WebSocketConfig {
    pub enabled: bool,
    pub path: String,
    pub max_frame_size: usize,
    pub max_message_size: usize,
    pub ping_interval_ms: u64,
    pub pong_timeout_ms: u64,
}

impl WebSocketConfig {
    pub open spec fn valid(&self) -> bool {
        &&& self.enabled ==> self.path@.len() > 0
        &&& self.max_frame_size > 0
        &&& self.max_message_size > 0
        &&& self.ping_interval_ms > 0
        &&& self.pong_timeout_ms > 0
    }

    pub open spec fn validate_spec(&self) -> Result<(), ConfigError> {
        if self.enabled && self.path@.len() == 0 {
            Err(ConfigError::WebSocketPathEmpty)
        } else if self.max_frame_size == 0 {
            Err(ConfigError::WebSocketMaxFrameSizeZero)
        } else if self.max_message_size == 0 {
            Err(ConfigError::WebSocketMaxMessageSizeZero)
        } else if self.ping_interval_ms == 0 {
            Err(ConfigError::WebSocketPingIntervalZero)
        } else if self.pong_timeout_ms == 0 {
            Err(ConfigError::WebSocketPongTimeoutZero)
        } else {
            Ok(())
        }
    }

    pub fn validate(&self) -> (r: Result<(), ConfigError>)
        ensures
            r == self.validate_spec(),
            (r is Ok) <==> self.valid(),
    {
        if self.enabled && self.path.as_str().is_empty() {
            return Err(ConfigError::WebSocketPathEmpty);
        }
        if self.max_frame_size == 0 {
            return Err(ConfigError::WebSocketMaxFrameSizeZero);
        }
        if self.max_message_size == 0 {
            return Err(ConfigError::WebSocketMaxMessageSizeZero);
        }
        if self.ping_interval_ms == 0 {
            return Err(ConfigError::WebSocketPingIntervalZero);
        }
        if self.pong_timeout_ms == 0 {
            return Err(ConfigError::WebSocketPongTimeoutZero);
        }
        Ok(())
    }
}

impl ConfigValidation for WebSocketConfig {
    fn validate(&self) -> Result<(), ConfigError> {
        WebSocketConfig::validate(self)
    }
}

impl Default for WebSocketConfig {
    /// A `/ws` endpoint with megabyte frames.
    fn default() -> (r: Self)
        ensures
            r.valid(),
            r.enabled,
            r.max_frame_size == 1048576,
            r.max_message_size == 10485760,
            r.ping_interval_ms == 30000,
            r.pong_timeout_ms == 10000,
    {
        proof {
            reveal_strlit("/ws");
        }
        WebSocketConfig {
            enabled: true,
            path: "/ws".to_owned(),
            max_frame_size: 1048576,
            max_message_size: 10485760,
            ping_interval_ms: 30000,
            pong_timeout_ms: 10000,
        }
    }
}

/// Static file serving parameters.
#[derive(Debug, Clone)]
pub struct StaticFilesConfig {
    pub enabled: bool,
    pub path: String,
    pub directory: String,
    pub index_file: String,
    pub cache_max_age: u64,
}

impl StaticFilesConfig {
    pub open spec fn valid(&self) -> bool {
        &&& self.enabled ==> self.path@.len() > 0
        &&& self.enabled ==> self.index_file@.len() > 0
    }

    pub open spec fn validate_spec(&self) -> Result<(), ConfigError> {
        if self.enabled && self.path@.len() == 0 {
            Err(ConfigError::StaticFilesPathEmpty)
        } else if self.enabled && self.index_file@.len() == 0 {
            Err(ConfigError::StaticFilesIndexEmpty)
        } else {
            Ok(())
        }
    }

    pub fn validate(&self) -> (r: Result<(), ConfigError>)
        ensures
            r == self.validate_spec(),
            (r is Ok) <==> self.valid(),
    {
        if self.enabled && self.path.as_str().is_empty() {
            return Err(ConfigError::StaticFilesPathEmpty);
        }
        if self.enabled && self.index_file.as_str().is_empty() {
            return Err(ConfigError::StaticFilesIndexEmpty);
        }
        Ok(())
    }
}

impl ConfigValidation for StaticFilesConfig {
    fn validate(&self) -> Result<(), ConfigError> {
        StaticFilesConfig::validate(self)
    }
}

impl Default for StaticFilesConfig {
    /// Serves the built frontend from the root path.
    fn default() -> (r: Self)
        ensures
            r.valid(),
            r.enabled,
            r.cache_max_age == 3600,
    {
        proof {
            reveal_strlit("/");
            reveal_strlit("index.html");
        }
        StaticFilesConfig {
            enabled: true,
            path: "/".to_owned(),
            directory: "./frontend/dist".to_owned(),
            index_file: "index.html".to_owned(),
            cache_max_age: 3600,
        }
    }
}

/// HTTP endpoint limits.
#[derive(Debug, Clone)]
pub struct HttpConfig {
    pub enabled: bool,
    pub max_request_size: usize,
    pub request_timeout_ms: u64,
    pub keep_alive: bool,
    pub compression: bool,
    pub static_files: Option<StaticFilesConfig>,
}

impl HttpConfig {
    pub open spec fn valid(&self) -> bool {
        &&& self.max_request_size > 0
        &&& self.request_timeout_ms > 0
        &&& match self.static_files {
            Some(sf) => sf.valid(),
            None => true,
        }
    }

    pub open spec fn validate_spec(&self) -> Result<(), ConfigError> {
        if self.max_request_size == 0 {
            Err(ConfigError::HttpMaxRequestSizeZero)
        } else if self.request_timeout_ms == 0 {
            Err(ConfigError::HttpRequestTimeoutZero)
        } else {
            match self.static_files {
                Some(sf) => sf.validate_spec(),
                None => Ok(()),
            }
        }
    }

    pub fn validate(&self) -> (r: Result<(), ConfigError>)
        ensures
            r == self.validate_spec(),
            (r is Ok) <==> self.valid(),
    {
        if self.max_request_size == 0 {
            return Err(ConfigError::HttpMaxRequestSizeZero);
        }
        if self.request_timeout_ms == 0 {
            return Err(ConfigError::HttpRequestTimeoutZero);
        }
        match &self.static_files {
            Some(sf) => sf.validate(),
            None => Ok(()),
        }
    }
}

impl ConfigValidation for HttpConfig {
    fn validate(&self) -> Result<(), ConfigError> {
        HttpConfig::validate(self)
    }
}

impl Default for HttpConfig {
    /// Compressed keep-alive HTTP with static file serving.
    fn default() -> (r: Self)
        ensures
            r.valid(),
            r.enabled,
            r.max_request_size == 10485760,
            r.request_timeout_ms == 30000,
            r.keep_alive,
            r.compression,
            (r.static_files is Some),
    {
        HttpConfig {
            enabled: true,
            max_request_size: 10485760,
            request_timeout_ms: 30000,
            keep_alive: true,
            compression: true,
            static_files: Some(StaticFilesConfig::default()),
        }
    }
}

/// Cross-origin request policy.
#[derive(Debug, Clone)]
pub struct CorsConfig {
    pub enabled: bool,
    pub allowed_origins: Vec<String>,
    pub allowed_methods: Vec<String>,
    pub allowed_headers: Vec<String>,
    pub max_age: u64,
}

impl CorsConfig {
    pub open spec fn valid(&self) -> bool {
        &&& self.enabled ==> self.allowed_origins@.len() > 0
        &&& self.enabled ==> self.allowed_methods@.len() > 0
    }

    pub open spec fn validate_spec(&self) -> Result<(), ConfigError> {
        if self.enabled && self.allowed_origins@.len() == 0 {
            Err(ConfigError::CorsOriginsEmpty)
        } else if self.enabled && self.allowed_methods@.len() == 0 {
            Err(ConfigError::CorsMethodsEmpty)
        } else {
            Ok(())
        }
    }

    pub fn validate(&self) -> (r: Result<(), ConfigError>)
        ensures
            r == self.validate_spec(),
            (r is Ok) <==> self.valid(),
    {
        if self.enabled && self.allowed_origins.len() == 0 {
            return Err(ConfigError::CorsOriginsEmpty);
        }
        if self.enabled && self.allowed_methods.len() == 0 {
            return Err(ConfigError::CorsMethodsEmpty);
        }
        Ok(())
    }
}

impl ConfigValidation for CorsConfig {
    fn validate(&self) -> Result<(), ConfigError> {
        CorsConfig::validate(self)
    }
}

impl Default for CorsConfig {
    /// Permissive development policy.
    fn default() -> (r: Self)
        ensures
            r.valid(),
            r.enabled,
            r.allowed_origins@.len() == 1,
            r.allowed_methods@.len() == 5,
            r.allowed_headers@.len() == 3,
            r.max_age == 3600,
    {
        let mut allowed_origins: Vec<String> = Vec::new();
        allowed_origins.push("*".to_owned());
        let mut allowed_methods: Vec<String> = Vec::new();
        allowed_methods.push("GET".to_owned());
        allowed_methods.push("POST".to_owned());
        allowed_methods.push("PUT".to_owned());
        allowed_methods.push("DELETE".to_owned());
        allowed_methods.push("OPTIONS".to_owned());
        let mut allowed_headers: Vec<String> = Vec::new();
        allowed_headers.push("Content-Type".to_owned());
        allowed_headers.push("Authorization".to_owned());
        allowed_headers.push("X-Requested-With".to_owned());
        CorsConfig {
            enabled: true,
            allowed_origins,
            allowed_methods,
            allowed_headers,
            max_age: 3600,
        }
    }
}

/// Listener address and protocol endpoints.
#[derive(Debug, Clone)]
pub struct NetworkConfig {
    pub enabled: bool,
    pub bind_address: String,
    pub port: u16,
    pub max_connections: usize,
    pub timeout_ms: u64,
    pub websocket: WebSocketConfig,
    pub http: HttpConfig,
    pub cors: CorsConfig,
}

impl NetworkConfig {
    pub open spec fn valid(&self) -> bool {
        &&& self.enabled ==> self.bind_address@.len() > 0
        &&& self.port > 0
        &&& self.max_connections > 0
        &&& self.timeout_ms > 0
        &&& self.websocket.valid()
        &&& self.http.valid()
        &&& self.cors.valid()
    }

    pub open spec fn validate_spec(&self) -> Result<(), ConfigError> {
        if self.enabled && self.bind_address@.len() == 0 {
            Err(ConfigError::NetworkBindAddressEmpty)
        } else if self.port == 0 {
            Err(ConfigError::NetworkPortZero)
        } else if self.max_connections == 0 {
            Err(ConfigError::NetworkMaxConnectionsZero)
        } else if self.timeout_ms == 0 {
            Err(ConfigError::NetworkTimeoutZero)
        } else if self.websocket.validate_spec() is Err {
            self.websocket.validate_spec()
        } else if self.http.validate_spec() is Err {
            self.http.validate_spec()
        } else if self.cors.validate_spec() is Err {
            self.cors.validate_spec()
        } else {
            Ok(())
        }
    }

    pub fn validate(&self) -> (r: Result<(), ConfigError>)
        ensures
            r == self.validate_spec(),
            (r is Ok) <==> self.valid(),
    {
        if self.enabled && self.bind_address.as_str().is_empty() {
            return Err(ConfigError::NetworkBindAddressEmpty);
        }
        if self.port == 0 {
            return Err(ConfigError::NetworkPortZero);
        }
        if self.max_connections == 0 {
            return Err(ConfigError::NetworkMaxConnectionsZero);
        }
        if self.timeout_ms == 0 {
            return Err(ConfigError::NetworkTimeoutZero);
        }
        if let Err(e) = self.websocket.validate() {
            return Err(e);
        }
        if let Err(e) = self.http.validate() {
            return Err(e);
        }
        if let Err(e) = self.cors.validate() {
            return Err(e);
        }
        Ok(())
    }
}

impl ConfigValidation for NetworkConfig {
    fn validate(&self) -> Result<(), ConfigError> {
        NetworkConfig::validate(self)
    }
}

impl Default for NetworkConfig {
    /// Listens on every interface on port 8080.
    fn default() -> (r: Self)
        ensures
            r.valid(),
            r.enabled,
            r.port == 8080,
            r.max_connections == 100,
            r.timeout_ms == 30000,
    {
        proof {
            reveal_strlit("0.0.0.0");
        }
        NetworkConfig {
            enabled: true,
            bind_address: "0.0.0.0".to_owned(),
            port: 8080,
            max_connections: 100,
            timeout_ms: 30000,
            websocket: WebSocketConfig::default(),
            http: HttpConfig::default(),
            cors: CorsConfig::default(),
        }
    }
}

/// Token-based authentication parameters.
#[derive(Debug, Clone)]
pub struct AuthConfig {
    pub enabled: bool,
    pub jwt_secret: String,
    pub token_expiry_hours: u64,
    pub refresh_token_expiry_days: u64,
}

impl AuthConfig {
    pub open spec fn valid(&self) -> bool {
        &&& self.enabled ==> self.jwt_secret@.len() >= 32
        &&& self.token_expiry_hours > 0
        &&& self.refresh_token_expiry_days > 0
    }

    pub open spec fn validate_spec(&self) -> Result<(), ConfigError> {
        if self.enabled && self.jwt_secret@.len() < 32 {
            Err(ConfigError::AuthSecretTooShort)
        } else if self.token_expiry_hours == 0 {
            Err(ConfigError::AuthTokenExpiryZero)
        } else if self.refresh_token_expiry_days == 0 {
            Err(ConfigError::AuthRefreshExpiryZero)
        } else {
            Ok(())
        }
    }

    pub fn validate(&self) -> (r: Result<(), ConfigError>)
        ensures
            r == self.validate_spec(),
            (r is Ok) <==> self.valid(),
    {
        if self.enabled && self.jwt_secret.as_str().unicode_len() < 32 {
            return Err(ConfigError::AuthSecretTooShort);
        }
        if self.token_expiry_hours == 0 {
            return Err(ConfigError::AuthTokenExpiryZero);
        }
        if self.refresh_token_expiry_days == 0 {
            return Err(ConfigError::AuthRefreshExpiryZero);
        }
        Ok(())
    }
}

impl ConfigValidation for AuthConfig {
    fn validate(&self) -> Result<(), ConfigError> {
        AuthConfig::validate(self)
    }
}

impl Default for AuthConfig {
    /// Authentication off, with a placeholder secret to replace.
    fn default() -> (r: Self)
        ensures
            r.valid(),
            !r.enabled,
            r.token_expiry_hours == 24,
            r.refresh_token_expiry_days == 30,
    {
        proof {
            reveal_strlit("your-secret-key");
        }
        AuthConfig {
            enabled: false,
            jwt_secret: "your-secret-key".to_owned(),
            token_expiry_hours: 24,
            refresh_token_expiry_days: 30,
        }
    }
}

/// Request rate limiting parameters.
#[derive(Debug, Clone)]
pub struct RateLimitConfig {
    pub enabled: bool,
    pub requests_per_minute: u32,
    pub burst_size: u32,
    pub whitelist: Vec<String>,
}

impl RateLimitConfig {
    pub open spec fn valid(&self) -> bool {
        &&& self.requests_per_minute > 0
        &&& self.burst_size > 0
    }

    pub open spec fn validate_spec(&self) -> Result<(), ConfigError> {
        if self.requests_per_minute == 0 {
            Err(ConfigError::RateLimitRequestsZero)
        } else if self.burst_size == 0 {
            Err(ConfigError::RateLimitBurstZero)
        } else {
            Ok(())
        }
    }

    pub fn validate(&self) -> (r: Result<(), ConfigError>)
        ensures
            r == self.validate_spec(),
            (r is Ok) <==> self.valid(),
    {
        if self.requests_per_minute == 0 {
            return Err(ConfigError::RateLimitRequestsZero);
        }
        if self.burst_size == 0 {
            return Err(ConfigError::RateLimitBurstZero);
        }
        Ok(())
    }
}

impl ConfigValidation for RateLimitConfig {
    fn validate(&self) -> Result<(), ConfigError> {
        RateLimitConfig::validate(self)
    }
}

impl Default for RateLimitConfig {
    /// Rate limiting off, loopback whitelisted.
    fn default() -> (r: Self)
        ensures
            r.valid(),
            !r.enabled,
            r.requests_per_minute == 60,
            r.burst_size == 10,
            r.whitelist@.len() == 1,
    {
        let mut whitelist: Vec<String> = Vec::new();
        whitelist.push("127.0.0.1".to_owned());
        RateLimitConfig { enabled: false, requests_per_minute: 60, burst_size: 10, whitelist }
    }
}

/// Payload encryption parameters.
#[derive(Debug, Clone)]
pub struct EncryptionConfig {
    pub enabled: bool,
    pub algorithm: String,
    pub key_size: u32,
}

impl EncryptionConfig {
    pub open spec fn valid(&self) -> bool {
        &&& self.enabled ==> self.algorithm@.len() > 0
        &&& self.key_size > 0
    }

    pub open spec fn validate_spec(&self) -> Result<(), ConfigError> {
        if self.enabled && self.algorithm@.len() == 0 {
            Err(ConfigError::EncryptionAlgorithmEmpty)
        } else if self.key_size == 0 {
            Err(ConfigError::EncryptionKeySizeZero)
        } else {
            Ok(())
        }
    }

    pub fn validate(&self) -> (r: Result<(), ConfigError>)
        ensures
            r == self.validate_spec(),
            (r is Ok) <==> self.valid(),
    {
        if self.enabled && self.algorithm.as_str().is_empty() {
            return Err(ConfigError::EncryptionAlgorithmEmpty);
        }
        if self.key_size == 0 {
            return Err(ConfigError::EncryptionKeySizeZero);
        }
        Ok(())
    }
}

impl ConfigValidation for EncryptionConfig {
    fn validate(&self) -> Result<(), ConfigError> {
        EncryptionConfig::validate(self)
    }
}

impl Default for EncryptionConfig {
    /// Encryption off, AES-256-GCM when enabled.
    fn default() -> (r: Self)
        ensures
            r.valid(),
            !r.enabled,
            r.key_size == 256,
    {
        proof {
            reveal_strlit("AES-256-GCM");
        }
        EncryptionConfig { enabled: false, algorithm: "AES-256-GCM".to_owned(), key_size: 256 }
    }
}

/// Authentication, rate limiting and encryption as one section.
#[derive(Debug, Clone)]
pub struct SecurityConfig {
    pub enabled: bool,
    pub authentication: AuthConfig,
    pub rate_limiting: RateLimitConfig,
    pub encryption: EncryptionConfig,
}

impl SecurityConfig {
    pub open spec fn valid(&self) -> bool {
        self.enabled ==> {
            &&& self.authentication.valid()
            &&& self.rate_limiting.valid()
            &&& self.encryption.valid()
        }
    }

    pub open spec fn validate_spec(&self) -> Result<(), ConfigError> {
        if !self.enabled {
            Ok(())
        } else if self.authentication.validate_spec() is Err {
            self.authentication.validate_spec()
        } else if self.rate_limiting.validate_spec() is Err {
            self.rate_limiting.validate_spec()
        } else if self.encryption.validate_spec() is Err {
            self.encryption.validate_spec()
        } else {
            Ok(())
        }
    }

    pub fn validate(&self) -> (r: Result<(), ConfigError>)
        ensures
            r == self.validate_spec(),
            (r is Ok) <==> self.valid(),
    {
        if !self.enabled {
            return Ok(());
        }
        if let Err(e) = self.authentication.validate() {
            return Err(e);
        }
        if let Err(e) = self.rate_limiting.validate() {
            return Err(e);
        }
        if let Err(e) = self.encryption.validate() {
            return Err(e);
        }
        Ok(())
    }
}

impl ConfigValidation for SecurityConfig {
    fn validate(&self) -> Result<(), ConfigError> {
        SecurityConfig::validate(self)
    }
}

impl Default for SecurityConfig {
    /// Everything off for development.
    fn default() -> (r: Self)
        ensures
            r.valid(),
            !r.enabled,
    {
        SecurityConfig {
            enabled: false,
            authentication: AuthConfig::default(),
            rate_limiting: RateLimitConfig::default(),
            encryption: EncryptionConfig::default(),
        }
    }
}

/// In-memory cache sizing.
#[derive(Debug, Clone)]
pub struct CacheConfig {
    pub enabled: bool,
    pub max_size_mb: usize,
    pub ttl_seconds: u64,
    pub cleanup_interval_ms: u64,
}

impl CacheConfig {
    pub open spec fn valid(&self) -> bool {
        &&& self.max_size_mb > 0
        &&& self.ttl_seconds > 0
        &&& self.cleanup_interval_ms > 0
    }

    pub open spec fn validate_spec(&self) -> Result<(), ConfigError> {
        if self.max_size_mb == 0 {
            Err(ConfigError::CacheMaxSizeZero)
        } else if self.ttl_seconds == 0 {
            Err(ConfigError::CacheTtlZero)
        } else if self.cleanup_interval_ms == 0 {
            Err(ConfigError::CacheCleanupIntervalZero)
        } else {
            Ok(())
        }
    }

    pub fn validate(&self) -> (r: Result<(), ConfigError>)
        ensures
            r == self.validate_spec(),
            (r is Ok) <==> self.valid(),
    {
        if self.max_size_mb == 0 {
            return Err(ConfigError::CacheMaxSizeZero);
        }
        if self.ttl_seconds == 0 {
            return Err(ConfigError::CacheTtlZero);
        }
        if self.cleanup_interval_ms == 0 {
            return Err(ConfigError::CacheCleanupIntervalZero);
        }
        Ok(())
    }
}

impl ConfigValidation for CacheConfig {
    fn validate(&self) -> Result<(), ConfigError> {
        CacheConfig::validate(self)
    }
}

impl Default for CacheConfig {
    /// A 256 MB cache with hourly expiry.
    fn default() -> (r: Self)
        ensures
            r.valid(),
            r.enabled,
            r.max_size_mb == 256,
            r.ttl_seconds == 3600,
            r.cleanup_interval_ms == 300000,
    {
        CacheConfig {
            enabled: true,
            max_size_mb: 256,
            ttl_seconds: 3600,
            cleanup_interval_ms: 300000,
        }
    }
}

/// Thread pools, memory budget and metrics switches.
#[derive(Debug, Clone)]
pub struct PerformanceConfig {
    pub thread_pool_size: usize,
    pub async_runtime_threads: usize,
    pub memory_pool_size_mb: usize,
    pub gc_interval_ms: u64,
    pub profiling_enabled: bool,
    pub metrics_enabled: bool,
    pub cache: CacheConfig,
}

impl PerformanceConfig {
    pub open spec fn valid(&self) -> bool {
        &&& self.thread_pool_size > 0
        &&& self.async_runtime_threads > 0
        &&& self.memory_pool_size_mb > 0
        &&& self.gc_interval_ms > 0
        &&& self.cache.valid()
    }

    pub open spec fn validate_spec(&self) -> Result<(), ConfigError> {
        if self.thread_pool_size == 0 {
            Err(ConfigError::PerfThreadPoolZero)
        } else if self.async_runtime_threads == 0 {
            Err(ConfigError::PerfAsyncThreadsZero)
        } else if self.memory_pool_size_mb == 0 {
            Err(ConfigError::PerfMemoryPoolZero)
        } else if self.gc_interval_ms == 0 {
            Err(ConfigError::PerfGcIntervalZero)
        } else if self.cache.validate_spec() is Err {
            self.cache.validate_spec()
        } else {
            Ok(())
        }
    }

    pub fn validate(&self) -> (r: Result<(), ConfigError>)
        ensures
            r == self.validate_spec(),
            (r is Ok) <==> self.valid(),
    {
        if self.thread_pool_size == 0 {
            return Err(ConfigError::PerfThreadPoolZero);
        }
        if self.async_runtime_threads == 0 {
            return Err(ConfigError::PerfAsyncThreadsZero);
        }
        if self.memory_pool_size_mb == 0 {
            return Err(ConfigError::PerfMemoryPoolZero);
        }
        if self.gc_interval_ms == 0 {
            return Err(ConfigError::PerfGcIntervalZero);
        }
        if let Err(e) = self.cache.validate() {
            return Err(e);
        }
        Ok(())
    }
}

impl ConfigValidation for PerformanceConfig {
    fn validate(&self) -> Result<(), ConfigError> {
        PerformanceConfig::validate(self)
    }
}

impl Default for PerformanceConfig {
    /// Sized to the machine's CPU count, with the default cache.
    fn default() -> (r: Self)
        ensures
            r.valid(),
            r.memory_pool_size_mb == 512,
            r.gc_interval_ms == 60000,
            !r.profiling_enabled,
            r.metrics_enabled,
    {
        PerformanceConfig {
            thread_pool_size: available_cpus(),
            async_runtime_threads: available_cpus(),
            memory_pool_size_mb: 512,
            gc_interval_ms: 60000,
            profiling_enabled: false,
            metrics_enabled: true,
            cache: CacheConfig::default(),
        }
    }
}

/// The whole configuration tree, one section per subsystem.
#[derive(Debug)]
pub struct Config {
    pub system: SystemConfig,
    pub vision: VisionConfig,
    pub realtime: RealtimeConfig,
    pub hardware: HardwareConfig,
    pub ai: crate::ai::AIConfig,
    pub logging: LoggingConfig,
    pub network: NetworkConfig,
    pub security: SecurityConfig,
    pub performance: PerformanceConfig,
}

impl Config {
    pub open spec fn valid(&self) -> bool {
        &&& self.system.valid()
        &&& self.vision.valid()
        &&& self.realtime.valid()
        &&& self.hardware.valid()
        &&& self.ai.valid()
        &&& self.logging.valid()
        &&& self.network.valid()
        &&& self.security.valid()
        &&& self.performance.valid()
    }

    pub open spec fn validate_spec(&self) -> Result<(), ConfigError> {
        if self.system.validate_spec() is Err {
            self.system.validate_spec()
        } else if self.vision.validate_spec() is Err {
            self.vision.validate_spec()
        } else if self.realtime.validate_spec() is Err {
            self.realtime.validate_spec()
        } else if self.hardware.validate_spec() is Err {
            self.hardware.validate_spec()
        } else if self.ai.validate_spec() is Err {
            self.ai.validate_spec()
        } else if self.logging.validate_spec() is Err {
            self.logging.validate_spec()
        } else if self.network.validate_spec() is Err {
            self.network.validate_spec()
        } else if self.security.validate_spec() is Err {
            self.security.validate_spec()
        } else if self.performance.validate_spec() is Err {
            self.performance.validate_spec()
        } else {
            Ok(())
        }
    }

    pub fn validate(&self) -> (r: Result<(), ConfigError>)
        ensures
            r == self.validate_spec(),
            (r is Ok) <==> self.valid(),
    {
        if let Err(e) = self.system.validate() {
            return Err(e);
        }
        if let Err(e) = self.vision.validate() {
            return Err(e);
        }
        if let Err(e) = self.realtime.validate() {
            return Err(e);
        }
        if let Err(e) = self.hardware.validate() {
            return Err(e);
        }
        if let Err(e) = self.ai.validate() {
            return Err(e);
        }
        if let Err(e) = self.logging.validate() {
            return Err(e);
        }
        if let Err(e) = self.network.validate() {
            return Err(e);
        }
        if let Err(e) = self.security.validate() {
            return Err(e);
        }
        if let Err(e) = self.performance.validate() {
            return Err(e);
        }
        Ok(())
    }
}

impl ConfigValidation for Config {
    fn validate(&self) -> Result<(), ConfigError> {
        Config::validate(self)
    }
}

impl Default for Config {
    /// Every section at its default; the result validates.
    fn default() -> (r: Self)
        ensures
            r.valid(),
            r.system.name@ == "ReachyMini"@,
    {
        Config {
            system: SystemConfig::default(),
            vision: VisionConfig::default(),
            realtime: RealtimeConfig::default(),
            hardware: HardwareConfig::default(),
            ai: crate::ai::AIConfig::default(),
            logging: LoggingConfig::default(),
            network: NetworkConfig::default(),
            security: SecurityConfig::default(),
            performance: PerformanceConfig::default(),
        }
    }
}

/// One-line rollup of the configuration for observability.
#[derive(Debug, Clone)]
pub struct ConfigSummary {
    pub system_name: String,
    pub version: String,
    pub environment: Environment,
    pub debug_mode: bool,
    pub vision_enabled: bool,
    pub realtime_enabled: bool,
    pub hardware_enabled: bool,
    pub network_port: u16,
    pub log_level: LogLevel,
}

/// Owns the active configuration and the path it came from.  Loading and
/// saving files is the embedding application's concern; this manager
/// holds and validates the value.
#[derive(Debug)]
pub struct ConfigManager {
    pub config: Config,
    pub config_path: String,
}

impl ConfigManager {
    /// A manager holding the default configuration.
    pub fn new() -> (r: Self)
        ensures
            r.config.valid(),
            r.config.system.name@ == "ReachyMini"@,
    {
        proof {
            reveal_strlit("config.yaml");
        }
        ConfigManager { config: Config::default(), config_path: "config.yaml".to_owned() }
    }

    /// The active configuration.
    pub fn get_config(&self) -> (r: &Config)
        ensures
            r == &self.config,
    {
        &self.config
    }

    /// Replaces the configuration if and only if the new value validates;
    /// on rejection the active configuration is untouched and the first
    /// broken rule is reported.
    pub fn update_config(&mut self, new_config: Config) -> (r: Result<(), ConfigError>)
        ensures
            (r is Ok) <==> new_config.valid(),
            (r is Ok) ==> final(self).config == new_config,
            (r is Err) ==> final(self).config == old(self).config && r
                == new_config.validate_spec(),
            final(self).config_path == old(self).config_path,
    {
        if let Err(e) = new_config.validate() {
            return Err(e);
        }
        self.config = new_config;
        Ok(())
    }

    /// Validates the active configuration.
    pub fn validate(&self) -> (r: Result<(), ConfigError>)
        ensures
            r == self.config.validate_spec(),
            (r is Ok) <==> self.config.valid(),
    {
        self.config.validate()
    }

    /// The one-line rollup of the active configuration.
    pub fn get_summary(&self) -> (r: ConfigSummary)
        ensures
            r.system_name == self.config.system.name,
            r.version == self.config.system.version,
            r.environment == self.config.system.environment,
            r.debug_mode == self.config.system.debug_mode,
            r.vision_enabled == self.config.vision.enabled,
            r.realtime_enabled == self.config.realtime.enabled,
            r.hardware_enabled == self.config.hardware.enabled,
            r.network_port == self.config.network.port,
            r.log_level == self.config.logging.level,
    {
        ConfigSummary {
            system_name: self.config.system.name.clone(),
            version: self.config.system.version.clone(),
            environment: self.config.system.environment,
            debug_mode: self.config.system.debug_mode,
            vision_enabled: self.config.vision.enabled,
            realtime_enabled: self.config.realtime.enabled,
            hardware_enabled: self.config.hardware.enabled,
            network_port: self.config.network.port,
            log_level: self.config.logging.level,
        }
    }
}

impl Default for ConfigManager {
    /// Same as [`ConfigManager::new`].
    fn default() -> (r: Self)
        ensures
            r.config.valid(),
    {
        ConfigManager::new()
    }
}

/// Assembles a configuration section by section and validates the result.
#[derive(Debug)]
pub struct ConfigBuilder {
    pub config: Config,
}

impl ConfigBuilder {
    /// Starts from the default configuration.
    pub fn new() -> (r: Self)
        ensures
            r.config.valid(),
    {
        ConfigBuilder { config: Config::default() }
    }

    /// Replaces the system section.
    pub fn system(self, system_config: SystemConfig) -> (r: Self)
        ensures
            r.config.system == system_config,
            r.config.vision == self.config.vision,
            r.config.realtime == self.config.realtime,
            r.config.hardware == self.config.hardware,
            r.config.ai == self.config.ai,
            r.config.logging == self.config.logging,
            r.config.network == self.config.network,
            r.config.security == self.config.security,
            r.config.performance == self.config.performance,
    {
        let mut config = self.config;
        config.system = system_config;
        ConfigBuilder { config }
    }

    /// Replaces the vision section.
    pub fn vision(self, vision_config: VisionConfig) -> (r: Self)
        ensures
            r.config.vision == vision_config,
            r.config.system == self.config.system,
            r.config.realtime == self.config.realtime,
            r.config.hardware == self.config.hardware,
            r.config.ai == self.config.ai,
            r.config.logging == self.config.logging,
            r.config.network == self.config.network,
            r.config.security == self.config.security,
            r.config.performance == self.config.performance,
    {
        let mut config = self.config;
        config.vision = vision_config;
        ConfigBuilder { config }
    }

    /// Replaces the realtime section.
    pub fn realtime(self, realtime_config: RealtimeConfig) -> (r: Self)
        ensures
            r.config.realtime == realtime_config,
            r.config.system == self.config.system,
            r.config.vision == self.config.vision,
            r.config.hardware == self.config.hardware,
            r.config.ai == self.config.ai,
            r.config.logging == self.config.logging,
            r.config.network == self.config.network,
            r.config.security == self.config.security,
            r.config.performance == self.config.performance,
    {
        let mut config = self.config;
        config.realtime = realtime_config;
        ConfigBuilder { config }
    }

    /// Replaces the hardware section.
    pub fn hardware(self, hardware_config: HardwareConfig) -> (r: Self)
        ensures
            r.config.hardware == hardware_config,
            r.config.system == self.config.system,
            r.config.vision == self.config.vision,
            r.config.realtime == self.config.realtime,
            r.config.ai == self.config.ai,
            r.config.logging == self.config.logging,
            r.config.network == self.config.network,
            r.config.security == self.config.security,
            r.config.performance == self.config.performance,
    {
        let mut config = self.config;
        config.hardware = hardware_config;
        ConfigBuilder { config }
    }

    /// Replaces the inference section.
    pub fn ai(self, ai_config: crate::ai::AIConfig) -> (r: Self)
        ensures
            r.config.ai == ai_config,
            r.config.system == self.config.system,
            r.config.vision == self.config.vision,
            r.config.realtime == self.config.realtime,
            r.config.hardware == self.config.hardware,
            r.config.logging == self.config.logging,
            r.config.network == self.config.network,
            r.config.security == self.config.security,
            r.config.performance == self.config.performance,
    {
        let mut config = self.config;
        config.ai = ai_config;
        ConfigBuilder { config }
    }

    /// Replaces the logging section.
    pub fn logging(self, logging_config: LoggingConfig) -> (r: Self)
        ensures
            r.config.logging == logging_config,
            r.config.system == self.config.system,
            r.config.vision == self.config.vision,
            r.config.realtime == self.config.realtime,
            r.config.hardware == self.config.hardware,
            r.config.ai == self.config.ai,
            r.config.network == self.config.network,
            r.config.security == self.config.security,
            r.config.performance == self.config.performance,
    {
        let mut config = self.config;
        config.logging = logging_config;
        ConfigBuilder { config }
    }

    /// Replaces the network section.
    pub fn network(self, network_config: NetworkConfig) -> (r: Self)
        ensures
            r.config.network == network_config,
            r.config.system == self.config.system,
            r.config.vision == self.config.vision,
            r.config.realtime == self.config.realtime,
            r.config.hardware == self.config.hardware,
            r.config.ai == self.config.ai,
            r.config.logging == self.config.logging,
            r.config.security == self.config.security,
            r.config.performance == self.config.performance,
    {
        let mut config = self.config;
        config.network = network_config;
        ConfigBuilder { config }
    }

    /// Replaces the security section.
    pub fn security(self, security_config: SecurityConfig) -> (r: Self)
        ensures
            r.config.security == security_config,
            r.config.system == self.config.system,
            r.config.vision == self.config.vision,
            r.config.realtime == self.config.realtime,
            r.config.hardware == self.config.hardware,
            r.config.ai == self.config.ai,
            r.config.logging == self.config.logging,
            r.config.network == self.config.network,
            r.config.performance == self.config.performance,
    {
        let mut config = self.config;
        config.security = security_config;
        ConfigBuilder { config }
    }

    /// Replaces the performance section.
    pub fn performance(self, performance_config: PerformanceConfig) -> (r: Self)
        ensures
            r.config.performance == performance_config,
            r.config.system == self.config.system,
            r.config.vision == self.config.vision,
            r.config.realtime == self.config.realtime,
            r.config.hardware == self.config.hardware,
            r.config.ai == self.config.ai,
            r.config.logging == self.config.logging,
            r.config.network == self.config.network,
            r.config.security == self.config.security,
    {
        let mut config = self.config;
        config.performance = performance_config;
        ConfigBuilder { config }
    }

    /// Validates and hands out the assembled configuration; rejection
    /// reports the first broken rule.
    pub fn build(self) -> (r: Result<Config, ConfigError>)
        ensures
            (r is Ok) <==> self.config.valid(),
            (r is Ok) ==> r->Ok_0 == self.config,
            (r is Err) ==> r->Err_0 == self.config.validate_spec()->Err_0,
    {
        if let Err(e) = self.config.validate() {
            return Err(e);
        }
        Ok(self.config)
    }
}

} // verus!
