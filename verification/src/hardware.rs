//! Configuration, command and status types of the hardware transport.
//!
//! Serial, I2C and GPIO communication run outside this crate; here live
//! the validated transport settings, the command vocabulary and the
//! status records the transport reports.  Voltages are fixed-point
//! integers in thousandths of a volt.

use vstd::prelude::*;
use vstd::string::*;
use crate::common::{ConfigValidation, PerformanceStats, Vector3, Quaternion};
use crate::config::ConfigError;

verus! {

/// Transport settings for the servo bus and sensor buses.
#[derive(Debug)]
pub struct HardwareConfig {
    pub serial_port: String,
    pub baud_rate: u32,
    pub i2c_bus: u8,
    pub gpio_pins: Vec<(String, u8)>,
    pub servo_config: ServoConfig,
    pub sensor_config: SensorConfig,
    pub communication_timeout_ms: u64,
    pub retry_attempts: u32,
    pub heartbeat_interval_ms: u64,
}

impl HardwareConfig {
    pub open spec fn valid(&self) -> bool {
        &&& self.serial_port@.len() > 0
        &&& self.baud_rate > 0
        &&& self.communication_timeout_ms > 0
        &&& self.servo_config.valid()
        &&& self.sensor_config.valid()
    }

    pub open spec fn validate_spec(&self) -> Result<(), ConfigError> {
        if self.serial_port@.len() == 0 {
            Err(ConfigError::HardwareSerialPortEmpty)
        } else if self.baud_rate == 0 {
            Err(ConfigError::HardwareBaudRateZero)
        } else if self.communication_timeout_ms == 0 {
            Err(ConfigError::HardwareTimeoutZero)
        } else if self.servo_config.validate_spec() is Err {
            self.servo_config.validate_spec()
        } else if self.sensor_config.validate_spec() is Err {
            self.sensor_config.validate_spec()
        } else {
            Ok(())
        }
    }

    pub fn validate(&self) -> (r: Result<(), ConfigError>)
        ensures
            r == self.validate_spec(),
            (r is Ok) <==> self.valid(),
    {
        if self.serial_port.as_str().is_empty() {
            return Err(ConfigError::HardwareSerialPortEmpty);
        }
        if self.baud_rate == 0 {
            return Err(ConfigError::HardwareBaudRateZero);
        }
        if self.communication_timeout_ms == 0 {
            return Err(ConfigError::HardwareTimeoutZero);
        }
        if let Err(e) = self.servo_config.validate() {
            return Err(e);
        }
        if let Err(e) = self.sensor_config.validate() {
            return Err(e);
        }
        Ok(())
    }
}

impl ConfigValidation for HardwareConfig {
    fn validate(&self) -> Result<(), ConfigError> {
        HardwareConfig::validate(self)
    }
}

impl Default for HardwareConfig {
    /// A USB serial transport with the standard pin assignment.
    fn default() -> (r: Self)
        ensures
            r.valid(),
            r.baud_rate == 115200,
            r.i2c_bus == 1,
            r.communication_timeout_ms == 1000,
            r.retry_attempts == 3,
            r.heartbeat_interval_ms == 1000,
    {
        proof {
            reveal_strlit("/dev/ttyUSB0");
        }
        let mut gpio_pins: Vec<(String, u8)> = Vec::new();
        gpio_pins.push(("led_power".to_owned(), 18));
        gpio_pins.push(("emergency_stop".to_owned(), 19));
        gpio_pins.push(("status_led".to_owned(), 20));
        HardwareConfig {
            serial_port: "/dev/ttyUSB0".to_owned(),
            baud_rate: 115200,
            i2c_bus: 1,
            gpio_pins,
            servo_config: ServoConfig::default(),
            sensor_config: SensorConfig::default(),
            communication_timeout_ms: 1000,
            retry_attempts: 3,
            heartbeat_interval_ms: 1000,
        }
    }
}

/// Bus-level servo parameters: identifiers, per-servo bounds, and shared
/// thermal and electrical limits.
#[derive(Debug)]
pub struct ServoConfig {
    pub servo_ids: Vec<u8>,
    pub position_limits: Vec<(u8, (i16, i16))>,
    pub speed_limits: Vec<(u8, u16)>,
    pub torque_limits: Vec<(u8, u16)>,
    pub temperature_limit: u8,
    pub voltage_limits: (i64, i64),
}

impl ServoConfig {
    pub open spec fn valid(&self) -> bool {
        &&& self.servo_ids@.len() > 0
        &&& self.temperature_limit > 0
        &&& self.voltage_limits.0 < self.voltage_limits.1
    }

    pub open spec fn validate_spec(&self) -> Result<(), ConfigError> {
        if self.servo_ids@.len() == 0 {
            Err(ConfigError::ServoIdsEmpty)
        } else if self.temperature_limit == 0 {
            Err(ConfigError::ServoTemperatureLimitZero)
        } else if self.voltage_limits.0 >= self.voltage_limits.1 {
            Err(ConfigError::ServoVoltageRangeInvalid)
        } else {
            Ok(())
        }
    }

    pub fn validate(&self) -> (r: Result<(), ConfigError>)
        ensures
            r == self.validate_spec(),
            (r is Ok) <==> self.valid(),
    {
        if self.servo_ids.len() == 0 {
            return Err(ConfigError::ServoIdsEmpty);
        }
        if self.temperature_limit == 0 {
            return Err(ConfigError::ServoTemperatureLimitZero);
        }
        if self.voltage_limits.0 >= self.voltage_limits.1 {
            return Err(ConfigError::ServoVoltageRangeInvalid);
        }
        Ok(())
    }
}

impl ConfigValidation for ServoConfig {
    fn validate(&self) -> Result<(), ConfigError> {
        ServoConfig::validate(self)
    }
}

impl Default for ServoConfig {
    /// Eight servos with symmetric position limits.
    fn default() -> (r: Self)
        ensures
            r.valid(),
            r.servo_ids@.len() == 8,
            r.temperature_limit == 70,
            r.voltage_limits == (6000i64, 12_000i64),
    {
        let mut servo_ids: Vec<u8> = Vec::new();
        let mut position_limits: Vec<(u8, (i16, i16))> = Vec::new();
        let mut speed_limits: Vec<(u8, u16)> = Vec::new();
        let mut torque_limits: Vec<(u8, u16)> = Vec::new();
        let mut id: u8 = 1;
        while id <= 8
            invariant
                1 <= id <= 9,
                servo_ids@.len() == id - 1,
            decreases 9 - id,
        {
            servo_ids.push(id);
            position_limits.push((id, (-1800, 1800)));
            speed_limits.push((id, 1000));
            torque_limits.push((id, 1000));
            id = id + 1;
        }
        ServoConfig {
            servo_ids,
            position_limits,
            speed_limits,
            torque_limits,
            temperature_limit: 70,
            voltage_limits: (6000, 12_000),
        }
    }
}

/// Addresses and rates of the I2C sensors; the update rate is in
/// thousandths of a hertz.
#[derive(Debug, Clone)]
pub struct SensorConfig {
    pub imu_address: u8,
    pub force_sensor_addresses: Vec<u8>,
    pub temperature_sensor_addresses: Vec<u8>,
    pub update_rate: i64,
    pub calibration_samples: u32,
}

impl SensorConfig {
    pub open spec fn valid(&self) -> bool {
        &&& self.update_rate > 0
        &&& self.calibration_samples > 0
    }

    pub open spec fn validate_spec(&self) -> Result<(), ConfigError> {
        if self.update_rate <= 0 {
            Err(ConfigError::SensorUpdateRateNotPositive)
        } else if self.calibration_samples == 0 {
            Err(ConfigError::SensorCalibrationSamplesZero)
        } else {
            Ok(())
        }
    }

    pub fn validate(&self) -> (r: Result<(), ConfigError>)
        ensures
            r == self.validate_spec(),
            (r is Ok) <==> self.valid(),
    {
        if self.update_rate <= 0 {
            return Err(ConfigError::SensorUpdateRateNotPositive);
        }
        if self.calibration_samples == 0 {
            return Err(ConfigError::SensorCalibrationSamplesZero);
        }
        Ok(())
    }
}

impl ConfigValidation for SensorConfig {
    fn validate(&self) -> Result<(), ConfigError> {
        SensorConfig::validate(self)
    }
}

impl Default for SensorConfig {
    /// The usual IMU and force-sensor bus addresses at 100 Hz.
    fn default() -> (r: Self)
        ensures
            r.valid(),
            r.imu_address == 0x68,
            r.update_rate == 100_000,
            r.calibration_samples == 100,
    {
        let mut force_sensor_addresses: Vec<u8> = Vec::new();
        force_sensor_addresses.push(0x48);
        force_sensor_addresses.push(0x49);
        let mut temperature_sensor_addresses: Vec<u8> = Vec::new();
        temperature_sensor_addresses.push(0x4A);
        SensorConfig {
            imu_address: 0x68,
            force_sensor_addresses,
            temperature_sensor_addresses,
            update_rate: 100_000,
            calibration_samples: 100,
        }
    }
}

/// Progress of the sensor calibration routine.
#[derive(Debug, Clone, Copy, PartialEq, Eq, Structural)]
pub enum CalibrationStatus {
    NotCalibrated,
    Calibrating,
    Calibrated,
    CalibrationFailed,
}

/// One servo's last reported state; voltage in thousandths of a volt.
#[derive(Debug, Clone, Copy, PartialEq, Eq, Structural)]
pub struct ServoStatus {
    pub id: u8,
    pub position: i16,
    pub speed: i16,
    pub load: i16,
    pub voltage: i64,
    pub temperature: u8,
    pub is_moving: bool,
    pub error_flags: u8,
    pub last_update: u64,
}

impl Default for ServoStatus {
    /// An unaddressed, idle servo.
    fn default() -> (r: Self)
        ensures
            r == (ServoStatus {
                id: 0u8,
                position: 0i16,
                speed: 0i16,
                load: 0i16,
                voltage: 0i64,
                temperature: 0u8,
                is_moving: false,
                error_flags: 0u8,
                last_update: 0u64,
            }),
    {
        ServoStatus {
            id: 0,
            position: 0,
            speed: 0,
            load: 0,
            voltage: 0,
            temperature: 0,
            is_moving: false,
            error_flags: 0,
            last_update: 0,
        }
    }
}

/// Connection state of the sensor buses.
#[derive(Debug, Clone)]
pub struct SensorStatus {
    pub imu_connected: bool,
    pub force_sensors_connected: Vec<bool>,
    pub temperature_sensors_connected: Vec<bool>,
    pub last_imu_update: u64,
    pub last_force_update: u64,
    pub last_temperature_update: u64,
    pub calibration_status: CalibrationStatus,
}

impl Default for SensorStatus {
    /// Nothing connected, nothing calibrated.
    fn default() -> (r: Self)
        ensures
            !r.imu_connected,
            r.force_sensors_connected@.len() == 0,
            r.temperature_sensors_connected@.len() == 0,
            r.last_imu_update == 0,
            r.last_force_update == 0,
            r.last_temperature_update == 0,
            r.calibration_status == CalibrationStatus::NotCalibrated,
    {
        SensorStatus {
            imu_connected: false,
            force_sensors_connected: Vec::new(),
            temperature_sensors_connected: Vec::new(),
            last_imu_update: 0,
            last_force_update: 0,
            last_temperature_update: 0,
            calibration_status: CalibrationStatus::NotCalibrated,
        }
    }
}

/// Connection state and servo table of the whole transport.
#[derive(Debug, Clone)]
pub struct HardwareStatus {
    pub is_connected: bool,
    pub serial_connected: bool,
    pub i2c_connected: bool,
    pub servo_status: Vec<ServoStatus>,
    pub sensor_status: SensorStatus,
    pub last_heartbeat: u64,
    pub communication_errors: u64,
    pub performance_stats: PerformanceStats,
}

impl Default for HardwareStatus {
    /// A disconnected transport with an empty servo table.
    fn default() -> (r: Self)
        ensures
            !r.is_connected,
            !r.serial_connected,
            !r.i2c_connected,
            r.servo_status@.len() == 0,
            r.last_heartbeat == 0,
            r.communication_errors == 0,
    {
        HardwareStatus {
            is_connected: false,
            serial_connected: false,
            i2c_connected: false,
            servo_status: Vec::new(),
            sensor_status: SensorStatus::default(),
            last_heartbeat: 0,
            communication_errors: 0,
            performance_stats: PerformanceStats::new(),
        }
    }
}

/// A command to the hardware transport.
#[derive(Debug, Clone, PartialEq, Eq)]
pub enum HardwareCommand {
    ServoMove { id: u8, position: i16, speed: Option<u16> },
    ServoStop { id: u8 },
    ServoSetTorque { id: u8, enabled: bool },
    ReadServoStatus { id: u8 },
    ReadAllServos,
    ReadIMU,
    ReadForceSensors,
    ReadTemperature,
    SetLED { pin: u8, state: bool },
    EmergencyStop,
    Reset,
    Calibrate,
}

/// A reply from the hardware transport; the IMU temperature is in
/// thousandths of a degree Celsius.
#[derive(Debug, Clone)]
pub enum HardwareResponse {
    ServoStatus(ServoStatus),
    AllServoStatus(Vec<ServoStatus>),
    IMUData {
        acceleration: Vector3,
        angular_velocity: Vector3,
        orientation: Quaternion,
        temperature: i64,
    },
    ForceData(Vec<Vector3>),
    TemperatureData(Vec<i64>),
    CommandAck,
    Error(String),
}

/// Faults of the hardware transport.
#[derive(Debug, Clone, PartialEq, Eq)]
pub enum HardwareError {
    Serial(String),
    I2C(String),
    GPIO(String),
    Servo(String),
    Sensor(String),
    Timeout,
    Protocol(String),
    NotConnected,
}

} // verus!
