//! The real-time joint-motion core.
//!
//! Motion requests enter a FIFO command queue; a fixed-rate control tick
//! drains them into per-joint trapezoidal trajectories, evaluates a PID
//! controller per active trajectory against the latest sensor snapshot, and
//! emits per-joint control efforts.  An emergency-stop gate short-circuits
//! every tick while it is set.
//!
//! Positions, velocities and gains are fixed-point integers in thousandths
//! of their physical unit; times are millisecond counts supplied by the
//! caller of each tick.

use vstd::prelude::*;
use vstd::arithmetic::div_mod::*;
use vstd::pervasive::VecAdditionalExecFns;
use std::collections::VecDeque;
use crate::common::{
    clamp_spec, tdiv, div_trunc, isqrt, isqrt_spec, lemma_isqrt_bounds, lemma_tdiv_bounds,
    lemma_mul_bounds, JointState, PerformanceStats, Vector3, Quaternion, ConfigValidation,
    duplicate_joint_states, current_timestamp,
};
use crate::config::{ConfigError, first_failing, lemma_first_failing};
use crate::constants::MAG_LIMIT;

verus! {

/// Loop gains of one joint's PID controller, in thousandths.
/// `max_integral` bounds the integral accumulator, `max_output` the control
/// effort.
#[derive(Debug, Clone, Copy, PartialEq, Eq, Structural)]
pub struct PIDGains {
    pub kp: i64,
    pub ki: i64,
    pub kd: i64,
    pub max_integral: i64,
    pub max_output: i64,
}

impl PIDGains {
    /// Gains are non-negative, bounds positive, and everything within the
    /// representable magnitude range.
    pub open spec fn valid(&self) -> bool {
        &&& 0 <= self.kp <= MAG_LIMIT
        &&& 0 <= self.ki <= MAG_LIMIT
        &&& 0 <= self.kd <= MAG_LIMIT
        &&& 0 < self.max_integral <= MAG_LIMIT
        &&& 0 < self.max_output <= MAG_LIMIT
    }

    pub open spec fn validate_spec(&self) -> Result<(), ConfigError> {
        if self.kp < 0 {
            Err(ConfigError::PidKpNegative)
        } else if self.ki < 0 {
            Err(ConfigError::PidKiNegative)
        } else if self.kd < 0 {
            Err(ConfigError::PidKdNegative)
        } else if self.max_integral <= 0 {
            Err(ConfigError::PidMaxIntegralNotPositive)
        } else if self.max_output <= 0 {
            Err(ConfigError::PidMaxOutputNotPositive)
        } else if self.kp > MAG_LIMIT || self.ki > MAG_LIMIT || self.kd > MAG_LIMIT
            || self.max_integral > MAG_LIMIT || self.max_output > MAG_LIMIT {
            Err(ConfigError::PidGainOutOfRange)
        } else {
            Ok(())
        }
    }

    pub fn validate(&self) -> (r: Result<(), ConfigError>)
        ensures
            r == self.validate_spec(),
            (r is Ok) <==> self.valid(),
    {
        if self.kp < 0 {
            return Err(ConfigError::PidKpNegative);
        }
        if self.ki < 0 {
            return Err(ConfigError::PidKiNegative);
        }
        if self.kd < 0 {
            return Err(ConfigError::PidKdNegative);
        }
        if self.max_integral <= 0 {
            return Err(ConfigError::PidMaxIntegralNotPositive);
        }
        if self.max_output <= 0 {
            return Err(ConfigError::PidMaxOutputNotPositive);
        }
        if self.kp > MAG_LIMIT || self.ki > MAG_LIMIT || self.kd > MAG_LIMIT || self.max_integral
            > MAG_LIMIT || self.max_output > MAG_LIMIT {
            return Err(ConfigError::PidGainOutOfRange);
        }
        Ok(())
    }
}

impl ConfigValidation for PIDGains {
    fn validate(&self) -> Result<(), ConfigError> {
        PIDGains::validate(self)
    }
}

impl Default for PIDGains {
    /// Mild proportional-dominant gains.
    fn default() -> (r: Self)
        ensures
            r == (PIDGains {
                kp: 1000i64,
                ki: 100i64,
                kd: 50i64,
                max_integral: 10_000i64,
                max_output: 100_000i64,
            }),
            r.valid(),
    {
        PIDGains { kp: 1000, ki: 100, kd: 50, max_integral: 10_000, max_output: 100_000 }
    }
}

/// Kinematic bounds of one joint: positions in thousandths of a degree,
/// velocity and acceleration per second, torque in thousandths of a unit.
#[derive(Debug, Clone, Copy, PartialEq, Eq, Structural)]
pub struct JointLimits {
    pub min_position: i64,
    pub max_position: i64,
    pub max_velocity: i64,
    pub max_acceleration: i64,
    pub max_torque: i64,
}

impl JointLimits {
    /// An ordered position interval, positive bounds, everything within the
    /// representable magnitude range.
    pub open spec fn valid(&self) -> bool {
        &&& -MAG_LIMIT <= self.min_position
        &&& self.min_position < self.max_position
        &&& self.max_position <= MAG_LIMIT
        &&& 0 < self.max_velocity <= MAG_LIMIT
        &&& 0 < self.max_acceleration <= MAG_LIMIT
        &&& 0 < self.max_torque <= MAG_LIMIT
    }

    pub open spec fn validate_spec(&self) -> Result<(), ConfigError> {
        if self.min_position >= self.max_position {
            Err(ConfigError::LimitsMinNotBelowMax)
        } else if self.max_velocity <= 0 {
            Err(ConfigError::LimitsMaxVelocityNotPositive)
        } else if self.max_acceleration <= 0 {
            Err(ConfigError::LimitsMaxAccelerationNotPositive)
        } else if self.max_torque <= 0 {
            Err(ConfigError::LimitsMaxTorqueNotPositive)
        } else if self.min_position < -MAG_LIMIT || self.max_position > MAG_LIMIT
            || self.max_velocity > MAG_LIMIT || self.max_acceleration > MAG_LIMIT
            || self.max_torque > MAG_LIMIT {
            Err(ConfigError::LimitsOutOfRange)
        } else {
            Ok(())
        }
    }

    pub fn validate(&self) -> (r: Result<(), ConfigError>)
        ensures
            r == self.validate_spec(),
            (r is Ok) <==> self.valid(),
    {
        if self.min_position >= self.max_position {
            return Err(ConfigError::LimitsMinNotBelowMax);
        }
        if self.max_velocity <= 0 {
            return Err(ConfigError::LimitsMaxVelocityNotPositive);
        }
        if self.max_acceleration <= 0 {
            return Err(ConfigError::LimitsMaxAccelerationNotPositive);
        }
        if self.max_torque <= 0 {
            return Err(ConfigError::LimitsMaxTorqueNotPositive);
        }
        if self.min_position < -MAG_LIMIT || self.max_position > MAG_LIMIT || self.max_velocity
            > MAG_LIMIT || self.max_acceleration > MAG_LIMIT || self.max_torque > MAG_LIMIT {
            return Err(ConfigError::LimitsOutOfRange);
        }
        Ok(())
    }
}

impl ConfigValidation for JointLimits {
    fn validate(&self) -> Result<(), ConfigError> {
        JointLimits::validate(self)
    }
}

impl Default for JointLimits {
    /// A half-turn position range with modest rates.
    fn default() -> (r: Self)
        ensures
            r == (JointLimits {
                min_position: -3141i64,
                max_position: 3141i64,
                max_velocity: 2000i64,
                max_acceleration: 5000i64,
                max_torque: 10_000i64,
            }),
            r.valid(),
    {
        JointLimits {
            min_position: -3141,
            max_position: 3141,
            max_velocity: 2000,
            max_acceleration: 5000,
            max_torque: 10_000,
        }
    }
}

/// What a motion command asks for.
#[derive(Debug, Clone, Copy, PartialEq, Eq, Structural)]
pub enum CommandType {
    Position,
    Velocity,
    Torque,
    Stop,
    EmergencyStop,
}

/// One queued motion request.  `timestamp` is the enqueue time in
/// milliseconds; targets are in thousandths of the respective unit.
#[derive(Debug, Clone)]
pub struct MotionCommand {
    pub joint_name: String,
    pub command_type: CommandType,
    pub target_position: Option<i64>,
    pub target_velocity: Option<i64>,
    pub target_torque: Option<i64>,
    pub duration: Option<u64>,
    pub timestamp: u64,
}

/// One inertial sample; accelerations and rates in thousandths,
/// temperature in thousandths of a degree Celsius.
#[derive(Debug, Clone, Copy, PartialEq, Eq, Structural)]
pub struct IMUData {
    pub acceleration: Vector3,
    pub angular_velocity: Vector3,
    pub orientation: Quaternion,
    pub temperature: i64,
}

/// One force/torque sample in thousandths of a unit.
#[derive(Debug, Clone, Copy, PartialEq, Eq, Structural)]
pub struct ForceTorqueData {
    pub force: Vector3,
    pub torque: Vector3,
}

/// The shared most-recent sensor snapshot.
#[derive(Debug, Clone)]
pub struct SensorData {
    pub joint_states: Vec<JointState>,
    pub imu_data: Option<IMUData>,
    pub force_torque: Option<ForceTorqueData>,
    pub timestamp: u64,
}

/// Read-only rollup of the controller's observable state.  Frequencies are
/// in thousandths of a hertz.
#[derive(Debug, Clone)]
pub struct RealtimeStatus {
    pub is_running: bool,
    pub emergency_stop: bool,
    pub control_loop_frequency: u64,
    pub sensor_update_frequency: u64,
    pub active_commands: usize,
    pub last_command_timestamp: u64,
    pub performance_stats: PerformanceStats,
    pub joint_states: Vec<JointState>,
}

impl Default for RealtimeStatus {
    /// The status of a freshly constructed, stopped controller.
    fn default() -> (r: Self)
        ensures
            !r.is_running,
            !r.emergency_stop,
            r.control_loop_frequency == 0,
            r.sensor_update_frequency == 0,
            r.active_commands == 0,
            r.last_command_timestamp == 0,
            r.joint_states@.len() == 0,
            r.performance_stats.total_frames == 0,
            r.performance_stats.dropped_frames == 0,
            r.performance_stats.fps == 0,
            r.performance_stats.avg_processing_time == 0,
            r.performance_stats.max_processing_time == 0,
            r.performance_stats.min_processing_time == u64::MAX,
            r.performance_stats.cpu_usage == 0,
            r.performance_stats.memory_usage == 0,
    {
        RealtimeStatus {
            is_running: false,
            emergency_stop: false,
            control_loop_frequency: 0,
            sensor_update_frequency: 0,
            active_commands: 0,
            last_command_timestamp: 0,
            performance_stats: PerformanceStats::new(),
            joint_states: Vec::new(),
        }
    }
}

/// Whether every named entry in a gains table passes validation.
pub open spec fn rt_gains_entry_ok(e: (String, PIDGains)) -> bool {
    e.1.valid()
}

/// Whether every named entry in a limits table passes validation.
pub open spec fn rt_limits_entry_ok(e: (String, JointLimits)) -> bool {
    e.1.valid()
}

/// The gains predicate as a first-class spec function.
pub open spec fn rt_gains_ok_fn() -> spec_fn((String, PIDGains)) -> bool {
    |e: (String, PIDGains)| rt_gains_entry_ok(e)
}

/// The limits predicate as a first-class spec function.
pub open spec fn rt_limits_ok_fn() -> spec_fn((String, JointLimits)) -> bool {
    |e: (String, JointLimits)| rt_limits_entry_ok(e)
}

/// Configuration of the real-time core.  Frequencies in thousandths of a
/// hertz; kinematic bounds in thousandths.
#[derive(Debug, Clone)]
pub struct RealtimeConfig {
    pub control_frequency: i64,
    pub max_joint_velocity: i64,
    pub max_joint_acceleration: i64,
    pub position_tolerance: i64,
    pub velocity_tolerance: i64,
    pub enable_safety_limits: bool,
    pub emergency_stop_enabled: bool,
    pub pid_gains: Vec<(String, PIDGains)>,
    pub joint_limits: Vec<(String, JointLimits)>,
    pub sensor_update_rate: i64,
    pub command_timeout_ms: u64,
}

impl RealtimeConfig {
    /// Positive rates and every per-joint table entry valid.
    pub open spec fn valid(&self) -> bool {
        &&& self.control_frequency > 0
        &&& self.max_joint_velocity > 0
        &&& self.max_joint_acceleration > 0
        &&& self.sensor_update_rate > 0
        &&& forall|i: int| 0 <= i < self.pid_gains@.len() ==> rt_gains_entry_ok(
            #[trigger] self.pid_gains@[i],
        )
        &&& forall|i: int| 0 <= i < self.joint_limits@.len() ==> rt_limits_entry_ok(
            #[trigger] self.joint_limits@[i],
        )
    }

    pub open spec fn validate_spec(&self) -> Result<(), ConfigError> {
        if self.control_frequency <= 0 {
            Err(ConfigError::ControlFrequencyNotPositive)
        } else if self.max_joint_velocity <= 0 {
            Err(ConfigError::MaxJointVelocityNotPositive)
        } else if self.max_joint_acceleration <= 0 {
            Err(ConfigError::MaxJointAccelerationNotPositive)
        } else if self.sensor_update_rate <= 0 {
            Err(ConfigError::SensorUpdateRateNotPositive)
        } else if first_failing(self.pid_gains@, rt_gains_ok_fn()) >= 0 {
            Err(
                ConfigError::JointGainsInvalid(
                    self.pid_gains@[first_failing(self.pid_gains@, rt_gains_ok_fn())].0,
                ),
            )
        } else if first_failing(self.joint_limits@, rt_limits_ok_fn()) >= 0 {
            Err(
                ConfigError::JointLimitsInvalid(
                    self.joint_limits@[first_failing(self.joint_limits@, rt_limits_ok_fn())].0,
                ),
            )
        } else {
            Ok(())
        }
    }

    pub fn validate(&self) -> (r: Result<(), ConfigError>)
        ensures
            r == self.validate_spec(),
            (r is Ok) <==> self.valid(),
    {
        proof {
            lemma_first_failing(self.pid_gains@, rt_gains_ok_fn());
            lemma_first_failing(self.joint_limits@, rt_limits_ok_fn());
        }
        if self.control_frequency <= 0 {
            return Err(ConfigError::ControlFrequencyNotPositive);
        }
        if self.max_joint_velocity <= 0 {
            return Err(ConfigError::MaxJointVelocityNotPositive);
        }
        if self.max_joint_acceleration <= 0 {
            return Err(ConfigError::MaxJointAccelerationNotPositive);
        }
        if self.sensor_update_rate <= 0 {
            return Err(ConfigError::SensorUpdateRateNotPositive);
        }
        let mut i: usize = 0;
        while i < self.pid_gains.len()
            invariant
                i <= self.pid_gains@.len(),
                forall|j: int| 0 <= j < i ==> rt_gains_entry_ok(#[trigger] self.pid_gains@[j]),
                self.control_frequency > 0,
                self.max_joint_velocity > 0,
                self.max_joint_acceleration > 0,
                self.sensor_update_rate > 0,
            decreases self.pid_gains@.len() - i,
        {
            if let Err(_cause) = self.pid_gains[i].1.validate() {
                proof {
                    let okf = rt_gains_ok_fn();
                    let sq = self.pid_gains@;
                    lemma_first_failing(sq, okf);
                    let f = first_failing(sq, okf);
                    assert(!okf(sq[i as int]));
                    if f == -1 {
                        assert(okf(sq[i as int]));
                        assert(false);
                    }
                    if 0 <= f < i {
                        assert(rt_gains_entry_ok(sq[f]));
                        assert(!okf(sq[f]));
                        assert(false);
                    }
                    if f > i {
                        assert(okf(sq[i as int]));
                        assert(false);
                    }
                    assert(f == i);
                }
                return Err(ConfigError::JointGainsInvalid(self.pid_gains[i].0.clone()));
            }
            i = i + 1;
        }
        let mut i: usize = 0;
        while i < self.joint_limits.len()
            invariant
                i <= self.joint_limits@.len(),
                forall|j: int| 0 <= j < i ==> rt_limits_entry_ok(#[trigger] self.joint_limits@[j]),
                forall|j: int| 0 <= j < self.pid_gains@.len() ==> rt_gains_entry_ok(
                    #[trigger] self.pid_gains@[j],
                ),
                self.control_frequency > 0,
                self.max_joint_velocity > 0,
                self.max_joint_acceleration > 0,
                self.sensor_update_rate > 0,
            decreases self.joint_limits@.len() - i,
        {
            if let Err(_cause) = self.joint_limits[i].1.validate() {
                proof {
                    lemma_first_failing(self.pid_gains@, rt_gains_ok_fn());
                    assert(forall|j: int| 0 <= j < self.pid_gains@.len() ==> (rt_gains_ok_fn())(
                        #[trigger] self.pid_gains@[j],
                    ));
                    let okf = rt_limits_ok_fn();
                    let sq = self.joint_limits@;
                    lemma_first_failing(sq, okf);
                    let f = first_failing(sq, okf);
                    assert(!okf(sq[i as int]));
                    if f == -1 {
                        assert(okf(sq[i as int]));
                        assert(false);
                    }
                    if 0 <= f < i {
                        assert(rt_limits_entry_ok(sq[f]));
                        assert(!okf(sq[f]));
                        assert(false);
                    }
                    if f > i {
                        assert(okf(sq[i as int]));
                        assert(false);
                    }
                    assert(f == i);
                }
                return Err(ConfigError::JointLimitsInvalid(self.joint_limits[i].0.clone()));
            }
            i = i + 1;
        }
        proof {
            assert(forall|j: int| 0 <= j < self.pid_gains@.len() ==> (rt_gains_ok_fn())(
                #[trigger] self.pid_gains@[j],
            ));
            assert(forall|j: int| 0 <= j < self.joint_limits@.len() ==> (rt_limits_ok_fn())(
                #[trigger] self.joint_limits@[j],
            ));
        }
        Ok(())
    }
}

impl ConfigValidation for RealtimeConfig {
    fn validate(&self) -> Result<(), ConfigError> {
        RealtimeConfig::validate(self)
    }
}

/// Appends the default gains and limits rows for one named joint.
fn rt_push_default_joint(
    gains: &mut Vec<(String, PIDGains)>,
    limits: &mut Vec<(String, JointLimits)>,
    name: &str,
)
    ensures
        final(gains)@.len() == old(gains)@.len() + 1,
        final(limits)@.len() == old(limits)@.len() + 1,
        forall|j: int| 0 <= j < old(gains)@.len() ==> final(gains)@[j] == old(gains)@[j],
        forall|j: int| 0 <= j < old(limits)@.len() ==> final(limits)@[j] == old(limits)@[j],
        final(gains)@.last().0@ == name@,
        final(gains)@.last().1 == (PIDGains {
            kp: 1000i64,
            ki: 100i64,
            kd: 50i64,
            max_integral: 10_000i64,
            max_output: 100_000i64,
        }),
        final(limits)@.last().0@ == name@,
        final(limits)@.last().1 == (JointLimits {
            min_position: -3141i64,
            max_position: 3141i64,
            max_velocity: 2000i64,
            max_acceleration: 5000i64,
            max_torque: 10_000i64,
        }),
{
    gains.push((name.to_owned(), PIDGains::default()));
    limits.push((name.to_owned(), JointLimits::default()));
}

impl Default for RealtimeConfig {
    /// 100 Hz control and 200 Hz sensing over the robot's eight joints.
    fn default() -> (r: Self)
        ensures
            r.valid(),
            r.control_frequency == 100_000,
            r.max_joint_velocity == 2000,
            r.max_joint_acceleration == 5000,
            r.position_tolerance == 10,
            r.velocity_tolerance == 100,
            r.enable_safety_limits,
            r.emergency_stop_enabled,
            r.sensor_update_rate == 200_000,
            r.command_timeout_ms == 1000,
            r.pid_gains@.len() == 8,
            r.joint_limits@.len() == 8,
            tables_aligned(r),
            distinct_joint_names(r),
    {
        let mut pid_gains: Vec<(String, PIDGains)> = Vec::new();
        let mut joint_limits: Vec<(String, JointLimits)> = Vec::new();
        rt_push_default_joint(&mut pid_gains, &mut joint_limits, "head_pan");
        rt_push_default_joint(&mut pid_gains, &mut joint_limits, "head_tilt");
        rt_push_default_joint(&mut pid_gains, &mut joint_limits, "left_shoulder_pitch");
        rt_push_default_joint(&mut pid_gains, &mut joint_limits, "left_shoulder_roll");
        rt_push_default_joint(&mut pid_gains, &mut joint_limits, "left_elbow_pitch");
        rt_push_default_joint(&mut pid_gains, &mut joint_limits, "right_shoulder_pitch");
        rt_push_default_joint(&mut pid_gains, &mut joint_limits, "right_shoulder_roll");
        rt_push_default_joint(&mut pid_gains, &mut joint_limits, "right_elbow_pitch");
        proof {
            reveal_strlit("head_pan");
            reveal_strlit("head_tilt");
            reveal_strlit("left_shoulder_pitch");
            reveal_strlit("left_shoulder_roll");
            reveal_strlit("left_elbow_pitch");
            reveal_strlit("right_shoulder_pitch");
            reveal_strlit("right_shoulder_roll");
            reveal_strlit("right_elbow_pitch");
            assert("right_shoulder_roll"@ != "left_shoulder_pitch"@) by {
                assert("right_shoulder_roll"@[0] != "left_shoulder_pitch"@[0]);
            }
            assert(pid_gains@[0].0@ == "head_pan"@);
            assert(pid_gains@[1].0@ == "head_tilt"@);
            assert(pid_gains@[2].0@ == "left_shoulder_pitch"@);
            assert(pid_gains@[3].0@ == "left_shoulder_roll"@);
            assert(pid_gains@[4].0@ == "left_elbow_pitch"@);
            assert(pid_gains@[5].0@ == "right_shoulder_pitch"@);
            assert(pid_gains@[6].0@ == "right_shoulder_roll"@);
            assert(pid_gains@[7].0@ == "right_elbow_pitch"@);
            assert forall|i: int, j: int| 0 <= i < j < pid_gains@.len() implies (
            #[trigger] pid_gains@[i]).0@ != (#[trigger] pid_gains@[j]).0@ by {
                assert(pid_gains@[0].0@.len() == 8);
                assert(pid_gains@[1].0@.len() == 9);
                assert(pid_gains@[2].0@.len() == 19);
                assert(pid_gains@[3].0@.len() == 18);
                assert(pid_gains@[4].0@.len() == 16);
                assert(pid_gains@[5].0@.len() == 20);
                assert(pid_gains@[6].0@.len() == 19);
                assert(pid_gains@[7].0@.len() == 17);
                assert(pid_gains@[2].0@ != pid_gains@[6].0@);
            }
        }
        RealtimeConfig {
            control_frequency: 100_000,
            max_joint_velocity: 2000,
            max_joint_acceleration: 5000,
            position_tolerance: 10,
            velocity_tolerance: 100,
            enable_safety_limits: true,
            emergency_stop_enabled: true,
            pid_gains,
            joint_limits,
            sensor_update_rate: 200_000,
            command_timeout_ms: 1000,
        }
    }
}

/// Tick period in milliseconds for a loop rate given in thousandths of a
/// hertz, never shorter than one millisecond.
pub fn tick_period_ms(rate: i64) -> (r: u64)
    requires
        rate > 0,
    ensures
        r == if 1_000_000int / (rate as int) < 1 {
            1int
        } else {
            1_000_000int / (rate as int)
        },
        r >= 1,
{
    let p: u64 = 1_000_000u64 / (rate as u64);
    if p == 0 {
        1
    } else {
        p
    }
}

/// Next value of the PID integral accumulator: the error-time product is
/// folded in and the result clamped to the configured bound.
pub open spec fn pid_integral_next(old_integral: int, e: int, dt: int, max_integral: int) -> int {
    clamp_spec(old_integral + tdiv(e * dt, 1000), -max_integral, max_integral)
}

/// The control effort of one PID step: proportional, integral and
/// derivative terms summed and clamped to the output bound.
pub open spec fn pid_output_spec(
    gains: PIDGains,
    old_integral: int,
    old_last_error: int,
    e: int,
    dt: int,
) -> int {
    let acc = pid_integral_next(old_integral, e, dt, gains.max_integral as int);
    let p = tdiv(gains.kp * e, 1000);
    let i = tdiv(gains.ki * acc, 1000);
    let d = tdiv(gains.kd * (e - old_last_error), dt);
    clamp_spec(p + i + d, -(gains.max_output as int), gains.max_output as int)
}

/// Closed-loop feedback controller for one joint.
#[derive(Debug, Clone, Copy)]
pub struct PIDController {
    pub gains: PIDGains,
    pub integral: i64,
    pub last_error: i64,
    pub last_time: u64,
}

impl PIDController {
    /// Valid gains, a clamped accumulator and a representable last error.
    pub open spec fn wf(&self) -> bool {
        &&& self.gains.valid()
        &&& -self.gains.max_integral <= self.integral <= self.gains.max_integral
        &&& -2 * MAG_LIMIT <= self.last_error <= 2 * MAG_LIMIT
    }

    /// A controller at rest, stamped with the given time.
    pub fn new(gains: PIDGains, now_ms: u64) -> (r: Self)
        requires
            gains.valid(),
        ensures
            r.gains == gains,
            r.integral == 0,
            r.last_error == 0,
            r.last_time == now_ms,
            r.wf(),
    {
        PIDController { gains, integral: 0, last_error: 0, last_time: now_ms }
    }

    /// One feedback step.  A non-advancing clock yields zero effort and
    /// leaves the state untouched; otherwise the PID law of
    /// [`pid_output_spec`] is applied exactly and the output is clamped to
    /// `max_output` — it never exceeds that bound in magnitude.
    pub fn update(&mut self, setpoint: i64, measurement: i64, now_ms: u64) -> (out: i64)
        requires
            old(self).wf(),
            -MAG_LIMIT <= setpoint <= MAG_LIMIT,
            -MAG_LIMIT <= measurement <= MAG_LIMIT,
        ensures
            final(self).wf(),
            final(self).gains == old(self).gains,
            now_ms <= old(self).last_time ==> out == 0 && *final(self) == *old(self),
            now_ms > old(self).last_time ==> {
                let e = setpoint - measurement;
                let dt = now_ms - old(self).last_time;
                &&& final(self).integral == pid_integral_next(
                    old(self).integral as int,
                    e,
                    dt,
                    old(self).gains.max_integral as int,
                )
                &&& final(self).last_error == e
                &&& final(self).last_time == now_ms
                &&& out == pid_output_spec(
                    old(self).gains,
                    old(self).integral as int,
                    old(self).last_error as int,
                    e,
                    dt,
                )
            },
            -old(self).gains.max_output <= out <= old(self).gains.max_output,
    {
        if now_ms <= self.last_time {
            return 0;
        }
        let dt: u64 = now_ms - self.last_time;
        let e128: i128 = (setpoint as i128) - (measurement as i128);
        proof {
            lemma_mul_abs_bounds(e128 as int, dt as int, 2 * MAG_LIMIT as int, u64::MAX as int);
            lemma_tdiv_bounds(e128 * dt, 1000);
        }
        let inc: i128 = div_trunc(e128 * (dt as i128), 1000);
        let acc: i128 = clamp_i128(
            self.integral as i128 + inc,
            -(self.gains.max_integral as i128),
            self.gains.max_integral as i128,
        );
        proof {
            lemma_mul_abs_bounds(self.gains.kp as int, e128 as int, MAG_LIMIT as int, 2 * MAG_LIMIT as int);
            lemma_tdiv_bounds(self.gains.kp * e128, 1000);
            lemma_mul_abs_bounds(self.gains.ki as int, acc as int, MAG_LIMIT as int, MAG_LIMIT as int);
            lemma_tdiv_bounds(self.gains.ki * acc, 1000);
            lemma_mul_abs_bounds(
                self.gains.kd as int,
                e128 - self.last_error as int,
                MAG_LIMIT as int,
                4 * MAG_LIMIT as int,
            );
            lemma_tdiv_bounds(self.gains.kd * (e128 - self.last_error as int), dt as int);
        }
        let p: i128 = div_trunc((self.gains.kp as i128) * e128, 1000);
        let it: i128 = div_trunc((self.gains.ki as i128) * acc, 1000);
        let d: i128 = div_trunc(
            (self.gains.kd as i128) * (e128 - (self.last_error as i128)),
            dt as i128,
        );
        let out: i128 = clamp_i128(
            p + it + d,
            -(self.gains.max_output as i128),
            self.gains.max_output as i128,
        );
        self.integral = acc as i64;
        self.last_error = e128 as i64;
        self.last_time = now_ms;
        out as i64
    }

    /// Zeroes the accumulator and last error and restamps the clock, so the
    /// next step does not see an artificially long interval.
    pub fn reset(&mut self, now_ms: u64)
        ensures
            final(self).gains == old(self).gains,
            final(self).integral == 0,
            final(self).last_error == 0,
            final(self).last_time == now_ms,
            old(self).gains.valid() ==> final(self).wf(),
    {
        self.integral = 0;
        self.last_error = 0;
        self.last_time = now_ms;
    }
}

/// Restricts a 128-bit value to the closed interval `[min, max]`.
pub fn clamp_i128(value: i128, min: i128, max: i128) -> (r: i128)
    requires
        min <= max,
    ensures
        r == clamp_spec(value as int, min as int, max as int),
        min <= r <= max,
{
    if value < min {
        min
    } else if value > max {
        max
    } else {
        value
    }
}

/// Bounded factors give a bounded product, with separate bounds per factor.
pub proof fn lemma_mul_abs_bounds(a: int, b: int, ma: int, mb: int)
    requires
        -ma <= a <= ma,
        -mb <= b <= mb,
        ma >= 0,
        mb >= 0,
    ensures
        -(ma * mb) <= a * b <= ma * mb,
{
    assert(-(ma * mb) <= a * b <= ma * mb) by (nonlinear_arith)
        requires
            -ma <= a <= ma,
            -mb <= b <= mb,
            ma >= 0,
            mb >= 0,
    ;
}

/// Elapsed time of a trajectory at wall time `t`: zero before the start.
pub open spec fn traj_elapsed(start_time: int, t: int) -> int {
    if t <= start_time {
        0
    } else {
        t - start_time
    }
}

/// Total duration in milliseconds of a trapezoidal move over `d`
/// thousandths of a degree with velocity bound `v` and acceleration bound
/// `a` (both in thousandths per second): the triangular profile when the
/// distance is too short to reach `v`, the trapezoidal one otherwise.
pub open spec fn duration_spec(d: int, v: int, a: int) -> int
    recommends
        0 <= d,
        0 < v,
        0 < a,
{
    let ta_ms = 1000 * v / a;
    let da = v * v / (2 * a);
    if d <= 2 * da {
        2 * (isqrt_spec((1_000_000 * d / a) as nat) as int)
    } else {
        2 * ta_ms + 1000 * (d - 2 * da) / v
    }
}

/// The ease-in/ease-out shaping polynomial, scaled so that progress `q`
/// out of 1000 maps to a share out of 1,000,000,000.
pub open spec fn smooth_scaled(q: int) -> int {
    q * q * (3000 - 2 * q)
}

/// The shaping polynomial is monotone on the progress range.
pub proof fn lemma_smooth_monotonic(q1: int, q2: int)
    requires
        0 <= q1 <= q2 <= 1000,
    ensures
        smooth_scaled(q1) <= smooth_scaled(q2),
{
    assert(q2 * q2 * (3000 - 2 * q2) - q1 * q1 * (3000 - 2 * q1) == (q2 - q1) * (3000 * (q1 + q2)
        - 2 * (q1 * q1 + q1 * q2 + q2 * q2))) by (nonlinear_arith);
    assert(3000 * (q1 + q2) - 2 * (q1 * q1 + q1 * q2 + q2 * q2) >= 0) by (nonlinear_arith)
        requires
            0 <= q1 <= 1000,
            0 <= q2 <= 1000,
    ;
    assert((q2 - q1) * (3000 * (q1 + q2) - 2 * (q1 * q1 + q1 * q2 + q2 * q2)) >= 0) by (
    nonlinear_arith)
        requires
            q2 - q1 >= 0,
            3000 * (q1 + q2) - 2 * (q1 * q1 + q1 * q2 + q2 * q2) >= 0,
    ;
}

/// The shaping polynomial stays within its scale.
pub proof fn lemma_smooth_bounds(q: int)
    requires
        0 <= q <= 1000,
    ensures
        0 <= smooth_scaled(q) <= 1_000_000_000,
{
    assert(q * q * (3000 - 2 * q) >= 0) by (nonlinear_arith)
        requires
            0 <= q <= 1000,
    ;
    lemma_smooth_monotonic(q, 1000);
    assert(1000 * 1000 * (3000 - 2 * 1000) == 1_000_000_000) by (nonlinear_arith);
}

/// Produces a time-parameterized reference path from a start position to a
/// target, with the duration fixed by trapezoidal kinematics at
/// construction.
#[derive(Debug, Clone, Copy, PartialEq, Eq, Structural)]
pub struct TrajectoryGenerator {
    pub start_position: i64,
    pub target_position: i64,
    pub start_velocity: i64,
    pub max_velocity: i64,
    pub max_acceleration: i64,
    pub start_time: u64,
    pub duration: u64,
}

impl TrajectoryGenerator {
    /// Distance from start to target, always non-negative.
    pub open spec fn dist(&self) -> int {
        if self.target_position >= self.start_position {
            self.target_position - self.start_position
        } else {
            self.start_position - self.target_position
        }
    }

    /// Endpoints and rates in range, and the duration the one fixed by
    /// [`duration_spec`].
    pub open spec fn wf(&self) -> bool {
        &&& -MAG_LIMIT <= self.start_position <= MAG_LIMIT
        &&& -MAG_LIMIT <= self.target_position <= MAG_LIMIT
        &&& -MAG_LIMIT <= self.start_velocity <= MAG_LIMIT
        &&& 0 < self.max_velocity <= MAG_LIMIT
        &&& 0 < self.max_acceleration <= MAG_LIMIT
        &&& self.duration == duration_spec(
            self.dist(),
            self.max_velocity as int,
            self.max_acceleration as int,
        )
    }

    /// Reference position after `elapsed` milliseconds: the target exactly
    /// once the duration has passed, otherwise the shaped interpolation
    /// between start and target.
    pub open spec fn position_from_elapsed(&self, elapsed: int) -> int {
        if elapsed >= self.duration {
            self.target_position as int
        } else {
            let q = elapsed * 1000 / (self.duration as int);
            let delta = self.dist() * smooth_scaled(q) / 1_000_000_000;
            if self.target_position >= self.start_position {
                self.start_position + delta
            } else {
                self.start_position - delta
            }
        }
    }

    /// Reference position at wall time `t`.
    pub open spec fn position_at_spec(&self, t: int) -> int {
        self.position_from_elapsed(traj_elapsed(self.start_time as int, t))
    }

    /// Reference velocity (thousandths per second) after `elapsed`
    /// milliseconds: a one-millisecond finite difference of the position,
    /// zero once finished.
    pub open spec fn velocity_from_elapsed(&self, elapsed: int) -> int {
        if elapsed >= self.duration {
            0
        } else {
            (self.position_from_elapsed(elapsed + 1) - self.position_from_elapsed(elapsed)) * 1000
        }
    }

    /// Whether the move is over at wall time `t`.
    pub open spec fn finished_spec(&self, t: int) -> bool {
        traj_elapsed(self.start_time as int, t) >= self.duration
    }

    /// A move from `start_position` to `target_position` starting now.
    pub fn new(
        start_position: i64,
        target_position: i64,
        start_velocity: i64,
        max_velocity: i64,
        max_acceleration: i64,
        now_ms: u64,
    ) -> (r: Self)
        requires
            -MAG_LIMIT <= start_position <= MAG_LIMIT,
            -MAG_LIMIT <= target_position <= MAG_LIMIT,
            -MAG_LIMIT <= start_velocity <= MAG_LIMIT,
            0 < max_velocity <= MAG_LIMIT,
            0 < max_acceleration <= MAG_LIMIT,
        ensures
            r.start_position == start_position,
            r.target_position == target_position,
            r.start_velocity == start_velocity,
            r.max_velocity == max_velocity,
            r.max_acceleration == max_acceleration,
            r.start_time == now_ms,
            r.wf(),
    {
        let distance: i64 = if target_position >= start_position {
            target_position - start_position
        } else {
            start_position - target_position
        };
        let duration = Self::calculate_duration(distance, max_velocity, max_acceleration);
        TrajectoryGenerator {
            start_position,
            target_position,
            start_velocity,
            max_velocity,
            max_acceleration,
            start_time: now_ms,
            duration,
        }
    }

    /// The trapezoidal/triangular travel time over `distance`.
    pub fn calculate_duration(distance: i64, max_velocity: i64, max_acceleration: i64) -> (r: u64)
        requires
            0 <= distance <= 2 * MAG_LIMIT,
            0 < max_velocity <= MAG_LIMIT,
            0 < max_acceleration <= MAG_LIMIT,
        ensures
            r == duration_spec(distance as int, max_velocity as int, max_acceleration as int),
    {
        let v: u128 = max_velocity as u128;
        let a: u128 = max_acceleration as u128;
        let d: u128 = distance as u128;
        proof {
            lemma_mul_bounds(v as int, v as int, MAG_LIMIT as int);
            assert(v * v >= 0) by (nonlinear_arith);
            lemma_div_pos_is_pos((v * v) as int, (2 * a) as int);
            lemma_div_nonincreasing((v * v) as int, (2 * a) as int);
            lemma_div_pos_is_pos((1000 * v) as int, a as int);
            lemma_div_nonincreasing((1000 * v) as int, a as int);
        }
        let ta: u128 = 1000 * v / a;
        let da: u128 = v * v / (2 * a);
        if d <= 2 * da {
            proof {
                lemma_div_pos_is_pos((1_000_000 * d) as int, a as int);
                lemma_div_nonincreasing((1_000_000 * d) as int, a as int);
            }
            let n: u128 = 1_000_000 * d / a;
            let root: u128 = isqrt(n);
            proof {
                lemma_isqrt_bounds(n as nat);
                assert(root <= 2_000_000_000_000u128) by (nonlinear_arith)
                    requires
                        root * root <= n,
                        0 <= n <= 2_000_000_000_000_000_000_000u128,
                ;
            }
            (2 * root) as u64
        } else {
            let rest: u128 = 1000 * (d - 2 * da) / v;
            proof {
                lemma_div_pos_is_pos((1000 * (d - 2 * da)) as int, v as int);
                lemma_div_nonincreasing((1000 * (d - 2 * da)) as int, v as int);
            }
            (2 * ta + rest) as u64
        }
    }

    /// The shaped delta from the start toward the target stays between
    /// zero and the total distance.
    proof fn lemma_delta_bounds(&self, elapsed: int)
        requires
            self.wf(),
            0 <= elapsed < self.duration,
        ensures
            ({
                let q = elapsed * 1000 / (self.duration as int);
                &&& 0 <= q <= 1000
                &&& 0 <= self.dist() * smooth_scaled(q) / 1_000_000_000 <= self.dist()
            }),
    {
        let dur = self.duration as int;
        let q = elapsed * 1000 / dur;
        lemma_div_pos_is_pos(elapsed * 1000, dur);
        assert(elapsed * 1000 <= dur * 1000) by (nonlinear_arith)
            requires
                0 <= elapsed < dur,
        ;
        lemma_div_is_ordered(elapsed * 1000, dur * 1000, dur);
        assert(dur * 1000 == 1000 * dur) by (nonlinear_arith);
        lemma_div_multiples_vanish(1000, dur);
        assert(q <= 1000);
        lemma_smooth_bounds(q);
        let s = smooth_scaled(q);
        assert(self.dist() * s >= 0) by (nonlinear_arith)
            requires
                self.dist() >= 0,
                s >= 0,
        ;
        lemma_div_pos_is_pos(self.dist() * s, 1_000_000_000);
        assert(self.dist() * s <= self.dist() * 1_000_000_000) by (nonlinear_arith)
            requires
                0 <= s <= 1_000_000_000,
                self.dist() >= 0,
        ;
        lemma_div_is_ordered(self.dist() * s, self.dist() * 1_000_000_000, 1_000_000_000);
        assert(self.dist() * 1_000_000_000 == 1_000_000_000 * self.dist()) by (nonlinear_arith);
        lemma_div_multiples_vanish(self.dist(), 1_000_000_000);
    }

    /// The reference position always lies between start and target.
    pub proof fn lemma_position_bounds(&self, t: int)
        requires
            self.wf(),
        ensures
            self.start_position <= self.target_position ==> self.start_position
                <= self.position_at_spec(t) <= self.target_position,
            self.start_position > self.target_position ==> self.target_position
                <= self.position_at_spec(t) <= self.start_position,
    {
        let elapsed = traj_elapsed(self.start_time as int, t);
        if elapsed < self.duration {
            self.lemma_delta_bounds(elapsed);
        }
    }

    /// The reference position moves monotonically from start toward
    /// target as time advances.
    pub proof fn lemma_position_monotonic(&self, t1: int, t2: int)
        requires
            self.wf(),
            t1 <= t2,
        ensures
            self.start_position <= self.target_position ==> self.position_at_spec(t1)
                <= self.position_at_spec(t2),
            self.start_position > self.target_position ==> self.position_at_spec(t1)
                >= self.position_at_spec(t2),
    {
        let st = self.start_time as int;
        let dur = self.duration as int;
        let e1 = traj_elapsed(st, t1);
        let e2 = traj_elapsed(st, t2);
        assert(e1 <= e2);
        self.lemma_position_bounds(t1);
        self.lemma_position_bounds(t2);
        if e2 < dur {
            self.lemma_delta_bounds(e1);
            self.lemma_delta_bounds(e2);
            let q1 = e1 * 1000 / dur;
            let q2 = e2 * 1000 / dur;
            assert(e1 * 1000 <= e2 * 1000) by (nonlinear_arith)
                requires
                    e1 <= e2,
            ;
            lemma_div_is_ordered(e1 * 1000, e2 * 1000, dur);
            assert(q1 <= q2);
            lemma_smooth_monotonic(q1, q2);
            let s1 = smooth_scaled(q1);
            let s2 = smooth_scaled(q2);
            assert(self.dist() * s1 <= self.dist() * s2) by (nonlinear_arith)
                requires
                    s1 <= s2,
                    self.dist() >= 0,
            ;
            lemma_div_is_ordered(self.dist() * s1, self.dist() * s2, 1_000_000_000);
        }
    }

    /// At the start of a move of positive duration the reference is the
    /// start position; from the end of the duration onward it is the
    /// target exactly.
    pub proof fn lemma_endpoints(&self)
        requires
            self.wf(),
        ensures
            self.duration > 0 ==> self.position_at_spec(self.start_time as int)
                == self.start_position,
            self.position_at_spec(self.start_time + self.duration) == self.target_position,
    {
        if self.duration > 0 {
            let dur = self.duration as int;
            assert(0 * 1000 == 0);
            lemma_div_of0(dur);
            assert(smooth_scaled(0) == 0) by (nonlinear_arith);
            assert(self.dist() * 0 == 0) by (nonlinear_arith);
            lemma_div_of0(1_000_000_000);
        }
    }

    /// Executable reference position at `elapsed` milliseconds.
    fn position_from_elapsed_exec(&self, elapsed: u64) -> (r: i64)
        requires
            self.wf(),
        ensures
            r == self.position_from_elapsed(elapsed as int),
    {
        if elapsed >= self.duration {
            return self.target_position;
        }
        proof {
            self.lemma_delta_bounds(elapsed as int);
            lemma_div_pos_is_pos(elapsed as int * 1000, self.duration as int);
        }
        let q: u128 = (elapsed as u128) * 1000 / (self.duration as u128);
        proof {
            assert(q <= 1000);
            assert(q * q <= 1_000_000) by (nonlinear_arith)
                requires
                    0 <= q <= 1000,
            ;
            assert(q * q * (3000 - 2 * q) <= 3_000_000_000_000) by (nonlinear_arith)
                requires
                    0 <= q <= 1000,
            ;
        }
        let s: u128 = q * q * (3000 - 2 * q);
        let dist: i64 = if self.target_position >= self.start_position {
            self.target_position - self.start_position
        } else {
            self.start_position - self.target_position
        };
        proof {
            lemma_mul_abs_bounds(dist as int, s as int, 2 * MAG_LIMIT as int, 3_000_000_000_000);
        }
        let delta: i64 = ((dist as u128) * s / 1_000_000_000) as i64;
        if self.target_position >= self.start_position {
            self.start_position + delta
        } else {
            self.start_position - delta
        }
    }

    /// Reference position at wall time `now_ms`; the terminal clamp
    /// guarantees exact arrival, and the result always lies between start
    /// and target.
    pub fn get_position(&self, now_ms: u64) -> (r: i64)
        requires
            self.wf(),
        ensures
            r == self.position_at_spec(now_ms as int),
            self.start_position <= self.target_position ==> self.start_position <= r
                <= self.target_position,
            self.start_position > self.target_position ==> self.target_position <= r
                <= self.start_position,
    {
        proof {
            self.lemma_position_bounds(now_ms as int);
        }
        let elapsed: u64 = if now_ms <= self.start_time {
            0
        } else {
            now_ms - self.start_time
        };
        self.position_from_elapsed_exec(elapsed)
    }

    /// Reference velocity at wall time `now_ms`, by a one-millisecond
    /// finite difference; zero once the move is over.
    pub fn get_velocity(&self, now_ms: u64) -> (r: i64)
        requires
            self.wf(),
        ensures
            r == self.velocity_from_elapsed(traj_elapsed(self.start_time as int, now_ms as int)),
    {
        let elapsed: u64 = if now_ms <= self.start_time {
            0
        } else {
            now_ms - self.start_time
        };
        if elapsed >= self.duration {
            return 0;
        }
        let p1: i64 = self.position_from_elapsed_exec(elapsed);
        let p2: i64 = self.position_from_elapsed_exec(elapsed + 1);
        proof {
            self.lemma_delta_bounds(elapsed as int);
            if elapsed + 1 < self.duration {
                self.lemma_delta_bounds(elapsed + 1 as int);
            }
        }
        (p2 - p1) * 1000
    }

    /// Whether the move is over at wall time `now_ms`.
    pub fn is_finished(&self, now_ms: u64) -> (r: bool)
        ensures
            r == self.finished_spec(now_ms as int),
    {
        let elapsed: u64 = if now_ms <= self.start_time {
            0
        } else {
            now_ms - self.start_time
        };
        elapsed >= self.duration
    }
}



/// Number of joints with an in-flight trajectory.
pub open spec fn active_count(s: Seq<Option<TrajectoryGenerator>>) -> int
    decreases s.len(),
{
    if s.len() == 0 {
        0
    } else {
        active_count(s.drop_last()) + (if s.last() is Some {
            1int
        } else {
            0int
        })
    }
}

/// A table without any in-flight trajectory counts zero.
pub proof fn lemma_active_count_zero(s: Seq<Option<TrajectoryGenerator>>)
    requires
        forall|i: int| 0 <= i < s.len() ==> (#[trigger] s[i]) is None,
    ensures
        active_count(s) == 0,
    decreases s.len(),
{
    if s.len() > 0 {
        lemma_active_count_zero(s.drop_last());
    }
}

/// The two per-joint tables of a configuration list the same joints in the
/// same order.
pub open spec fn tables_aligned(config: RealtimeConfig) -> bool {
    &&& config.pid_gains@.len() == config.joint_limits@.len()
    &&& forall|i: int| 0 <= i < config.pid_gains@.len() ==> (#[trigger] config.pid_gains@[i]).0@
        == config.joint_limits@[i].0@
}

/// No joint name appears twice in the gains table (with aligned tables,
/// none appears twice in the limits table either).
pub open spec fn distinct_joint_names(config: RealtimeConfig) -> bool {
    forall|i: int, j: int| 0 <= i < j < config.pid_gains@.len() ==> (
    #[trigger] config.pid_gains@[i]).0@ != (#[trigger] config.pid_gains@[j]).0@
}

/// A sensor reading whose continuous fields are representable.
pub open spec fn joint_state_bounded(s: JointState) -> bool {
    &&& -MAG_LIMIT <= s.position <= MAG_LIMIT
    &&& -MAG_LIMIT <= s.velocity <= MAG_LIMIT
    &&& -MAG_LIMIT <= s.effort <= MAG_LIMIT
}

/// How one counted tick advances the rolling one-second loop-rate window
/// of the control scheduler.
pub open spec fn control_stats_after(
    before: RealtimeController,
    after: RealtimeController,
    now: int,
) -> bool {
    let ticks = if before.loop_count < u64::MAX {
        before.loop_count + 1
    } else {
        u64::MAX as int
    };
    let elapsed = if now >= before.last_stats_update {
        now - before.last_stats_update
    } else {
        0int
    };
    if elapsed >= 1000 {
        &&& after.loop_count == 0
        &&& after.last_stats_update == now
        &&& after.status.control_loop_frequency == (if ticks * 1_000_000 / elapsed > u64::MAX {
            u64::MAX as int
        } else {
            ticks * 1_000_000 / elapsed
        })
    } else {
        &&& after.loop_count == ticks
        &&& after.last_stats_update == before.last_stats_update
        &&& after.status.control_loop_frequency == before.status.control_loop_frequency
    }
}

/// The real-time joint-motion core: command queue, per-joint trajectory
/// and PID tables, sensor snapshot and status rollup.  The periodic task
/// plumbing lives outside; each tick is a call of [`Self::control_tick`]
/// or [`Self::sensor_tick`] with the current time.
#[derive(Debug)]
pub struct RealtimeController {
    pub config: RealtimeConfig,
    pub status: RealtimeStatus,
    pub pid_controllers: Vec<PIDController>,
    pub trajectories: Vec<Option<TrajectoryGenerator>>,
    pub command_queue: VecDeque<MotionCommand>,
    pub sensor_data: SensorData,
    pub is_running: bool,
    pub emergency_stop: bool,
    pub loop_count: u64,
    pub last_stats_update: u64,
    pub sensor_loop_count: u64,
    pub sensor_last_stats_update: u64,
}

impl RealtimeController {
    /// Structural invariant: a valid, aligned configuration; controller,
    /// trajectory and sensor tables aligned with it; every in-flight
    /// trajectory well-formed and every sensor reading representable.
    pub open spec fn wf(&self) -> bool {
        &&& self.config.valid()
        &&& tables_aligned(self.config)
        &&& self.pid_controllers@.len() == self.config.pid_gains@.len()
        &&& forall|i: int| 0 <= i < self.pid_controllers@.len() ==> (
        #[trigger] self.pid_controllers@[i]).wf()
        &&& forall|i: int| 0 <= i < self.pid_controllers@.len() ==> (
        #[trigger] self.pid_controllers@[i]).gains == self.config.pid_gains@[i].1
        &&& self.trajectories@.len() == self.config.joint_limits@.len()
        &&& forall|i: int| 0 <= i < self.trajectories@.len() ==> ((#[trigger] self.trajectories@[i])
            is Some ==> self.trajectories@[i]->0.wf())
        &&& self.sensor_data.joint_states@.len() == self.config.joint_limits@.len()
        &&& forall|i: int| 0 <= i < self.sensor_data.joint_states@.len() ==> joint_state_bounded(
            #[trigger] self.sensor_data.joint_states@[i],
        )
        &&& forall|i: int| 0 <= i < self.sensor_data.joint_states@.len() ==> (
        #[trigger] self.sensor_data.joint_states@[i]).name@ == self.config.joint_limits@[i].0@
        &&& self.status.is_running == self.is_running
        &&& self.status.emergency_stop == self.emergency_stop
    }

    /// A stopped controller for a validated configuration.  Construction
    /// fails exactly when validation does: on the first broken field rule,
    /// when the gains and limits tables do not list the same joints in
    /// the same order, or when a joint name appears twice.
    pub fn new(config: RealtimeConfig) -> (r: Result<RealtimeController, ConfigError>)
        ensures
            (r is Ok) <==> (config.valid() && tables_aligned(config) && distinct_joint_names(
                config,
            )),
            !config.valid() ==> r == Err::<RealtimeController, ConfigError>(
                config.validate_spec()->Err_0,
            ),
            (config.valid() && !tables_aligned(config)) ==> r == Err::<
                RealtimeController,
                ConfigError,
            >(ConfigError::JointTablesMismatched),
            (config.valid() && tables_aligned(config) && !distinct_joint_names(config)) ==> r
                == Err::<RealtimeController, ConfigError>(ConfigError::DuplicateJointName),
            (r is Ok) ==> {
                let c = r->Ok_0;
                &&& c.wf()
                &&& c.config == config
                &&& !c.is_running
                &&& !c.emergency_stop
                &&& c.command_queue@.len() == 0
                &&& forall|i: int| 0 <= i < c.trajectories@.len() ==> (
                #[trigger] c.trajectories@[i]) is None
                &&& forall|i: int| 0 <= i < c.pid_controllers@.len() ==> (
                #[trigger] c.pid_controllers@[i]).integral == 0 && c.pid_controllers@[i].last_error
                    == 0
                &&& forall|i: int| 0 <= i < c.sensor_data.joint_states@.len() ==> (
                #[trigger] c.sensor_data.joint_states@[i]).position == 0
                    && c.sensor_data.joint_states@[i].velocity == 0
                    && c.sensor_data.joint_states@[i].effort == 0
                    && (c.sensor_data.joint_states@[i].temperature is None)
                    && !c.sensor_data.joint_states@[i].is_moving
                &&& (c.sensor_data.imu_data is None)
                &&& (c.sensor_data.force_torque is None)
                &&& !c.status.is_running
                &&& !c.status.emergency_stop
                &&& c.status.active_commands == 0
                &&& c.status.control_loop_frequency == 0
                &&& c.status.sensor_update_frequency == 0
                &&& c.status.last_command_timestamp == 0
                &&& c.status.joint_states@.len() == 0
                &&& c.status.performance_stats.total_frames == 0
                &&& c.status.performance_stats.dropped_frames == 0
                &&& c.status.performance_stats.fps == 0
                &&& c.status.performance_stats.avg_processing_time == 0
                &&& c.status.performance_stats.max_processing_time == 0
                &&& c.status.performance_stats.min_processing_time == u64::MAX
                &&& c.loop_count == 0
                &&& c.sensor_loop_count == 0
            },
    {
        if let Err(e) = config.validate() {
            return Err(e);
        }
        if config.pid_gains.len() != config.joint_limits.len() {
            return Err(ConfigError::JointTablesMismatched);
        }
        let mut i: usize = 0;
        while i < config.pid_gains.len()
            invariant
                i <= config.pid_gains@.len(),
                config.valid(),
                config.pid_gains@.len() == config.joint_limits@.len(),
                forall|j: int| 0 <= j < i ==> (#[trigger] config.pid_gains@[j]).0@
                    == config.joint_limits@[j].0@,
            decreases config.pid_gains@.len() - i,
        {
            if !(config.pid_gains[i].0 == config.joint_limits[i].0) {
                return Err(ConfigError::JointTablesMismatched);
            }
            i = i + 1;
        }
        let mut i: usize = 0;
        while i < config.pid_gains.len()
            invariant
                i <= config.pid_gains@.len(),
                config.valid(),
                config.pid_gains@.len() == config.joint_limits@.len(),
                forall|k: int| 0 <= k < config.pid_gains@.len() ==> (
                #[trigger] config.pid_gains@[k]).0@ == config.joint_limits@[k].0@,
                forall|a: int, b: int| 0 <= a < b < config.pid_gains@.len() && a < i ==> (
                #[trigger] config.pid_gains@[a]).0@ != (#[trigger] config.pid_gains@[b]).0@,
            decreases config.pid_gains@.len() - i,
        {
            let mut j: usize = i + 1;
            while j < config.pid_gains.len()
                invariant
                    i < config.pid_gains@.len(),
                    i + 1 <= j <= config.pid_gains@.len(),
                    config.valid(),
                    config.pid_gains@.len() == config.joint_limits@.len(),
                    forall|k: int| 0 <= k < config.pid_gains@.len() ==> (
                    #[trigger] config.pid_gains@[k]).0@ == config.joint_limits@[k].0@,
                    forall|b: int| i < b < j ==> (#[trigger] config.pid_gains@[b]).0@
                        != config.pid_gains@[i as int].0@,
                    forall|a: int, b: int| 0 <= a < b < config.pid_gains@.len() && a < i ==> (
                    #[trigger] config.pid_gains@[a]).0@ != (#[trigger] config.pid_gains@[b]).0@,
                decreases config.pid_gains@.len() - j,
            {
                if config.pid_gains[i].0 == config.pid_gains[j].0 {
                    return Err(ConfigError::DuplicateJointName);
                }
                j = j + 1;
            }
            i = i + 1;
        }
        let now = current_timestamp();
        let mut pid_controllers: Vec<PIDController> = Vec::new();
        let mut i: usize = 0;
        while i < config.pid_gains.len()
            invariant
                i <= config.pid_gains@.len(),
                config.valid(),
                pid_controllers@.len() == i,
                forall|j: int| 0 <= j < i ==> (#[trigger] pid_controllers@[j]).wf(),
                forall|j: int| 0 <= j < i ==> (#[trigger] pid_controllers@[j]).gains
                    == config.pid_gains@[j].1,
                forall|j: int| 0 <= j < i ==> (#[trigger] pid_controllers@[j]).integral == 0
                    && pid_controllers@[j].last_error == 0,
            decreases config.pid_gains@.len() - i,
        {
            let gains = config.pid_gains[i].1;
            proof {
                assert(rt_gains_entry_ok(config.pid_gains@[i as int]));
            }
            pid_controllers.push(PIDController::new(gains, now));
            i = i + 1;
        }
        let mut trajectories: Vec<Option<TrajectoryGenerator>> = Vec::new();
        let mut joint_states: Vec<JointState> = Vec::new();
        let mut i: usize = 0;
        while i < config.joint_limits.len()
            invariant
                i <= config.joint_limits@.len(),
                trajectories@.len() == i,
                joint_states@.len() == i,
                forall|j: int| 0 <= j < i ==> (#[trigger] trajectories@[j]) is None,
                forall|j: int| 0 <= j < i ==> joint_state_bounded(#[trigger] joint_states@[j]),
                forall|j: int| 0 <= j < i ==> (#[trigger] joint_states@[j]).name@
                    == config.joint_limits@[j].0@,
                forall|j: int| 0 <= j < i ==> (#[trigger] joint_states@[j]).position == 0
                    && joint_states@[j].velocity == 0 && joint_states@[j].effort == 0 && (
                joint_states@[j].temperature is None) && !joint_states@[j].is_moving,
            decreases config.joint_limits@.len() - i,
        {
            trajectories.push(None);
            joint_states.push(JointState::new(config.joint_limits[i].0.clone()));
            i = i + 1;
        }
        Ok(
            RealtimeController {
                config,
                status: RealtimeStatus::default(),
                pid_controllers,
                trajectories,
                command_queue: VecDeque::new(),
                sensor_data: SensorData {
                    joint_states,
                    imu_data: None,
                    force_torque: None,
                    timestamp: now,
                },
                is_running: false,
                emergency_stop: false,
                loop_count: 0,
                last_stats_update: now,
                sensor_loop_count: 0,
                sensor_last_stats_update: now,
            },
        )
    }

    /// Marks the controller running.  Calling it while already running
    /// changes nothing (the periodic tasks are driven by the caller, so no
    /// second task can be spawned by a repeated start).
    pub fn start(&mut self) -> (r: Result<(), crate::ReachyMiniError>)
        ensures
            (r is Ok),
            old(self).wf() ==> final(self).wf(),
            final(self).is_running,
            final(self).status.is_running,
            (old(self).is_running && old(self).status.is_running) ==> *final(self) == *old(self),
            final(self).config == old(self).config,
            final(self).pid_controllers == old(self).pid_controllers,
            final(self).trajectories == old(self).trajectories,
            final(self).command_queue == old(self).command_queue,
            final(self).sensor_data == old(self).sensor_data,
            final(self).emergency_stop == old(self).emergency_stop,
            final(self).status.emergency_stop == old(self).status.emergency_stop,
            final(self).status.control_loop_frequency == old(self).status.control_loop_frequency,
            final(self).status.sensor_update_frequency == old(self).status.sensor_update_frequency,
            final(self).status.active_commands == old(self).status.active_commands,
            final(self).status.last_command_timestamp == old(self).status.last_command_timestamp,
            final(self).status.performance_stats == old(self).status.performance_stats,
            final(self).status.joint_states == old(self).status.joint_states,
            final(self).loop_count == old(self).loop_count,
            final(self).last_stats_update == old(self).last_stats_update,
            final(self).sensor_loop_count == old(self).sensor_loop_count,
            final(self).sensor_last_stats_update == old(self).sensor_last_stats_update,
    {
        if self.is_running && self.status.is_running {
            return Ok(());
        }
        self.is_running = true;
        self.status.is_running = true;
        Ok(())
    }

    /// Marks the controller stopped: discards queued commands and
    /// in-flight trajectories and resets every PID controller.  A stopped
    /// controller is left untouched.
    pub fn stop(&mut self) -> (r: Result<(), crate::ReachyMiniError>)
        ensures
            (r is Ok),
            old(self).wf() ==> final(self).wf(),
            !old(self).is_running ==> *final(self) == *old(self),
            old(self).is_running ==> {
                &&& !final(self).is_running
                &&& !final(self).status.is_running
                &&& final(self).status.active_commands == 0
                &&& final(self).command_queue@.len() == 0
                &&& final(self).trajectories@.len() == old(self).trajectories@.len()
                &&& forall|i: int| 0 <= i < final(self).trajectories@.len() ==> (
                #[trigger] final(self).trajectories@[i]) is None
                &&& final(self).pid_controllers@.len() == old(self).pid_controllers@.len()
                &&& forall|i: int| 0 <= i < final(self).pid_controllers@.len() ==> (
                #[trigger] final(self).pid_controllers@[i]).integral == 0 && final(self).pid_controllers@[i].last_error == 0 && final(self).pid_controllers@[i].gains
                    == old(self).pid_controllers@[i].gains
                &&& final(self).config == old(self).config
                &&& final(self).sensor_data == old(self).sensor_data
                &&& final(self).emergency_stop == old(self).emergency_stop
                &&& final(self).status.emergency_stop == old(self).status.emergency_stop
                &&& final(self).status.control_loop_frequency == old(
                    self,
                ).status.control_loop_frequency
                &&& final(self).status.sensor_update_frequency == old(
                    self,
                ).status.sensor_update_frequency
                &&& final(self).status.last_command_timestamp == old(
                    self,
                ).status.last_command_timestamp
                &&& final(self).status.performance_stats == old(self).status.performance_stats
                &&& final(self).status.joint_states == old(self).status.joint_states
                &&& final(self).loop_count == old(self).loop_count
                &&& final(self).last_stats_update == old(self).last_stats_update
                &&& final(self).sensor_loop_count == old(self).sensor_loop_count
                &&& final(self).sensor_last_stats_update == old(self).sensor_last_stats_update
            },
    {
        if !self.is_running {
            return Ok(());
        }
        self.is_running = false;
        let now = current_timestamp();
        self.command_queue.clear();
        self.clear_trajectories();
        self.reset_controllers(now);
        self.status.is_running = false;
        self.status.active_commands = 0;
        Ok(())
    }

    /// Replaces every in-flight trajectory with none.
    fn clear_trajectories(&mut self)
        ensures
            final(self).trajectories@.len() == old(self).trajectories@.len(),
            forall|i: int| 0 <= i < final(self).trajectories@.len() ==> (
            #[trigger] final(self).trajectories@[i]) is None,
            final(self).config == old(self).config,
            final(self).status == old(self).status,
            final(self).pid_controllers == old(self).pid_controllers,
            final(self).command_queue == old(self).command_queue,
            final(self).sensor_data == old(self).sensor_data,
            final(self).is_running == old(self).is_running,
            final(self).emergency_stop == old(self).emergency_stop,
            final(self).loop_count == old(self).loop_count,
            final(self).last_stats_update == old(self).last_stats_update,
            final(self).sensor_loop_count == old(self).sensor_loop_count,
            final(self).sensor_last_stats_update == old(self).sensor_last_stats_update,
    {
        let mut i: usize = 0;
        while i < self.trajectories.len()
            invariant
                i <= self.trajectories@.len(),
                self.trajectories@.len() == old(self).trajectories@.len(),
                forall|j: int| 0 <= j < i ==> (#[trigger] self.trajectories@[j]) is None,
                self.config == old(self).config,
                self.status == old(self).status,
                self.pid_controllers == old(self).pid_controllers,
                self.command_queue == old(self).command_queue,
                self.sensor_data == old(self).sensor_data,
                self.is_running == old(self).is_running,
                self.emergency_stop == old(self).emergency_stop,
                self.loop_count == old(self).loop_count,
                self.last_stats_update == old(self).last_stats_update,
                self.sensor_loop_count == old(self).sensor_loop_count,
                self.sensor_last_stats_update == old(self).sensor_last_stats_update,
            decreases self.trajectories@.len() - i,
        {
            self.trajectories.set(i, None);
            i = i + 1;
        }
    }

    /// Resets every PID controller at the given time.
    fn reset_controllers(&mut self, now_ms: u64)
        ensures
            final(self).pid_controllers@.len() == old(self).pid_controllers@.len(),
            forall|i: int| 0 <= i < final(self).pid_controllers@.len() ==> {
                let c = #[trigger] final(self).pid_controllers@[i];
                &&& c.integral == 0
                &&& c.last_error == 0
                &&& c.last_time == now_ms
                &&& c.gains == old(self).pid_controllers@[i].gains
            },
            final(self).config == old(self).config,
            final(self).status == old(self).status,
            final(self).trajectories == old(self).trajectories,
            final(self).command_queue == old(self).command_queue,
            final(self).sensor_data == old(self).sensor_data,
            final(self).is_running == old(self).is_running,
            final(self).emergency_stop == old(self).emergency_stop,
            final(self).loop_count == old(self).loop_count,
            final(self).last_stats_update == old(self).last_stats_update,
            final(self).sensor_loop_count == old(self).sensor_loop_count,
            final(self).sensor_last_stats_update == old(self).sensor_last_stats_update,
    {
        let mut i: usize = 0;
        while i < self.pid_controllers.len()
            invariant
                i <= self.pid_controllers@.len(),
                self.pid_controllers@.len() == old(self).pid_controllers@.len(),
                forall|j: int| i <= j < self.pid_controllers@.len() ==> (
                #[trigger] self.pid_controllers@[j]) == old(self).pid_controllers@[j],
                forall|j: int| 0 <= j < i ==> {
                    let c = #[trigger] self.pid_controllers@[j];
                    &&& c.integral == 0
                    &&& c.last_error == 0
                    &&& c.last_time == now_ms
                    &&& c.gains == old(self).pid_controllers@[j].gains
                },
                self.config == old(self).config,
                self.status == old(self).status,
                self.trajectories == old(self).trajectories,
                self.command_queue == old(self).command_queue,
                self.sensor_data == old(self).sensor_data,
                self.is_running == old(self).is_running,
                self.emergency_stop == old(self).emergency_stop,
                self.loop_count == old(self).loop_count,
                self.last_stats_update == old(self).last_stats_update,
                self.sensor_loop_count == old(self).sensor_loop_count,
                self.sensor_last_stats_update == old(self).sensor_last_stats_update,
            decreases self.pid_controllers@.len() - i,
        {
            let mut c = self.pid_controllers[i];
            c.reset(now_ms);
            self.pid_controllers.set(i, c);
            i = i + 1;
        }
    }

    /// Appends a motion request to the queue and refreshes the command
    /// statistics.
    pub fn add_command(&mut self, command: MotionCommand) -> (r: Result<
        (),
        crate::ReachyMiniError,
    >)
        ensures
            (r is Ok),
            old(self).wf() ==> final(self).wf(),
            final(self).command_queue@ == old(self).command_queue@.push(command),
            final(self).status.active_commands == final(self).command_queue@.len(),
            final(self).config == old(self).config,
            final(self).pid_controllers == old(self).pid_controllers,
            final(self).trajectories == old(self).trajectories,
            final(self).sensor_data == old(self).sensor_data,
            final(self).is_running == old(self).is_running,
            final(self).emergency_stop == old(self).emergency_stop,
            final(self).status.is_running == old(self).status.is_running,
            final(self).status.emergency_stop == old(self).status.emergency_stop,
            final(self).status.control_loop_frequency == old(self).status.control_loop_frequency,
            final(self).status.sensor_update_frequency == old(self).status.sensor_update_frequency,
            final(self).status.performance_stats == old(self).status.performance_stats,
            final(self).status.joint_states == old(self).status.joint_states,
            final(self).loop_count == old(self).loop_count,
            final(self).last_stats_update == old(self).last_stats_update,
            final(self).sensor_loop_count == old(self).sensor_loop_count,
            final(self).sensor_last_stats_update == old(self).sensor_last_stats_update,
    {
        self.command_queue.push_back(command);
        self.status.active_commands = self.command_queue.len();
        self.status.last_command_timestamp = current_timestamp();
        Ok(())
    }

    /// Sets or clears the emergency-stop gate.  The effect on motion is
    /// applied by the next control tick.
    pub fn set_emergency_stop(&mut self, stop: bool) -> (r: Result<(), crate::ReachyMiniError>)
        ensures
            (r is Ok),
            old(self).wf() ==> final(self).wf(),
            final(self).emergency_stop == stop,
            final(self).status.emergency_stop == stop,
            final(self).config == old(self).config,
            final(self).pid_controllers == old(self).pid_controllers,
            final(self).trajectories == old(self).trajectories,
            final(self).command_queue == old(self).command_queue,
            final(self).sensor_data == old(self).sensor_data,
            final(self).is_running == old(self).is_running,
            final(self).status.is_running == old(self).status.is_running,
            final(self).status.active_commands == old(self).status.active_commands,
            final(self).status.control_loop_frequency == old(self).status.control_loop_frequency,
            final(self).status.sensor_update_frequency == old(self).status.sensor_update_frequency,
            final(self).status.last_command_timestamp == old(self).status.last_command_timestamp,
            final(self).status.performance_stats == old(self).status.performance_stats,
            final(self).status.joint_states == old(self).status.joint_states,
            final(self).loop_count == old(self).loop_count,
            final(self).last_stats_update == old(self).last_stats_update,
            final(self).sensor_loop_count == old(self).sensor_loop_count,
            final(self).sensor_last_stats_update == old(self).sensor_last_stats_update,
    {
        self.emergency_stop = stop;
        self.status.emergency_stop = stop;
        Ok(())
    }

    /// A copy of the latest sensor snapshot.
    pub fn get_sensor_data(&self) -> (r: Result<SensorData, crate::ReachyMiniError>)
        ensures
            (r is Ok),
            r->Ok_0.joint_states@ == self.sensor_data.joint_states@,
            r->Ok_0.imu_data == self.sensor_data.imu_data,
            r->Ok_0.force_torque == self.sensor_data.force_torque,
            r->Ok_0.timestamp == self.sensor_data.timestamp,
    {
        Ok(
            SensorData {
                joint_states: duplicate_joint_states(&self.sensor_data.joint_states),
                imu_data: self.sensor_data.imu_data,
                force_torque: self.sensor_data.force_torque,
                timestamp: self.sensor_data.timestamp,
            },
        )
    }

    /// The status rollup, with the joint table refreshed from the sensor
    /// snapshot.
    pub fn get_status(&self) -> (r: Result<RealtimeStatus, crate::ReachyMiniError>)
        ensures
            (r is Ok),
            r->Ok_0.is_running == self.status.is_running,
            r->Ok_0.emergency_stop == self.status.emergency_stop,
            r->Ok_0.control_loop_frequency == self.status.control_loop_frequency,
            r->Ok_0.sensor_update_frequency == self.status.sensor_update_frequency,
            r->Ok_0.active_commands == self.status.active_commands,
            r->Ok_0.last_command_timestamp == self.status.last_command_timestamp,
            r->Ok_0.performance_stats == self.status.performance_stats,
            r->Ok_0.joint_states@ == self.sensor_data.joint_states@,
    {
        Ok(
            RealtimeStatus {
                is_running: self.status.is_running,
                emergency_stop: self.status.emergency_stop,
                control_loop_frequency: self.status.control_loop_frequency,
                sensor_update_frequency: self.status.sensor_update_frequency,
                active_commands: self.status.active_commands,
                last_command_timestamp: self.status.last_command_timestamp,
                performance_stats: self.status.performance_stats,
                joint_states: duplicate_joint_states(&self.sensor_data.joint_states),
            },
        )
    }

    /// Whether the controller has been started.
    pub fn is_running(&self) -> (r: bool)
        ensures
            r == self.is_running,
    {
        self.is_running
    }

    /// Number of joints with an in-flight trajectory.
    pub fn active_trajectory_count(&self) -> (r: usize)
        ensures
            r == active_count(self.trajectories@),
    {
        let mut count: usize = 0;
        let mut i: usize = 0;
        while i < self.trajectories.len()
            invariant
                i <= self.trajectories@.len(),
                count <= i,
                count == active_count(self.trajectories@.subrange(0, i as int)),
            decreases self.trajectories@.len() - i,
        {
            proof {
                assert(self.trajectories@.subrange(0, i + 1 as int).drop_last()
                    =~= self.trajectories@.subrange(0, i as int));
            }
            if self.trajectories[i].is_some() {
                count = count + 1;
            }
            i = i + 1;
        }
        proof {
            assert(self.trajectories@.subrange(0, self.trajectories@.len() as int)
                =~= self.trajectories@);
        }
        count
    }

    /// The emergency-stop effect of one tick: every trajectory is
    /// discarded and every PID controller reset, so the active-trajectory
    /// count drops to zero.
    fn handle_emergency_stop(&mut self, now_ms: u64)
        requires
            old(self).wf(),
        ensures
            final(self).wf(),
            final(self).trajectories@.len() == old(self).trajectories@.len(),
            forall|i: int| 0 <= i < final(self).trajectories@.len() ==> (
            #[trigger] final(self).trajectories@[i]) is None,
            active_count(final(self).trajectories@) == 0,
            final(self).pid_controllers@.len() == old(self).pid_controllers@.len(),
            forall|i: int| 0 <= i < final(self).pid_controllers@.len() ==> (
            #[trigger] final(self).pid_controllers@[i]).integral == 0 && final(self).pid_controllers@[i].last_error == 0 && final(self).pid_controllers@[i].last_time == now_ms && final(self).pid_controllers@[i].gains == old(self).pid_controllers@[i].gains,
            final(self).config == old(self).config,
            final(self).status == old(self).status,
            final(self).command_queue == old(self).command_queue,
            final(self).sensor_data == old(self).sensor_data,
            final(self).is_running == old(self).is_running,
            final(self).emergency_stop == old(self).emergency_stop,
            final(self).loop_count == old(self).loop_count,
            final(self).last_stats_update == old(self).last_stats_update,
            final(self).sensor_loop_count == old(self).sensor_loop_count,
            final(self).sensor_last_stats_update == old(self).sensor_last_stats_update,
    {
        self.clear_trajectories();
        self.reset_controllers(now_ms);
        proof {
            lemma_active_count_zero(self.trajectories@);
        }
    }

    /// Folds one measured tick duration (microseconds) into the
    /// performance statistics: the frame counter saturates at its
    /// maximum, extremes and the exponential moving average are updated,
    /// and the frame rate is recomputed from the new average.
    pub fn record_tick_duration(&mut self, elapsed_us: u64)
        ensures
            old(self).wf() ==> final(self).wf(),
            ({
                let stats = old(self).status.performance_stats;
                let updated = final(self).status.performance_stats;
                &&& updated.total_frames == if stats.total_frames < u64::MAX {
                    stats.total_frames + 1
                } else {
                    u64::MAX as int
                }
                &&& updated.max_processing_time == if elapsed_us > stats.max_processing_time {
                    elapsed_us
                } else {
                    stats.max_processing_time
                }
                &&& updated.min_processing_time == if elapsed_us < stats.min_processing_time {
                    elapsed_us
                } else {
                    stats.min_processing_time
                }
                &&& updated.avg_processing_time == (stats.avg_processing_time * 9 + elapsed_us)
                    / 10
                &&& updated.fps == if updated.avg_processing_time > 0 {
                    1_000_000_000int / updated.avg_processing_time as int
                } else {
                    stats.fps as int
                }
                &&& updated.dropped_frames == stats.dropped_frames
                &&& updated.cpu_usage == stats.cpu_usage
                &&& updated.memory_usage == stats.memory_usage
            }),
            final(self).status.is_running == old(self).status.is_running,
            final(self).status.emergency_stop == old(self).status.emergency_stop,
            final(self).status.control_loop_frequency == old(self).status.control_loop_frequency,
            final(self).status.sensor_update_frequency == old(self).status.sensor_update_frequency,
            final(self).status.active_commands == old(self).status.active_commands,
            final(self).status.last_command_timestamp == old(self).status.last_command_timestamp,
            final(self).status.joint_states == old(self).status.joint_states,
            final(self).config == old(self).config,
            final(self).pid_controllers == old(self).pid_controllers,
            final(self).trajectories == old(self).trajectories,
            final(self).command_queue == old(self).command_queue,
            final(self).sensor_data == old(self).sensor_data,
            final(self).is_running == old(self).is_running,
            final(self).emergency_stop == old(self).emergency_stop,
            final(self).loop_count == old(self).loop_count,
            final(self).last_stats_update == old(self).last_stats_update,
            final(self).sensor_loop_count == old(self).sensor_loop_count,
            final(self).sensor_last_stats_update == old(self).sensor_last_stats_update,
    {
        self.status.performance_stats.update_frame_stats(elapsed_us);
    }
}


/// Index of the first limits-table entry with the given joint name, or -1.
pub open spec fn joint_index_spec(entries: Seq<(String, JointLimits)>, name: Seq<char>) -> int
    decreases entries.len(),
{
    if entries.len() == 0 {
        -1
    } else if entries[0].0@ == name {
        0
    } else {
        let r = joint_index_spec(entries.skip(1), name);
        if r == -1 {
            -1
        } else {
            r + 1
        }
    }
}

/// What [`joint_index_spec`] returns: `-1` exactly when no entry has the
/// name, otherwise the least index that does.
pub proof fn lemma_joint_index(entries: Seq<(String, JointLimits)>, name: Seq<char>)
    ensures
        joint_index_spec(entries, name) >= -1,
        (joint_index_spec(entries, name) == -1) <==> (forall|i: int|
            0 <= i < entries.len() ==> (#[trigger] entries[i]).0@ != name),
        joint_index_spec(entries, name) >= 0 ==> {
            &&& joint_index_spec(entries, name) < entries.len()
            &&& entries[joint_index_spec(entries, name)].0@ == name
            &&& forall|j: int| 0 <= j < joint_index_spec(entries, name) ==> (
            #[trigger] entries[j]).0@ != name
        },
    decreases entries.len(),
{
    if entries.len() > 0 {
        let t = entries.skip(1);
        lemma_joint_index(t, name);
        assert(forall|i: int| 0 <= i < t.len() ==> t[i] == entries[i + 1]);
        let f = joint_index_spec(entries, name);
        if entries[0].0@ != name {
            let ft = joint_index_spec(t, name);
            if ft == -1 {
                assert forall|i: int| 0 <= i < entries.len() implies (#[trigger] entries[i]).0@
                    != name by {
                    if i > 0 {
                        assert(t[i - 1].0@ != name);
                    }
                }
            } else {
                assert(f == ft + 1);
                assert forall|j: int| 0 <= j < f implies (#[trigger] entries[j]).0@ != name by {
                    if j > 0 {
                        assert(t[j - 1].0@ != name);
                    }
                }
            }
        }
    }
}

/// Looks a joint up in the limits table by name: the first matching index.
fn find_joint(entries: &Vec<(String, JointLimits)>, name: &String) -> (r: Option<usize>)
    ensures
        (r is Some) <==> joint_index_spec(entries@, name@) >= 0,
        (r is Some) ==> r->0 == joint_index_spec(entries@, name@) && r->0 < entries@.len(),
{
    proof {
        lemma_joint_index(entries@, name@);
    }
    let mut i: usize = 0;
    while i < entries.len()
        invariant
            i <= entries@.len(),
            forall|j: int| 0 <= j < i ==> (#[trigger] entries@[j]).0@ != name@,
        decreases entries@.len() - i,
    {
        if entries[i].0 == *name {
            proof {
                lemma_joint_index(entries@, name@);
                let f = joint_index_spec(entries@, name@);
                if f == -1 {
                    assert(entries@[i as int].0@ != name@);
                    assert(false);
                }
                if 0 <= f < i {
                    assert(entries@[f].0@ != name@);
                    assert(false);
                }
                if f > i {
                    assert(entries@[i as int].0@ != name@);
                    assert(false);
                }
                assert(f == i);
            }
            return Some(i);
        }
        i = i + 1;
    }
    proof {
        lemma_joint_index(entries@, name@);
    }
    None
}

/// Age of a command at drain time; a timestamp in the future counts as
/// fresh.
pub open spec fn command_age(now: int, ts: int) -> int {
    if now >= ts {
        now - ts
    } else {
        0
    }
}

/// Whether a queued command is too old to apply.
pub open spec fn command_stale(cmd: MotionCommand, now: int, timeout_ms: int) -> bool {
    command_age(now, cmd.timestamp as int) > timeout_ms
}

/// The trajectory a Position command creates: it starts from the measured
/// position and velocity, targets the command's position clamped into the
/// joint's limits, and adopts the joint's velocity and acceleration
/// bounds.
pub open spec fn position_trajectory_spec(
    limits: JointLimits,
    state: JointState,
    target: int,
    now: int,
) -> TrajectoryGenerator {
    let clamped = clamp_spec(target, limits.min_position as int, limits.max_position as int);
    let d = if clamped >= state.position {
        clamped - state.position
    } else {
        state.position - clamped
    };
    TrajectoryGenerator {
        start_position: state.position,
        target_position: clamped as i64,
        start_velocity: state.velocity,
        max_velocity: limits.max_velocity,
        max_acceleration: limits.max_acceleration,
        start_time: now as u64,
        duration: duration_spec(d, limits.max_velocity as int, limits.max_acceleration as int)
            as u64,
    }
}

/// Effect of one fresh, non-emergency command on the trajectory table:
/// a Position command replaces the joint's trajectory, a Stop command
/// removes it, anything else (and any unknown joint) leaves the table
/// unchanged.
pub open spec fn apply_command_spec(
    cfg: RealtimeConfig,
    states: Seq<JointState>,
    trajs: Seq<Option<TrajectoryGenerator>>,
    cmd: MotionCommand,
    now: int,
) -> Seq<Option<TrajectoryGenerator>> {
    let ji = joint_index_spec(cfg.joint_limits@, cmd.joint_name@);
    match cmd.command_type {
        CommandType::Position => {
            if (cmd.target_position is Some) && ji >= 0 && ji < trajs.len() && ji < states.len() {
                trajs.update(
                    ji,
                    Some(
                        position_trajectory_spec(
                            cfg.joint_limits@[ji].1,
                            states[ji],
                            cmd.target_position->0 as int,
                            now,
                        ),
                    ),
                )
            } else {
                trajs
            }
        },
        CommandType::Stop => {
            if ji >= 0 && ji < trajs.len() {
                trajs.update(ji, None)
            } else {
                trajs
            }
        },
        _ => trajs,
    }
}

/// Effect of draining the whole queue in one tick: stale commands are
/// dropped unapplied, an EmergencyStop command stops the drain for this
/// tick (leaving the rest of the queue), and every other command is
/// applied in order.  Returns the trajectory table and the remaining
/// queue.
pub open spec fn drain_spec(
    cfg: RealtimeConfig,
    states: Seq<JointState>,
    trajs: Seq<Option<TrajectoryGenerator>>,
    cmds: Seq<MotionCommand>,
    now: int,
) -> (Seq<Option<TrajectoryGenerator>>, Seq<MotionCommand>)
    decreases cmds.len(),
{
    if cmds.len() == 0 {
        (trajs, cmds)
    } else {
        let cmd = cmds[0];
        if command_stale(cmd, now, cfg.command_timeout_ms as int) {
            drain_spec(cfg, states, trajs, cmds.skip(1), now)
        } else if cmd.command_type is EmergencyStop {
            (trajs, cmds.skip(1))
        } else {
            drain_spec(cfg, states, apply_command_spec(cfg, states, trajs, cmd, now), cmds.skip(1), now)
        }
    }
}

/// The trajectory table after removing every move already finished at
/// `now`.
pub open spec fn prune_spec(trajs: Seq<Option<TrajectoryGenerator>>, now: int) -> Seq<
    Option<TrajectoryGenerator>,
> {
    Seq::new(
        trajs.len(),
        |i: int|
            if trajs[i] is Some && !trajs[i]->0.finished_spec(now) {
                trajs[i]
            } else {
                None
            },
    )
}

/// The controller state after one PID step, exactly as
/// [`PIDController::update`] leaves it.
pub open spec fn pid_step_controller(
    c: PIDController,
    setpoint: int,
    measurement: int,
    now: int,
) -> PIDController {
    if now <= c.last_time {
        c
    } else {
        let e = setpoint - measurement;
        let dt = now - c.last_time;
        PIDController {
            gains: c.gains,
            integral: pid_integral_next(c.integral as int, e, dt, c.gains.max_integral as int)
                as i64,
            last_error: e as i64,
            last_time: now as u64,
        }
    }
}

/// The control effort of one PID step, exactly as
/// [`PIDController::update`] returns it.
pub open spec fn pid_step_output(c: PIDController, setpoint: int, measurement: int, now: int)
    -> int {
    if now <= c.last_time {
        0
    } else {
        pid_output_spec(c.gains, c.integral as int, c.last_error as int, setpoint - measurement, now - c.last_time)
    }
}

/// The whole PID table after one control evaluation: the controller of
/// every joint with an in-flight trajectory takes one step against that
/// trajectory's reference and the joint's measured position.
pub open spec fn controllers_after_spec(
    states: Seq<JointState>,
    trajs: Seq<Option<TrajectoryGenerator>>,
    ctrls: Seq<PIDController>,
    now: int,
) -> Seq<PIDController> {
    Seq::new(
        ctrls.len(),
        |k: int|
            if k < trajs.len() && k < states.len() && trajs[k] is Some {
                pid_step_controller(
                    ctrls[k],
                    trajs[k]->0.position_at_spec(now),
                    states[k].position as int,
                    now,
                )
            } else {
                ctrls[k]
            },
    )
}

/// The per-joint control efforts one control evaluation emits, in joint
/// order, one entry per in-flight trajectory.
pub open spec fn outputs_spec(
    cfg: RealtimeConfig,
    states: Seq<JointState>,
    trajs: Seq<Option<TrajectoryGenerator>>,
    ctrls: Seq<PIDController>,
    now: int,
    i: int,
) -> Seq<(String, i64)>
    decreases trajs.len() - i,
{
    if i < 0 || i >= trajs.len() {
        Seq::empty()
    } else {
        let rest = outputs_spec(cfg, states, trajs, ctrls, now, i + 1);
        if trajs[i] is Some && i < ctrls.len() && i < states.len() && i < cfg.joint_limits@.len() {
            seq![
                (
                    cfg.joint_limits@[i].0,
                    pid_step_output(
                        ctrls[i],
                        trajs[i]->0.position_at_spec(now),
                        states[i].position as int,
                        now,
                    ) as i64,
                ),
            ] + rest
        } else {
            rest
        }
    }
}

/// Relies on `rand::random`: a uniformly distributed 32-bit value from the
/// thread-local generator.  Nothing is assumed of which value comes back.
#[verifier::external_body]
fn random_u32() -> u32 {
    rand::random()
}

/// Folds a raw random value into a small signed offset in
/// `[-range, range]`.
fn noise_in(raw: u32, range: u32) -> (n: i64)
    requires
        1 <= range <= 1000,
    ensures
        -(range as int) <= n <= range as int,
{
    ((raw % (2 * range + 1)) as i64) - (range as i64)
}

impl RealtimeController {
    /// Drains the whole command queue for this tick, exactly as
    /// [`drain_spec`] describes: stale commands are dropped, Position and
    /// Stop commands update the trajectory table, and an EmergencyStop
    /// command ends the drain.  In particular a stale command never
    /// becomes a trajectory.
    pub fn process_command_queue(&mut self, now_ms: u64)
        requires
            old(self).wf(),
        ensures
            final(self).wf(),
            final(self).trajectories@ == drain_spec(
                old(self).config,
                old(self).sensor_data.joint_states@,
                old(self).trajectories@,
                old(self).command_queue@,
                now_ms as int,
            ).0,
            final(self).command_queue@ == drain_spec(
                old(self).config,
                old(self).sensor_data.joint_states@,
                old(self).trajectories@,
                old(self).command_queue@,
                now_ms as int,
            ).1,
            final(self).config == old(self).config,
            final(self).status == old(self).status,
            final(self).pid_controllers == old(self).pid_controllers,
            final(self).sensor_data == old(self).sensor_data,
            final(self).is_running == old(self).is_running,
            final(self).emergency_stop == old(self).emergency_stop,
            final(self).loop_count == old(self).loop_count,
            final(self).last_stats_update == old(self).last_stats_update,
            final(self).sensor_loop_count == old(self).sensor_loop_count,
            final(self).sensor_last_stats_update == old(self).sensor_last_stats_update,
    {
        let ghost target = drain_spec(
            old(self).config,
            old(self).sensor_data.joint_states@,
            old(self).trajectories@,
            old(self).command_queue@,
            now_ms as int,
        );
        loop
            invariant
                self.wf(),
                target == drain_spec(
                    old(self).config,
                    old(self).sensor_data.joint_states@,
                    old(self).trajectories@,
                    old(self).command_queue@,
                    now_ms as int,
                ),
                drain_spec(
                    self.config,
                    self.sensor_data.joint_states@,
                    self.trajectories@,
                    self.command_queue@,
                    now_ms as int,
                ) == target,
                self.config == old(self).config,
                self.status == old(self).status,
                self.pid_controllers == old(self).pid_controllers,
                self.sensor_data == old(self).sensor_data,
                self.is_running == old(self).is_running,
                self.emergency_stop == old(self).emergency_stop,
                self.loop_count == old(self).loop_count,
                self.last_stats_update == old(self).last_stats_update,
                self.sensor_loop_count == old(self).sensor_loop_count,
                self.sensor_last_stats_update == old(self).sensor_last_stats_update,
            decreases self.command_queue@.len(),
        {
            let ghost trajs_b = self.trajectories@;
            let ghost queue_b = self.command_queue@;
            let popped = self.command_queue.pop_front();
            match popped {
                None => {
                    return ;
                },
                Some(command) => {
                    proof {
                        assert(command == queue_b[0]);
                        assert(self.command_queue@ =~= queue_b.skip(1));
                    }
                    let age: u64 = if now_ms >= command.timestamp {
                        now_ms - command.timestamp
                    } else {
                        0
                    };
                    if age > self.config.command_timeout_ms {
                        proof {
                            assert(command_stale(
                                command,
                                now_ms as int,
                                self.config.command_timeout_ms as int,
                            ));
                        }
                    } else {
                        proof {
                            assert(!command_stale(
                                command,
                                now_ms as int,
                                self.config.command_timeout_ms as int,
                            ));
                        }
                        match command.command_type {
                            CommandType::Position => {
                                if let Some(target_position) = command.target_position {
                                    self.create_position_trajectory(
                                        &command.joint_name,
                                        target_position,
                                        now_ms,
                                    );
                                    proof {
                                        assert(self.trajectories@ == apply_command_spec(
                                            self.config,
                                            self.sensor_data.joint_states@,
                                            trajs_b,
                                            command,
                                            now_ms as int,
                                        ));
                                    }
                                } else {
                                    proof {
                                        assert(apply_command_spec(
                                            self.config,
                                            self.sensor_data.joint_states@,
                                            trajs_b,
                                            command,
                                            now_ms as int,
                                        ) == trajs_b);
                                    }
                                }
                            },
                            CommandType::Stop => {
                                self.stop_joint(&command.joint_name);
                                proof {
                                    assert(self.trajectories@ == apply_command_spec(
                                        self.config,
                                        self.sensor_data.joint_states@,
                                        trajs_b,
                                        command,
                                        now_ms as int,
                                    ));
                                }
                            },
                            CommandType::EmergencyStop => {
                                proof {
                                    assert(target == (trajs_b, queue_b.skip(1)));
                                }
                                return ;
                            },
                            _ => {
                                proof {
                                    assert(apply_command_spec(
                                        self.config,
                                        self.sensor_data.joint_states@,
                                        trajs_b,
                                        command,
                                        now_ms as int,
                                    ) == trajs_b);
                                }
                            },
                        }
                    }
                },
            }
        }
    }

    /// Replaces the named joint's trajectory with a fresh move toward the
    /// clamped target, reading start position and velocity from the
    /// sensor snapshot.  An unknown joint leaves the table unchanged.
    fn create_position_trajectory(&mut self, joint_name: &String, target_position: i64, now_ms: u64)
        requires
            old(self).wf(),
        ensures
            final(self).wf(),
            final(self).trajectories@ == apply_command_spec(
                old(self).config,
                old(self).sensor_data.joint_states@,
                old(self).trajectories@,
                MotionCommand {
                    joint_name: *joint_name,
                    command_type: CommandType::Position,
                    target_position: Some(target_position),
                    target_velocity: None,
                    target_torque: None,
                    duration: None,
                    timestamp: 0u64,
                },
                now_ms as int,
            ),
            final(self).config == old(self).config,
            final(self).status == old(self).status,
            final(self).pid_controllers == old(self).pid_controllers,
            final(self).command_queue == old(self).command_queue,
            final(self).sensor_data == old(self).sensor_data,
            final(self).is_running == old(self).is_running,
            final(self).emergency_stop == old(self).emergency_stop,
            final(self).loop_count == old(self).loop_count,
            final(self).last_stats_update == old(self).last_stats_update,
            final(self).sensor_loop_count == old(self).sensor_loop_count,
            final(self).sensor_last_stats_update == old(self).sensor_last_stats_update,
    {
        if let Some(i) = find_joint(&self.config.joint_limits, joint_name) {
            proof {
                lemma_joint_index(self.config.joint_limits@, joint_name@);
                assert(rt_limits_entry_ok(self.config.joint_limits@[i as int]));
                assert(joint_state_bounded(self.sensor_data.joint_states@[i as int]));
            }
            let limits = self.config.joint_limits[i].1;
            let state_position = self.sensor_data.joint_states[i].position;
            let state_velocity = self.sensor_data.joint_states[i].velocity;
            let clamped_target = crate::common::clamp(
                target_position,
                limits.min_position,
                limits.max_position,
            );
            let trajectory = TrajectoryGenerator::new(
                state_position,
                clamped_target,
                state_velocity,
                limits.max_velocity,
                limits.max_acceleration,
                now_ms,
            );
            self.trajectories.set(i, Some(trajectory));
        }
    }

    /// Removes the named joint's trajectory; an unknown joint is a no-op.
    fn stop_joint(&mut self, joint_name: &String)
        requires
            old(self).wf(),
        ensures
            final(self).wf(),
            final(self).trajectories@ == apply_command_spec(
                old(self).config,
                old(self).sensor_data.joint_states@,
                old(self).trajectories@,
                MotionCommand {
                    joint_name: *joint_name,
                    command_type: CommandType::Stop,
                    target_position: None,
                    target_velocity: None,
                    target_torque: None,
                    duration: None,
                    timestamp: 0u64,
                },
                0,
            ),
            final(self).config == old(self).config,
            final(self).status == old(self).status,
            final(self).pid_controllers == old(self).pid_controllers,
            final(self).command_queue == old(self).command_queue,
            final(self).sensor_data == old(self).sensor_data,
            final(self).is_running == old(self).is_running,
            final(self).emergency_stop == old(self).emergency_stop,
            final(self).loop_count == old(self).loop_count,
            final(self).last_stats_update == old(self).last_stats_update,
            final(self).sensor_loop_count == old(self).sensor_loop_count,
            final(self).sensor_last_stats_update == old(self).sensor_last_stats_update,
    {
        if let Some(i) = find_joint(&self.config.joint_limits, joint_name) {
            self.trajectories.set(i, None);
        }
    }

    /// Removes every trajectory already finished at `now_ms`, as
    /// [`prune_spec`] describes.
    pub fn prune_finished(&mut self, now_ms: u64)
        requires
            old(self).wf(),
        ensures
            final(self).wf(),
            final(self).trajectories@ == prune_spec(old(self).trajectories@, now_ms as int),
            final(self).config == old(self).config,
            final(self).status == old(self).status,
            final(self).pid_controllers == old(self).pid_controllers,
            final(self).command_queue == old(self).command_queue,
            final(self).sensor_data == old(self).sensor_data,
            final(self).is_running == old(self).is_running,
            final(self).emergency_stop == old(self).emergency_stop,
            final(self).loop_count == old(self).loop_count,
            final(self).last_stats_update == old(self).last_stats_update,
            final(self).sensor_loop_count == old(self).sensor_loop_count,
            final(self).sensor_last_stats_update == old(self).sensor_last_stats_update,
    {
        let ghost trajs0 = old(self).trajectories@;
        let mut i: usize = 0;
        while i < self.trajectories.len()
            invariant
                self.wf(),
                i <= self.trajectories@.len(),
                self.trajectories@.len() == trajs0.len(),
                forall|j: int| 0 <= j < i ==> self.trajectories@[j] == prune_spec(
                    trajs0,
                    now_ms as int,
                )[j],
                forall|j: int| i <= j < trajs0.len() ==> self.trajectories@[j] == trajs0[j],
                self.config == old(self).config,
                self.status == old(self).status,
                self.pid_controllers == old(self).pid_controllers,
                self.command_queue == old(self).command_queue,
                self.sensor_data == old(self).sensor_data,
                self.is_running == old(self).is_running,
                self.emergency_stop == old(self).emergency_stop,
                self.loop_count == old(self).loop_count,
                self.last_stats_update == old(self).last_stats_update,
                self.sensor_loop_count == old(self).sensor_loop_count,
                self.sensor_last_stats_update == old(self).sensor_last_stats_update,
            decreases self.trajectories@.len() - i,
        {
            let finished: bool = match &self.trajectories[i] {
                Some(tg) => tg.is_finished(now_ms),
                None => true,
            };
            if finished {
                self.trajectories.set(i, None);
            }
            i = i + 1;
        }
        proof {
            assert(self.trajectories@ =~= prune_spec(trajs0, now_ms as int));
        }
    }

    /// One control evaluation: every joint with an in-flight trajectory
    /// takes a PID step against the trajectory's reference position and
    /// the measured position, and the resulting efforts are returned in
    /// joint order for the caller to dispatch to the actuators.
    pub fn update_control(&mut self, now_ms: u64) -> (outputs: Vec<(String, i64)>)
        requires
            old(self).wf(),
        ensures
            final(self).wf(),
            final(self).pid_controllers@ == controllers_after_spec(
                old(self).sensor_data.joint_states@,
                old(self).trajectories@,
                old(self).pid_controllers@,
                now_ms as int,
            ),
            outputs@ == outputs_spec(
                old(self).config,
                old(self).sensor_data.joint_states@,
                old(self).trajectories@,
                old(self).pid_controllers@,
                now_ms as int,
                0,
            ),
            final(self).trajectories == old(self).trajectories,
            final(self).config == old(self).config,
            final(self).status == old(self).status,
            final(self).command_queue == old(self).command_queue,
            final(self).sensor_data == old(self).sensor_data,
            final(self).is_running == old(self).is_running,
            final(self).emergency_stop == old(self).emergency_stop,
            final(self).loop_count == old(self).loop_count,
            final(self).last_stats_update == old(self).last_stats_update,
            final(self).sensor_loop_count == old(self).sensor_loop_count,
            final(self).sensor_last_stats_update == old(self).sensor_last_stats_update,
    {
        let ghost cfg0 = old(self).config;
        let ghost states0 = old(self).sensor_data.joint_states@;
        let ghost trajs0 = old(self).trajectories@;
        let ghost ctrls0 = old(self).pid_controllers@;
        let mut outputs: Vec<(String, i64)> = Vec::new();
        let mut i: usize = 0;
        while i < self.trajectories.len()
            invariant
                self.wf(),
                i <= self.trajectories@.len(),
                self.trajectories == old(self).trajectories,
                self.trajectories@ == trajs0,
                cfg0 == self.config,
                states0 == self.sensor_data.joint_states@,
                self.pid_controllers@.len() == ctrls0.len(),
                ctrls0.len() == trajs0.len(),
                states0.len() == trajs0.len(),
                cfg0.joint_limits@.len() == trajs0.len(),
                forall|k: int| 0 <= k < i ==> self.pid_controllers@[k] == controllers_after_spec(
                    states0,
                    trajs0,
                    ctrls0,
                    now_ms as int,
                )[k],
                forall|k: int| i <= k < ctrls0.len() ==> self.pid_controllers@[k] == ctrls0[k],
                outputs@ + outputs_spec(cfg0, states0, trajs0, ctrls0, now_ms as int, i as int)
                    == outputs_spec(cfg0, states0, trajs0, ctrls0, now_ms as int, 0),
                self.config == old(self).config,
                self.status == old(self).status,
                self.command_queue == old(self).command_queue,
                self.sensor_data == old(self).sensor_data,
                self.is_running == old(self).is_running,
                self.emergency_stop == old(self).emergency_stop,
                self.loop_count == old(self).loop_count,
                self.last_stats_update == old(self).last_stats_update,
                self.sensor_loop_count == old(self).sensor_loop_count,
                self.sensor_last_stats_update == old(self).sensor_last_stats_update,
            decreases self.trajectories@.len() - i,
        {
            let active: Option<TrajectoryGenerator> = self.trajectories[i];
            match active {
                Some(trajectory) => {
                    proof {
                        assert(self.trajectories@[i as int]->0.wf());
                        assert(joint_state_bounded(self.sensor_data.joint_states@[i as int]));
                        assert(self.pid_controllers@[i as int].wf());
                    }
                    let target = trajectory.get_position(now_ms);
                    let measured = self.sensor_data.joint_states[i].position;
                    let mut controller = self.pid_controllers[i];
                    let effort = controller.update(target, measured, now_ms);
                    self.pid_controllers.set(i, controller);
                    let name = self.config.joint_limits[i].0.clone();
                    outputs.push((name, effort));
                    proof {
                        let nowi = now_ms as int;
                        let stepped = pid_step_controller(
                            ctrls0[i as int],
                            trajs0[i as int]->0.position_at_spec(nowi),
                            states0[i as int].position as int,
                            nowi,
                        );
                        assert(self.pid_controllers@[i as int] == stepped);
                        let pair = (
                            cfg0.joint_limits@[i as int].0,
                            pid_step_output(
                                ctrls0[i as int],
                                trajs0[i as int]->0.position_at_spec(nowi),
                                states0[i as int].position as int,
                                nowi,
                            ) as i64,
                        );
                        assert(outputs@.last() == pair);
                        assert(outputs_spec(cfg0, states0, trajs0, ctrls0, nowi, i as int)
                            == seq![pair] + outputs_spec(
                            cfg0,
                            states0,
                            trajs0,
                            ctrls0,
                            nowi,
                            i + 1,
                        ));
                        assert(outputs@ + outputs_spec(cfg0, states0, trajs0, ctrls0, nowi, i + 1)
                            =~= outputs@.drop_last() + outputs_spec(
                            cfg0,
                            states0,
                            trajs0,
                            ctrls0,
                            nowi,
                            i as int,
                        ));
                    }
                },
                None => {
                    proof {
                        assert(outputs_spec(cfg0, states0, trajs0, ctrls0, now_ms as int, i as int)
                            == outputs_spec(cfg0, states0, trajs0, ctrls0, now_ms as int, i + 1));
                    }
                },
            }
            i = i + 1;
        }
        proof {
            assert(outputs_spec(cfg0, states0, trajs0, ctrls0, now_ms as int, trajs0.len() as int)
                =~= Seq::<(String, i64)>::empty());
            assert(outputs@ + Seq::<(String, i64)>::empty() =~= outputs@);
            assert(self.pid_controllers@ =~= controllers_after_spec(
                states0,
                trajs0,
                ctrls0,
                now_ms as int,
            ));
        }
        outputs
    }
}


/// What one sensor refresh does to one joint's reading: a joint with an
/// in-flight trajectory reads close to the trajectory's reference and is
/// marked moving; an idle joint drifts by at most the noise bound and is
/// marked still.  Name and temperature are untouched and every field
/// stays representable.
pub open spec fn sensor_step_ok(
    old_state: JointState,
    new_state: JointState,
    traj: Option<TrajectoryGenerator>,
    now: int,
) -> bool {
    &&& new_state.name@ == old_state.name@
    &&& new_state.temperature == old_state.temperature
    &&& joint_state_bounded(new_state)
    &&& -100 <= new_state.effort - old_state.effort <= 100
    &&& match traj {
        Some(tg) => {
            &&& new_state.is_moving
            &&& -1 <= new_state.position - tg.position_at_spec(now) <= 1
            &&& -10 <= new_state.velocity - clamp_spec(
                tg.velocity_from_elapsed(traj_elapsed(tg.start_time as int, now)),
                -MAG_LIMIT as int,
                MAG_LIMIT as int,
            ) <= 10
        },
        None => {
            &&& !new_state.is_moving
            &&& -1 <= new_state.position - old_state.position <= 1
            &&& -10 <= new_state.velocity - old_state.velocity <= 10
        },
    }
}

impl RealtimeController {
    /// One sensor refresh: synthesizes a plausible reading for every
    /// joint (tracking the joint's trajectory reference when one is in
    /// flight, holding with small noise otherwise), refreshes the
    /// inertial sample, restamps the snapshot and keeps the sensor-rate
    /// statistics over a rolling one-second window.
    pub fn sensor_tick(&mut self, now_ms: u64)
        requires
            old(self).wf(),
        ensures
            final(self).wf(),
            final(self).sensor_data.joint_states@.len() == old(self).sensor_data.joint_states@.len(),
            forall|i: int| 0 <= i < final(self).sensor_data.joint_states@.len() ==> sensor_step_ok(
                old(self).sensor_data.joint_states@[i],
                #[trigger] final(self).sensor_data.joint_states@[i],
                old(self).trajectories@[i],
                now_ms as int,
            ),
            final(self).sensor_data.timestamp == now_ms,
            (final(self).sensor_data.imu_data is Some) && {
                let im = final(self).sensor_data.imu_data->0;
                &&& im.orientation == (Quaternion { w: 1000i64, x: 0i64, y: 0i64, z: 0i64 })
                &&& -50 <= im.acceleration.x <= 50
                &&& -50 <= im.acceleration.y <= 50
                &&& 9760 <= im.acceleration.z <= 9860
                &&& -10 <= im.angular_velocity.x <= 10
                &&& -10 <= im.angular_velocity.y <= 10
                &&& -10 <= im.angular_velocity.z <= 10
                &&& 24000 <= im.temperature <= 26000
            },
            final(self).sensor_data.force_torque == old(self).sensor_data.force_torque,
            final(self).config == old(self).config,
            final(self).trajectories == old(self).trajectories,
            final(self).pid_controllers == old(self).pid_controllers,
            final(self).command_queue == old(self).command_queue,
            final(self).is_running == old(self).is_running,
            final(self).emergency_stop == old(self).emergency_stop,
            final(self).loop_count == old(self).loop_count,
            final(self).last_stats_update == old(self).last_stats_update,
            final(self).status.is_running == old(self).status.is_running,
            final(self).status.emergency_stop == old(self).status.emergency_stop,
            final(self).status.active_commands == old(self).status.active_commands,
            final(self).status.last_command_timestamp == old(self).status.last_command_timestamp,
            final(self).status.control_loop_frequency == old(self).status.control_loop_frequency,
            final(self).status.performance_stats == old(self).status.performance_stats,
            final(self).status.joint_states == old(self).status.joint_states,
            ({
                let ticks = if old(self).sensor_loop_count < u64::MAX {
                    old(self).sensor_loop_count + 1
                } else {
                    u64::MAX as int
                };
                let elapsed = if now_ms >= old(self).sensor_last_stats_update {
                    now_ms - old(self).sensor_last_stats_update
                } else {
                    0int
                };
                if elapsed >= 1000 {
                    &&& final(self).sensor_loop_count == 0
                    &&& final(self).sensor_last_stats_update == now_ms
                    &&& final(self).status.sensor_update_frequency == (if ticks * 1_000_000
                        / elapsed > u64::MAX {
                        u64::MAX as int
                    } else {
                        ticks * 1_000_000 / elapsed
                    })
                } else {
                    &&& final(self).sensor_loop_count == ticks
                    &&& final(self).sensor_last_stats_update == old(self).sensor_last_stats_update
                    &&& final(self).status.sensor_update_frequency == old(self).status.sensor_update_frequency
                }
            }),
    {
        let ghost states0 = old(self).sensor_data.joint_states@;
        let ghost trajs0 = old(self).trajectories@;
        let mut i: usize = 0;
        while i < self.sensor_data.joint_states.len()
            invariant
                self.wf(),
                i <= self.sensor_data.joint_states@.len(),
                self.sensor_data.joint_states@.len() == states0.len(),
                self.trajectories == old(self).trajectories,
                self.trajectories@ == trajs0,
                trajs0.len() == states0.len(),
                forall|j: int| i <= j < states0.len() ==> self.sensor_data.joint_states@[j]
                    == states0[j],
                forall|j: int| 0 <= j < i ==> sensor_step_ok(
                    states0[j],
                    #[trigger] self.sensor_data.joint_states@[j],
                    trajs0[j],
                    now_ms as int,
                ),
                self.sensor_data.imu_data == old(self).sensor_data.imu_data,
                self.sensor_data.force_torque == old(self).sensor_data.force_torque,
                self.sensor_data.timestamp == old(self).sensor_data.timestamp,
                self.config == old(self).config,
                self.status == old(self).status,
                self.pid_controllers == old(self).pid_controllers,
                self.command_queue == old(self).command_queue,
                self.is_running == old(self).is_running,
                self.emergency_stop == old(self).emergency_stop,
                self.loop_count == old(self).loop_count,
                self.last_stats_update == old(self).last_stats_update,
                self.sensor_loop_count == old(self).sensor_loop_count,
                self.sensor_last_stats_update == old(self).sensor_last_stats_update,
            decreases self.sensor_data.joint_states@.len() - i,
        {
            let position_noise = noise_in(random_u32(), 1);
            let velocity_noise = noise_in(random_u32(), 10);
            let effort_noise = noise_in(random_u32(), 100);
            let old_state_position = self.sensor_data.joint_states[i].position;
            let old_state_velocity = self.sensor_data.joint_states[i].velocity;
            let old_state_effort = self.sensor_data.joint_states[i].effort;
            proof {
                assert(joint_state_bounded(self.sensor_data.joint_states@[i as int]));
            }
            let active: Option<TrajectoryGenerator> = self.trajectories[i];
            let new_position: i64;
            let new_velocity: i64;
            let moving: bool;
            match active {
                Some(trajectory) => {
                    proof {
                        assert(self.trajectories@[i as int]->0.wf());
                    }
                    let reference = trajectory.get_position(now_ms);
                    let reference_velocity = crate::common::clamp(
                        trajectory.get_velocity(now_ms),
                        -MAG_LIMIT,
                        MAG_LIMIT,
                    );
                    new_position = crate::common::clamp(
                        reference + position_noise,
                        -MAG_LIMIT,
                        MAG_LIMIT,
                    );
                    new_velocity = crate::common::clamp(
                        reference_velocity + velocity_noise,
                        -MAG_LIMIT,
                        MAG_LIMIT,
                    );
                    moving = true;
                },
                None => {
                    new_position = crate::common::clamp(
                        old_state_position + position_noise,
                        -MAG_LIMIT,
                        MAG_LIMIT,
                    );
                    new_velocity = crate::common::clamp(
                        old_state_velocity + velocity_noise,
                        -MAG_LIMIT,
                        MAG_LIMIT,
                    );
                    moving = false;
                },
            }
            let new_effort = crate::common::clamp(
                old_state_effort + effort_noise,
                -MAG_LIMIT,
                MAG_LIMIT,
            );
            let updated = JointState {
                name: self.sensor_data.joint_states[i].name.clone(),
                position: new_position,
                velocity: new_velocity,
                effort: new_effort,
                temperature: self.sensor_data.joint_states[i].temperature,
                is_moving: moving,
            };
            self.sensor_data.joint_states.set(i, updated);
            i = i + 1;
        }
        self.sensor_data.imu_data = Some(
            IMUData {
                acceleration: Vector3 {
                    x: noise_in(random_u32(), 50),
                    y: noise_in(random_u32(), 50),
                    z: 9810 + noise_in(random_u32(), 50),
                },
                angular_velocity: Vector3 {
                    x: noise_in(random_u32(), 10),
                    y: noise_in(random_u32(), 10),
                    z: noise_in(random_u32(), 10),
                },
                orientation: Quaternion::identity(),
                temperature: 25_000 + noise_in(random_u32(), 1000),
            },
        );
        self.sensor_data.timestamp = now_ms;
        let ticks: u64 = if self.sensor_loop_count < u64::MAX {
            self.sensor_loop_count + 1
        } else {
            u64::MAX
        };
        let elapsed: u64 = if now_ms >= self.sensor_last_stats_update {
            now_ms - self.sensor_last_stats_update
        } else {
            0
        };
        if elapsed >= 1000 {
            let raw: u128 = (ticks as u128) * 1_000_000 / (elapsed as u128);
            let frequency: u64 = if raw > (u64::MAX as u128) {
                u64::MAX
            } else {
                raw as u64
            };
            self.status.sensor_update_frequency = frequency;
            self.sensor_loop_count = 0;
            self.sensor_last_stats_update = now_ms;
        } else {
            self.sensor_loop_count = ticks;
        }
    }

    /// Advances the rolling one-second loop-rate window: counts this tick
    /// and, once a second, recomputes the control-loop frequency from the
    /// ticks seen since the window opened.
    fn update_loop_stats(&mut self, now_ms: u64)
        ensures
            old(self).wf() ==> final(self).wf(),
            ({
                let ticks = if old(self).loop_count < u64::MAX {
                    old(self).loop_count + 1
                } else {
                    u64::MAX as int
                };
                let elapsed = if now_ms >= old(self).last_stats_update {
                    now_ms - old(self).last_stats_update
                } else {
                    0int
                };
                if elapsed >= 1000 {
                    &&& final(self).loop_count == 0
                    &&& final(self).last_stats_update == now_ms
                    &&& final(self).status.control_loop_frequency == (if ticks * 1_000_000
                        / elapsed > u64::MAX {
                        u64::MAX as int
                    } else {
                        ticks * 1_000_000 / elapsed
                    })
                } else {
                    &&& final(self).loop_count == ticks
                    &&& final(self).last_stats_update == old(self).last_stats_update
                    &&& final(self).status.control_loop_frequency == old(
                        self,
                    ).status.control_loop_frequency
                }
            }),
            final(self).status.is_running == old(self).status.is_running,
            final(self).status.emergency_stop == old(self).status.emergency_stop,
            final(self).status.sensor_update_frequency == old(self).status.sensor_update_frequency,
            final(self).status.active_commands == old(self).status.active_commands,
            final(self).status.last_command_timestamp == old(self).status.last_command_timestamp,
            final(self).status.performance_stats == old(self).status.performance_stats,
            final(self).status.joint_states == old(self).status.joint_states,
            final(self).config == old(self).config,
            final(self).pid_controllers == old(self).pid_controllers,
            final(self).trajectories == old(self).trajectories,
            final(self).command_queue == old(self).command_queue,
            final(self).sensor_data == old(self).sensor_data,
            final(self).is_running == old(self).is_running,
            final(self).emergency_stop == old(self).emergency_stop,
            final(self).sensor_loop_count == old(self).sensor_loop_count,
            final(self).sensor_last_stats_update == old(self).sensor_last_stats_update,
    {
        let ticks: u64 = if self.loop_count < u64::MAX {
            self.loop_count + 1
        } else {
            u64::MAX
        };
        let elapsed: u64 = if now_ms >= self.last_stats_update {
            now_ms - self.last_stats_update
        } else {
            0
        };
        if elapsed >= 1000 {
            let raw: u128 = (ticks as u128) * 1_000_000 / (elapsed as u128);
            let frequency: u64 = if raw > (u64::MAX as u128) {
                u64::MAX
            } else {
                raw as u64
            };
            self.status.control_loop_frequency = frequency;
            self.loop_count = 0;
            self.last_stats_update = now_ms;
        } else {
            self.loop_count = ticks;
        }
    }

    /// One control tick, the strict sequence of the control scheduler:
    /// while the emergency-stop gate is set the tick clears all
    /// trajectories and resets the controllers; otherwise it drains the
    /// command queue, prunes finished trajectories, evaluates the PID
    /// controllers of the remaining ones and returns their efforts for
    /// dispatch.  Either way the tick is counted into the rolling
    /// one-second loop-rate window.  A stopped controller ticks to
    /// nothing.
    pub fn control_tick(&mut self, now_ms: u64) -> (outputs: Vec<(String, i64)>)
        requires
            old(self).wf(),
        ensures
            final(self).wf(),
            !old(self).is_running ==> (*final(self) == *old(self) && outputs@.len() == 0),
            (old(self).is_running && old(self).emergency_stop) ==> {
                &&& outputs@.len() == 0
                &&& forall|i: int| 0 <= i < final(self).trajectories@.len() ==> (
                #[trigger] final(self).trajectories@[i]) is None
                &&& active_count(final(self).trajectories@) == 0
                &&& final(self).trajectories@.len() == old(self).trajectories@.len()
                &&& final(self).pid_controllers@.len() == old(self).pid_controllers@.len()
                &&& forall|i: int| 0 <= i < final(self).pid_controllers@.len() ==> (
                #[trigger] final(self).pid_controllers@[i]).integral == 0 && final(self).pid_controllers@[i].last_error == 0 && final(self).pid_controllers@[i].last_time == now_ms && final(self).pid_controllers@[i].gains
                    == old(self).pid_controllers@[i].gains
                &&& final(self).command_queue == old(self).command_queue
                &&& final(self).sensor_data == old(self).sensor_data
                &&& final(self).config == old(self).config
                &&& final(self).is_running
                &&& final(self).emergency_stop
                &&& final(self).status.is_running == old(self).status.is_running
                &&& final(self).status.emergency_stop == old(self).status.emergency_stop
                &&& final(self).status.active_commands == old(self).status.active_commands
                &&& final(self).status.last_command_timestamp == old(self).status.last_command_timestamp
                &&& final(self).status.sensor_update_frequency == old(self).status.sensor_update_frequency
                &&& final(self).status.performance_stats == old(self).status.performance_stats
                &&& final(self).status.joint_states == old(self).status.joint_states
                &&& control_stats_after(*old(self), *final(self), now_ms as int)
            },
            (old(self).is_running && !old(self).emergency_stop) ==> {
                let drained = drain_spec(
                    old(self).config,
                    old(self).sensor_data.joint_states@,
                    old(self).trajectories@,
                    old(self).command_queue@,
                    now_ms as int,
                );
                let pruned = prune_spec(drained.0, now_ms as int);
                &&& final(self).trajectories@ == pruned
                &&& final(self).command_queue@ == drained.1
                &&& final(self).pid_controllers@ == controllers_after_spec(
                    old(self).sensor_data.joint_states@,
                    pruned,
                    old(self).pid_controllers@,
                    now_ms as int,
                )
                &&& outputs@ == outputs_spec(
                    old(self).config,
                    old(self).sensor_data.joint_states@,
                    pruned,
                    old(self).pid_controllers@,
                    now_ms as int,
                    0,
                )
                &&& final(self).sensor_data == old(self).sensor_data
                &&& final(self).config == old(self).config
                &&& final(self).is_running
                &&& !final(self).emergency_stop
                &&& final(self).status.is_running == old(self).status.is_running
                &&& final(self).status.emergency_stop == old(self).status.emergency_stop
                &&& final(self).status.active_commands == old(self).status.active_commands
                &&& final(self).status.last_command_timestamp == old(self).status.last_command_timestamp
                &&& final(self).status.sensor_update_frequency == old(self).status.sensor_update_frequency
                &&& final(self).status.performance_stats == old(self).status.performance_stats
                &&& final(self).status.joint_states == old(self).status.joint_states
                &&& control_stats_after(*old(self), *final(self), now_ms as int)
            },
    {
        if !self.is_running {
            return Vec::new();
        }
        if self.emergency_stop {
            self.handle_emergency_stop(now_ms);
            self.update_loop_stats(now_ms);
            return Vec::new();
        }
        self.process_command_queue(now_ms);
        self.prune_finished(now_ms);
        let outputs = self.update_control(now_ms);
        self.update_loop_stats(now_ms);
        outputs
    }
}

impl crate::common::LifecycleManager for RealtimeController {
    fn start(&mut self) -> Result<(), crate::ReachyMiniError> {
        RealtimeController::start(self)
    }

    fn stop(&mut self) -> Result<(), crate::ReachyMiniError> {
        RealtimeController::stop(self)
    }

    fn is_running(&self) -> bool {
        RealtimeController::is_running(self)
    }
}


/// A queue of nothing but stale commands leaves the trajectory table
/// untouched: draining it drops every command unapplied.
pub proof fn lemma_stale_queue_has_no_effect(
    cfg: RealtimeConfig,
    states: Seq<JointState>,
    trajs: Seq<Option<TrajectoryGenerator>>,
    cmds: Seq<MotionCommand>,
    now: int,
)
    requires
        forall|i: int| 0 <= i < cmds.len() ==> command_stale(
            #[trigger] cmds[i],
            now,
            cfg.command_timeout_ms as int,
        ),
    ensures
        drain_spec(cfg, states, trajs, cmds, now).0 == trajs,
        drain_spec(cfg, states, trajs, cmds, now).1.len() == 0,
    decreases cmds.len(),
{
    if cmds.len() > 0 {
        let t = cmds.skip(1);
        assert(forall|i: int| 0 <= i < t.len() ==> t[i] == cmds[i + 1]);
        assert(forall|i: int| 0 <= i < t.len() ==> command_stale(
            #[trigger] t[i],
            now,
            cfg.command_timeout_ms as int,
        ));
        lemma_stale_queue_has_no_effect(cfg, states, trajs, t, now);
    }
}

} // verus!
