//! System-wide constants.
//!
//! Continuous physical quantities are carried throughout this crate as
//! fixed-point integers: one unit of the stored integer is one thousandth
//! (`MILLI`) of the physical unit (degree, degree/s, volt, ...).  Times are
//! millisecond counts.

use vstd::prelude::*;

verus! {

/// Number of fixed-point steps per physical unit.
pub const MILLI: i64 = 1000;

/// Largest magnitude, in thousandths of a unit, that a validated
/// configuration value (position bound, velocity bound, gain, ...) may have.
/// Keeping every configured quantity within this range lets all control
/// arithmetic be carried out exactly in 128-bit intermediates.
pub const MAG_LIMIT: i64 = 1_000_000_000_000_000;

/// Largest component magnitude, in thousandths of a unit, accepted by the
/// three-dimensional vector operations.
pub const VEC_LIMIT: i64 = 1_000_000_000;

/// Default timeout for hardware transactions, in milliseconds.
pub const DEFAULT_TIMEOUT_MS: u64 = 5000;

/// Default retry count for hardware transactions.
pub const DEFAULT_RETRY_COUNT: u32 = 3;

/// Default I/O buffer size in bytes.
pub const DEFAULT_BUFFER_SIZE: usize = 1048576;

/// Largest accepted camera image width, in pixels.
pub const MAX_IMAGE_WIDTH: u32 = 1920;

/// Largest accepted camera image height, in pixels.
pub const MAX_IMAGE_HEIGHT: u32 = 1080;

/// Largest joint velocity, in thousandths of a radian per second.
pub const MAX_JOINT_VELOCITY: i64 = 3140;

/// Largest joint acceleration, in thousandths of a radian per second squared.
pub const MAX_JOINT_ACCELERATION: i64 = 10_000;

/// Default WebSocket port.
pub const DEFAULT_WEBSOCKET_PORT: u16 = 8765;

/// Default HTTP port.
pub const DEFAULT_HTTP_PORT: u16 = 8000;

/// Target frame rate of the vision pipeline, in thousandths of a frame per second.
pub const TARGET_FPS: u64 = 30_000;

/// Largest per-frame processing budget, in milliseconds.
pub const MAX_PROCESSING_TIME_MS: u64 = 33;

} // verus!
