//! Configuration, status and result types of the vision pipeline.
//!
//! Camera capture and image processing run outside this crate; here live
//! the validated capture settings and the records detections are reported
//! in.  Confidences are fixed-point integers in thousandths; frame rates
//! in thousandths of a frame per second.

use vstd::prelude::*;
use vstd::string::*;
use crate::common::{ConfigValidation, ImageData, PerformanceStats};
use crate::config::ConfigError;

verus! {

/// Capture and detection settings of the vision pipeline.
#[derive(Debug, Clone)]
pub struct VisionConfig {
    pub camera_index: i32,
    pub frame_width: i32,
    pub frame_height: i32,
    pub fps: i64,
    pub buffer_size: usize,
    pub enable_face_detection: bool,
    pub enable_object_detection: bool,
    pub enable_feature_detection: bool,
    pub face_cascade_path: String,
    pub processing_threads: usize,
}

impl VisionConfig {
    pub open spec fn valid(&self) -> bool {
        &&& self.camera_index >= 0
        &&& self.frame_width > 0
        &&& self.frame_height > 0
        &&& self.fps > 0
        &&& self.buffer_size > 0
    }

    pub open spec fn validate_spec(&self) -> Result<(), ConfigError> {
        if self.camera_index < 0 {
            Err(ConfigError::CameraIndexNegative)
        } else if self.frame_width <= 0 || self.frame_height <= 0 {
            Err(ConfigError::FrameSizeNotPositive)
        } else if self.fps <= 0 {
            Err(ConfigError::FrameRateNotPositive)
        } else if self.buffer_size == 0 {
            Err(ConfigError::FrameBufferZero)
        } else {
            Ok(())
        }
    }

    pub fn validate(&self) -> (r: Result<(), ConfigError>)
        ensures
            r == self.validate_spec(),
            (r is Ok) <==> self.valid(),
    {
        if self.camera_index < 0 {
            return Err(ConfigError::CameraIndexNegative);
        }
        if self.frame_width <= 0 || self.frame_height <= 0 {
            return Err(ConfigError::FrameSizeNotPositive);
        }
        if self.fps <= 0 {
            return Err(ConfigError::FrameRateNotPositive);
        }
        if self.buffer_size == 0 {
            return Err(ConfigError::FrameBufferZero);
        }
        Ok(())
    }
}

impl ConfigValidation for VisionConfig {
    fn validate(&self) -> Result<(), ConfigError> {
        VisionConfig::validate(self)
    }
}

impl Default for VisionConfig {
    /// VGA capture at 30 fps with face detection enabled.
    fn default() -> (r: Self)
        ensures
            r.valid(),
            r.camera_index == 0,
            r.frame_width == 640,
            r.frame_height == 480,
            r.fps == 30_000,
            r.buffer_size == 10,
            r.enable_face_detection,
            !r.enable_object_detection,
            !r.enable_feature_detection,
            r.processing_threads == 2,
    {
        proof {
            reveal_strlit("data/haarcascade_frontalface_alt.xml");
        }
        VisionConfig {
            camera_index: 0,
            frame_width: 640,
            frame_height: 480,
            fps: 30_000,
            buffer_size: 10,
            enable_face_detection: true,
            enable_object_detection: false,
            enable_feature_detection: false,
            face_cascade_path: "data/haarcascade_frontalface_alt.xml".to_owned(),
            processing_threads: 2,
        }
    }
}

/// Point-in-time description of the vision pipeline.
#[derive(Debug, Clone)]
pub struct VisionStatus {
    pub is_running: bool,
    pub camera_connected: bool,
    pub current_fps: u64,
    pub frames_processed: u64,
    pub frames_dropped: u64,
    pub last_frame_timestamp: u64,
    pub processing_stats: PerformanceStats,
}

impl Default for VisionStatus {
    /// A stopped pipeline with no camera.
    fn default() -> (r: Self)
        ensures
            !r.is_running,
            !r.camera_connected,
            r.current_fps == 0,
            r.frames_processed == 0,
            r.frames_dropped == 0,
            r.last_frame_timestamp == 0,
    {
        VisionStatus {
            is_running: false,
            camera_connected: false,
            current_fps: 0,
            frames_processed: 0,
            frames_dropped: 0,
            last_frame_timestamp: 0,
            processing_stats: PerformanceStats::new(),
        }
    }
}

/// One detected face; confidence in thousandths.
#[derive(Debug, Clone, Copy, PartialEq, Eq, Structural)]
pub struct FaceDetection {
    pub x: i32,
    pub y: i32,
    pub width: i32,
    pub height: i32,
    pub confidence: i64,
}

/// One detected object; confidence in thousandths.
#[derive(Debug, Clone)]
pub struct ObjectDetection {
    pub class_id: i32,
    pub class_name: String,
    pub x: i32,
    pub y: i32,
    pub width: i32,
    pub height: i32,
    pub confidence: i64,
}

/// One detected keypoint; coordinates and response in thousandths.
#[derive(Debug, Clone, Copy, PartialEq, Eq, Structural)]
pub struct FeaturePoint {
    pub x: i64,
    pub y: i64,
    pub response: i64,
}

/// Everything one frame's detectors found.
#[derive(Debug, Clone)]
pub struct DetectionResult {
    pub faces: Vec<FaceDetection>,
    pub objects: Vec<ObjectDetection>,
    pub features: Vec<FeaturePoint>,
    pub timestamp: u64,
}

/// Faults of the vision pipeline.
#[derive(Debug, Clone, PartialEq, Eq)]
pub enum VisionError {
    Camera(String),
    ImageProcessing(String),
    Detector(String),
    Config(String),
}

/// One captured frame with whatever detections ran on it.
#[derive(Debug, Clone)]
pub struct FrameData {
    pub image: ImageData,
    pub detection_result: Option<DetectionResult>,
    pub timestamp: u64,
}

} // verus!
