//! Configuration and bookkeeping types of the inference subsystem.
//!
//! The inference engine itself runs outside this crate; here live the
//! validated configuration tree and the status records it reports.
//! Thresholds are fixed-point integers in thousandths.

use vstd::prelude::*;
use vstd::string::*;
use crate::common::ConfigValidation;
use crate::config::{ConfigError, first_failing, lemma_first_failing};

verus! {

/// Compute device the models run on.
#[derive(Debug, Clone, Copy, PartialEq, Eq, Structural)]
pub enum DeviceType {
    CPU,
    CUDA(u32),
    OpenCL(u32),
    Metal,
}

/// Interpolation used when resizing model inputs.
#[derive(Debug, Clone, Copy, PartialEq, Eq, Structural)]
pub enum ResizeMethod {
    Nearest,
    Bilinear,
    Bicubic,
}

/// Element type of a tensor.
#[derive(Debug, Clone, Copy, PartialEq, Eq, Structural)]
pub enum DataType {
    Float32,
    Float64,
    Int32,
    Int64,
    UInt8,
    Bool,
}

/// A raw tensor: flattened integer samples in thousandths, with its shape.
#[derive(Debug, Clone)]
pub struct TensorData {
    pub data: Vec<i64>,
    pub shape: Vec<i64>,
    pub dtype: DataType,
}

/// Faults of the inference subsystem.
#[derive(Debug, Clone, PartialEq, Eq)]
pub enum AIError {
    ModelLoad(String),
    Inference(String),
    Preprocessing(String),
    Postprocessing(String),
    Device(String),
    Memory(String),
    Timeout,
    ModelNotFound(String),
    InvalidInput(String),
}

/// One model's load and decode parameters; thresholds in thousandths.
#[derive(Debug, Clone)]
pub struct ModelConfig {
    pub model_path: String,
    pub input_shape: Vec<i64>,
    pub output_names: Vec<String>,
    pub confidence_threshold: i64,
    pub nms_threshold: i64,
    pub class_names: Vec<String>,
}

impl ModelConfig {
    pub open spec fn valid(&self) -> bool {
        &&& self.model_path@.len() > 0
        &&& self.input_shape@.len() > 0
        &&& self.output_names@.len() > 0
        &&& 0 <= self.confidence_threshold <= 1000
        &&& 0 <= self.nms_threshold <= 1000
    }

    pub open spec fn validate_spec(&self) -> Result<(), ConfigError> {
        if self.model_path@.len() == 0 {
            Err(ConfigError::ModelPathEmpty)
        } else if self.input_shape@.len() == 0 {
            Err(ConfigError::ModelInputShapeEmpty)
        } else if self.output_names@.len() == 0 {
            Err(ConfigError::ModelOutputNamesEmpty)
        } else if self.confidence_threshold < 0 || self.confidence_threshold > 1000 {
            Err(ConfigError::ModelConfidenceOutOfRange)
        } else if self.nms_threshold < 0 || self.nms_threshold > 1000 {
            Err(ConfigError::ModelNmsOutOfRange)
        } else {
            Ok(())
        }
    }

    pub fn validate(&self) -> (r: Result<(), ConfigError>)
        ensures
            r == self.validate_spec(),
            (r is Ok) <==> self.valid(),
    {
        if self.model_path.as_str().is_empty() {
            return Err(ConfigError::ModelPathEmpty);
        }
        if self.input_shape.len() == 0 {
            return Err(ConfigError::ModelInputShapeEmpty);
        }
        if self.output_names.len() == 0 {
            return Err(ConfigError::ModelOutputNamesEmpty);
        }
        if self.confidence_threshold < 0 || self.confidence_threshold > 1000 {
            return Err(ConfigError::ModelConfidenceOutOfRange);
        }
        if self.nms_threshold < 0 || self.nms_threshold > 1000 {
            return Err(ConfigError::ModelNmsOutOfRange);
        }
        Ok(())
    }
}

impl ConfigValidation for ModelConfig {
    fn validate(&self) -> Result<(), ConfigError> {
        ModelConfig::validate(self)
    }
}

/// Input normalization and resizing; means and deviations in thousandths.
#[derive(Debug)]
pub struct PreprocessingConfig {
    pub normalize: bool,
    pub mean: Vec<i64>,
    pub std: Vec<i64>,
    pub resize_method: ResizeMethod,
    pub target_size: (u32, u32),
    pub keep_aspect_ratio: bool,
}

impl Default for PreprocessingConfig {
    /// Standard channel statistics with bilinear resizing.
    fn default() -> (r: Self)
        ensures
            r.normalize,
            r.mean@.len() == 3,
            r.std@.len() == 3,
            r.resize_method == ResizeMethod::Bilinear,
            r.target_size == (640u32, 640u32),
            r.keep_aspect_ratio,
    {
        let mut mean: Vec<i64> = Vec::new();
        mean.push(485);
        mean.push(456);
        mean.push(406);
        let mut std: Vec<i64> = Vec::new();
        std.push(229);
        std.push(224);
        std.push(225);
        PreprocessingConfig {
            normalize: true,
            mean,
            std,
            resize_method: ResizeMethod::Bilinear,
            target_size: (640, 640),
            keep_aspect_ratio: true,
        }
    }
}

/// Detection decoding bounds; thresholds in thousandths.
#[derive(Debug, Clone)]
pub struct PostprocessingConfig {
    pub apply_nms: bool,
    pub max_detections: usize,
    pub score_threshold: i64,
    pub iou_threshold: i64,
}

impl Default for PostprocessingConfig {
    /// Non-maximum suppression on, moderate thresholds.
    fn default() -> (r: Self)
        ensures
            r.apply_nms,
            r.max_detections == 100,
            r.score_threshold == 500,
            r.iou_threshold == 400,
    {
        PostprocessingConfig {
            apply_nms: true,
            max_detections: 100,
            score_threshold: 500,
            iou_threshold: 400,
        }
    }
}

/// Whether every named model entry passes validation.
pub open spec fn model_entry_ok(e: (String, ModelConfig)) -> bool {
    e.1.valid()
}

/// The model predicate as a first-class spec function.
pub open spec fn model_ok_fn() -> spec_fn((String, ModelConfig)) -> bool {
    |e: (String, ModelConfig)| model_entry_ok(e)
}

/// The inference subsystem's configuration.
#[derive(Debug)]
pub struct AIConfig {
    pub model_path: String,
    pub device: DeviceType,
    pub batch_size: usize,
    pub max_sequence_length: usize,
    pub inference_timeout_ms: u64,
    pub model_configs: Vec<(String, ModelConfig)>,
    pub preprocessing_config: PreprocessingConfig,
    pub postprocessing_config: PostprocessingConfig,
    pub cache_size: usize,
    pub enable_tensorrt: bool,
    pub enable_quantization: bool,
}

impl AIConfig {
    pub open spec fn valid(&self) -> bool {
        &&& self.model_path@.len() > 0
        &&& self.batch_size > 0
        &&& self.max_sequence_length > 0
        &&& self.inference_timeout_ms > 0
        &&& forall|i: int| 0 <= i < self.model_configs@.len() ==> model_entry_ok(
            #[trigger] self.model_configs@[i],
        )
    }

    pub open spec fn validate_spec(&self) -> Result<(), ConfigError> {
        if self.model_path@.len() == 0 {
            Err(ConfigError::AiModelPathEmpty)
        } else if self.batch_size == 0 {
            Err(ConfigError::AiBatchSizeZero)
        } else if self.max_sequence_length == 0 {
            Err(ConfigError::AiMaxSequenceLengthZero)
        } else if self.inference_timeout_ms == 0 {
            Err(ConfigError::AiInferenceTimeoutZero)
        } else if first_failing(self.model_configs@, model_ok_fn()) >= 0 {
            Err(
                ConfigError::ModelInvalid(
                    self.model_configs@[first_failing(self.model_configs@, model_ok_fn())].0,
                ),
            )
        } else {
            Ok(())
        }
    }

    pub fn validate(&self) -> (r: Result<(), ConfigError>)
        ensures
            r == self.validate_spec(),
            (r is Ok) <==> self.valid(),
    {
        proof {
            lemma_first_failing(self.model_configs@, model_ok_fn());
        }
        if self.model_path.as_str().is_empty() {
            return Err(ConfigError::AiModelPathEmpty);
        }
        if self.batch_size == 0 {
            return Err(ConfigError::AiBatchSizeZero);
        }
        if self.max_sequence_length == 0 {
            return Err(ConfigError::AiMaxSequenceLengthZero);
        }
        if self.inference_timeout_ms == 0 {
            return Err(ConfigError::AiInferenceTimeoutZero);
        }
        let mut i: usize = 0;
        while i < self.model_configs.len()
            invariant
                i <= self.model_configs@.len(),
                forall|j: int| 0 <= j < i ==> model_entry_ok(#[trigger] self.model_configs@[j]),
                self.model_path@.len() > 0,
                self.batch_size > 0,
                self.max_sequence_length > 0,
                self.inference_timeout_ms > 0,
            decreases self.model_configs@.len() - i,
        {
            if let Err(_cause) = self.model_configs[i].1.validate() {
                proof {
                    let okf = model_ok_fn();
                    let sq = self.model_configs@;
                    lemma_first_failing(sq, okf);
                    let f = first_failing(sq, okf);
                    assert(!okf(sq[i as int]));
                    if f == -1 {
                        assert(okf(sq[i as int]));
                        assert(false);
                    }
                    if 0 <= f < i {
                        assert(model_entry_ok(sq[f]));
                        assert(!okf(sq[f]));
                        assert(false);
                    }
                    if f > i {
                        assert(okf(sq[i as int]));
                        assert(false);
                    }
                    assert(f == i);
                }
                return Err(ConfigError::ModelInvalid(self.model_configs[i].0.clone()));
            }
            i = i + 1;
        }
        proof {
            assert(forall|j: int| 0 <= j < self.model_configs@.len() ==> (model_ok_fn())(
                #[trigger] self.model_configs@[j],
            ));
        }
        Ok(())
    }
}

impl ConfigValidation for AIConfig {
    fn validate(&self) -> Result<(), ConfigError> {
        AIConfig::validate(self)
    }
}

impl Default for AIConfig {
    /// CPU inference over an empty model table.
    fn default() -> (r: Self)
        ensures
            r.valid(),
            r.device == DeviceType::CPU,
            r.batch_size == 1,
            r.max_sequence_length == 512,
            r.inference_timeout_ms == 5000,
            r.cache_size == 100,
            !r.enable_tensorrt,
            !r.enable_quantization,
    {
        proof {
            reveal_strlit("models/");
        }
        AIConfig {
            model_path: "models/".to_owned(),
            device: DeviceType::CPU,
            batch_size: 1,
            max_sequence_length: 512,
            inference_timeout_ms: 5000,
            model_configs: Vec::new(),
            preprocessing_config: PreprocessingConfig::default(),
            postprocessing_config: PostprocessingConfig::default(),
            cache_size: 100,
            enable_tensorrt: false,
            enable_quantization: false,
        }
    }
}

/// Identity and memory of the compute device.
#[derive(Debug, Clone)]
pub struct DeviceInfo {
    pub device_type: String,
    pub device_name: String,
    pub compute_capability: String,
    pub memory_total: u64,
    pub memory_available: u64,
}

impl Default for DeviceInfo {
    /// An unidentified CPU device.
    fn default() -> (r: Self)
        ensures
            r.device_type@ == "CPU"@,
            r.memory_total == 0,
            r.memory_available == 0,
    {
        proof {
            reveal_strlit("CPU");
            reveal_strlit("Unknown");
        }
        DeviceInfo {
            device_type: "CPU".to_owned(),
            device_name: "Unknown".to_owned(),
            compute_capability: "Unknown".to_owned(),
            memory_total: 0,
            memory_available: 0,
        }
    }
}

/// Rolling inference counters; the average latency is in microseconds and
/// the throughput in thousandths of an inference per second.
#[derive(Debug, Clone, Copy)]
pub struct InferenceStats {
    pub total_inferences: u64,
    pub successful_inferences: u64,
    pub failed_inferences: u64,
    pub average_inference_time_us: u64,
    pub throughput: u64,
    pub last_inference_time: u64,
}

impl Default for InferenceStats {
    /// All counters at zero.
    fn default() -> (r: Self)
        ensures
            r.total_inferences == 0,
            r.successful_inferences == 0,
            r.failed_inferences == 0,
            r.average_inference_time_us == 0,
            r.throughput == 0,
            r.last_inference_time == 0,
    {
        InferenceStats {
            total_inferences: 0,
            successful_inferences: 0,
            failed_inferences: 0,
            average_inference_time_us: 0,
            throughput: 0,
            last_inference_time: 0,
        }
    }
}

/// Memory held by the inference subsystem, in kilobytes.
#[derive(Debug, Clone, Copy)]
pub struct MemoryUsage {
    pub model_memory_kb: u64,
    pub cache_memory_kb: u64,
    pub total_memory_kb: u64,
    pub peak_memory_kb: u64,
}

impl Default for MemoryUsage {
    /// Nothing allocated yet.
    fn default() -> (r: Self)
        ensures
            r.model_memory_kb == 0,
            r.cache_memory_kb == 0,
            r.total_memory_kb == 0,
            r.peak_memory_kb == 0,
    {
        MemoryUsage { model_memory_kb: 0, cache_memory_kb: 0, total_memory_kb: 0, peak_memory_kb: 0 }
    }
}

/// Point-in-time description of the inference subsystem.
#[derive(Debug, Clone)]
pub struct AIStatus {
    pub is_running: bool,
    pub loaded_models: Vec<String>,
    pub device_info: DeviceInfo,
    pub inference_stats: InferenceStats,
    pub memory_usage: MemoryUsage,
}

impl Default for AIStatus {
    /// A stopped engine with nothing loaded.
    fn default() -> (r: Self)
        ensures
            !r.is_running,
            r.loaded_models@.len() == 0,
    {
        AIStatus {
            is_running: false,
            loaded_models: Vec::new(),
            device_info: DeviceInfo::default(),
            inference_stats: InferenceStats::default(),
            memory_usage: MemoryUsage::default(),
        }
    }
}

/// A semantic segmentation mask with the classes present in it.
#[derive(Debug, Clone)]
pub struct SegmentationResult {
    pub mask: Vec<u8>,
    pub width: u32,
    pub height: u32,
    pub classes: Vec<u32>,
}

impl SegmentationResult {
    /// Whether the mask buffer matches the declared dimensions.
    pub fn is_complete(&self) -> (r: bool)
        ensures
            r == (self.mask@.len() == self.width * self.height),
    {
        proof {
            assert((self.width as int) * (self.height as int) < 0x1_0000_0000_0000_0000) by (
            nonlinear_arith)
                requires
                    0 <= self.width < 0x1_0000_0000,
                    0 <= self.height < 0x1_0000_0000,
            ;
            assert(0 <= (self.width as int) * (self.height as int)) by (nonlinear_arith)
                requires
                    0 <= self.width,
                    0 <= self.height,
            ;
        }
        let expected: u64 = (self.width as u64) * (self.height as u64);
        (self.mask.len() as u64) == expected
    }
}

} // verus!
