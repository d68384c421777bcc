//! Lifecycle management for a compiled inference engine: shapes, tensor
//! descriptors, engine metadata and the allocate / inference protocol.
//!
//! Native calls (the engine runtime, the device allocator) are made by the
//! caller; the library decides what to ask for and what each answer means.

pub mod engine;
pub mod error;
pub mod plugin;
pub mod runtime;
pub mod shape;
pub mod tensor;
pub mod types;

pub use engine::{Action, Job, Outcome, Stage, TRTEngine};
pub use error::{TRTError, TRTResult};
pub use plugin::{PluginLibraryHandle, load_library, unload_library};
pub use runtime::{CudaEngine, ExecutionContext, IoTensorInfo};
pub use shape::Shape;
pub use tensor::{DeviceCopy, Tensor};
pub use types::{
    DataType, EngineCapability, HardwareCompatibilityLevel, ProfilingVerbosity, Severity,
    TensorFormat, TensorIOMode,
};
