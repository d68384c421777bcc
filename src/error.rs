use vstd::prelude::*;

verus! {

/// Everything that can go wrong while loading, binding or running an engine.
#[derive(Clone, Debug)]
pub enum TRTError {
    /// Reading the serialized engine failed; holds the reader's message.
    IOError(String),
    /// The device reported a failure; holds the driver's result code.
    CudaError(u32),
    RuntimeCreationError,
    EngineDeserializationError,
    EngineCreationError,
    ExecutionContextNotInitialized,
    ExecutionContextCreationError,
    /// A shape was negative where it must be resolved, or the runtime refused it.
    ShapeError(Vec<i32>),
    InvalidAddress,
    EnqueueError,
    /// A tensor was asked to grow beyond its allocation.
    ResetShapesError,
    ShapeMismatch,
    DTypeMismatch,
}

pub type TRTResult<T> = Result<T, TRTError>;

/// `r` failed with a shape error that carries `dims`.
pub open spec fn is_shape_error<T>(r: Result<T, TRTError>, dims: Seq<i32>) -> bool {
    match r {
        Err(TRTError::ShapeError(d)) => d@ == dims,
        _ => false,
    }
}

impl TRTError {
    /// A short description of the error.
    pub fn message(&self) -> (r: String) {
        let s = match self {
            TRTError::IOError(_) => "IO error",
            TRTError::CudaError(_) => "Cuda error",
            TRTError::RuntimeCreationError => "TensorRT runtime creation error",
            TRTError::EngineDeserializationError => "TensorRT engine deserialization error",
            TRTError::EngineCreationError => "TensorRT engine creation error",
            TRTError::ExecutionContextNotInitialized => "TensorRT execution context not initialized",
            TRTError::ExecutionContextCreationError => "TensorRT execution context creation error",
            TRTError::ShapeError(_) => "TensorRT invalid shape",
            TRTError::InvalidAddress => "TensorRT invalid address",
            TRTError::EnqueueError => "TensorRT enqueue error",
            TRTError::ResetShapesError => "TensorRT reset shapes error",
            TRTError::ShapeMismatch => "TensorRT shape mismatch",
            TRTError::DTypeMismatch => "TensorRT dtype mismatch",
        };
        s.to_string()
    }
}

} // verus!
