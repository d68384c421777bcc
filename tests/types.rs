use tensorrt::{
    DataType, EngineCapability, HardwareCompatibilityLevel, ProfilingVerbosity, Severity,
    TensorFormat, TensorIOMode, TRTError,
};

#[test]
fn io_mode_codes_round_trip() {
    for code in 0i32..3 {
        assert_eq!(TensorIOMode::from_code(code).unwrap().code(), code);
    }
    assert_eq!(TensorIOMode::from_code(1), Some(TensorIOMode::INPUT));
    assert_eq!(TensorIOMode::from_code(3), None);
    assert_eq!(TensorIOMode::from_code(-1), None);
    assert!(TensorIOMode::INPUT.is_input());
    assert!(!TensorIOMode::OUTPUT.is_input());
}

#[test]
fn format_codes_round_trip() {
    for code in 0i32..13 {
        assert_eq!(TensorFormat::from_code(code).unwrap().code(), code);
    }
    assert_eq!(TensorFormat::from_code(8), Some(TensorFormat::HWC));
    assert_eq!(TensorFormat::from_code(13), None);
}

#[test]
fn capability_and_level_codes() {
    assert_eq!(EngineCapability::from_code(2), Some(EngineCapability::DLASTANDALONE));
    assert_eq!(EngineCapability::from_code(3), None);
    assert_eq!(EngineCapability::SAFETY.code(), 1);
    assert_eq!(HardwareCompatibilityLevel::from_code(1), Some(HardwareCompatibilityLevel::AMPEREPLUS));
    assert_eq!(HardwareCompatibilityLevel::from_code(2), None);
    assert_eq!(HardwareCompatibilityLevel::NONE.code(), 0);
    assert_eq!(ProfilingVerbosity::DETAILED.code(), 2);
    assert_eq!(ProfilingVerbosity::LAYERNAMESONLY.code(), 0);
}

#[test]
fn severity_codes() {
    assert_eq!(Severity::InternalError.code(), 0);
    assert_eq!(Severity::Error.code(), 1);
    assert_eq!(Severity::Warning.code(), 2);
    assert_eq!(Severity::Info.code(), 3);
    assert_eq!(Severity::Verbose.code(), 4);
}

#[test]
fn data_type_widths_and_codes() {
    assert_eq!(DataType::FLOAT.get_elem_size(), 4);
    assert_eq!(DataType::HALF.get_elem_size(), 2);
    assert_eq!(DataType::INT8.get_elem_size(), 1);
    assert_eq!(DataType::INT64.get_elem_size(), 8);
    for code in 0i32..9 {
        assert_eq!(DataType::from_code(code).unwrap().code(), code);
    }
    assert_eq!(DataType::from_code(9), None);
}

#[test]
fn error_messages() {
    assert_eq!(TRTError::EnqueueError.message(), "TensorRT enqueue error");
    assert_eq!(TRTError::ShapeMismatch.message(), "TensorRT shape mismatch");
}

#[test]
fn plugin_handles() {
    assert_eq!(tensorrt::load_library(0), None);
    assert_eq!(tensorrt::load_library(0x7f00), Some(0x7f00));
    assert!(tensorrt::unload_library(0x7f00));
    assert!(!tensorrt::unload_library(0));
}
