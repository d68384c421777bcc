use vstd::prelude::*;

verus! {

/// Whether an engine tensor is read, written, or neither.
#[allow(non_camel_case_types, clippy::upper_case_acronyms)]
#[derive(Clone, Copy, Debug, PartialEq, Eq, Structural)]
pub enum TensorIOMode {
    NONE,
    INPUT,
    OUTPUT,
}

impl TensorIOMode {
    pub open spec fn spec_code(self) -> i32 {
        match self {
            TensorIOMode::NONE => 0,
            TensorIOMode::INPUT => 1,
            TensorIOMode::OUTPUT => 2,
        }
    }

    /// The runtime's integer code of this mode.
    pub fn code(self) -> (r: i32)
        ensures
            r == self.spec_code(),
    {
        match self {
            TensorIOMode::NONE => 0,
            TensorIOMode::INPUT => 1,
            TensorIOMode::OUTPUT => 2,
        }
    }

    /// The mode with the given runtime code; `None` for a code out of range.
    pub fn from_code(code: i32) -> (r: Option<TensorIOMode>)
        ensures
            match r {
                Some(m) => m.spec_code() == code,
                None => !(0 <= code <= 2),
            },
    {
        match code {
            0 => Some(TensorIOMode::NONE),
            1 => Some(TensorIOMode::INPUT),
            2 => Some(TensorIOMode::OUTPUT),
            _ => None,
        }
    }

    pub fn is_input(self) -> (r: bool)
        ensures
            r == (self == TensorIOMode::INPUT),
    {
        matches!(self, TensorIOMode::INPUT)
    }
}

/// Memory layout of a tensor.
#[allow(non_camel_case_types, clippy::upper_case_acronyms)]
#[derive(Clone, Copy, Debug, PartialEq, Eq, Structural)]
pub enum TensorFormat {
    /// Row major linear format.
    LINEAR,
    /// Two wide channel vectorized row major format (FP16, rank >= 3).
    CHW2,
    /// Eight channel format, C padded to a multiple of 8 (FP16, rank >= 3).
    HWC8,
    /// Four wide channel vectorized row major format (INT8 or FP16, rank >= 3).
    CHW4,
    /// Sixteen wide channel vectorized row major format (FP16, rank >= 3).
    CHW16,
    /// Thirty-two wide channel vectorized row major format (rank >= 3).
    CHW32,
    /// Eight channel format, C padded to a multiple of 8 (FP16, rank >= 4).
    DHWC8,
    /// Thirty-two wide channel vectorized row major format (FP16 and INT8, rank >= 4).
    CDHW32,
    /// Non-vectorized channel-last format (FP32 or UINT8, rank >= 3).
    HWC,
    /// DLA planar format.
    DLALINEAR,
    /// DLA image format.
    DLAHWC4,
    /// Sixteen channel format, C padded to a multiple of 16 (FP16, rank >= 3).
    HWC16,
    /// Non-vectorized channel-last format (FP32, rank >= 4).
    DHWC,
}

impl TensorFormat {
    pub open spec fn spec_code(self) -> i32 {
        match self {
            TensorFormat::LINEAR => 0,
            TensorFormat::CHW2 => 1,
            TensorFormat::HWC8 => 2,
            TensorFormat::CHW4 => 3,
            TensorFormat::CHW16 => 4,
            TensorFormat::CHW32 => 5,
            TensorFormat::DHWC8 => 6,
            TensorFormat::CDHW32 => 7,
            TensorFormat::HWC => 8,
            TensorFormat::DLALINEAR => 9,
            TensorFormat::DLAHWC4 => 10,
            TensorFormat::HWC16 => 11,
            TensorFormat::DHWC => 12,
        }
    }

    /// The runtime's integer code of this format.
    pub fn code(self) -> (r: i32)
        ensures
            r == self.spec_code(),
    {
        match self {
            TensorFormat::LINEAR => 0,
            TensorFormat::CHW2 => 1,
            TensorFormat::HWC8 => 2,
            TensorFormat::CHW4 => 3,
            TensorFormat::CHW16 => 4,
            TensorFormat::CHW32 => 5,
            TensorFormat::DHWC8 => 6,
            TensorFormat::CDHW32 => 7,
            TensorFormat::HWC => 8,
            TensorFormat::DLALINEAR => 9,
            TensorFormat::DLAHWC4 => 10,
            TensorFormat::HWC16 => 11,
            TensorFormat::DHWC => 12,
        }
    }

    /// The format with the given runtime code; `None` for a code out of range.
    pub fn from_code(code: i32) -> (r: Option<TensorFormat>)
        ensures
            match r {
                Some(f) => f.spec_code() == code,
                None => !(0 <= code <= 12),
            },
    {
        match code {
            0 => Some(TensorFormat::LINEAR),
            1 => Some(TensorFormat::CHW2),
            2 => Some(TensorFormat::HWC8),
            3 => Some(TensorFormat::CHW4),
            4 => Some(TensorFormat::CHW16),
            5 => Some(TensorFormat::CHW32),
            6 => Some(TensorFormat::DHWC8),
            7 => Some(TensorFormat::CDHW32),
            8 => Some(TensorFormat::HWC),
            9 => Some(TensorFormat::DLALINEAR),
            10 => Some(TensorFormat::DLAHWC4),
            11 => Some(TensorFormat::HWC16),
            12 => Some(TensorFormat::DHWC),
            _ => None,
        }
    }
}

/// The flow an engine was built for.
#[allow(non_camel_case_types, clippy::upper_case_acronyms)]
#[derive(Clone, Copy, Debug, PartialEq, Eq, Structural)]
pub enum EngineCapability {
    /// Standard flow, GPU and DLA.
    STANDARD,
    /// Restricted flow targeting the safety runtime.
    SAFETY,
    /// Restricted flow targeting external DLA runtimes.
    DLASTANDALONE,
}

impl EngineCapability {
    pub open spec fn spec_code(self) -> i32 {
        match self {
            EngineCapability::STANDARD => 0,
            EngineCapability::SAFETY => 1,
            EngineCapability::DLASTANDALONE => 2,
        }
    }

    /// The runtime's integer code of this capability.
    pub fn code(self) -> (r: i32)
        ensures
            r == self.spec_code(),
    {
        match self {
            EngineCapability::STANDARD => 0,
            EngineCapability::SAFETY => 1,
            EngineCapability::DLASTANDALONE => 2,
        }
    }

    /// The capability with the given runtime code; `None` for a code out of range.
    pub fn from_code(code: i32) -> (r: Option<EngineCapability>)
        ensures
            match r {
                Some(c) => c.spec_code() == code,
                None => !(0 <= code <= 2),
            },
    {
        match code {
            0 => Some(EngineCapability::STANDARD),
            1 => Some(EngineCapability::SAFETY),
            2 => Some(EngineCapability::DLASTANDALONE),
            _ => None,
        }
    }
}

/// Which GPU architectures an engine must run on.
#[allow(non_camel_case_types, clippy::upper_case_acronyms)]
#[derive(Clone, Copy, Debug, PartialEq, Eq, Structural)]
pub enum HardwareCompatibilityLevel {
    /// Only the architecture the engine was built on.
    NONE,
    /// Ampere and newer.
    AMPEREPLUS,
}

impl HardwareCompatibilityLevel {
    pub open spec fn spec_code(self) -> i32 {
        match self {
            HardwareCompatibilityLevel::NONE => 0,
            HardwareCompatibilityLevel::AMPEREPLUS => 1,
        }
    }

    /// The runtime's integer code of this level.
    pub fn code(self) -> (r: i32)
        ensures
            r == self.spec_code(),
    {
        match self {
            HardwareCompatibilityLevel::NONE => 0,
            HardwareCompatibilityLevel::AMPEREPLUS => 1,
        }
    }

    /// The level with the given runtime code; `None` for a code out of range.
    pub fn from_code(code: i32) -> (r: Option<HardwareCompatibilityLevel>)
        ensures
            match r {
                Some(l) => l.spec_code() == code,
                None => !(0 <= code <= 1),
            },
    {
        match code {
            0 => Some(HardwareCompatibilityLevel::NONE),
            1 => Some(HardwareCompatibilityLevel::AMPEREPLUS),
            _ => None,
        }
    }
}

/// How much layer information profiling markers carry.
#[allow(non_camel_case_types, clippy::upper_case_acronyms)]
#[derive(Clone, Copy, Debug, PartialEq, Eq, Structural)]
pub enum ProfilingVerbosity {
    /// Layer names only (the default).
    LAYERNAMESONLY,
    /// No layer information.
    NONE,
    /// Layer names and layer parameters.
    DETAILED,
}

impl ProfilingVerbosity {
    pub open spec fn spec_code(self) -> i32 {
        match self {
            ProfilingVerbosity::LAYERNAMESONLY => 0,
            ProfilingVerbosity::NONE => 1,
            ProfilingVerbosity::DETAILED => 2,
        }
    }

    /// The runtime's integer code of this verbosity.
    pub fn code(self) -> (r: i32)
        ensures
            r == self.spec_code(),
    {
        match self {
            ProfilingVerbosity::LAYERNAMESONLY => 0,
            ProfilingVerbosity::NONE => 1,
            ProfilingVerbosity::DETAILED => 2,
        }
    }
}

/// Severity of a log message.
#[derive(Clone, Copy, Debug, PartialEq, Eq, Structural)]
pub enum Severity {
    InternalError,
    Error,
    Warning,
    Info,
    Verbose,
}

impl Severity {
    pub open spec fn spec_code(self) -> i32 {
        match self {
            Severity::InternalError => 0,
            Severity::Error => 1,
            Severity::Warning => 2,
            Severity::Info => 3,
            Severity::Verbose => 4,
        }
    }

    /// The logger's integer code of this severity.
    pub fn code(self) -> (r: i32)
        ensures
            r == self.spec_code(),
    {
        match self {
            Severity::InternalError => 0,
            Severity::Error => 1,
            Severity::Warning => 2,
            Severity::Info => 3,
            Severity::Verbose => 4,
        }
    }
}

/// Element type of a tensor.
#[allow(non_camel_case_types, clippy::upper_case_acronyms)]
#[derive(Clone, Copy, Debug, PartialEq, Eq, Structural)]
pub enum DataType {
    /// 32-bit float.
    FLOAT,
    /// 16-bit float.
    HALF,
    /// Signed 8-bit integer.
    INT8,
    /// Signed 32-bit integer.
    INT32,
    /// 8-bit boolean.
    BOOL,
    /// Unsigned 8-bit integer.
    UINT8,
    /// 8-bit float.
    FP8,
    /// 16-bit brain float.
    BF16,
    /// Signed 64-bit integer.
    INT64,
}

impl DataType {
    pub open spec fn spec_code(self) -> i32 {
        match self {
            DataType::FLOAT => 0,
            DataType::HALF => 1,
            DataType::INT8 => 2,
            DataType::INT32 => 3,
            DataType::BOOL => 4,
            DataType::UINT8 => 5,
            DataType::FP8 => 6,
            DataType::BF16 => 7,
            DataType::INT64 => 8,
        }
    }

    /// Bytes taken by one element.
    pub open spec fn spec_elem_size(self) -> nat {
        match self {
            DataType::FLOAT => 4,
            DataType::HALF => 2,
            DataType::INT8 => 1,
            DataType::INT32 => 4,
            DataType::BOOL => 1,
            DataType::UINT8 => 1,
            DataType::FP8 => 1,
            DataType::BF16 => 2,
            DataType::INT64 => 8,
        }
    }

    /// The runtime's integer code of this type.
    pub fn code(self) -> (r: i32)
        ensures
            r == self.spec_code(),
    {
        match self {
            DataType::FLOAT => 0,
            DataType::HALF => 1,
            DataType::INT8 => 2,
            DataType::INT32 => 3,
            DataType::BOOL => 4,
            DataType::UINT8 => 5,
            DataType::FP8 => 6,
            DataType::BF16 => 7,
            DataType::INT64 => 8,
        }
    }

    /// The type with the given runtime code; `None` for a code out of range.
    pub fn from_code(code: i32) -> (r: Option<DataType>)
        ensures
            match r {
                Some(t) => t.spec_code() == code,
                None => !(0 <= code <= 8),
            },
    {
        match code {
            0 => Some(DataType::FLOAT),
            1 => Some(DataType::HALF),
            2 => Some(DataType::INT8),
            3 => Some(DataType::INT32),
            4 => Some(DataType::BOOL),
            5 => Some(DataType::UINT8),
            6 => Some(DataType::FP8),
            7 => Some(DataType::BF16),
            8 => Some(DataType::INT64),
            _ => None,
        }
    }

    /// Bytes taken by one element.
    pub fn get_elem_size(self) -> (r: usize)
        ensures
            r == self.spec_elem_size(),
            1 <= r <= 8,
    {
        match self {
            DataType::FLOAT => 4,
            DataType::HALF => 2,
            DataType::INT8 => 1,
            DataType::INT32 => 4,
            DataType::BOOL => 1,
            DataType::UINT8 => 1,
            DataType::FP8 => 1,
            DataType::BF16 => 2,
            DataType::INT64 => 8,
        }
    }
}

/// Decoding the code of a mode gives the mode back, and distinct modes have
/// distinct codes.
pub proof fn lemma_io_mode_code_round_trip(m: TensorIOMode, n: TensorIOMode)
    ensures
        0 <= m.spec_code() <= 2,
        m.spec_code() == n.spec_code() ==> m == n,
{
}

/// Decoding the code of a format gives the format back, and distinct formats
/// have distinct codes.
pub proof fn lemma_format_code_round_trip(f: TensorFormat, g: TensorFormat)
    ensures
        0 <= f.spec_code() <= 12,
        f.spec_code() == g.spec_code() ==> f == g,
{
}

/// Decoding the code of a data type gives the type back, and distinct types
/// have distinct codes.
pub proof fn lemma_data_type_code_round_trip(t: DataType, u: DataType)
    ensures
        0 <= t.spec_code() <= 8,
        t.spec_code() == u.spec_code() ==> t == u,
{
}

} // verus!
