//! Tensor value descriptions for the accelerator component.
//!
//! Only the plain value types live here: the precision selection modes and
//! the element types with their widths. The acceleration engine itself —
//! counters, timers, worker threads — belongs to the accelerator.

use vstd::prelude::*;

verus! {

/// Mixed precision modes.
#[derive(Debug, Clone, Copy, PartialEq, Eq, Structural)]
pub enum MixedPrecisionMode {
    /// Full thirty-two-bit precision.
    Full,
    /// Half sixteen-bit precision.
    Half,
    /// Brain floating point.
    BFloat16,
    /// Automatic selection based on hardware.
    Auto,
}

/// Element type of a tensor.
#[derive(Debug, Clone, Copy, PartialEq, Eq, Structural)]
pub enum DataType {
    Float32,
    Float16,
    BFloat16,
    Int32,
    Int64,
    UInt8,
}

impl DataType {
    /// The width of one element, in bytes.
    pub fn size(&self) -> (r: usize)
        ensures
            r == match self {
                DataType::Float32 | DataType::Int32 => 4int,
                DataType::Float16 | DataType::BFloat16 => 2int,
                DataType::Int64 => 8int,
                DataType::UInt8 => 1int,
            },
    {
        match self {
            DataType::Float32 | DataType::Int32 => 4,
            DataType::Float16 | DataType::BFloat16 => 2,
            DataType::Int64 => 8,
            DataType::UInt8 => 1,
        }
    }
}

} // verus!
