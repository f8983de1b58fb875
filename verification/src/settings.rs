//! How a trace builds the blocks of a fused kernel.
use vstd::prelude::*;

verus! {

/// Whether the elements of a block are processed several at a time.
#[derive(Clone, Copy, Debug, PartialEq, Eq, Structural)]
pub enum VectorizationSetting {
    /// The trace picks a vector width.
    Activated,
    /// One element at a time.
    Deactivated,
}

/// Which tensor layouts a block accepts as its reference.
#[derive(Clone, Copy, Debug, PartialEq, Eq, Structural)]
pub enum RefLayoutSetting {
    /// Any layout.
    Any,
    /// A contiguous layout.
    OnlyContiguous,
}

/// The settings of one block of a trace.
#[derive(Clone, Copy, Debug, PartialEq, Eq, Structural)]
pub struct FuseSettings {
    /// Whether an input buffer may be reused for an output.
    pub inplace: bool,
    /// Whether inputs may be broadcast.
    pub broadcast: bool,
    /// Whether later operations may change the output shape.
    pub output_shape_updates: bool,
    /// How the block is vectorized.
    pub vectorization: VectorizationSetting,
    /// Which reference layouts the block accepts.
    pub ref_layout: RefLayoutSetting,
}

/// The settings with which a trace is created.
#[derive(Clone, Copy, Debug, PartialEq, Eq, Structural)]
pub enum TraceSettings {
    /// The settings that traces have by default.
    Default,
    /// These settings.
    Custom(FuseSettings),
}

/// What it takes to create a trace.
#[derive(Clone, Copy, Debug, PartialEq, Eq, Structural)]
pub struct TraceSetup {
    /// How many bindings a kernel may have on the device.
    pub max_bindings: u32,
    /// The settings of the trace's first block.
    pub settings: TraceSettings,
}

/// The settings of the block that reads the elementwise producers: contiguous, one
/// element at a time, in place, and free to change the output shape.
pub open spec fn read_settings() -> FuseSettings {
    FuseSettings {
        inplace: true,
        broadcast: false,
        output_shape_updates: true,
        vectorization: VectorizationSetting::Deactivated,
        ref_layout: RefLayoutSetting::OnlyContiguous,
    }
}

/// The settings of the block that writes the correlated values: contiguous, one element at
/// a time, with a fixed output shape and no reuse of inputs.
pub open spec fn write_settings() -> FuseSettings {
    FuseSettings {
        inplace: false,
        broadcast: false,
        output_shape_updates: false,
        vectorization: VectorizationSetting::Deactivated,
        ref_layout: RefLayoutSetting::OnlyContiguous,
    }
}

} // verus!
