//! The kinds of load: a plain quantized model, or one that carries adapters.

use vstd::prelude::*;

verus! {

/// What is loaded beside the quantized base weights.
#[derive(Debug, Clone, Copy, PartialEq, Eq, Structural)]
pub enum ModelKind {
    /// The quantized model alone.
    QuantizedGGUF,
    /// The quantized model with adapters blended at fixed weights.
    LoraGGUF,
    /// The quantized model with adapters whose weights a classifier pass
    /// chooses while the model runs.
    XLoraGGUF,
}

impl ModelKind {
    /// Whether a load of this kind merges adapters into the model.
    pub open spec fn spec_bears_adapters(self) -> bool {
        self != ModelKind::QuantizedGGUF
    }

    /// Whether a pipeline of this kind is flagged as a fixed blend.
    pub open spec fn spec_is_static_lora(self) -> bool {
        self == ModelKind::LoraGGUF
    }

    /// Whether a pipeline of this kind routes its adapters dynamically.
    pub open spec fn spec_is_dynamic(self) -> bool {
        self == ModelKind::XLoraGGUF
    }

    /// Whether a load of this kind merges adapters into the model.
    #[verifier::when_used_as_spec(spec_bears_adapters)]
    pub fn bears_adapters(self) -> (b: bool)
        ensures
            b == self.spec_bears_adapters(),
    {
        match self {
            ModelKind::QuantizedGGUF => false,
            ModelKind::LoraGGUF => true,
            ModelKind::XLoraGGUF => true,
        }
    }

    /// Whether a pipeline of this kind is flagged as a fixed blend.
    #[verifier::when_used_as_spec(spec_is_static_lora)]
    pub fn is_static_lora(self) -> (b: bool)
        ensures
            b == self.spec_is_static_lora(),
    {
        match self {
            ModelKind::LoraGGUF => true,
            _ => false,
        }
    }

    /// Whether a pipeline of this kind routes its adapters dynamically.
    #[verifier::when_used_as_spec(spec_is_dynamic)]
    pub fn is_dynamic(self) -> (b: bool)
        ensures
            b == self.spec_is_dynamic(),
    {
        match self {
            ModelKind::XLoraGGUF => true,
            _ => false,
        }
    }
}

} // verus!
