//! The numeric precision at which adapter weights are decoded.

use vstd::prelude::*;

verus! {

/// The element types a tensor of adapter weights may be decoded to.
#[derive(Debug, Clone, Copy, PartialEq, Eq, Structural)]
pub enum DType {
    U8,
    U32,
    I64,
    BF16,
    F16,
    F32,
    F64,
}

/// The precision that a device gets when the caller names none: reduced on
/// an accelerator, full otherwise.
pub open spec fn spec_default_dtype(is_accelerator: bool) -> DType {
    if is_accelerator {
        DType::BF16
    } else {
        DType::F32
    }
}

/// The precision at which adapters are decoded: the caller's choice where
/// there is one, else the device's default.
pub open spec fn spec_adapter_dtype(explicit: Option<DType>, is_accelerator: bool) -> DType {
    match explicit {
        Some(d) => d,
        None => spec_default_dtype(is_accelerator),
    }
}

/// The precision that a device gets when the caller names none.
pub fn default_dtype(is_accelerator: bool) -> (d: DType)
    ensures
        d == spec_default_dtype(is_accelerator),
{
    if is_accelerator {
        DType::BF16
    } else {
        DType::F32
    }
}

/// The precision at which adapters are decoded.
pub fn adapter_dtype(explicit: Option<DType>, is_accelerator: bool) -> (d: DType)
    ensures
        d == spec_adapter_dtype(explicit, is_accelerator),
{
    match explicit {
        Some(d) => d,
        None => default_dtype(is_accelerator),
    }
}

} // verus!
