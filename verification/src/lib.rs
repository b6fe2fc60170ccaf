//! The decisions behind loading a quantized language model and driving it
//! step by step: which architecture a weight container declares, which
//! model is built for it and with which adapters, which tokens end a
//! sequence, and how one inference step is routed to the model.
//!
//! Reading files, mapping weights and running the model are left to the
//! code around this crate. It hands in plain values and acts on the plans
//! that come back.

use vstd::prelude::*;

pub mod architecture;
pub mod container;
pub mod dtype;
pub mod error;
pub mod factory;
pub mod kind;
pub mod loader;
pub mod paths;
pub mod pipeline;
pub mod state;
pub mod tokens;

verus! {

/// Settings that belong to pipelines over quantized containers.
#[derive(Clone, Copy)]
pub struct GgufSpecificConfig {
    /// How many of the latest tokens the repeat penalty looks at.
    pub repeat_last_n: usize,
}

} // verus!
