//! The state by which a dynamically routed model spaces out the passes
//! that recompute its adapter scalings.

use vstd::prelude::*;

verus! {

/// A step counter and the fixed index it is held against. The pipeline
/// creates it once and never resets it; the model alone advances the
/// counter, and decides from both numbers whether a step recomputes the
/// scalings or reuses the last ones.
#[derive(Debug, Clone, Copy, PartialEq, Eq, Structural)]
pub struct NonGranularState {
    /// Steps counted so far.
    pub non_granular_index: usize,
    /// The index that the counter is held against; fixed at construction.
    pub tgt_non_granular_index: usize,
}

impl NonGranularState {
    /// The state of a pipeline that has not run yet.
    pub open spec fn spec_new(tgt_non_granular_index: usize) -> NonGranularState {
        NonGranularState { non_granular_index: 0, tgt_non_granular_index }
    }

    /// A fresh state: the counter at zero, the target as given.
    pub fn new(tgt_non_granular_index: usize) -> (s: NonGranularState)
        ensures
            s == Self::spec_new(tgt_non_granular_index),
    {
        NonGranularState { non_granular_index: 0, tgt_non_granular_index }
    }
}

} // verus!
