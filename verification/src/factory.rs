//! Which model is built for an architecture and a kind of load.

use vstd::prelude::*;
use vstd::string::StringExecFns;
use crate::architecture::GgufArchitecture;
use crate::dtype::DType;
use crate::error::{AdapterPart, LoadError, LoadErrorView};
use crate::kind::ModelKind;

verus! {

/// Which of the parts that adapters need are at hand.
#[derive(Debug, Clone, Copy, PartialEq, Eq, Structural)]
pub struct AdapterParts {
    pub classifier_weights: bool,
    pub adapter_weights: bool,
    pub adapter_configs: bool,
    pub adapter_ordering: bool,
    pub classifier_config: bool,
}

/// The model to construct, and what its construction is fed.
#[derive(Debug, Clone, Copy, PartialEq, Eq, Structural)]
pub enum ModelPlan {
    /// The plain model of the LLaMA family, from the base container alone.
    Llama,
    /// The plain Phi-2 model, from the base container alone.
    Phi2,
    /// The adapter-aware model of the LLaMA family. The adapters' weights
    /// are decoded as `dtype`; the classifier's weights are mapped with them
    /// only where `with_classifier_weights` says so. One model serves the
    /// fixed blend and the dynamic one alike: the plan does not tell them
    /// apart, the pipeline's flag does.
    XLoraLlama { dtype: DType, with_classifier_weights: bool },
}

impl AdapterParts {
    /// The first part that is wanting, in the order in which a load
    /// reaches for them.
    pub open spec fn spec_first_missing(self) -> Option<AdapterPart> {
        if !self.classifier_weights {
            Some(AdapterPart::ClassifierWeights)
        } else if !self.adapter_weights {
            Some(AdapterPart::AdapterWeights)
        } else if !self.adapter_configs {
            Some(AdapterPart::AdapterConfigs)
        } else if !self.adapter_ordering {
            Some(AdapterPart::AdapterOrdering)
        } else if !self.classifier_config {
            Some(AdapterPart::ClassifierConfig)
        } else {
            None
        }
    }

    /// All five parts are at hand.
    pub open spec fn complete(self) -> bool {
        &&& self.classifier_weights
        &&& self.adapter_weights
        &&& self.adapter_configs
        &&& self.adapter_ordering
        &&& self.classifier_config
    }

    /// The first part that is wanting, if any is.
    pub fn first_missing(&self) -> (part: Option<AdapterPart>)
        ensures
            part == self.spec_first_missing(),
    {
        if !self.classifier_weights {
            Some(AdapterPart::ClassifierWeights)
        } else if !self.adapter_weights {
            Some(AdapterPart::AdapterWeights)
        } else if !self.adapter_configs {
            Some(AdapterPart::AdapterConfigs)
        } else if !self.adapter_ordering {
            Some(AdapterPart::AdapterOrdering)
        } else if !self.classifier_config {
            Some(AdapterPart::ClassifierConfig)
        } else {
            None
        }
    }
}

/// The model that a load builds, or the condition that aborts it.
///
/// A plain load builds the plain model of its architecture, which only the
/// LLaMA family and Phi-2 have. A load with adapters first wants all of its
/// parts, and then builds the adapter-aware model, which only the LLaMA
/// family has; the classifier's weights are mapped for a dynamic blend only.
pub open spec fn spec_plan(
    kind: ModelKind,
    arch: GgufArchitecture,
    parts: AdapterParts,
    dtype: DType,
) -> Result<ModelPlan, LoadErrorView> {
    match kind {
        ModelKind::QuantizedGGUF => match arch {
            GgufArchitecture::Llama => Ok(ModelPlan::Llama),
            GgufArchitecture::Phi2 => Ok(ModelPlan::Phi2),
            _ => Err(LoadErrorView::UnsupportedArchitecture(arch.spec_tag())),
        },
        _ => match parts.spec_first_missing() {
            Some(part) => Err(LoadErrorView::MissingAdapterConfiguration(part)),
            None => if arch == GgufArchitecture::Llama {
                Ok(
                    ModelPlan::XLoraLlama {
                        dtype,
                        with_classifier_weights: kind == ModelKind::XLoraGGUF,
                    },
                )
            } else {
                Err(LoadErrorView::UnsupportedArchitectureForAdapters(arch.spec_tag()))
            },
        },
    }
}

/// The outcome of planning, with the texts of a condition as plain
/// sequences of characters.
pub open spec fn plan_outcome(r: Result<ModelPlan, LoadError>) -> Result<ModelPlan, LoadErrorView> {
    match r {
        Ok(plan) => Ok(plan),
        Err(e) => Err(e@),
    }
}

/// Decides which model a load builds. Nothing is constructed here: the
/// plan names the constructor to run and what to feed it.
pub fn plan_model(kind: ModelKind, arch: GgufArchitecture, parts: AdapterParts, dtype: DType) -> (r:
    Result<ModelPlan, LoadError>)
    ensures
        plan_outcome(r) == spec_plan(kind, arch, parts, dtype),
{
    match kind {
        ModelKind::QuantizedGGUF => match arch {
            GgufArchitecture::Llama => Ok(ModelPlan::Llama),
            GgufArchitecture::Phi2 => Ok(ModelPlan::Phi2),
            _ => Err(LoadError::UnsupportedArchitecture(String::from_str(arch.tag()))),
        },
        _ => match parts.first_missing() {
            Some(part) => Err(LoadError::MissingAdapterConfiguration(part)),
            None => match arch {
                GgufArchitecture::Llama => Ok(
                    ModelPlan::XLoraLlama {
                        dtype,
                        with_classifier_weights: kind.is_dynamic(),
                    },
                ),
                _ => Err(
                    LoadError::UnsupportedArchitectureForAdapters(String::from_str(arch.tag())),
                ),
            },
        },
    }
}

/// Resolves a container's architecture tag for a load: a known tag gives
/// its architecture, any other is an unsupported architecture named by the
/// tag as it was given.
pub fn resolve_architecture(tag: &str) -> (r: Result<GgufArchitecture, LoadError>)
    ensures
        match r {
            Ok(a) => GgufArchitecture::of_tag(tag@) == Some(a),
            Err(e) => GgufArchitecture::of_tag(tag@).is_none() && e@
                == LoadErrorView::UnsupportedArchitecture(tag@),
        },
{
    match GgufArchitecture::from_str(tag) {
        Ok(a) => Ok(a),
        Err(_) => Err(LoadError::UnsupportedArchitecture(String::from_str(tag))),
    }
}

/// A load with adapters that lacks any of its parts is refused for the
/// first part it lacks, whatever the architecture: no plan comes out.
pub proof fn lemma_missing_part_refused(
    kind: ModelKind,
    arch: GgufArchitecture,
    parts: AdapterParts,
    dtype: DType,
)
    requires
        kind.spec_bears_adapters(),
        !parts.complete(),
    ensures
        parts.spec_first_missing() is Some,
        spec_plan(kind, arch, parts, dtype) == Err::<ModelPlan, LoadErrorView>(
            LoadErrorView::MissingAdapterConfiguration(parts.spec_first_missing().unwrap()),
        ),
{
}

/// A plan exists exactly for the supported pairings: a plain load of the
/// LLaMA family or of Phi-2, and a load with all its adapter parts onto the
/// LLaMA family. The adapter-aware model is planned for loads with
/// adapters and for no others.
pub proof fn lemma_plan_exists(
    kind: ModelKind,
    arch: GgufArchitecture,
    parts: AdapterParts,
    dtype: DType,
)
    ensures
        spec_plan(kind, arch, parts, dtype) is Ok <==> (if kind.spec_bears_adapters() {
            parts.complete() && arch == GgufArchitecture::Llama
        } else {
            arch == GgufArchitecture::Llama || arch == GgufArchitecture::Phi2
        }),
        spec_plan(kind, arch, parts, dtype) matches Ok(plan) ==> (plan is XLoraLlama
            <==> kind.spec_bears_adapters()),
{
}

} // verus!
