//! The loader: what a load was asked for, which model it plans, and the
//! pipeline it assembles once the model stands.

use vstd::prelude::*;
use vstd::pervasive::unreached;
use candle_core::quantized::gguf_file::Content;
use candle_core::Device;
use crate::architecture::GgufArchitecture;
use crate::container::{
    architecture_tag, device_is_cuda, is_cuda, metadata_text_of, spec_architecture_key,
    text_metadata,
};
use crate::dtype::{adapter_dtype, spec_adapter_dtype, DType};
use crate::error::{LoadError, LoadErrorView};
use crate::factory::{
    plan_model, plan_outcome, resolve_architecture, spec_plan, AdapterParts, ModelPlan,
};
use crate::kind::ModelKind;
use crate::paths::{AdapterOrdering, AdapterSources, MistralModelPaths};
use crate::pipeline::{GgufPipeline, Model, ModelDims};
use crate::state::NonGranularState;
use crate::GgufSpecificConfig;

verus! {

/// Everything that was asked of a load.
pub struct GgufLoader {
    pub model_id: String,
    pub config: GgufSpecificConfig,
    pub quantized_model_id: Option<String>,
    pub quantized_filename: Option<String>,
    pub xlora_model_id: Option<String>,
    pub xlora_order: Option<AdapterOrdering>,
    pub no_kv_cache: bool,
    pub chat_template: Option<String>,
    pub tokenizer_json: Option<String>,
    pub kind: ModelKind,
    pub tgt_non_granular_index: Option<usize>,
}

/// Which adapter parts a set of paths names.
pub open spec fn spec_parts_of<P, C, X>(paths: &MistralModelPaths<P, C, X>) -> AdapterParts {
    AdapterParts {
        classifier_weights: paths.classifier_path is Some,
        adapter_weights: paths.xlora_adapter_filenames is Some,
        adapter_configs: paths.xlora_adapter_configs is Some,
        adapter_ordering: paths.xlora_ordering is Some,
        classifier_config: paths.classifier_config is Some,
    }
}

/// The parts that adapters need are complete exactly where the paths name
/// all of them.
pub proof fn lemma_parts_complete<P, C, X>(paths: &MistralModelPaths<P, C, X>)
    ensures
        spec_parts_of(paths).complete() <==> paths.names_all_adapter_parts(),
{
}

/// Which adapter parts a set of paths names.
pub fn parts_of<P, C, X>(paths: &MistralModelPaths<P, C, X>) -> (parts: AdapterParts)
    ensures
        parts == spec_parts_of(paths),
{
    AdapterParts {
        classifier_weights: paths.classifier_path.is_some(),
        adapter_weights: paths.xlora_adapter_filenames.is_some(),
        adapter_configs: paths.xlora_adapter_configs.is_some(),
        adapter_ordering: paths.xlora_ordering.is_some(),
        classifier_config: paths.classifier_config.is_some(),
    }
}

/// Gathers what a load with adapters hands to the adapter loader and to
/// the model, as [`MistralModelPaths::adapter_sources`] does, or refuses the
/// load for the first part that the paths do not name.
pub fn require_adapter_sources<'a, P, C, X>(
    paths: &'a MistralModelPaths<P, C, X>,
    dtype: DType,
    with_classifier_weights: bool,
) -> (r: Result<AdapterSources<'a, P, C, X>, LoadError>)
    ensures
        match r {
            Ok(sources) => paths.gives_sources(dtype, with_classifier_weights, sources),
            Err(e) => spec_parts_of(paths).spec_first_missing() matches Some(part) && e@
                == LoadErrorView::MissingAdapterConfiguration(part),
        },
{
    match paths.adapter_sources(dtype, with_classifier_weights) {
        Some(sources) => Ok(sources),
        None => match parts_of(paths).first_missing() {
            Some(part) => Err(LoadError::MissingAdapterConfiguration(part)),
            None => unreached(),
        },
    }
}

impl GgufLoader {
    /// The identifier that a loader goes by: the one given, or else the
    /// base model of the adapter ordering.
    pub open spec fn spec_model_id(
        model_id: Option<String>,
        xlora_order: Option<AdapterOrdering>,
    ) -> Seq<char> {
        match model_id {
            Some(id) => id@,
            None => xlora_order.unwrap().base_model_id@,
        }
    }

    /// The routing state of a pipeline built by this loader: one is made
    /// where the adapters are routed dynamically and a target index was
    /// configured, and nowhere else.
    pub open spec fn spec_state(&self, plan: ModelPlan) -> Option<NonGranularState> {
        if self.kind == ModelKind::XLoraGGUF && plan is XLoraLlama {
            match self.tgt_non_granular_index {
                Some(tgt) => Some(NonGranularState::spec_new(tgt)),
                None => None,
            }
        } else {
            None
        }
    }

    /// What holds of the pipeline that this loader assembles around the
    /// model of `plan`.
    pub open spec fn assembles(
        &self,
        plan: ModelPlan,
        dims: ModelDims,
        eos_tok: Seq<u32>,
        pipeline: GgufPipeline,
    ) -> bool {
        &&& pipeline.model == Model::spec_for_plan(plan, dims)
        &&& pipeline.config == self.config
        &&& pipeline.no_kv_cache == self.no_kv_cache
        &&& pipeline.model_id@ == self.model_id@
        &&& pipeline.eos_tok@ == eos_tok
        &&& pipeline.is_lora == (self.kind == ModelKind::LoraGGUF)
        &&& pipeline.non_granular_state == self.spec_state(plan)
    }

    /// Records what a load is asked for. Without a model identifier the
    /// adapter ordering names the model, so one of the two must be there.
    pub fn new(
        model_id: Option<String>,
        config: GgufSpecificConfig,
        quantized_model_id: Option<String>,
        quantized_filename: Option<String>,
        xlora_model_id: Option<String>,
        kind: ModelKind,
        xlora_order: Option<AdapterOrdering>,
        no_kv_cache: bool,
        chat_template: Option<String>,
        tokenizer_json: Option<String>,
        tgt_non_granular_index: Option<usize>,
    ) -> (loader: GgufLoader)
        requires
            model_id is Some || xlora_order is Some,
        ensures
            loader.model_id@ == Self::spec_model_id(model_id, xlora_order),
            loader.config == config,
            loader.quantized_model_id == quantized_model_id,
            loader.quantized_filename == quantized_filename,
            loader.xlora_model_id == xlora_model_id,
            loader.xlora_order == xlora_order,
            loader.no_kv_cache == no_kv_cache,
            loader.chat_template == chat_template,
            loader.tokenizer_json == tokenizer_json,
            loader.kind == kind,
            loader.tgt_non_granular_index == tgt_non_granular_index,
    {
        let model_id = match model_id {
            Some(id) => id,
            None => match &xlora_order {
                Some(order) => order.base_model_id.clone(),
                None => unreached(),
            },
        };
        GgufLoader {
            model_id,
            config,
            quantized_model_id,
            quantized_filename,
            xlora_model_id,
            xlora_order,
            no_kv_cache,
            chat_template,
            tokenizer_json,
            kind,
            tgt_non_granular_index,
        }
    }

    /// Records what a load is asked for, where that can be done: `None`
    /// where neither a model identifier nor an adapter ordering is given.
    pub fn try_new(
        model_id: Option<String>,
        config: GgufSpecificConfig,
        quantized_model_id: Option<String>,
        quantized_filename: Option<String>,
        xlora_model_id: Option<String>,
        kind: ModelKind,
        xlora_order: Option<AdapterOrdering>,
        no_kv_cache: bool,
        chat_template: Option<String>,
        tokenizer_json: Option<String>,
        tgt_non_granular_index: Option<usize>,
    ) -> (made: Option<GgufLoader>)
        ensures
            made is Some <==> (model_id is Some || xlora_order is Some),
            made matches Some(loader) ==> {
                &&& loader.model_id@ == Self::spec_model_id(model_id, xlora_order)
                &&& loader.config == config
                &&& loader.quantized_model_id == quantized_model_id
                &&& loader.quantized_filename == quantized_filename
                &&& loader.xlora_model_id == xlora_model_id
                &&& loader.xlora_order == xlora_order
                &&& loader.no_kv_cache == no_kv_cache
                &&& loader.chat_template == chat_template
                &&& loader.tokenizer_json == tokenizer_json
                &&& loader.kind == kind
                &&& loader.tgt_non_granular_index == tgt_non_granular_index
            },
    {
        if model_id.is_some() || xlora_order.is_some() {
            Some(
                GgufLoader::new(
                    model_id,
                    config,
                    quantized_model_id,
                    quantized_filename,
                    xlora_model_id,
                    kind,
                    xlora_order,
                    no_kv_cache,
                    chat_template,
                    tokenizer_json,
                    tgt_non_granular_index,
                ),
            )
        } else {
            None
        }
    }

    /// The identifier under which the load is known: that of the adapter
    /// model where there is one, else that of the model.
    pub fn get_id(&self) -> (id: &str)
        ensures
            id@ == (match self.xlora_model_id {
                Some(xlora_id) => xlora_id@,
                None => self.model_id@,
            }),
    {
        match &self.xlora_model_id {
            Some(xlora_id) => xlora_id.as_str(),
            None => self.model_id.as_str(),
        }
    }

    /// The family of loads that this loader belongs to: quantized
    /// containers, whatever adapters the load itself carries.
    pub fn get_kind(&self) -> (kind: ModelKind)
        ensures
            kind == ModelKind::QuantizedGGUF,
    {
        ModelKind::QuantizedGGUF
    }

    /// Decides which model this load builds for the architecture that the
    /// container declares. `dtype` is the caller's choice of precision for
    /// the adapters, if it made one; `is_accelerator` says whether the
    /// target device is one.
    pub fn plan<P, C, X>(
        &self,
        arch: GgufArchitecture,
        paths: &MistralModelPaths<P, C, X>,
        dtype: Option<DType>,
        is_accelerator: bool,
    ) -> (r: Result<ModelPlan, LoadError>)
        ensures
            plan_outcome(r) == spec_plan(
                self.kind,
                arch,
                spec_parts_of(paths),
                spec_adapter_dtype(dtype, is_accelerator),
            ),
    {
        plan_model(self.kind, arch, parts_of(paths), adapter_dtype(dtype, is_accelerator))
    }

    /// What planning gives for a container whose metadata declares `tag`,
    /// on a device that is an accelerator or not as `is_accelerator` says.
    pub open spec fn spec_plan_for_tag<P, C, X>(
        &self,
        tag: Seq<char>,
        paths: &MistralModelPaths<P, C, X>,
        dtype: Option<DType>,
        is_accelerator: bool,
    ) -> Result<ModelPlan, LoadErrorView> {
        match GgufArchitecture::of_tag(tag) {
            Some(arch) => spec_plan(
                self.kind,
                arch,
                spec_parts_of(paths),
                spec_adapter_dtype(dtype, is_accelerator),
            ),
            None => Err(LoadErrorView::UnsupportedArchitecture(tag)),
        }
    }

    /// Plans a load from the header of its container: resolves the
    /// architecture that the metadata declares, and decides which model is
    /// built for it on `device`. Gives nothing where the metadata declares
    /// no architecture. An unknown architecture is refused before anything
    /// else is looked at. Adapters get the reduced default precision on a
    /// CUDA device and the full one on any other.
    pub fn plan_load<P, C, X>(
        &self,
        content: &Content,
        paths: &MistralModelPaths<P, C, X>,
        dtype: Option<DType>,
        device: &Device,
    ) -> (r: Option<Result<ModelPlan, LoadError>>)
        ensures
            match metadata_text_of(text_metadata(*content), spec_architecture_key()) {
                Some(tag) => r matches Some(outcome) && plan_outcome(outcome)
                    == self.spec_plan_for_tag(tag, paths, dtype, device_is_cuda(*device)),
                None => r is None,
            },
    {
        let tag = match architecture_tag(content) {
            Some(tag) => tag,
            None => {
                return None;
            },
        };
        match resolve_architecture(tag.as_str()) {
            Ok(arch) => Some(self.plan(arch, paths, dtype, is_cuda(device))),
            Err(e) => Some(Err(e)),
        }
    }

    /// Assembles the pipeline around the model that was built for `plan`.
    /// `dims` is what the pipeline reads of that model, `eos_tok` the tokens
    /// that end a sequence.
    pub fn assemble(&self, plan: ModelPlan, dims: ModelDims, eos_tok: Vec<u32>) -> (pipeline:
        GgufPipeline)
        ensures
            self.assembles(plan, dims, eos_tok@, pipeline),
            pipeline.wf(),
    {
        let dynamic = match plan {
            ModelPlan::XLoraLlama { .. } => self.kind.is_dynamic(),
            _ => false,
        };
        let non_granular_state = if dynamic {
            match self.tgt_non_granular_index {
                Some(tgt) => Some(NonGranularState::new(tgt)),
                None => None,
            }
        } else {
            None
        };
        GgufPipeline {
            model: Model::for_plan(plan, dims),
            config: self.config,
            no_kv_cache: self.no_kv_cache,
            model_id: self.model_id.clone(),
            eos_tok,
            non_granular_state,
            is_lora: self.kind.is_static_lora(),
        }
    }
}

/// Wherever a load plans the adapter-aware model, its paths name all the
/// parts that adapters need, so the sources of the adapters can be gathered.
pub proof fn lemma_planned_adapters_have_sources<P, C, X>(
    kind: ModelKind,
    arch: GgufArchitecture,
    paths: &MistralModelPaths<P, C, X>,
    dtype: DType,
)
    requires
        spec_plan(kind, arch, spec_parts_of(paths), dtype) matches Ok(plan) && plan is XLoraLlama,
    ensures
        paths.names_all_adapter_parts(),
        kind.spec_bears_adapters(),
        arch == GgufArchitecture::Llama,
{
}

/// A plain load of the LLaMA family or of Phi-2 gives a pipeline that
/// routes nothing dynamically and holds no routing state.
pub proof fn lemma_plain_load(
    loader: &GgufLoader,
    arch: GgufArchitecture,
    parts: AdapterParts,
    dtype: DType,
    dims: ModelDims,
    eos_tok: Seq<u32>,
    pipeline: GgufPipeline,
)
    requires
        loader.kind == ModelKind::QuantizedGGUF,
        arch == GgufArchitecture::Llama || arch == GgufArchitecture::Phi2,
        spec_plan(loader.kind, arch, parts, dtype) matches Ok(plan) && loader.assembles(
            plan,
            dims,
            eos_tok,
            pipeline,
        ),
    ensures
        spec_plan(loader.kind, arch, parts, dtype) is Ok,
        !pipeline.spec_is_xlora(),
        pipeline.non_granular_state is None,
        !pipeline.is_lora,
{
}

/// A load of the LLaMA family with dynamically routed adapters, all of its
/// parts at hand, is planned, and gives a pipeline that routes dynamically.
/// Its routing state is there exactly where a target index was configured:
/// the target is that index and the counter is at zero.
pub proof fn lemma_dynamic_load(
    loader: &GgufLoader,
    parts: AdapterParts,
    dtype: DType,
    dims: ModelDims,
    eos_tok: Seq<u32>,
    pipeline: GgufPipeline,
)
    requires
        loader.kind == ModelKind::XLoraGGUF,
        parts.complete(),
        spec_plan(loader.kind, GgufArchitecture::Llama, parts, dtype) matches Ok(plan)
            ==> loader.assembles(plan, dims, eos_tok, pipeline),
    ensures
        spec_plan(loader.kind, GgufArchitecture::Llama, parts, dtype) is Ok,
        pipeline.spec_is_xlora(),
        !pipeline.is_lora,
        match loader.tgt_non_granular_index {
            Some(tgt) => pipeline.non_granular_state == Some(
                NonGranularState { non_granular_index: 0, tgt_non_granular_index: tgt },
            ),
            None => pipeline.non_granular_state is None,
        },
{
}

/// A load of the LLaMA family with a fixed blend of adapters, all of its
/// parts at hand, is planned, and gives a pipeline over the adapter-aware
/// model that is flagged as a fixed blend, routes nothing dynamically and
/// holds no routing state.
pub proof fn lemma_static_load(
    loader: &GgufLoader,
    parts: AdapterParts,
    dtype: DType,
    dims: ModelDims,
    eos_tok: Seq<u32>,
    pipeline: GgufPipeline,
)
    requires
        loader.kind == ModelKind::LoraGGUF,
        parts.complete(),
        spec_plan(loader.kind, GgufArchitecture::Llama, parts, dtype) matches Ok(plan)
            ==> loader.assembles(plan, dims, eos_tok, pipeline),
    ensures
        spec_plan(loader.kind, GgufArchitecture::Llama, parts, dtype) is Ok,
        pipeline.model is XLoraLlama,
        pipeline.is_lora,
        !pipeline.spec_is_xlora(),
        pipeline.non_granular_state is None,
{
}

} // verus!
