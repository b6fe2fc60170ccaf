//! The pipeline of a loaded model, and how one inference step is routed.

use vstd::prelude::*;
use crate::factory::ModelPlan;
use crate::state::NonGranularState;
use crate::GgufSpecificConfig;

verus! {

/// What the pipeline reads of a constructed model.
#[derive(Debug, Clone, Copy, PartialEq, Eq, Structural)]
pub struct ModelDims {
    /// The longest sequence that the model supports.
    pub max_seq_len: usize,
    /// The number of layers, which is the number of slots in its cache.
    pub num_hidden_layers: usize,
}

/// The model behind a pipeline, by implementation. The set is closed: a
/// further implementation needs a variant here and an arm in every match.
#[derive(Debug, Clone, Copy, PartialEq, Eq, Structural)]
pub enum Model {
    Llama(ModelDims),
    Phi2(ModelDims),
    /// The adapter-aware model. It serves the fixed blend and the dynamic
    /// one alike and does not tell them apart.
    XLoraLlama(ModelDims),
}

impl Model {
    /// The model that carrying out a plan gives.
    pub open spec fn spec_for_plan(plan: ModelPlan, dims: ModelDims) -> Model {
        match plan {
            ModelPlan::Llama => Model::Llama(dims),
            ModelPlan::Phi2 => Model::Phi2(dims),
            ModelPlan::XLoraLlama { .. } => Model::XLoraLlama(dims),
        }
    }

    /// What the pipeline reads of the model, whichever it is.
    pub open spec fn spec_dims(self) -> ModelDims {
        match self {
            Model::Llama(dims) => dims,
            Model::Phi2(dims) => dims,
            Model::XLoraLlama(dims) => dims,
        }
    }

    /// The model that carrying out a plan gives.
    pub fn for_plan(plan: ModelPlan, dims: ModelDims) -> (model: Model)
        ensures
            model == Self::spec_for_plan(plan, dims),
    {
        match plan {
            ModelPlan::Llama => Model::Llama(dims),
            ModelPlan::Phi2 => Model::Phi2(dims),
            ModelPlan::XLoraLlama { .. } => Model::XLoraLlama(dims),
        }
    }
}

/// The inputs of one step, as the input builder made them from the batch.
/// `T` is the type of a tensor. The `_full` members are the second,
/// parallel set from which a dynamically routed model computes its routing;
/// the builder makes them for such a model only.
pub struct ModelInputs<T> {
    pub input_ids: T,
    pub input_ids_full: Option<T>,
    pub seqlen_offsets: Vec<usize>,
    pub seqlen_offsets_full: Option<Vec<usize>>,
    pub seqlen_offsets_kernel: T,
    pub seqlen_offsets_kernel_full: Option<T>,
    pub context_lens: Vec<usize>,
}

/// What the input builder is asked for.
#[derive(Debug, Clone, Copy, PartialEq, Eq, Structural)]
pub struct InputRequest {
    /// Whether the step processes prompts or decodes one token.
    pub is_prompt: bool,
    /// Whether the second, parallel set of inputs is wanted.
    pub is_xlora: bool,
    pub no_kv_cache: bool,
}

/// One call of a model's forward computation, with the arguments of that
/// model's own signature.
pub enum ForwardCall<'a, T> {
    /// The plain model of the LLaMA family.
    Llama {
        input_ids: &'a T,
        seqlen_offsets: &'a Vec<usize>,
        seqlen_offsets_kernel: &'a T,
        context_lens: &'a Vec<usize>,
    },
    /// Phi-2, whose attention takes no offsets in the kernel's form.
    Phi2 { input_ids: &'a T, seqlen_offsets: &'a Vec<usize>, context_lens: &'a Vec<usize> },
    /// The adapter-aware model: both sets of inputs, the cache flag and the
    /// routing state.
    XLoraLlama {
        input_ids: &'a T,
        input_ids_full: &'a T,
        seqlen_offsets: &'a Vec<usize>,
        seqlen_offsets_full: &'a Vec<usize>,
        seqlen_offsets_kernel: &'a T,
        seqlen_offsets_kernel_full: &'a T,
        no_kv_cache: bool,
        non_granular_state: Option<NonGranularState>,
        context_lens: &'a Vec<usize>,
    },
}

/// A loaded model as the caller drives it. The caller owns it and puts one
/// forward step through it at a time.
pub struct GgufPipeline {
    pub model: Model,
    pub config: GgufSpecificConfig,
    pub no_kv_cache: bool,
    pub model_id: String,
    /// The tokens that end a sequence, computed once at load.
    pub eos_tok: Vec<u32>,
    /// Present only where the adapters are routed dynamically. The counter
    /// in it is the one the pipeline was built with; the running counter is
    /// shared with the model by whoever runs it.
    pub non_granular_state: Option<NonGranularState>,
    /// Set for a fixed blend of adapters, and for nothing else.
    pub is_lora: bool,
}

impl GgufPipeline {
    /// The adapters are routed dynamically: the model is the adapter-aware
    /// one and the pipeline is not flagged as a fixed blend.
    pub open spec fn spec_is_xlora(&self) -> bool {
        self.model is XLoraLlama && !self.is_lora
    }

    /// Only a dynamically routed pipeline holds a routing state.
    pub open spec fn wf(&self) -> bool {
        self.non_granular_state is Some ==> self.spec_is_xlora()
    }

    /// What the input builder is asked for at a step.
    pub open spec fn spec_input_request(&self, is_prompt: bool) -> InputRequest {
        InputRequest { is_prompt, is_xlora: self.spec_is_xlora(), no_kv_cache: self.no_kv_cache }
    }

    /// The call that a step makes. Each model gets the arguments of its own
    /// signature. The adapter-aware model gets both sets of inputs, and for
    /// each member of the second set that the builder left out, the member
    /// of the first; it gets the routing state unless the blend is fixed.
    pub open spec fn spec_route<'a, T>(&'a self, inputs: &'a ModelInputs<T>) -> ForwardCall<'a, T> {
        match self.model {
            Model::Llama(_) => ForwardCall::Llama {
                input_ids: &inputs.input_ids,
                seqlen_offsets: &inputs.seqlen_offsets,
                seqlen_offsets_kernel: &inputs.seqlen_offsets_kernel,
                context_lens: &inputs.context_lens,
            },
            Model::Phi2(_) => ForwardCall::Phi2 {
                input_ids: &inputs.input_ids,
                seqlen_offsets: &inputs.seqlen_offsets,
                context_lens: &inputs.context_lens,
            },
            Model::XLoraLlama(_) => ForwardCall::XLoraLlama {
                input_ids: &inputs.input_ids,
                input_ids_full: match inputs.input_ids_full {
                    Some(full) => &full,
                    None => &inputs.input_ids,
                },
                seqlen_offsets: &inputs.seqlen_offsets,
                seqlen_offsets_full: match inputs.seqlen_offsets_full {
                    Some(full) => &full,
                    None => &inputs.seqlen_offsets,
                },
                seqlen_offsets_kernel: &inputs.seqlen_offsets_kernel,
                seqlen_offsets_kernel_full: match inputs.seqlen_offsets_kernel_full {
                    Some(full) => &full,
                    None => &inputs.seqlen_offsets_kernel,
                },
                no_kv_cache: self.no_kv_cache,
                non_granular_state: if self.is_lora {
                    None
                } else {
                    self.non_granular_state
                },
                context_lens: &inputs.context_lens,
            },
        }
    }

    /// Whether the adapters are routed dynamically.
    #[verifier::when_used_as_spec(spec_is_xlora)]
    pub fn is_xlora(&self) -> (b: bool)
        ensures
            b == self.spec_is_xlora(),
    {
        match self.model {
            Model::Llama(_) | Model::Phi2(_) => false,
            Model::XLoraLlama(_) => !self.is_lora,
        }
    }

    /// What the input builder is asked for at a step.
    pub fn input_request(&self, is_prompt: bool) -> (request: InputRequest)
        ensures
            request == self.spec_input_request(is_prompt),
    {
        InputRequest { is_prompt, is_xlora: self.is_xlora(), no_kv_cache: self.no_kv_cache }
    }

    /// Routes one step: picks the model's forward signature and its
    /// arguments from the inputs that the builder made.
    pub fn forward<'a, T>(&'a self, inputs: &'a ModelInputs<T>) -> (call: ForwardCall<'a, T>)
        ensures
            call == self.spec_route(inputs),
    {
        match self.model {
            Model::Llama(_) => ForwardCall::Llama {
                input_ids: &inputs.input_ids,
                seqlen_offsets: &inputs.seqlen_offsets,
                seqlen_offsets_kernel: &inputs.seqlen_offsets_kernel,
                context_lens: &inputs.context_lens,
            },
            Model::Phi2(_) => ForwardCall::Phi2 {
                input_ids: &inputs.input_ids,
                seqlen_offsets: &inputs.seqlen_offsets,
                context_lens: &inputs.context_lens,
            },
            Model::XLoraLlama(_) => {
                let input_ids_full = match &inputs.input_ids_full {
                    Some(full) => full,
                    None => &inputs.input_ids,
                };
                let seqlen_offsets_full = match &inputs.seqlen_offsets_full {
                    Some(full) => full,
                    None => &inputs.seqlen_offsets,
                };
                let seqlen_offsets_kernel_full = match &inputs.seqlen_offsets_kernel_full {
                    Some(full) => full,
                    None => &inputs.seqlen_offsets_kernel,
                };
                let non_granular_state = if self.is_lora {
                    None
                } else {
                    self.non_granular_state
                };
                ForwardCall::XLoraLlama {
                    input_ids: &inputs.input_ids,
                    input_ids_full,
                    seqlen_offsets: &inputs.seqlen_offsets,
                    seqlen_offsets_full,
                    seqlen_offsets_kernel: &inputs.seqlen_offsets_kernel,
                    seqlen_offsets_kernel_full,
                    no_kv_cache: self.no_kv_cache,
                    non_granular_state,
                    context_lens: &inputs.context_lens,
                }
            },
        }
    }

    /// The number of layers of the model, which is the length of its cache.
    pub fn num_hidden_layers(&self) -> (n: usize)
        ensures
            n == self.model.spec_dims().num_hidden_layers,
    {
        match &self.model {
            Model::Llama(dims) => dims.num_hidden_layers,
            Model::Phi2(dims) => dims.num_hidden_layers,
            Model::XLoraLlama(dims) => dims.num_hidden_layers,
        }
    }

    /// The longest sequence that the model supports.
    pub fn get_max_seq_len(&self) -> (n: usize)
        ensures
            n == self.model.spec_dims().max_seq_len,
    {
        match &self.model {
            Model::Llama(dims) => dims.max_seq_len,
            Model::Phi2(dims) => dims.max_seq_len,
            Model::XLoraLlama(dims) => dims.max_seq_len,
        }
    }

    /// How many of the latest tokens the repeat penalty looks at.
    pub fn get_repeat_last_n(&self) -> (n: usize)
        ensures
            n == self.config.repeat_last_n,
    {
        self.config.repeat_last_n
    }

    /// The tokens that end a sequence, in the order in which they were
    /// resolved.
    pub fn eos_tok(&self) -> (ids: &[u32])
        ensures
            ids@ == self.eos_tok@,
    {
        self.eos_tok.as_slice()
    }

    /// The name under which the pipeline is shown: its model's identifier.
    pub fn name(&self) -> (n: String)
        ensures
            n@ == self.model_id@,
    {
        self.model_id.clone()
    }

    /// Whether the cache is switched off.
    pub fn has_no_kv_cache(&self) -> (b: bool)
        ensures
            b == self.no_kv_cache,
    {
        self.no_kv_cache
    }

    /// The routing state that the pipeline holds. It is handed out as it
    /// is: a caller sees a state wherever one was made.
    pub fn get_non_granular_state(&self) -> (state: &Option<NonGranularState>)
        ensures
            *state == self.non_granular_state,
    {
        &self.non_granular_state
    }
}

/// A pipeline never asks for the second set of inputs on behalf of a plain
/// model or of a fixed blend, and a fixed blend is never handed a routing
/// state.
pub proof fn lemma_fixed_blend_gets_no_state<T>(pipeline: &GgufPipeline, inputs: &ModelInputs<T>)
    requires
        pipeline.is_lora || !(pipeline.model is XLoraLlama),
    ensures
        !pipeline.spec_input_request(true).is_xlora,
        !pipeline.spec_input_request(false).is_xlora,
        pipeline.spec_route(inputs) matches ForwardCall::XLoraLlama { non_granular_state, .. }
            ==> non_granular_state is None,
{
}

/// The model decides the signature: each model is called by its own
/// variant of the call, and by no other.
pub proof fn lemma_route_follows_model<T>(pipeline: &GgufPipeline, inputs: &ModelInputs<T>)
    ensures
        pipeline.model is Llama <==> pipeline.spec_route(inputs) is Llama,
        pipeline.model is Phi2 <==> pipeline.spec_route(inputs) is Phi2,
        pipeline.model is XLoraLlama <==> pipeline.spec_route(inputs) is XLoraLlama,
{
}

} // verus!
