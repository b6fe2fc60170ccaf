//! The resolved locations of everything a load reads.

use vstd::prelude::*;
use crate::dtype::DType;

verus! {

/// One adapter of an ordering: its name and the computation sites of the
/// base model that it modifies.
#[derive(Debug, Clone, PartialEq, Eq)]
pub struct AdapterTargets {
    pub name: String,
    pub sites: Vec<String>,
}

/// Which adapters are merged, in which order, and onto which base model.
#[derive(Debug, Clone, PartialEq, Eq)]
pub struct AdapterOrdering {
    /// The identifier of the model that the adapters were made for.
    pub base_model_id: String,
    /// The adapters, in the order in which they are blended.
    pub adapters: Vec<AdapterTargets>,
}

/// Two lists of named items name the same things, position by position.
pub open spec fn names_agree<A, B>(left: Seq<(String, A)>, right: Seq<(String, B)>) -> bool {
    &&& left.len() == right.len()
    &&& forall|i: int| 0 <= i < left.len() ==> (#[trigger] left[i]).0@ == right[i].0@
}

/// Tests whether two lists of named items name the same things, position
/// by position.
pub fn same_names<A, B>(left: &Vec<(String, A)>, right: &Vec<(String, B)>) -> (same: bool)
    ensures
        same == names_agree(left@, right@),
{
    if left.len() != right.len() {
        return false;
    }
    let mut i: usize = 0;
    while i < left.len()
        invariant
            i <= left@.len(),
            left@.len() == right@.len(),
            forall|j: int| 0 <= j < i ==> (#[trigger] left@[j]).0@ == right@[j].0@,
        decreases left@.len() - i,
    {
        if left[i].0 != right[i].0 {
            return false;
        }
        i += 1;
    }
    true
}

/// Where the parts of a model lie. `P` is the type of a location, `C` the
/// configuration of one adapter and `X` the configuration of the
/// classifier; the last two are carried, never looked into.
pub struct MistralModelPaths<P, C, X> {
    pub tokenizer_filename: P,
    pub config_filename: P,
    pub template_filename: P,
    /// The weight containers. Only the first is read as the quantized source.
    pub filenames: Vec<P>,
    /// Each adapter's name and weight file.
    pub xlora_adapter_filenames: Option<Vec<(String, P)>>,
    /// Each adapter's name and configuration.
    pub xlora_adapter_configs: Option<Vec<(String, C)>>,
    pub classifier_path: Option<P>,
    pub classifier_config: Option<X>,
    pub xlora_ordering: Option<AdapterOrdering>,
}

/// What the adapter loader and the adapter-aware model are handed: the
/// weight files to map into one source of tensors, the precision to decode
/// them at, and the configurations that steer the merge.
pub struct AdapterSources<'a, P, C, X> {
    /// The classifier's weight file, where it is mapped; else nothing.
    pub classifier_files: Vec<&'a P>,
    /// The adapters' weight files, in the order of the paths.
    pub adapter_files: Vec<&'a P>,
    pub dtype: DType,
    pub adapter_configs: &'a Vec<(String, C)>,
    pub ordering: &'a AdapterOrdering,
    pub classifier_config: &'a X,
}

impl<P, C, X> MistralModelPaths<P, C, X> {
    /// All five parts that adapters need are named.
    pub open spec fn names_all_adapter_parts(&self) -> bool {
        &&& self.classifier_path is Some
        &&& self.xlora_adapter_filenames is Some
        &&& self.xlora_adapter_configs is Some
        &&& self.xlora_ordering is Some
        &&& self.classifier_config is Some
    }

    /// What `sources` must hold to be the adapter sources of these paths.
    pub open spec fn gives_sources(
        &self,
        dtype: DType,
        with_classifier_weights: bool,
        sources: AdapterSources<'_, P, C, X>,
    ) -> bool {
        let files = self.xlora_adapter_filenames.unwrap()@;
        &&& self.names_all_adapter_parts()
        &&& sources.classifier_files@.len() == (if with_classifier_weights {
            1nat
        } else {
            0nat
        })
        &&& with_classifier_weights ==> *sources.classifier_files@[0]
            == self.classifier_path.unwrap()
        &&& sources.adapter_files@.len() == files.len()
        &&& forall|i: int|
            0 <= i < files.len() ==> *(#[trigger] sources.adapter_files@[i]) == files[i].1
        &&& sources.dtype == dtype
        &&& *sources.adapter_configs == self.xlora_adapter_configs.unwrap()
        &&& *sources.ordering == self.xlora_ordering.unwrap()
        &&& *sources.classifier_config == self.classifier_config.unwrap()
    }

    /// Gathers what a load with adapters hands to the adapter loader and to
    /// the model: every adapter's weight file in order, before them the
    /// classifier's weight file where `with_classifier_weights` asks for
    /// it, and the three configurations. Gives nothing unless the paths
    /// name all five parts.
    pub fn adapter_sources(&self, dtype: DType, with_classifier_weights: bool) -> (r: Option<
        AdapterSources<'_, P, C, X>,
    >)
        ensures
            match r {
                Some(sources) => self.gives_sources(dtype, with_classifier_weights, sources),
                None => !self.names_all_adapter_parts(),
            },
    {
        match (
            &self.classifier_path,
            &self.xlora_adapter_filenames,
            &self.xlora_adapter_configs,
            &self.xlora_ordering,
            &self.classifier_config,
        ) {
            (Some(classifier_path), Some(files), Some(configs), Some(ordering), Some(config)) => {
                let mut classifier_files: Vec<&P> = Vec::new();
                if with_classifier_weights {
                    classifier_files.push(classifier_path);
                }
                let mut adapter_files: Vec<&P> = Vec::new();
                let mut i: usize = 0;
                while i < files.len()
                    invariant
                        i <= files@.len(),
                        adapter_files@.len() == i,
                        forall|j: int|
                            0 <= j < i ==> *(#[trigger] adapter_files@[j]) == files@[j].1,
                    decreases files@.len() - i,
                {
                    adapter_files.push(&files[i].1);
                    i += 1;
                }
                Some(
                    AdapterSources {
                        classifier_files,
                        adapter_files,
                        dtype,
                        adapter_configs: configs,
                        ordering,
                        classifier_config: config,
                    },
                )
            },
            _ => None,
        }
    }

    /// Where both lists of adapters are present, they name the same
    /// adapters, position by position.
    pub open spec fn adapters_aligned(&self) -> bool {
        match (self.xlora_adapter_filenames, self.xlora_adapter_configs) {
            (Some(files), Some(configs)) => names_agree(files@, configs@),
            _ => true,
        }
    }

    /// What holds of paths that a resolver produced: there is a weight
    /// container, the adapter lists agree, and the classifier has its
    /// weights and its configuration together or not at all.
    pub open spec fn wf(&self) -> bool {
        &&& self.filenames@.len() > 0
        &&& self.adapters_aligned()
        &&& (self.classifier_path is Some <==> self.classifier_config is Some)
    }

    /// Tests whether these paths are well formed.
    pub fn is_well_formed(&self) -> (ok: bool)
        ensures
            ok == self.wf(),
    {
        if self.filenames.len() == 0 {
            return false;
        }
        if self.classifier_path.is_some() != self.classifier_config.is_some() {
            return false;
        }
        match (&self.xlora_adapter_filenames, &self.xlora_adapter_configs) {
            (Some(files), Some(configs)) => same_names(files, configs),
            _ => true,
        }
    }

    /// The container that is read as the quantized source: the first of the
    /// weight files, if there is one.
    pub fn quantized_source(&self) -> (first: Option<&P>)
        ensures
            match first {
                Some(p) => self.filenames@.len() > 0 && *p == self.filenames@[0],
                None => self.filenames@.len() == 0,
            },
    {
        if self.filenames.len() > 0 {
            Some(&self.filenames[0])
        } else {
            None
        }
    }

    pub fn get_config_filename(&self) -> (p: &P)
        ensures
            *p == self.config_filename,
    {
        &self.config_filename
    }

    pub fn get_tokenizer_filename(&self) -> (p: &P)
        ensures
            *p == self.tokenizer_filename,
    {
        &self.tokenizer_filename
    }

    pub fn get_weight_filenames(&self) -> (files: &[P])
        ensures
            files@ == self.filenames@,
    {
        self.filenames.as_slice()
    }

    pub fn get_adapter_filenames(&self) -> (files: &Option<Vec<(String, P)>>)
        ensures
            *files == self.xlora_adapter_filenames,
    {
        &self.xlora_adapter_filenames
    }

    pub fn get_adapter_configs(&self) -> (configs: &Option<Vec<(String, C)>>)
        ensures
            *configs == self.xlora_adapter_configs,
    {
        &self.xlora_adapter_configs
    }

    pub fn get_classifier_config(&self) -> (config: &Option<X>)
        ensures
            *config == self.classifier_config,
    {
        &self.classifier_config
    }

    pub fn get_classifier_path(&self) -> (p: &Option<P>)
        ensures
            *p == self.classifier_path,
    {
        &self.classifier_path
    }

    pub fn get_ordering(&self) -> (ordering: &Option<AdapterOrdering>)
        ensures
            *ordering == self.xlora_ordering,
    {
        &self.xlora_ordering
    }

    pub fn get_template_filename(&self) -> (p: &P)
        ensures
            *p == self.template_filename,
    {
        &self.template_filename
    }
}

} // verus!
