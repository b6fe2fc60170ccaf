use std::collections::HashMap;

use candle_core::quantized::gguf_file::{Content, Value, VersionedMagic};
use candle_core::{CudaDevice, Device};
use gguf_pipeline::container::{architecture_tag, container_outcome};
use gguf_pipeline::dtype::DType;
use gguf_pipeline::error::{AdapterPart, LoadError};
use gguf_pipeline::factory::ModelPlan;
use gguf_pipeline::kind::ModelKind;
use gguf_pipeline::loader::GgufLoader;
use gguf_pipeline::paths::{AdapterOrdering, MistralModelPaths};
use gguf_pipeline::GgufSpecificConfig;

fn content(entries: Vec<(&str, Value)>) -> Content {
    let mut metadata = HashMap::new();
    for (key, value) in entries {
        metadata.insert(key.to_string(), value);
    }
    Content {
        magic: VersionedMagic::GgufV3,
        metadata,
        tensor_infos: HashMap::new(),
        tensor_data_offset: 0,
    }
}

fn declaring(tag: &str) -> Content {
    content(vec![
        ("general.name", Value::String("a model".to_string())),
        ("general.architecture", Value::String(tag.to_string())),
        ("llama.block_count", Value::U32(32)),
    ])
}

fn loader(kind: ModelKind) -> GgufLoader {
    GgufLoader::new(
        Some("org/model".to_string()),
        GgufSpecificConfig { repeat_last_n: 64 },
        None,
        None,
        None,
        kind,
        None,
        false,
        None,
        None,
        Some(2),
    )
}

fn plain_paths() -> MistralModelPaths<String, u32, u32> {
    MistralModelPaths {
        tokenizer_filename: "tokenizer.json".to_string(),
        config_filename: "config.json".to_string(),
        template_filename: "tokenizer_config.json".to_string(),
        filenames: vec!["model.q4.gguf".to_string()],
        xlora_adapter_filenames: None,
        xlora_adapter_configs: None,
        classifier_path: None,
        classifier_config: None,
        xlora_ordering: None,
    }
}

fn adapter_paths() -> MistralModelPaths<String, u32, u32> {
    MistralModelPaths {
        xlora_adapter_filenames: Some(vec![("a".to_string(), "a.safetensors".to_string())]),
        xlora_adapter_configs: Some(vec![("a".to_string(), 8)]),
        classifier_path: Some("classifier.safetensors".to_string()),
        classifier_config: Some(1),
        xlora_ordering: Some(AdapterOrdering {
            base_model_id: "base/llama".to_string(),
            adapters: vec![],
        }),
        ..plain_paths()
    }
}

#[test]
fn architecture_tag_is_the_text_under_the_architecture_key() {
    assert_eq!(architecture_tag(&declaring("llama")), Some("llama".to_string()));
    assert_eq!(architecture_tag(&declaring("anything at all")), Some("anything at all".to_string()));
}

#[test]
fn architecture_tag_is_not_taken_from_another_key() {
    let c = content(vec![("general.name", Value::String("llama".to_string()))]);
    assert_eq!(architecture_tag(&c), None);
    assert_eq!(architecture_tag(&content(vec![])), None);
}

#[test]
fn an_entry_that_is_no_text_declares_no_architecture() {
    let c = content(vec![("general.architecture", Value::U32(7))]);
    assert_eq!(architecture_tag(&c), None);
    let c = content(vec![("general.architecture", Value::Bool(true))]);
    assert_eq!(architecture_tag(&c), None);
    let c = content(vec![(
        "general.architecture",
        Value::Array(vec![Value::String("llama".to_string())]),
    )]);
    assert_eq!(architecture_tag(&c), None);
}

#[test]
fn plain_load_is_planned_from_the_header() {
    let l = loader(ModelKind::QuantizedGGUF);
    assert_eq!(
        l.plan_load(&declaring("llama"), &plain_paths(), None, &Device::Cpu),
        Some(Ok(ModelPlan::Llama))
    );
    assert_eq!(
        l.plan_load(&declaring("phi2"), &plain_paths(), None, &Device::Cpu),
        Some(Ok(ModelPlan::Phi2))
    );
}

#[test]
fn a_header_without_architecture_gives_no_plan() {
    let l = loader(ModelKind::QuantizedGGUF);
    assert_eq!(l.plan_load(&content(vec![]), &plain_paths(), None, &Device::Cpu), None);
}

#[test]
fn an_unknown_architecture_is_refused_by_its_tag() {
    let l = loader(ModelKind::QuantizedGGUF);
    assert_eq!(
        l.plan_load(&declaring("starcoder"), &plain_paths(), None, &Device::Cpu),
        Some(Err(LoadError::UnsupportedArchitecture("starcoder".to_string())))
    );
}

#[test]
fn an_unknown_architecture_is_refused_before_missing_adapter_parts() {
    let l = loader(ModelKind::XLoraGGUF);
    assert_eq!(
        l.plan_load(&declaring("starcoder"), &plain_paths(), None, &Device::Cpu),
        Some(Err(LoadError::UnsupportedArchitecture("starcoder".to_string())))
    );
    assert_eq!(
        l.plan_load(&declaring("llama"), &plain_paths(), None, &Device::Cpu),
        Some(Err(LoadError::MissingAdapterConfiguration(AdapterPart::ClassifierWeights)))
    );
}

#[test]
fn a_known_architecture_without_a_plain_model_is_refused() {
    let l = loader(ModelKind::QuantizedGGUF);
    assert_eq!(
        l.plan_load(&declaring("falcon"), &plain_paths(), None, &Device::Cpu),
        Some(Err(LoadError::UnsupportedArchitecture("falcon".to_string())))
    );
}

#[test]
fn adapters_on_the_cpu_are_decoded_at_full_precision() {
    let l = loader(ModelKind::XLoraGGUF);
    assert_eq!(
        l.plan_load(&declaring("llama"), &adapter_paths(), None, &Device::Cpu),
        Some(Ok(ModelPlan::XLoraLlama { dtype: DType::F32, with_classifier_weights: true }))
    );
}

#[test]
fn adapters_on_an_accelerator_are_decoded_at_reduced_precision() {
    let l = loader(ModelKind::LoraGGUF);
    assert_eq!(
        l.plan_load(&declaring("llama"), &adapter_paths(), None, &Device::Cuda(CudaDevice)),
        Some(Ok(ModelPlan::XLoraLlama { dtype: DType::BF16, with_classifier_weights: false }))
    );
}

#[test]
fn an_explicit_precision_overrides_the_device() {
    let l = loader(ModelKind::XLoraGGUF);
    assert_eq!(
        l.plan_load(&declaring("llama"), &adapter_paths(), Some(DType::F16), &Device::Cpu),
        Some(Ok(ModelPlan::XLoraLlama { dtype: DType::F16, with_classifier_weights: true }))
    );
    assert_eq!(
        l.plan_load(
            &declaring("llama"),
            &adapter_paths(),
            Some(DType::F64),
            &Device::Cuda(CudaDevice)
        ),
        Some(Ok(ModelPlan::XLoraLlama { dtype: DType::F64, with_classifier_weights: true }))
    );
}

#[test]
fn adapters_on_another_architecture_are_refused() {
    let l = loader(ModelKind::XLoraGGUF);
    assert_eq!(
        l.plan_load(&declaring("phi2"), &adapter_paths(), None, &Device::Cpu),
        Some(Err(LoadError::UnsupportedArchitectureForAdapters("phi2".to_string())))
    );
}

#[test]
fn a_container_that_was_read_is_handed_on_as_it_is() {
    let read = container_outcome("/models/q4/weights.gguf", Ok(declaring("llama")));
    match read {
        Ok(c) => {
            assert_eq!(architecture_tag(&c), Some("llama".to_string()));
            assert_eq!(c.metadata.len(), 3);
            assert_eq!(c.magic, VersionedMagic::GgufV3);
        }
        Err(e) => panic!("a container that was read must come out: {}", e.message()),
    }
}

#[test]
fn an_unreadable_container_fails_with_the_condition_that_names_its_path() {
    let read = container_outcome(
        "/models/q4/weights.gguf",
        Err("No such file or directory (os error 2)".to_string()),
    );
    match read {
        Err(e) => {
            assert_eq!(
                e,
                LoadError::ContainerReadError {
                    path: "/models/q4/weights.gguf".to_string(),
                    cause: "No such file or directory (os error 2)".to_string(),
                }
            );
            assert_eq!(
                e.message(),
                "path: /models/q4/weights.gguf No such file or directory (os error 2)"
            );
        }
        Ok(_) => panic!("an unreadable container must not come out"),
    }
}

#[test]
fn the_path_of_an_unreadable_container_is_kept_exactly() {
    for path in ["", " ", "relative/модель.gguf", "/a/../b//c.gguf"] {
        match container_outcome(path, Err("unexpected magic".to_string())) {
            Err(LoadError::ContainerReadError { path: named, cause }) => {
                assert_eq!(named, path);
                assert_eq!(cause, "unexpected magic");
            }
            Err(other) => panic!("wrong condition: {}", other.message()),
            Ok(_) => panic!("an unreadable container must not come out"),
        }
    }
}
