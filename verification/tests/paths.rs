use gguf_pipeline::dtype::DType;
use gguf_pipeline::paths::{same_names, AdapterOrdering, AdapterTargets, MistralModelPaths};

fn ordering() -> AdapterOrdering {
    AdapterOrdering {
        base_model_id: "base/model".to_string(),
        adapters: vec![
            AdapterTargets { name: "a".to_string(), sites: vec!["q_proj".to_string()] },
            AdapterTargets {
                name: "b".to_string(),
                sites: vec!["q_proj".to_string(), "v_proj".to_string()],
            },
        ],
    }
}

fn plain() -> MistralModelPaths<String, u32, u32> {
    MistralModelPaths {
        tokenizer_filename: "tokenizer.json".to_string(),
        config_filename: "config.json".to_string(),
        template_filename: "tokenizer_config.json".to_string(),
        filenames: vec!["first.gguf".to_string(), "second.gguf".to_string()],
        xlora_adapter_filenames: None,
        xlora_adapter_configs: None,
        classifier_path: None,
        classifier_config: None,
        xlora_ordering: None,
    }
}

fn with_adapters() -> MistralModelPaths<String, u32, u32> {
    MistralModelPaths {
        xlora_adapter_filenames: Some(vec![
            ("a".to_string(), "a.safetensors".to_string()),
            ("b".to_string(), "b.safetensors".to_string()),
        ]),
        xlora_adapter_configs: Some(vec![("a".to_string(), 8), ("b".to_string(), 16)]),
        classifier_path: Some("classifier.safetensors".to_string()),
        classifier_config: Some(7),
        xlora_ordering: Some(ordering()),
        ..plain()
    }
}

#[test]
fn getters_hand_out_the_fields() {
    let p = with_adapters();
    assert_eq!(p.get_tokenizer_filename(), "tokenizer.json");
    assert_eq!(p.get_config_filename(), "config.json");
    assert_eq!(p.get_template_filename(), "tokenizer_config.json");
    assert_eq!(p.get_weight_filenames(), ["first.gguf".to_string(), "second.gguf".to_string()]);
    assert_eq!(
        p.get_adapter_filenames(),
        &Some(vec![
            ("a".to_string(), "a.safetensors".to_string()),
            ("b".to_string(), "b.safetensors".to_string()),
        ])
    );
    assert_eq!(p.get_adapter_configs(), &Some(vec![("a".to_string(), 8), ("b".to_string(), 16)]));
    assert_eq!(p.get_classifier_path(), &Some("classifier.safetensors".to_string()));
    assert_eq!(p.get_classifier_config(), &Some(7));
    assert_eq!(p.get_ordering(), &Some(ordering()));
}

#[test]
fn getters_report_absent_adapter_parts() {
    let p = plain();
    assert_eq!(p.get_adapter_filenames(), &None);
    assert_eq!(p.get_adapter_configs(), &None);
    assert_eq!(p.get_classifier_path(), &None);
    assert_eq!(p.get_classifier_config(), &None);
    assert_eq!(p.get_ordering(), &None);
}

#[test]
fn only_the_first_weight_file_is_the_quantized_source() {
    assert_eq!(plain().quantized_source(), Some(&"first.gguf".to_string()));
    let empty = MistralModelPaths { filenames: vec![], ..plain() };
    assert_eq!(empty.quantized_source(), None);
}

#[test]
fn resolved_paths_are_well_formed() {
    assert!(plain().is_well_formed());
    assert!(with_adapters().is_well_formed());
}

#[test]
fn paths_without_a_weight_file_are_ill_formed() {
    let p = MistralModelPaths { filenames: vec![], ..with_adapters() };
    assert!(!p.is_well_formed());
}

#[test]
fn adapter_lists_of_different_length_are_ill_formed() {
    let p = MistralModelPaths {
        xlora_adapter_configs: Some(vec![("a".to_string(), 8)]),
        ..with_adapters()
    };
    assert!(!p.is_well_formed());
}

#[test]
fn adapter_lists_that_disagree_on_a_name_are_ill_formed() {
    let p = MistralModelPaths {
        xlora_adapter_configs: Some(vec![("a".to_string(), 8), ("c".to_string(), 16)]),
        ..with_adapters()
    };
    assert!(!p.is_well_formed());
    let swapped = MistralModelPaths {
        xlora_adapter_configs: Some(vec![("b".to_string(), 16), ("a".to_string(), 8)]),
        ..with_adapters()
    };
    assert!(!swapped.is_well_formed());
}

#[test]
fn one_adapter_list_alone_is_not_held_against_the_other() {
    let p = MistralModelPaths { xlora_adapter_configs: None, ..with_adapters() };
    assert!(p.is_well_formed());
}

#[test]
fn classifier_needs_weights_and_configuration_together() {
    let no_config = MistralModelPaths { classifier_config: None, ..with_adapters() };
    assert!(!no_config.is_well_formed());
    let no_path = MistralModelPaths { classifier_path: None, ..with_adapters() };
    assert!(!no_path.is_well_formed());
    let neither =
        MistralModelPaths { classifier_path: None, classifier_config: None, ..with_adapters() };
    assert!(neither.is_well_formed());
}

#[test]
fn names_are_compared_position_by_position() {
    let left = vec![("a".to_string(), 1u8), ("b".to_string(), 2u8)];
    let right = vec![("a".to_string(), "x"), ("b".to_string(), "y")];
    assert!(same_names(&left, &right));
    let other = vec![("a".to_string(), "x"), ("B".to_string(), "y")];
    assert!(!same_names(&left, &other));
    let shorter = vec![("a".to_string(), "x")];
    assert!(!same_names(&left, &shorter));
    let empty_left: Vec<(String, u8)> = vec![];
    let empty_right: Vec<(String, u8)> = vec![];
    assert!(same_names(&empty_left, &empty_right));
}

#[test]
fn adapter_sources_for_a_dynamic_blend_map_the_classifier_too() {
    let p = with_adapters();
    let s = p.adapter_sources(DType::BF16, true).unwrap();
    assert_eq!(s.classifier_files, vec![&"classifier.safetensors".to_string()]);
    assert_eq!(
        s.adapter_files,
        vec![&"a.safetensors".to_string(), &"b.safetensors".to_string()]
    );
    assert_eq!(s.dtype, DType::BF16);
    assert_eq!(s.adapter_configs, &vec![("a".to_string(), 8), ("b".to_string(), 16)]);
    assert_eq!(s.ordering, &ordering());
    assert_eq!(s.classifier_config, &7);
}

#[test]
fn adapter_sources_for_a_fixed_blend_leave_the_classifier_weights_out() {
    let p = with_adapters();
    let s = p.adapter_sources(DType::F32, false).unwrap();
    assert!(s.classifier_files.is_empty());
    assert_eq!(
        s.adapter_files,
        vec![&"a.safetensors".to_string(), &"b.safetensors".to_string()]
    );
    assert_eq!(s.dtype, DType::F32);
    assert_eq!(s.classifier_config, &7);
}

#[test]
fn adapter_sources_keep_the_order_of_the_files() {
    let p = MistralModelPaths {
        xlora_adapter_filenames: Some(vec![
            ("z".to_string(), "3.safetensors".to_string()),
            ("y".to_string(), "1.safetensors".to_string()),
            ("x".to_string(), "2.safetensors".to_string()),
        ]),
        ..with_adapters()
    };
    let s = p.adapter_sources(DType::F32, true).unwrap();
    assert_eq!(
        s.adapter_files,
        vec![
            &"3.safetensors".to_string(),
            &"1.safetensors".to_string(),
            &"2.safetensors".to_string()
        ]
    );
}

#[test]
fn adapter_sources_of_no_adapters_are_empty() {
    let p = MistralModelPaths {
        xlora_adapter_filenames: Some(vec![]),
        xlora_adapter_configs: Some(vec![]),
        ..with_adapters()
    };
    let s = p.adapter_sources(DType::F32, false).unwrap();
    assert!(s.adapter_files.is_empty());
    assert!(s.classifier_files.is_empty());
}

#[test]
fn adapter_sources_want_every_part() {
    assert!(plain().adapter_sources(DType::F32, true).is_none());
    let p = MistralModelPaths { classifier_path: None, ..with_adapters() };
    assert!(p.adapter_sources(DType::F32, false).is_none());
    let p = MistralModelPaths { xlora_adapter_filenames: None, ..with_adapters() };
    assert!(p.adapter_sources(DType::F32, true).is_none());
    let p = MistralModelPaths { xlora_adapter_configs: None, ..with_adapters() };
    assert!(p.adapter_sources(DType::F32, true).is_none());
    let p = MistralModelPaths { xlora_ordering: None, ..with_adapters() };
    assert!(p.adapter_sources(DType::F32, true).is_none());
    let p = MistralModelPaths { classifier_config: None, ..with_adapters() };
    assert!(p.adapter_sources(DType::F32, true).is_none());
}
