use gguf_pipeline::error::{AdapterPart, LoadError};

#[test]
fn unsupported_architecture_message_names_the_tag() {
    let e = LoadError::UnsupportedArchitecture("mpt".to_string());
    assert_eq!(e.message(), "Unsupported architecture `mpt`");
}

#[test]
fn unsupported_architecture_for_adapters_message_names_the_tag() {
    let e = LoadError::UnsupportedArchitectureForAdapters("phi2".to_string());
    assert_eq!(e.message(), "Unsupported architecture for GGUF X-LoRA `phi2`");
}

#[test]
fn missing_adapter_configuration_message_names_the_part() {
    let parts = vec![
        (AdapterPart::ClassifierWeights, "classifier weights"),
        (AdapterPart::AdapterWeights, "adapter weights"),
        (AdapterPart::AdapterConfigs, "adapter configurations"),
        (AdapterPart::AdapterOrdering, "adapter ordering"),
        (AdapterPart::ClassifierConfig, "classifier configuration"),
    ];
    for (part, name) in parts {
        assert_eq!(part.name(), name);
        assert_eq!(
            LoadError::MissingAdapterConfiguration(part).message(),
            format!("Missing adapter configuration: {}", name)
        );
    }
}

#[test]
fn container_read_error_message_names_the_exact_path() {
    let e = LoadError::ContainerReadError {
        path: "/models/q4/weights.gguf".to_string(),
        cause: "unexpected magic".to_string(),
    };
    assert_eq!(e.message(), "path: /models/q4/weights.gguf unexpected magic");
    assert!(e.message().contains("/models/q4/weights.gguf"));
}

#[test]
fn tokenizer_load_error_wraps_the_text_verbatim() {
    let e = LoadError::TokenizerLoadError("expected value at line 1 column 1".to_string());
    assert_eq!(e.message(), "`expected value at line 1 column 1`");
}

#[test]
fn empty_texts_leave_only_the_frame() {
    assert_eq!(LoadError::TokenizerLoadError(String::new()).message(), "``");
    assert_eq!(
        LoadError::UnsupportedArchitecture(String::new()).message(),
        "Unsupported architecture ``"
    );
    let e = LoadError::ContainerReadError { path: String::new(), cause: String::new() };
    assert_eq!(e.message(), "path:  ");
}
