//! The conditions that abort a load.

use vstd::prelude::*;
use vstd::string::StringExecFns;

verus! {

/// One of the things that a load with adapters cannot do without.
#[derive(Debug, Clone, Copy, PartialEq, Eq, Structural)]
pub enum AdapterPart {
    /// The weight file of the classifier.
    ClassifierWeights,
    /// The adapters' weight files.
    AdapterWeights,
    /// The adapters' own configurations.
    AdapterConfigs,
    /// The ordering of the adapters.
    AdapterOrdering,
    /// The classifier's configuration.
    ClassifierConfig,
}

/// Why a pipeline could not be built. Every one of these is final: no
/// pipeline comes out of a failed load, whole or in part.
#[derive(Debug, Clone, PartialEq, Eq)]
pub enum LoadError {
    /// The architecture, named by its tag, has no plain model here; or the
    /// tag is none of the known ones.
    UnsupportedArchitecture(String),
    /// The architecture, named by its tag, has no adapter-aware model here.
    UnsupportedArchitectureForAdapters(String),
    /// A load with adapters lacks the named part.
    MissingAdapterConfiguration(AdapterPart),
    /// The weight container at `path` could not be read, for `cause`.
    ContainerReadError { path: String, cause: String },
    /// The tokenizer could not be loaded; the text is its provider's own.
    TokenizerLoadError(String),
}

/// A condition with its texts as plain sequences of characters: what
/// contracts say of a [`LoadError`].
pub ghost enum LoadErrorView {
    UnsupportedArchitecture(Seq<char>),
    UnsupportedArchitectureForAdapters(Seq<char>),
    MissingAdapterConfiguration(AdapterPart),
    ContainerReadError { path: Seq<char>, cause: Seq<char> },
    TokenizerLoadError(Seq<char>),
}

impl View for LoadError {
    type V = LoadErrorView;

    open spec fn view(&self) -> LoadErrorView {
        match *self {
            LoadError::UnsupportedArchitecture(tag) => LoadErrorView::UnsupportedArchitecture(tag@),
            LoadError::UnsupportedArchitectureForAdapters(tag) =>
                LoadErrorView::UnsupportedArchitectureForAdapters(tag@),
            LoadError::MissingAdapterConfiguration(part) =>
                LoadErrorView::MissingAdapterConfiguration(part),
            LoadError::ContainerReadError { path, cause } => (LoadErrorView::ContainerReadError {
                path: path@,
                cause: cause@,
            }),
            LoadError::TokenizerLoadError(text) => LoadErrorView::TokenizerLoadError(text@),
        }
    }
}

impl LoadErrorView {
    /// The text of the condition. Tags, paths and wrapped messages stand in
    /// it unchanged.
    pub open spec fn message(self) -> Seq<char> {
        match self {
            LoadErrorView::UnsupportedArchitecture(tag) => "Unsupported architecture `"@ + tag + "`"@,
            LoadErrorView::UnsupportedArchitectureForAdapters(tag) =>
                "Unsupported architecture for GGUF X-LoRA `"@ + tag + "`"@,
            LoadErrorView::MissingAdapterConfiguration(part) =>
                "Missing adapter configuration: "@ + part.spec_name(),
            LoadErrorView::ContainerReadError { path, cause } => "path: "@ + path + " "@ + cause,
            LoadErrorView::TokenizerLoadError(text) => "`"@ + text + "`"@,
        }
    }
}

impl AdapterPart {
    /// The words that name the part in a message.
    pub open spec fn spec_name(self) -> Seq<char> {
        match self {
            AdapterPart::ClassifierWeights => "classifier weights"@,
            AdapterPart::AdapterWeights => "adapter weights"@,
            AdapterPart::AdapterConfigs => "adapter configurations"@,
            AdapterPart::AdapterOrdering => "adapter ordering"@,
            AdapterPart::ClassifierConfig => "classifier configuration"@,
        }
    }

    /// The words that name the part in a message.
    pub fn name(&self) -> (n: &'static str)
        ensures
            n@ == self.spec_name(),
    {
        match self {
            AdapterPart::ClassifierWeights => "classifier weights",
            AdapterPart::AdapterWeights => "adapter weights",
            AdapterPart::AdapterConfigs => "adapter configurations",
            AdapterPart::AdapterOrdering => "adapter ordering",
            AdapterPart::ClassifierConfig => "classifier configuration",
        }
    }
}

impl LoadError {
    /// The text of the condition.
    pub fn message(&self) -> (m: String)
        ensures
            m@ == self@.message(),
    {
        match self {
            LoadError::UnsupportedArchitecture(tag) => {
                let mut m = String::from_str("Unsupported architecture `");
                m.append(tag.as_str());
                m.append("`");
                m
            },
            LoadError::UnsupportedArchitectureForAdapters(tag) => {
                let mut m = String::from_str("Unsupported architecture for GGUF X-LoRA `");
                m.append(tag.as_str());
                m.append("`");
                m
            },
            LoadError::MissingAdapterConfiguration(part) => {
                let mut m = String::from_str("Missing adapter configuration: ");
                m.append(part.name());
                m
            },
            LoadError::ContainerReadError { path, cause } => {
                let mut m = String::from_str("path: ");
                m.append(path.as_str());
                m.append(" ");
                m.append(cause.as_str());
                m
            },
            LoadError::TokenizerLoadError(text) => {
                let mut m = String::from_str("`");
                m.append(text.as_str());
                m.append("`");
                m
            },
        }
    }
}

/// Where the text that a condition carries stands in its message: how many
/// characters come before it.
pub open spec fn text_offset(e: LoadErrorView) -> int {
    match e {
        LoadErrorView::UnsupportedArchitecture(_) => "Unsupported architecture `"@.len() as int,
        LoadErrorView::UnsupportedArchitectureForAdapters(_) =>
            "Unsupported architecture for GGUF X-LoRA `"@.len() as int,
        LoadErrorView::MissingAdapterConfiguration(_) => "Missing adapter configuration: "@.len() as int,
        LoadErrorView::ContainerReadError { .. } => "path: "@.len() as int,
        LoadErrorView::TokenizerLoadError(_) => "`"@.len() as int,
    }
}

/// The text that a condition carries: the tag of the architecture, the
/// name of the missing part, the path of the container, or the words of
/// the tokenizer's provider.
pub open spec fn carried_text(e: LoadErrorView) -> Seq<char> {
    match e {
        LoadErrorView::UnsupportedArchitecture(tag) => tag,
        LoadErrorView::UnsupportedArchitectureForAdapters(tag) => tag,
        LoadErrorView::MissingAdapterConfiguration(part) => part.spec_name(),
        LoadErrorView::ContainerReadError { path, .. } => path,
        LoadErrorView::TokenizerLoadError(text) => text,
    }
}

/// The message of a condition holds the text that the condition carries,
/// whole and unchanged, at its fixed place.
pub proof fn lemma_message_holds_text(e: LoadErrorView)
    ensures
        0 <= text_offset(e),
        text_offset(e) + carried_text(e).len() <= e.message().len(),
        e.message().subrange(text_offset(e), text_offset(e) + carried_text(e).len())
            == carried_text(e),
{
    let start = text_offset(e);
    let text = carried_text(e);
    assert(e.message().subrange(start, start + text.len()) =~= text);
}

} // verus!
