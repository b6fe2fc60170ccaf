//! What a load reads of a quantized weight container and of the device it
//! loads onto. Both are values of the `candle_core` crate.

use vstd::prelude::*;
use vstd::string::StringExecFns;
use candle_core::quantized::gguf_file::Content;
use candle_core::Device;
use crate::error::{LoadError, LoadErrorView};

verus! {

/// The header of a quantized container, as `candle_core` read it. Nothing
/// inside it is visible here; its metadata is spoken of through
/// [`text_metadata`].
#[verifier::external_type_specification]
#[verifier::external_body]
pub struct ExContent(candle_core::quantized::gguf_file::Content);

/// A compute device of `candle_core`. Nothing inside it is visible here;
/// whether it is an accelerator is spoken of through [`device_is_cuda`].
#[verifier::external_type_specification]
#[verifier::external_body]
pub struct ExDevice(candle_core::Device);

/// The entries of a container's metadata whose values are texts, by key.
pub uninterp spec fn text_metadata(content: Content) -> Map<Seq<char>, Seq<char>>;

/// Whether a device is a CUDA accelerator. It is a matter of the device
/// alone: which of the kinds of device the value is.
pub uninterp spec fn device_is_cuda(device: Device) -> bool;

/// The key under which a container declares its architecture.
pub open spec fn spec_architecture_key() -> Seq<char> {
    "general.architecture"@
}

/// The text that a container's metadata holds under a key, if it holds one.
pub open spec fn metadata_text_of(metadata: Map<Seq<char>, Seq<char>>, key: Seq<char>) -> Option<
    Seq<char>,
> {
    if metadata.contains_key(key) {
        Some(metadata[key])
    } else {
        None
    }
}

/// Reads a text out of a container's metadata. Trusted: the header's
/// `metadata` map is looked up by the exact key, and `Value::to_string`
/// hands out the entry's text where the entry is a text and fails where it
/// is of another kind; an entry of another kind counts as no text.
#[verifier::external_body]
fn metadata_text(content: &Content, key: &str) -> (text: Option<String>)
    ensures
        match text {
            Some(t) => metadata_text_of(text_metadata(*content), key@) == Some(t@),
            None => metadata_text_of(text_metadata(*content), key@) is None,
        },
{
    match content.metadata.get(key) {
        Some(value) => match value.to_string() {
            Ok(text) => Some(text.clone()),
            Err(_) => None,
        },
        None => None,
    }
}

/// Asks a device whether it is a CUDA accelerator. Trusted:
/// `Device::is_cuda` tells by the kind of the device and by nothing else.
#[verifier::external_body]
pub(crate) fn is_cuda(device: &Device) -> (accelerated: bool)
    ensures
        accelerated == device_is_cuda(*device),
{
    device.is_cuda()
}

/// The architecture tag that a container declares: the text under the
/// architecture key of its metadata. Gives nothing where the metadata has
/// no text under that key.
pub fn architecture_tag(content: &Content) -> (tag: Option<String>)
    ensures
        match tag {
            Some(t) => metadata_text_of(text_metadata(*content), spec_architecture_key()) == Some(
                t@,
            ),
            None => metadata_text_of(text_metadata(*content), spec_architecture_key()) is None,
        },
{
    metadata_text(content, "general.architecture")
}

/// What a load makes of the attempt to open and read its container: the
/// header that was read, or the container condition with the path of the
/// file, exactly as given, and the cause as the failed step worded it.
pub fn container_outcome(path: &str, read: Result<Content, String>) -> (r: Result<
    Content,
    LoadError,
>)
    ensures
        match read {
            Ok(content) => r == Ok::<Content, LoadError>(content),
            Err(cause) => r matches Err(e) && e@ == (LoadErrorView::ContainerReadError {
                path: path@,
                cause: cause@,
            }),
        },
{
    match read {
        Ok(content) => Ok(content),
        Err(cause) => Err(LoadError::ContainerReadError { path: String::from_str(path), cause }),
    }
}

} // verus!
