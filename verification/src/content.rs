//! Message content model: the tagged unit of message content and the chunk
//! wrapper that carries one block together with protocol metadata.

use vstd::prelude::*;
use vstd::string::StringExecFns;
use vstd::string::StrSliceExecFns;

verus! {

/// Declares serde_json's `Value` so that opaque protocol metadata can be
/// carried through the model; nothing in the library reads it.
#[verifier::external_type_specification]
#[verifier::external_body]
pub struct ExValue(serde_json::Value);

/// Embedded resource payload: either readable text or an opaque blob, both
/// addressed by a URI.
#[derive(Debug)]
pub enum EmbeddedResourceResource {
    TextResourceContents { uri: String, mime_type: Option<String>, text: String },
    BlobResourceContents { uri: String, mime_type: Option<String>, blob: String },
}

/// One unit of message content.
#[derive(Debug)]
#[allow(inconsistent_fields)]
pub enum ContentBlock {
    Text { text: String },
    Image { data: String, mime_type: String },
    Audio { data: String, mime_type: String },
    ResourceLink { name: String, uri: String, mime_type: Option<String> },
    Resource { resource: EmbeddedResourceResource },
}

impl EmbeddedResourceResource {
    /// A mime type, when present, is a non-empty string.
    pub open spec fn wf(self) -> bool {
        match self {
            EmbeddedResourceResource::TextResourceContents { mime_type, .. } => (mime_type
                matches Some(m) ==> m@.len() > 0),
            EmbeddedResourceResource::BlobResourceContents { mime_type, .. } => (mime_type
                matches Some(m) ==> m@.len() > 0),
        }
    }
}

impl ContentBlock {
    /// A mime type, when present, is a non-empty string.
    pub open spec fn wf(self) -> bool {
        match self {
            ContentBlock::Text { .. } => true,
            ContentBlock::Image { mime_type, .. } => mime_type@.len() > 0,
            ContentBlock::Audio { mime_type, .. } => mime_type@.len() > 0,
            ContentBlock::ResourceLink { mime_type, .. } => (mime_type matches Some(m)
                ==> m@.len() > 0),
            ContentBlock::Resource { resource } => resource.wf(),
        }
    }
}

/// One content block together with opaque protocol metadata.
#[derive(Debug)]
pub struct ContentChunk {
    pub content: ContentBlock,
    pub meta: Option<serde_json::Value>,
}

/// Extended metadata of an agent message.
#[derive(Debug)]
pub struct AgentMessageMeta {
    pub agent_name: Option<String>,
    pub is_complete: bool,
}

/// Length, in characters, at which embedded resource text is cut off in the
/// rendered summary line.
pub open spec fn resource_preview_len() -> nat {
    200
}

/// The rendered text for a content block: the text itself for a text block,
/// and a bracketed placeholder naming the payload for every other kind. An
/// embedded text resource shows its URI and the first 200 characters of its
/// text.
pub open spec fn spec_extract_text(c: ContentBlock) -> Seq<char> {
    match c {
        ContentBlock::Text { text } => text@,
        ContentBlock::Image { mime_type, .. } => "[Image: "@ + mime_type@ + "]"@,
        ContentBlock::Audio { mime_type, .. } => "[Audio: "@ + mime_type@ + "]"@,
        ContentBlock::ResourceLink { name, .. } => "[Resource: "@ + name@ + "]"@,
        ContentBlock::Resource { resource } => match resource {
            EmbeddedResourceResource::TextResourceContents { uri, text, .. } => "[Resource: "@
                + uri@ + "]\n"@ + if text@.len() <= resource_preview_len() {
                text@
            } else {
                text@.take(resource_preview_len() as int)
            },
            EmbeddedResourceResource::BlobResourceContents { uri, .. } => "[Binary Resource: "@
                + uri@ + "]"@,
        },
    }
}

/// Renders a content block as plain text, as `spec_extract_text` states.
pub fn extract_text_from_content(content: &ContentBlock) -> (r: String)
    ensures
        r@ == spec_extract_text(*content),
{
    match content {
        ContentBlock::Text { text } => text.clone(),
        ContentBlock::Image { mime_type, .. } => String::from_str("[Image: ").concat(
            mime_type.as_str(),
        ).concat("]"),
        ContentBlock::Audio { mime_type, .. } => String::from_str("[Audio: ").concat(
            mime_type.as_str(),
        ).concat("]"),
        ContentBlock::ResourceLink { name, .. } => String::from_str("[Resource: ").concat(
            name.as_str(),
        ).concat("]"),
        ContentBlock::Resource { resource } => match resource {
            EmbeddedResourceResource::TextResourceContents { uri, text, .. } => {
                let head = String::from_str("[Resource: ").concat(uri.as_str()).concat("]\n");
                if text.as_str().unicode_len() <= 200 {
                    head.concat(text.as_str())
                } else {
                    head.concat(text.as_str().substring_char(0, 200))
                }
            },
            EmbeddedResourceResource::BlobResourceContents { uri, .. } => String::from_str(
                "[Binary Resource: ",
            ).concat(uri.as_str()).concat("]"),
        },
    }
}

} // verus!
