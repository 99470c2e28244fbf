//! The stored conversation schema: plain, string-tagged records as they
//! arrive on the wire, and the mappers that turn them into the typed model.

use vstd::prelude::*;

use crate::content::AgentMessageMeta;
use crate::content::ContentBlock;
use crate::content::ContentChunk;
use crate::content::EmbeddedResourceResource;
use crate::parse::parse_priority;
use crate::parse::parse_plan_status;
use crate::parse::parse_tool_kind;
use crate::parse::parse_tool_status;
use crate::parse::spec_parse_priority;
use crate::parse::spec_parse_plan_status;
use crate::parse::spec_parse_tool_kind;
use crate::parse::spec_parse_tool_status;
use crate::plan::PlanEntry;
use crate::tool_call::ToolCall;
use crate::tool_call::ToolCallContent;
use crate::tool_call::ToolCallItem;

verus! {

/// One stored conversation item, as read from disk.
#[derive(Debug)]
pub enum ConversationItem {
    UserMessage { id: String, data: UserMessageDataSchema },
    AgentMessage { id: String, data: AgentMessageDataSchema },
    AgentTodoList { title: String, entries: Vec<PlanEntrySchema> },
    ToolCallGroup { items: Vec<ToolCallItemSchema> },
}

/// Stored form of a user message.
#[derive(Debug)]
pub struct UserMessageDataSchema {
    pub session_id: String,
    pub contents: Vec<MessageContentSchema>,
}

/// Stored form of one unit of user message content.
#[derive(Debug)]
pub enum MessageContentSchema {
    Text { text: String },
    Resource { resource: ResourceContentSchema },
}

/// Stored form of an embedded text resource.
#[derive(Debug)]
pub struct ResourceContentSchema {
    pub uri: String,
    pub mime_type: String,
    pub text: String,
}

/// Stored form of an agent message.
#[derive(Debug)]
pub struct AgentMessageDataSchema {
    pub session_id: String,
    pub chunks: Vec<ContentChunkSchema>,
    pub meta: Option<AgentMessageMetaSchema>,
}

/// Stored form of one agent content chunk.
#[derive(Debug)]
pub struct ContentChunkSchema {
    pub content: ContentBlockSchema,
    pub meta: Option<serde_json::Value>,
}

/// Stored form of one content block.
#[derive(Debug)]
pub enum ContentBlockSchema {
    Text(TextContentSchema),
    Image(ImageContentSchema),
    ResourceLink(ResourceLinkSchema),
    Resource(EmbeddedResourceSchema),
}

/// Stored form of a text block.
#[derive(Debug)]
pub struct TextContentSchema {
    pub text: String,
    pub meta: Option<serde_json::Value>,
}

/// Stored form of an image block.
#[derive(Debug)]
pub struct ImageContentSchema {
    pub data: String,
    pub mime_type: String,
    pub meta: Option<serde_json::Value>,
}

/// Stored form of a resource link.
#[derive(Debug)]
pub struct ResourceLinkSchema {
    pub name: String,
    pub uri: String,
    pub mime_type: Option<String>,
}

/// Stored form of an embedded resource block.
#[derive(Debug)]
pub struct EmbeddedResourceSchema {
    pub resource: ResourceContentsSchema,
}

/// Stored form of an embedded resource's payload.
#[derive(Debug)]
pub enum ResourceContentsSchema {
    TextResourceContents { uri: String, mime_type: Option<String>, text: String },
    BlobResourceContents { uri: String, mime_type: Option<String>, blob: String },
}

/// Stored form of extended agent-message metadata.
#[derive(Debug)]
pub struct AgentMessageMetaSchema {
    pub agent_name: Option<String>,
    pub is_complete: bool,
}

/// Stored form of one plan entry; priority and status are strings.
#[derive(Debug)]
pub struct PlanEntrySchema {
    pub content: String,
    pub priority: String,
    pub status: String,
}

/// Stored form of one rendered tool call with its expanded state.
#[derive(Debug)]
pub struct ToolCallItemSchema {
    pub id: String,
    pub data: ToolCallDataSchema,
    pub open: bool,
}

/// Stored form of a tool call; kind and status are strings.
#[derive(Debug)]
pub struct ToolCallDataSchema {
    pub tool_call_id: String,
    pub title: String,
    pub kind: String,
    pub status: String,
    pub content: Vec<ToolCallContentSchema>,
}

/// Stored form of one tool-call content item: plain text.
#[derive(Debug)]
pub struct ToolCallContentSchema {
    pub text: String,
}

/// The content block a stored block maps to, field for field.
pub open spec fn spec_map_content_block(schema: ContentBlockSchema) -> ContentBlock {
    match schema {
        ContentBlockSchema::Text(t) => ContentBlock::Text { text: t.text },
        ContentBlockSchema::Image(i) => ContentBlock::Image {
            data: i.data,
            mime_type: i.mime_type,
        },
        ContentBlockSchema::ResourceLink(l) => ContentBlock::ResourceLink {
            name: l.name,
            uri: l.uri,
            mime_type: l.mime_type,
        },
        ContentBlockSchema::Resource(e) => ContentBlock::Resource {
            resource: match e.resource {
                ResourceContentsSchema::TextResourceContents { uri, mime_type, text } =>
                    EmbeddedResourceResource::TextResourceContents { uri, mime_type, text },
                ResourceContentsSchema::BlobResourceContents { uri, mime_type, blob } =>
                    EmbeddedResourceResource::BlobResourceContents { uri, mime_type, blob },
            },
        },
    }
}

/// Maps a stored content block to the model, as `spec_map_content_block`
/// states.
pub fn map_content_block(schema: ContentBlockSchema) -> (r: ContentBlock)
    ensures
        r == spec_map_content_block(schema),
{
    match schema {
        ContentBlockSchema::Text(t) => ContentBlock::Text { text: t.text },
        ContentBlockSchema::Image(i) => ContentBlock::Image {
            data: i.data,
            mime_type: i.mime_type,
        },
        ContentBlockSchema::ResourceLink(l) => ContentBlock::ResourceLink {
            name: l.name,
            uri: l.uri,
            mime_type: l.mime_type,
        },
        ContentBlockSchema::Resource(e) => ContentBlock::Resource {
            resource: match e.resource {
                ResourceContentsSchema::TextResourceContents { uri, mime_type, text } =>
                    EmbeddedResourceResource::TextResourceContents { uri, mime_type, text },
                ResourceContentsSchema::BlobResourceContents { uri, mime_type, blob } =>
                    EmbeddedResourceResource::BlobResourceContents { uri, mime_type, blob },
            },
        },
    }
}

/// The content block a stored unit of user message content maps to: text
/// stays text, and an embedded resource becomes a text resource with its
/// mime type kept.
pub open spec fn spec_map_message_content(m: MessageContentSchema) -> ContentBlock {
    match m {
        MessageContentSchema::Text { text } => ContentBlock::Text { text },
        MessageContentSchema::Resource { resource } => ContentBlock::Resource {
            resource: EmbeddedResourceResource::TextResourceContents {
                uri: resource.uri,
                mime_type: Some(resource.mime_type),
                text: resource.text,
            },
        },
    }
}

/// A user message's content, mapped to the model.
#[derive(Debug)]
pub struct UserMessageData {
    pub session_id: String,
    pub contents: Vec<ContentBlock>,
}

/// An agent message's content, mapped to the model.
#[derive(Debug)]
pub struct AgentMessageData {
    pub session_id: String,
    pub chunks: Vec<ContentChunk>,
    pub meta: AgentMessageMeta,
}

/// Maps a stored user message to the model: the session id is kept and
/// every content unit is mapped in order.
pub fn map_user_message(data: UserMessageDataSchema) -> (r: UserMessageData)
    ensures
        r.session_id == data.session_id,
        r.contents@ == data.contents@.map_values(|m: MessageContentSchema| spec_map_message_content(m)),
{
    let UserMessageDataSchema { session_id, contents } = data;
    let mut mapped: Vec<ContentBlock> = Vec::new();
    let n = contents.len();
    let mut i: usize = 0;
    let mut rest = contents;
    proof {
        assert(rest@.take(0).map_values(|m: MessageContentSchema| spec_map_message_content(m))
            =~= Seq::<ContentBlock>::empty());
    }
    let ghost all = rest@;
    while i < n
        invariant
            i <= n,
            n == all.len(),
            rest@ == all.skip(i as int),
            mapped@ == all.take(i as int).map_values(
                |m: MessageContentSchema| spec_map_message_content(m),
            ),
        decreases n - i,
    {
        let m = rest.remove(0);
        proof {
            assert(m == all[i as int]);
        }
        let block = match m {
            MessageContentSchema::Text { text } => ContentBlock::Text { text },
            MessageContentSchema::Resource { resource } => {
                let ResourceContentSchema { uri, mime_type, text } = resource;
                ContentBlock::Resource {
                    resource: EmbeddedResourceResource::TextResourceContents {
                        uri,
                        mime_type: Some(mime_type),
                        text,
                    },
                }
            },
        };
        mapped.push(block);
        proof {
            assert(rest@ =~= all.skip(i + 1));
            assert(mapped@ =~= all.take(i + 1).map_values(
                |m: MessageContentSchema| spec_map_message_content(m),
            ));
        }
        i = i + 1;
    }
    proof {
        assert(all.take(n as int) =~= all);
    }
    UserMessageData { session_id, contents: mapped }
}

/// The chunk a stored chunk maps to: its block mapped, its metadata kept.
pub open spec fn spec_map_chunk(c: ContentChunkSchema) -> ContentChunk {
    ContentChunk { content: spec_map_content_block(c.content), meta: c.meta }
}

/// Maps a stored agent message to the model: the session id is kept, every
/// chunk is mapped in order, and absent metadata defaults to an unnamed,
/// incomplete message.
pub fn map_agent_message(data: AgentMessageDataSchema) -> (r: AgentMessageData)
    ensures
        r.session_id == data.session_id,
        r.chunks@ == data.chunks@.map_values(|c: ContentChunkSchema| spec_map_chunk(c)),
        data.meta matches Some(m) ==> r.meta.agent_name == m.agent_name && r.meta.is_complete
            == m.is_complete,
        data.meta is None ==> r.meta.agent_name is None && !r.meta.is_complete,
{
    let AgentMessageDataSchema { session_id, chunks, meta } = data;
    let mapped_meta = match meta {
        Some(m) => AgentMessageMeta { agent_name: m.agent_name, is_complete: m.is_complete },
        None => AgentMessageMeta { agent_name: None, is_complete: false },
    };
    let mut mapped: Vec<ContentChunk> = Vec::new();
    let n = chunks.len();
    let mut i: usize = 0;
    let mut rest = chunks;
    let ghost all = rest@;
    proof {
        assert(all.take(0).map_values(|c: ContentChunkSchema| spec_map_chunk(c))
            =~= Seq::<ContentChunk>::empty());
    }
    while i < n
        invariant
            i <= n,
            n == all.len(),
            rest@ == all.skip(i as int),
            mapped@ == all.take(i as int).map_values(|c: ContentChunkSchema| spec_map_chunk(c)),
        decreases n - i,
    {
        let c = rest.remove(0);
        proof {
            assert(c == all[i as int]);
        }
        let ContentChunkSchema { content, meta } = c;
        let block = map_content_block(content);
        mapped.push(ContentChunk { content: block, meta });
        proof {
            assert(rest@ =~= all.skip(i + 1));
            assert(mapped@ =~= all.take(i + 1).map_values(
                |c: ContentChunkSchema| spec_map_chunk(c),
            ));
        }
        i = i + 1;
    }
    proof {
        assert(all.take(n as int) =~= all);
    }
    AgentMessageData { session_id, chunks: mapped, meta: mapped_meta }
}

/// The plan entry a stored entry maps to: its strings parsed, its content
/// kept.
pub open spec fn spec_map_plan_entry(entry: PlanEntrySchema) -> PlanEntry {
    PlanEntry {
        content: entry.content,
        priority: spec_parse_priority(entry.priority@),
        status: spec_parse_plan_status(entry.status@),
    }
}

/// Maps one stored plan entry, as `spec_map_plan_entry` states.
pub fn map_plan_entry(entry: PlanEntrySchema) -> (r: PlanEntry)
    ensures
        r == spec_map_plan_entry(entry),
{
    let PlanEntrySchema { content, priority, status } = entry;
    let parsed_priority = parse_priority(priority.as_str());
    let parsed_status = parse_plan_status(status.as_str());
    PlanEntry { content, priority: parsed_priority, status: parsed_status }
}

/// Maps a stored plan to the model, entry by entry, in order.
pub fn map_plan(entries: Vec<PlanEntrySchema>) -> (r: Vec<PlanEntry>)
    ensures
        r@ == entries@.map_values(|e: PlanEntrySchema| spec_map_plan_entry(e)),
{
    let mut mapped: Vec<PlanEntry> = Vec::new();
    let n = entries.len();
    let mut i: usize = 0;
    let mut rest = entries;
    let ghost all = rest@;
    proof {
        assert(all.take(0).map_values(|e: PlanEntrySchema| spec_map_plan_entry(e))
            =~= Seq::<PlanEntry>::empty());
    }
    while i < n
        invariant
            i <= n,
            n == all.len(),
            rest@ == all.skip(i as int),
            mapped@ == all.take(i as int).map_values(|e: PlanEntrySchema| spec_map_plan_entry(e)),
        decreases n - i,
    {
        let e = rest.remove(0);
        proof {
            assert(e == all[i as int]);
        }
        mapped.push(map_plan_entry(e));
        proof {
            assert(rest@ =~= all.skip(i + 1));
            assert(mapped@ =~= all.take(i + 1).map_values(
                |e: PlanEntrySchema| spec_map_plan_entry(e),
            ));
        }
        i = i + 1;
    }
    proof {
        assert(all.take(n as int) =~= all);
    }
    mapped
}

/// The tool-call content item a stored text item maps to.
pub open spec fn spec_map_tool_content(c: ToolCallContentSchema) -> ToolCallContent {
    ToolCallContent::Content { content: ContentBlock::Text { text: c.text } }
}

/// Maps a stored tool call to a rendered item: kind and status strings are
/// parsed with their fallbacks, each text content item is wrapped as a text
/// block, and the stored expanded state is kept.
pub fn map_tool_call(item: ToolCallItemSchema) -> (r: ToolCallItem)
    ensures
        r.tool_call.id == item.data.tool_call_id,
        r.tool_call.title == item.data.title,
        r.tool_call.kind == spec_parse_tool_kind(item.data.kind@),
        r.tool_call.status == spec_parse_tool_status(item.data.status@),
        r.tool_call.content@ == item.data.content@.map_values(
            |c: ToolCallContentSchema| spec_map_tool_content(c),
        ),
        r.open == item.open,
{
    let ToolCallItemSchema { id: _, data, open } = item;
    let ToolCallDataSchema { tool_call_id, title, kind, status, content } = data;
    let parsed_kind = parse_tool_kind(kind.as_str());
    let parsed_status = parse_tool_status(status.as_str());
    let mut mapped: Vec<ToolCallContent> = Vec::new();
    let n = content.len();
    let mut i: usize = 0;
    let mut rest = content;
    let ghost all = rest@;
    proof {
        assert(all.take(0).map_values(|c: ToolCallContentSchema| spec_map_tool_content(c))
            =~= Seq::<ToolCallContent>::empty());
    }
    while i < n
        invariant
            i <= n,
            n == all.len(),
            rest@ == all.skip(i as int),
            mapped@ == all.take(i as int).map_values(
                |c: ToolCallContentSchema| spec_map_tool_content(c),
            ),
        decreases n - i,
    {
        let c = rest.remove(0);
        proof {
            assert(c == all[i as int]);
        }
        let ToolCallContentSchema { text } = c;
        mapped.push(ToolCallContent::Content { content: ContentBlock::Text { text } });
        proof {
            assert(rest@ =~= all.skip(i + 1));
            assert(mapped@ =~= all.take(i + 1).map_values(
                |c: ToolCallContentSchema| spec_map_tool_content(c),
            ));
        }
        i = i + 1;
    }
    proof {
        assert(all.take(n as int) =~= all);
    }
    let tool_call = ToolCall::new(tool_call_id, title, parsed_kind, parsed_status, mapped);
    ToolCallItem::new(tool_call).open(open)
}

} // verus!
