//! Core of a protocol-driven conversation viewer: a reducer that folds a
//! stream of session-update events into an ordered transcript, a registry of
//! tool calls, and a per-file change summary computed by line diffing.

use vstd::prelude::*;

mod config;
mod content;
mod diff;
mod parse;
mod plan;
mod reducer;
mod schema;
mod summary;
mod tool_call;

pub use config::ConfigError;
pub use config::config_path_in_dir;
pub use config::data_dir_from_base;
pub use config::get_user_config_path;
pub use config::get_user_data_dir;
pub use content::AgentMessageMeta;
pub use content::ContentBlock;
pub use content::ContentChunk;
pub use content::EmbeddedResourceResource;
pub use content::extract_text_from_content;
pub use content::spec_extract_text;
pub use diff::DiffTag;
pub use diff::FileChangeStats;
pub use diff::FileStatsView;
pub use diff::count_deletions;
pub use diff::count_insertions;
pub use diff::count_lines;
pub use diff::line_count;
pub use diff::line_diff_tags;
pub use diff::newline_count;
pub use diff::stats_from_tags;
pub use parse::eq_ignore_ascii;
pub use parse::eq_ignore_ascii_case;
pub use parse::fold_char;
pub use parse::parse_plan_status;
pub use parse::parse_priority;
pub use parse::parse_tool_kind;
pub use parse::parse_tool_status;
pub use parse::spec_parse_plan_status;
pub use parse::spec_parse_priority;
pub use parse::spec_parse_tool_kind;
pub use parse::spec_parse_tool_status;
pub use plan::PlanEntry;
pub use plan::PlanPriority;
pub use plan::PlanStatus;
pub use reducer::ApplyOutcome;
pub use reducer::Conversation;
pub use reducer::SessionUpdate;
pub use reducer::TranscriptItem;
pub use reducer::appends_one;
pub use reducer::aux_unchanged;
pub use reducer::full_update_of;
pub use reducer::step;
pub use reducer::tool_call_step;
pub use schema::AgentMessageData;
pub use schema::AgentMessageDataSchema;
pub use schema::AgentMessageMetaSchema;
pub use schema::ContentBlockSchema;
pub use schema::ContentChunkSchema;
pub use schema::ConversationItem;
pub use schema::EmbeddedResourceSchema;
pub use schema::ImageContentSchema;
pub use schema::MessageContentSchema;
pub use schema::PlanEntrySchema;
pub use schema::ResourceContentSchema;
pub use schema::ResourceContentsSchema;
pub use schema::ResourceLinkSchema;
pub use schema::TextContentSchema;
pub use schema::ToolCallContentSchema;
pub use schema::ToolCallDataSchema;
pub use schema::ToolCallItemSchema;
pub use schema::UserMessageData;
pub use schema::UserMessageDataSchema;
pub use schema::map_agent_message;
pub use schema::map_content_block;
pub use schema::map_plan;
pub use schema::map_plan_entry;
pub use schema::map_tool_call;
pub use schema::map_user_message;
pub use schema::spec_map_chunk;
pub use schema::spec_map_content_block;
pub use schema::spec_map_message_content;
pub use schema::spec_map_plan_entry;
pub use schema::spec_map_tool_content;
pub use summary::DiffSummary;
pub use summary::DiffSummaryData;
pub use summary::has_path;
pub use summary::lemma_aggregate_idempotent;
pub use summary::lemma_sorted_by_changes_sorted;
pub use summary::path_index;
pub use summary::sorted_desc;
pub use summary::spec_aggregate;
pub use summary::spec_changes;
pub use summary::spec_diff_stats;
pub use summary::spec_insert_desc;
pub use summary::spec_sorted_by_changes;
pub use summary::spec_total_additions;
pub use summary::spec_total_deletions;
pub use summary::spec_upsert;
pub use summary::views_of;
pub use tool_call::DiffContent;
pub use tool_call::RegistryError;
pub use tool_call::ToolCall;
pub use tool_call::ToolCallContent;
pub use tool_call::ToolCallItem;
pub use tool_call::ToolCallRegistry;
pub use tool_call::ToolCallStatus;
pub use tool_call::ToolCallUpdateFields;
pub use tool_call::ToolKind;
pub use tool_call::extract_text_from_content as extract_tool_call_text;
pub use tool_call::merged;
pub use tool_call::spec_tool_content_text;

verus! {

} // verus!
