//! The conversation reducer: folds an ordered stream of session-update
//! events into an append-only transcript, the tool-call registry, and the
//! current plan. Transcript order is strictly event-arrival order, and no
//! event — malformed, unknown, or naming an unknown id — ever aborts the
//! stream.

use vstd::prelude::*;

use crate::content::AgentMessageMeta;
use crate::content::ContentBlock;
use crate::content::ContentChunk;
use crate::plan::PlanEntry;
use crate::summary::DiffSummaryData;
use crate::summary::spec_aggregate;
use crate::summary::views_of;
use crate::tool_call::ToolCall;
use crate::tool_call::ToolCallRegistry;
use crate::tool_call::ToolCallUpdateFields;
use crate::tool_call::merged;

verus! {

/// One item of the rendered transcript, in event-arrival order.
#[derive(Debug)]
pub enum TranscriptItem {
    /// One user message chunk, wrapped as its own message.
    UserMessage { session_id: String, contents: Vec<ContentBlock> },
    /// One agent message chunk, wrapped as its own message.
    AgentMessage { session_id: String, chunks: Vec<ContentChunk>, meta: Option<AgentMessageMeta> },
    /// One agent thought chunk, rendered distinctly from a normal message.
    AgentThought { session_id: String, chunks: Vec<ContentChunk> },
    /// A run of consecutive tool calls, referenced by id; the registry is
    /// the source of truth for their state.
    ToolCallGroup { ids: Vec<String> },
    /// A plan snapshot at the point it arrived.
    Plan { entries: Vec<PlanEntry> },
    /// A placeholder for an event kind the reducer does not recognize.
    Unknown { kind: String },
}

/// One event of the session-update stream, already deserialized.
#[derive(Debug)]
pub enum SessionUpdate {
    UserMessageChunk { chunk: ContentChunk },
    AgentMessageChunk { chunk: ContentChunk },
    AgentThoughtChunk { chunk: ContentChunk },
    ToolCall { call: ToolCall },
    ToolCallUpdate { id: String, fields: ToolCallUpdateFields },
    Plan { entries: Vec<PlanEntry> },
    AvailableCommandsUpdate { commands: Vec<String> },
    CurrentModeUpdate { mode_id: String },
    Unknown { kind: String },
}

/// What applying one event did, reported so the presentation layer knows
/// what to re-render.
#[derive(Clone, Copy, PartialEq, Eq, Structural, Debug)]
pub enum ApplyOutcome {
    UserMessageAppended,
    AgentMessageAppended,
    AgentThoughtAppended,
    ToolCallCreated,
    /// A create named an id already present; the stored call was
    /// overwritten in place and no transcript item was added.
    ToolCallReplaced,
    ToolCallUpdated,
    /// An update named an id never created; the event was dropped and the
    /// state is unchanged.
    UnknownIdIgnored,
    PlanReplaced,
    CommandsRecorded,
    ModeRecorded,
    UnknownRecorded,
}

/// The conversation state: the transcript, the tool-call registry, the
/// current plan slot, and auxiliary session metadata.
#[derive(Debug)]
pub struct Conversation {
    pub session_id: String,
    pub transcript: Vec<TranscriptItem>,
    pub registry: ToolCallRegistry,
    pub current_plan: Option<Vec<PlanEntry>>,
    pub available_commands: Vec<String>,
    pub current_mode: Option<String>,
}

/// The update that overwrites every lifecycle field of a stored call with
/// the fields of a newly announced call.
pub open spec fn full_update_of(call: ToolCall) -> ToolCallUpdateFields {
    ToolCallUpdateFields {
        title: Some(call.title),
        kind: Some(call.kind),
        status: Some(call.status),
        content: Some(call.content),
    }
}

/// The transcript grew by exactly one item.
pub open spec fn appends_one(pre: Seq<TranscriptItem>, post: Seq<TranscriptItem>) -> bool {
    post.len() == pre.len() + 1 && post.drop_last() == pre
}

/// Session id, plan slot, commands and mode are unchanged.
pub open spec fn aux_unchanged(pre: Conversation, post: Conversation) -> bool {
    &&& post.session_id == pre.session_id
    &&& post.current_plan == pre.current_plan
    &&& post.available_commands == pre.available_commands
    &&& post.current_mode == pre.current_mode
}

/// The transition a tool-call announcement makes: a new id is appended to
/// the registry and referenced from the transcript — extending an open
/// trailing group, else opening a new group — while a duplicate id
/// overwrites the stored call in place and leaves the transcript alone.
pub open spec fn tool_call_step(
    pre: Conversation,
    call: ToolCall,
    post: Conversation,
    outcome: ApplyOutcome,
) -> bool {
    if pre.registry.contains_id(call.id@) {
        &&& post.transcript == pre.transcript
        &&& post.registry.dirty
        &&& exists|i: int|
            0 <= i < pre.registry.calls@.len() && (#[trigger] pre.registry.calls@[i]).id@
                == call.id@ && post.registry.calls@ == pre.registry.calls@.update(
                i,
                merged(pre.registry.calls@[i], full_update_of(call)),
            )
        &&& outcome == ApplyOutcome::ToolCallReplaced
    } else {
        &&& post.registry.calls@ == pre.registry.calls@.push(call)
        &&& post.registry.dirty
        &&& if pre.transcript@.len() > 0 && (pre.transcript@.last() matches
        TranscriptItem::ToolCallGroup {
            ..
        }) {
            &&& post.transcript@.len() == pre.transcript@.len()
            &&& post.transcript@.drop_last() == pre.transcript@.drop_last()
            &&& (pre.transcript@.last() matches TranscriptItem::ToolCallGroup { ids: pre_ids }
                ==> (post.transcript@.last() matches TranscriptItem::ToolCallGroup {
                ids: post_ids
            } && post_ids@ == pre_ids@.push(call.id)))
        } else {
            &&& appends_one(pre.transcript@, post.transcript@)
            &&& (post.transcript@.last() matches TranscriptItem::ToolCallGroup { ids: g } && g@
                == seq![call.id])
        }
        &&& outcome == ApplyOutcome::ToolCallCreated
    }
}

/// The transition relation of the reducer: how one event takes the
/// conversation from `pre` to `post`, and which outcome it reports.
pub open spec fn step(
    pre: Conversation,
    update: SessionUpdate,
    post: Conversation,
    outcome: ApplyOutcome,
) -> bool {
    match update {
        SessionUpdate::UserMessageChunk { chunk } => {
            &&& aux_unchanged(pre, post)
            &&& post.registry == pre.registry
            &&& appends_one(pre.transcript@, post.transcript@)
            &&& (post.transcript@.last() matches TranscriptItem::UserMessage {
                session_id,
                contents,
            } && session_id == pre.session_id && contents@ == seq![chunk.content])
            &&& outcome == ApplyOutcome::UserMessageAppended
        },
        SessionUpdate::AgentMessageChunk { chunk } => {
            &&& aux_unchanged(pre, post)
            &&& post.registry == pre.registry
            &&& appends_one(pre.transcript@, post.transcript@)
            &&& (post.transcript@.last() matches TranscriptItem::AgentMessage {
                session_id,
                chunks,
                meta,
            } && session_id == pre.session_id && chunks@ == seq![chunk] && meta is None)
            &&& outcome == ApplyOutcome::AgentMessageAppended
        },
        SessionUpdate::AgentThoughtChunk { chunk } => {
            &&& aux_unchanged(pre, post)
            &&& post.registry == pre.registry
            &&& appends_one(pre.transcript@, post.transcript@)
            &&& (post.transcript@.last() matches TranscriptItem::AgentThought {
                session_id,
                chunks,
            } && session_id == pre.session_id && chunks@ == seq![chunk])
            &&& outcome == ApplyOutcome::AgentThoughtAppended
        },
        SessionUpdate::ToolCall { call } => {
            &&& aux_unchanged(pre, post)
            &&& tool_call_step(pre, call, post, outcome)
        },
        SessionUpdate::ToolCallUpdate { id, fields } => {
            if pre.registry.contains_id(id@) {
                &&& aux_unchanged(pre, post)
                &&& post.transcript == pre.transcript
                &&& post.registry.dirty
                &&& exists|i: int|
                    0 <= i < pre.registry.calls@.len() && (#[trigger] pre.registry.calls@[i]).id@
                        == id@ && post.registry.calls@ == pre.registry.calls@.update(
                        i,
                        merged(pre.registry.calls@[i], fields),
                    )
                &&& outcome == ApplyOutcome::ToolCallUpdated
            } else {
                &&& post == pre
                &&& outcome == ApplyOutcome::UnknownIdIgnored
            }
        },
        SessionUpdate::Plan { entries } => {
            &&& post.session_id == pre.session_id
            &&& post.available_commands == pre.available_commands
            &&& post.current_mode == pre.current_mode
            &&& post.registry == pre.registry
            &&& (post.current_plan matches Some(p) && p@ == entries@)
            &&& appends_one(pre.transcript@, post.transcript@)
            &&& post.transcript@.last() == (TranscriptItem::Plan { entries })
            &&& outcome == ApplyOutcome::PlanReplaced
        },
        SessionUpdate::AvailableCommandsUpdate { commands } => {
            &&& post.session_id == pre.session_id
            &&& post.current_plan == pre.current_plan
            &&& post.current_mode == pre.current_mode
            &&& post.registry == pre.registry
            &&& post.transcript == pre.transcript
            &&& post.available_commands == commands
            &&& outcome == ApplyOutcome::CommandsRecorded
        },
        SessionUpdate::CurrentModeUpdate { mode_id } => {
            &&& post.session_id == pre.session_id
            &&& post.current_plan == pre.current_plan
            &&& post.available_commands == pre.available_commands
            &&& post.registry == pre.registry
            &&& post.transcript == pre.transcript
            &&& post.current_mode == Some(mode_id)
            &&& outcome == ApplyOutcome::ModeRecorded
        },
        SessionUpdate::Unknown { kind } => {
            &&& aux_unchanged(pre, post)
            &&& post.registry == pre.registry
            &&& appends_one(pre.transcript@, post.transcript@)
            &&& post.transcript@.last() == (TranscriptItem::Unknown { kind })
            &&& outcome == ApplyOutcome::UnknownRecorded
        },
    }
}

/// Copies a plan entry list; entries are value-identical.
fn clone_entries(entries: &Vec<PlanEntry>) -> (r: Vec<PlanEntry>)
    ensures
        r@ == entries@,
{
    let mut r: Vec<PlanEntry> = Vec::new();
    let n = entries.len();
    let mut i: usize = 0;
    while i < n
        invariant
            i <= n,
            n == entries@.len(),
            r@ == entries@.take(i as int),
        decreases n - i,
    {
        let e = &entries[i];
        r.push(PlanEntry { content: e.content.clone(), priority: e.priority, status: e.status });
        proof {
            assert(entries@.take(i + 1).drop_last() =~= entries@.take(i as int));
            assert(r@ =~= entries@.take(i + 1));
        }
        i = i + 1;
    }
    proof {
        assert(entries@.take(n as int) =~= entries@);
    }
    r
}

impl Conversation {
    /// The registry's ids are unique.
    pub open spec fn wf(self) -> bool {
        self.registry.wf()
    }

    /// Creates an empty conversation for one session.
    pub fn new(session_id: String) -> (r: Conversation)
        ensures
            r.session_id == session_id,
            r.transcript@.len() == 0,
            r.registry.calls@.len() == 0,
            !r.registry.dirty,
            r.current_plan is None,
            r.available_commands@.len() == 0,
            r.current_mode is None,
            r.wf(),
    {
        Conversation {
            session_id,
            transcript: Vec::new(),
            registry: ToolCallRegistry::new(),
            current_plan: None,
            available_commands: Vec::new(),
            current_mode: None,
        }
    }

    /// Applies one session-update event, as the transition relation `step`
    /// states. No event aborts processing: an update for an unknown id is
    /// dropped with `UnknownIdIgnored` and the state is unchanged, and an
    /// unrecognized event is recorded as a placeholder item.
    pub fn apply(&mut self, update: SessionUpdate) -> (outcome: ApplyOutcome)
        requires
            old(self).wf(),
        ensures
            final(self).wf(),
            step(*old(self), update, *final(self), outcome),
    {
        match update {
            SessionUpdate::UserMessageChunk { chunk } => {
                let ContentChunk { content, meta: _ } = chunk;
                let session_id = self.session_id.clone();
                let mut contents: Vec<ContentBlock> = Vec::new();
                contents.push(content);
                proof {
                    assert(contents@ =~= seq![chunk.content]);
                }
                self.transcript.push(TranscriptItem::UserMessage { session_id, contents });
                proof {
                    assert(self.transcript@.drop_last() =~= old(self).transcript@);
                }
                ApplyOutcome::UserMessageAppended
            },
            SessionUpdate::AgentMessageChunk { chunk } => {
                let session_id = self.session_id.clone();
                let mut chunks: Vec<ContentChunk> = Vec::new();
                chunks.push(chunk);
                proof {
                    assert(chunks@ =~= seq![chunk]);
                }
                self.transcript.push(
                    TranscriptItem::AgentMessage { session_id, chunks, meta: None },
                );
                proof {
                    assert(self.transcript@.drop_last() =~= old(self).transcript@);
                }
                ApplyOutcome::AgentMessageAppended
            },
            SessionUpdate::AgentThoughtChunk { chunk } => {
                let session_id = self.session_id.clone();
                let mut chunks: Vec<ContentChunk> = Vec::new();
                chunks.push(chunk);
                proof {
                    assert(chunks@ =~= seq![chunk]);
                }
                self.transcript.push(TranscriptItem::AgentThought { session_id, chunks });
                proof {
                    assert(self.transcript@.drop_last() =~= old(self).transcript@);
                }
                ApplyOutcome::AgentThoughtAppended
            },
            SessionUpdate::ToolCall { call } => self.apply_tool_call(call),
            SessionUpdate::ToolCallUpdate { id, fields } => {
                match self.registry.apply_update(&id, fields) {
                    Ok(_) => ApplyOutcome::ToolCallUpdated,
                    Err(_) => ApplyOutcome::UnknownIdIgnored,
                }
            },
            SessionUpdate::Plan { entries } => {
                let copy = clone_entries(&entries);
                self.current_plan = Some(copy);
                self.transcript.push(TranscriptItem::Plan { entries });
                proof {
                    assert(self.transcript@.drop_last() =~= old(self).transcript@);
                }
                ApplyOutcome::PlanReplaced
            },
            SessionUpdate::AvailableCommandsUpdate { commands } => {
                self.available_commands = commands;
                ApplyOutcome::CommandsRecorded
            },
            SessionUpdate::CurrentModeUpdate { mode_id } => {
                self.current_mode = Some(mode_id);
                ApplyOutcome::ModeRecorded
            },
            SessionUpdate::Unknown { kind } => {
                self.transcript.push(TranscriptItem::Unknown { kind });
                proof {
                    assert(self.transcript@.drop_last() =~= old(self).transcript@);
                }
                ApplyOutcome::UnknownRecorded
            },
        }
    }

    /// An immutable snapshot for the presentation layer: the transcript and
    /// the change summary derived from the registry's current tool calls.
    pub fn snapshot(&self) -> (r: (&Vec<TranscriptItem>, DiffSummaryData))
        ensures
            r.0 == &self.transcript,
            r.1.wf(),
            views_of(r.1.files@) == spec_aggregate(self.registry.calls@),
    {
        (&self.transcript, DiffSummaryData::from_tool_calls(&self.registry.calls))
    }

    /// The tool call with this id, if any.
    pub fn tool_call(&self, id: &String) -> (r: Option<&ToolCall>)
        ensures
            match r {
                Some(c) => self.registry.contains_id(id@) && c.id@ == id@,
                None => !self.registry.contains_id(id@),
            },
    {
        self.registry.get(id)
    }

    /// Applies a tool-call announcement, as `tool_call_step` states.
    fn apply_tool_call(&mut self, call: ToolCall) -> (outcome: ApplyOutcome)
        requires
            old(self).wf(),
        ensures
            final(self).wf(),
            aux_unchanged(*old(self), *final(self)),
            tool_call_step(*old(self), call, *final(self), outcome),
    {
        if self.registry.contains(&call.id) {
            let ToolCall { id, title, kind, status, content } = call;
            let result = self.registry.apply_update(
                &id,
                ToolCallUpdateFields {
                    title: Some(title),
                    kind: Some(kind),
                    status: Some(status),
                    content: Some(content),
                },
            );
            match result {
                Ok(_) => {},
                Err(_) => proof {
                    assert(false);
                },
            }
            ApplyOutcome::ToolCallReplaced
        } else {
            let group_id = call.id.clone();
            let result = self.registry.create(call);
            match result {
                Ok(_) => {},
                Err(_) => proof {
                    assert(false);
                },
            }
            let n = self.transcript.len();
            let is_group = if n > 0 {
                match &self.transcript[n - 1] {
                    TranscriptItem::ToolCallGroup { .. } => true,
                    _ => false,
                }
            } else {
                false
            };
            if is_group {
                match self.transcript.pop() {
                    Some(TranscriptItem::ToolCallGroup { mut ids }) => {
                        ids.push(group_id);
                        self.transcript.push(TranscriptItem::ToolCallGroup { ids });
                        proof {
                            assert(self.transcript@.len() == old(self).transcript@.len());
                            assert(self.transcript@.drop_last() =~= old(
                                self,
                            ).transcript@.drop_last());
                        }
                    },
                    _ => {
                        proof {
                            assert(false);
                        }
                    },
                }
            } else {
                let mut ids: Vec<String> = Vec::new();
                ids.push(group_id);
                proof {
                    assert(ids@ =~= seq![call.id]);
                }
                self.transcript.push(TranscriptItem::ToolCallGroup { ids });
                proof {
                    assert(self.transcript@.drop_last() =~= old(self).transcript@);
                }
            }
            ApplyOutcome::ToolCallCreated
        }
    }
}

} // verus!
