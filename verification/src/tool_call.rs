//! Tool calls: the unit of agent-initiated work, its lifecycle fields, and
//! the registry that owns every tool call of a session, keyed by id.

use vstd::prelude::*;
use vstd::string::StringExecFns;

use crate::content::ContentBlock;

verus! {

/// What kind of work a tool call performs.
#[derive(Clone, Copy, PartialEq, Eq, Structural, Debug)]
pub enum ToolKind {
    Read,
    Edit,
    Delete,
    Move,
    Search,
    Execute,
    Think,
    Fetch,
    SwitchMode,
    Other,
}

/// Lifecycle status of a tool call; `Completed` and `Failed` are terminal.
#[derive(Clone, Copy, PartialEq, Eq, Structural, Debug)]
pub enum ToolCallStatus {
    Pending,
    InProgress,
    Completed,
    Failed,
}

/// A diff payload: old and new text for one file.
#[derive(Debug)]
pub struct DiffContent {
    pub path: String,
    pub old_text: Option<String>,
    pub new_text: String,
}

/// One content item of a tool call.
#[derive(Debug)]
pub enum ToolCallContent {
    Content { content: ContentBlock },
    Diff { diff: DiffContent },
    Terminal { terminal_id: String },
}

/// A unit of agent-initiated work, identified by `id`.
#[derive(Debug)]
pub struct ToolCall {
    pub id: String,
    pub title: String,
    pub kind: ToolKind,
    pub status: ToolCallStatus,
    pub content: Vec<ToolCallContent>,
}

/// The fields a tool-call update may carry; only supplied fields are merged
/// into the stored call, and a supplied content list fully replaces the old
/// one.
#[derive(Debug)]
pub struct ToolCallUpdateFields {
    pub title: Option<String>,
    pub kind: Option<ToolKind>,
    pub status: Option<ToolCallStatus>,
    pub content: Option<Vec<ToolCallContent>>,
}

/// The stored call after merging an update into it: each supplied field
/// overwrites, each omitted field is untouched, and the id never changes.
pub open spec fn merged(call: ToolCall, fields: ToolCallUpdateFields) -> ToolCall {
    ToolCall {
        id: call.id,
        title: match fields.title {
            Some(t) => t,
            None => call.title,
        },
        kind: match fields.kind {
            Some(k) => k,
            None => call.kind,
        },
        status: match fields.status {
            Some(s) => s,
            None => call.status,
        },
        content: match fields.content {
            Some(c) => c,
            None => call.content,
        },
    }
}

/// The rendered text of one tool-call content item, if it has one: the text
/// of a text block, a description of a diff, or the terminal id; other
/// blocks render as nothing.
pub open spec fn spec_tool_content_text(c: ToolCallContent) -> Option<Seq<char>> {
    match c {
        ToolCallContent::Content { content } => match content {
            ContentBlock::Text { text } => Some(text@),
            _ => None,
        },
        ToolCallContent::Diff { diff } => Some(
            "Modified: "@ + diff.path@ + "\n"@ + (match diff.old_text {
                Some(o) => o@,
                None => "<new file>"@,
            }) + " -> "@ + diff.new_text@,
        ),
        ToolCallContent::Terminal { terminal_id } => Some("Terminal: "@ + terminal_id@),
    }
}

/// Renders one tool-call content item as plain text, as
/// `spec_tool_content_text` states.
pub fn extract_text_from_content(content: &ToolCallContent) -> (r: Option<String>)
    ensures
        match r {
            Some(s) => spec_tool_content_text(*content) == Some(s@),
            None => spec_tool_content_text(*content) is None,
        },
{
    match content {
        ToolCallContent::Content { content } => match content {
            ContentBlock::Text { text } => Some(text.clone()),
            _ => None,
        },
        ToolCallContent::Diff { diff } => {
            let old_part: &str = match &diff.old_text {
                Some(o) => o.as_str(),
                None => "<new file>",
            };
            Some(
                String::from_str("Modified: ").concat(diff.path.as_str()).concat("\n").concat(
                    old_part,
                ).concat(" -> ").concat(diff.new_text.as_str()),
            )
        },
        ToolCallContent::Terminal { terminal_id } => Some(
            String::from_str("Terminal: ").concat(terminal_id.as_str()),
        ),
    }
}

impl ToolCall {
    /// Creates a tool call from its protocol fields.
    pub fn new(
        id: String,
        title: String,
        kind: ToolKind,
        status: ToolCallStatus,
        content: Vec<ToolCallContent>,
    ) -> (r: ToolCall)
        ensures
            r.id == id,
            r.title == title,
            r.kind == kind,
            r.status == status,
            r.content == content,
    {
        ToolCall { id, title, kind, status, content }
    }

    /// Merges an update into this call, as `merged` states.
    pub fn apply_fields(&mut self, fields: ToolCallUpdateFields)
        ensures
            *final(self) == merged(*old(self), fields),
    {
        let ToolCallUpdateFields { title, kind, status, content } = fields;
        if let Some(t) = title {
            self.title = t;
        }
        if let Some(k) = kind {
            self.kind = k;
        }
        if let Some(s) = status {
            self.status = s;
        }
        if let Some(c) = content {
            self.content = c;
        }
    }
}

/// Errors of the tool-call registry.
#[derive(Clone, Copy, PartialEq, Eq, Structural, Debug)]
pub enum RegistryError {
    /// A create named an id that the registry already holds.
    DuplicateId,
    /// An update named an id that the registry never held.
    UnknownId,
}

/// Keyed store of every tool call of a session, in creation order. Ids are
/// unique; calls are never removed. Every mutation sets the `dirty` mark so
/// that derived views know to recompute.
#[derive(Debug)]
pub struct ToolCallRegistry {
    pub calls: Vec<ToolCall>,
    pub dirty: bool,
}

impl ToolCallRegistry {
    /// Ids are unique across the stored calls.
    pub open spec fn wf(self) -> bool {
        forall|i: int, j: int|
            0 <= i < j < self.calls@.len() ==> self.calls@[i].id@ != self.calls@[j].id@
    }

    /// Whether some stored call has this id.
    pub open spec fn contains_id(self, id: Seq<char>) -> bool {
        exists|i: int| 0 <= i < self.calls@.len() && #[trigger] self.calls@[i].id@ == id
    }

    /// Creates an empty registry.
    pub fn new() -> (r: ToolCallRegistry)
        ensures
            r.calls@.len() == 0,
            !r.dirty,
            r.wf(),
    {
        ToolCallRegistry { calls: Vec::new(), dirty: false }
    }

    /// Index of the call with this id, if the registry holds one.
    fn find_index(&self, id: &String) -> (r: Option<usize>)
        ensures
            match r {
                Some(i) => i < self.calls@.len() && self.calls@[i as int].id@ == id@,
                None => !self.contains_id(id@),
            },
    {
        let mut i: usize = 0;
        let n = self.calls.len();
        while i < n
            invariant
                i <= n,
                n == self.calls@.len(),
                forall|j: int| 0 <= j < i ==> #[trigger] self.calls@[j].id@ != id@,
            decreases n - i,
        {
            if self.calls[i].id == *id {
                return Some(i);
            }
            i = i + 1;
        }
        None
    }

    /// Stores a new tool call. Fails, and changes nothing, if the id is
    /// already present; otherwise the call is appended in creation order and
    /// the registry is marked dirty.
    pub fn create(&mut self, call: ToolCall) -> (r: Result<(), RegistryError>)
        requires
            old(self).wf(),
        ensures
            final(self).wf(),
            old(self).contains_id(call.id@) ==> (r matches Err(e) && e
                == RegistryError::DuplicateId && *final(self) == *old(self)),
            !old(self).contains_id(call.id@) ==> r is Ok && final(self).calls@ == old(
                self,
            ).calls@.push(call) && final(self).dirty,
    {
        match self.find_index(&call.id) {
            Some(_) => Err(RegistryError::DuplicateId),
            None => {
                self.calls.push(call);
                self.dirty = true;
                Ok(())
            },
        }
    }

    /// Merges an update into the call with this id, as `merged` states, and
    /// marks the registry dirty. Fails, and changes nothing, if the registry
    /// never held the id.
    pub fn apply_update(&mut self, id: &String, fields: ToolCallUpdateFields) -> (r: Result<
        (),
        RegistryError,
    >)
        requires
            old(self).wf(),
        ensures
            final(self).wf(),
            !old(self).contains_id(id@) ==> (r matches Err(e) && e == RegistryError::UnknownId
                && *final(self) == *old(self)),
            old(self).contains_id(id@) ==> r is Ok && final(self).dirty && exists|i: int|
                0 <= i < old(self).calls@.len() && (#[trigger] old(self).calls@[i]).id@ == id@
                    && final(self).calls@ == old(self).calls@.update(
                    i,
                    merged(old(self).calls@[i], fields),
                ),
    {
        match self.find_index(id) {
            Some(i) => {
                let mut call = self.calls.remove(i);
                call.apply_fields(fields);
                self.calls.insert(i, call);
                self.dirty = true;
                proof {
                    assert(self.calls@ =~= old(self).calls@.update(
                        i as int,
                        merged(old(self).calls@[i as int], fields),
                    ));
                    assert forall|a: int, b: int|
                        0 <= a < b < self.calls@.len() implies self.calls@[a].id@
                        != self.calls@[b].id@ by {
                        assert(old(self).calls@[a].id@ != old(self).calls@[b].id@);
                    }
                }
                Ok(())
            },
            None => Err(RegistryError::UnknownId),
        }
    }

    /// Whether the registry holds a call with this id.
    pub fn contains(&self, id: &String) -> (r: bool)
        ensures
            r == self.contains_id(id@),
    {
        match self.find_index(id) {
            Some(_) => true,
            None => false,
        }
    }

    /// The call with this id, if the registry holds one.
    pub fn get(&self, id: &String) -> (r: Option<&ToolCall>)
        ensures
            match r {
                Some(c) => self.contains_id(id@) && c.id@ == id@ && exists|i: int|
                    0 <= i < self.calls@.len() && #[trigger] self.calls@[i] == *c,
                None => !self.contains_id(id@),
            },
    {
        match self.find_index(id) {
            Some(i) => Some(&self.calls[i]),
            None => None,
        }
    }

    /// All stored calls, in creation order.
    pub fn list(&self) -> (r: &Vec<ToolCall>)
        ensures
            r == &self.calls,
    {
        &self.calls
    }

    /// Reads and clears the dirty mark.
    pub fn take_dirty(&mut self) -> (r: bool)
        ensures
            r == old(self).dirty,
            !final(self).dirty,
            final(self).calls == old(self).calls,
    {
        let d = self.dirty;
        self.dirty = false;
        d
    }
}

/// Presentation state of one rendered tool call: the call itself and whether
/// its content is expanded.
#[derive(Debug)]
pub struct ToolCallItem {
    pub tool_call: ToolCall,
    pub open: bool,
}

impl ToolCallItem {
    /// Wraps a tool call, initially collapsed.
    pub fn new(tool_call: ToolCall) -> (r: ToolCallItem)
        ensures
            r.tool_call == tool_call,
            !r.open,
    {
        ToolCallItem { tool_call, open: false }
    }

    /// Builder form of `set_open`.
    pub fn open(self, open: bool) -> (r: ToolCallItem)
        ensures
            r.tool_call == self.tool_call,
            r.open == open,
    {
        ToolCallItem { tool_call: self.tool_call, open }
    }

    /// Whether the call has any content items.
    pub fn has_content(&self) -> (r: bool)
        ensures
            r == (self.tool_call.content@.len() > 0),
    {
        self.tool_call.content.len() > 0
    }

    /// Replaces the whole tool call.
    pub fn update_tool_call(&mut self, tool_call: ToolCall)
        ensures
            final(self).tool_call == tool_call,
            final(self).open == old(self).open,
    {
        self.tool_call = tool_call;
    }

    /// Replaces the status.
    pub fn update_status(&mut self, status: ToolCallStatus)
        ensures
            final(self).tool_call == (ToolCall { status, ..old(self).tool_call }),
            final(self).open == old(self).open,
    {
        self.tool_call.status = status;
    }

    /// Appends one content item.
    pub fn add_content(&mut self, content: ToolCallContent)
        ensures
            final(self).tool_call.content@ == old(self).tool_call.content@.push(content),
            final(self).tool_call.id == old(self).tool_call.id,
            final(self).tool_call.title == old(self).tool_call.title,
            final(self).tool_call.kind == old(self).tool_call.kind,
            final(self).tool_call.status == old(self).tool_call.status,
            final(self).open == old(self).open,
    {
        self.tool_call.content.push(content);
    }

    /// Replaces the content list as a whole.
    pub fn set_content(&mut self, content: Vec<ToolCallContent>)
        ensures
            final(self).tool_call == (ToolCall { content, ..old(self).tool_call }),
            final(self).open == old(self).open,
    {
        self.tool_call.content = content;
    }

    /// Flips the expanded state.
    pub fn toggle(&mut self)
        ensures
            final(self).tool_call == old(self).tool_call,
            final(self).open == !old(self).open,
    {
        self.open = !self.open;
    }

    /// Sets the expanded state.
    pub fn set_open(&mut self, open: bool)
        ensures
            final(self).tool_call == old(self).tool_call,
            final(self).open == open,
    {
        self.open = open;
    }
}

} // verus!
