//! Case-insensitive keyword parsing for the protocol's kind, status and
//! priority strings. Matching folds ASCII letters only; unrecognized strings
//! map to a defined fallback instead of failing.

use vstd::prelude::*;

use crate::plan::PlanPriority;
use crate::plan::PlanStatus;
use crate::tool_call::ToolCallStatus;
use crate::tool_call::ToolKind;

verus! {

/// The code point of `c`, with ASCII upper-case letters folded to lower
/// case.
pub open spec fn fold_char(c: char) -> u32 {
    if 65 <= c as u32 && c as u32 <= 90 {
        (c as u32 + 32) as u32
    } else {
        c as u32
    }
}

/// Character-wise equality up to ASCII case.
pub open spec fn eq_ignore_ascii(a: Seq<char>, b: Seq<char>) -> bool {
    a.len() == b.len() && forall|i: int| 0 <= i < a.len() ==> fold_char(a[i]) == fold_char(b[i])
}

/// Compares two strings character by character, folding ASCII letters to
/// lower case.
pub fn eq_ignore_ascii_case(a: &str, b: &str) -> (r: bool)
    ensures
        r == eq_ignore_ascii(a@, b@),
{
    let na = a.unicode_len();
    let nb = b.unicode_len();
    if na != nb {
        return false;
    }
    let mut i: usize = 0;
    while i < na
        invariant
            i <= na,
            na == a@.len(),
            na == b@.len(),
            forall|j: int| 0 <= j < i ==> fold_char(a@[j]) == fold_char(b@[j]),
        decreases na - i,
    {
        let ca = a.get_char(i) as u32;
        let cb = b.get_char(i) as u32;
        let fa = if 65 <= ca && ca <= 90 {
            ca + 32
        } else {
            ca
        };
        let fb = if 65 <= cb && cb <= 90 {
            cb + 32
        } else {
            cb
        };
        if fa != fb {
            return false;
        }
        i = i + 1;
    }
    true
}

/// The plan priority a protocol string denotes; unrecognized strings fall
/// back to `Medium`.
pub open spec fn spec_parse_priority(s: Seq<char>) -> PlanPriority {
    if eq_ignore_ascii(s, "high"@) {
        PlanPriority::High
    } else if eq_ignore_ascii(s, "medium"@) {
        PlanPriority::Medium
    } else if eq_ignore_ascii(s, "low"@) {
        PlanPriority::Low
    } else {
        PlanPriority::Medium
    }
}

/// Parses a plan priority, as `spec_parse_priority` states.
pub fn parse_priority(s: &str) -> (r: PlanPriority)
    ensures
        r == spec_parse_priority(s@),
{
    if eq_ignore_ascii_case(s, "high") {
        PlanPriority::High
    } else if eq_ignore_ascii_case(s, "medium") {
        PlanPriority::Medium
    } else if eq_ignore_ascii_case(s, "low") {
        PlanPriority::Low
    } else {
        PlanPriority::Medium
    }
}

/// The plan status a protocol string denotes; unrecognized strings fall
/// back to `Pending`.
pub open spec fn spec_parse_plan_status(s: Seq<char>) -> PlanStatus {
    if eq_ignore_ascii(s, "pending"@) {
        PlanStatus::Pending
    } else if eq_ignore_ascii(s, "in_progress"@) {
        PlanStatus::InProgress
    } else if eq_ignore_ascii(s, "completed"@) {
        PlanStatus::Completed
    } else {
        PlanStatus::Pending
    }
}

/// Parses a plan status, as `spec_parse_plan_status` states.
pub fn parse_plan_status(s: &str) -> (r: PlanStatus)
    ensures
        r == spec_parse_plan_status(s@),
{
    if eq_ignore_ascii_case(s, "pending") {
        PlanStatus::Pending
    } else if eq_ignore_ascii_case(s, "in_progress") {
        PlanStatus::InProgress
    } else if eq_ignore_ascii_case(s, "completed") {
        PlanStatus::Completed
    } else {
        PlanStatus::Pending
    }
}

/// The tool kind a protocol string denotes; unrecognized strings fall back
/// to `Other`.
pub open spec fn spec_parse_tool_kind(s: Seq<char>) -> ToolKind {
    if eq_ignore_ascii(s, "read"@) {
        ToolKind::Read
    } else if eq_ignore_ascii(s, "edit"@) {
        ToolKind::Edit
    } else if eq_ignore_ascii(s, "delete"@) {
        ToolKind::Delete
    } else if eq_ignore_ascii(s, "move"@) {
        ToolKind::Move
    } else if eq_ignore_ascii(s, "search"@) {
        ToolKind::Search
    } else if eq_ignore_ascii(s, "execute"@) {
        ToolKind::Execute
    } else if eq_ignore_ascii(s, "think"@) {
        ToolKind::Think
    } else if eq_ignore_ascii(s, "fetch"@) {
        ToolKind::Fetch
    } else if eq_ignore_ascii(s, "switch_mode"@) {
        ToolKind::SwitchMode
    } else {
        ToolKind::Other
    }
}

/// Parses a tool kind, as `spec_parse_tool_kind` states.
pub fn parse_tool_kind(s: &str) -> (r: ToolKind)
    ensures
        r == spec_parse_tool_kind(s@),
{
    if eq_ignore_ascii_case(s, "read") {
        ToolKind::Read
    } else if eq_ignore_ascii_case(s, "edit") {
        ToolKind::Edit
    } else if eq_ignore_ascii_case(s, "delete") {
        ToolKind::Delete
    } else if eq_ignore_ascii_case(s, "move") {
        ToolKind::Move
    } else if eq_ignore_ascii_case(s, "search") {
        ToolKind::Search
    } else if eq_ignore_ascii_case(s, "execute") {
        ToolKind::Execute
    } else if eq_ignore_ascii_case(s, "think") {
        ToolKind::Think
    } else if eq_ignore_ascii_case(s, "fetch") {
        ToolKind::Fetch
    } else if eq_ignore_ascii_case(s, "switch_mode") {
        ToolKind::SwitchMode
    } else {
        ToolKind::Other
    }
}

/// The tool-call status a protocol string denotes; both `in_progress` and
/// `inprogress` are accepted, and unrecognized strings fall back to
/// `Pending`.
pub open spec fn spec_parse_tool_status(s: Seq<char>) -> ToolCallStatus {
    if eq_ignore_ascii(s, "pending"@) {
        ToolCallStatus::Pending
    } else if eq_ignore_ascii(s, "in_progress"@) || eq_ignore_ascii(s, "inprogress"@) {
        ToolCallStatus::InProgress
    } else if eq_ignore_ascii(s, "completed"@) {
        ToolCallStatus::Completed
    } else if eq_ignore_ascii(s, "failed"@) {
        ToolCallStatus::Failed
    } else {
        ToolCallStatus::Pending
    }
}

/// Parses a tool-call status, as `spec_parse_tool_status` states.
pub fn parse_tool_status(s: &str) -> (r: ToolCallStatus)
    ensures
        r == spec_parse_tool_status(s@),
{
    if eq_ignore_ascii_case(s, "pending") {
        ToolCallStatus::Pending
    } else if eq_ignore_ascii_case(s, "in_progress") || eq_ignore_ascii_case(s, "inprogress") {
        ToolCallStatus::InProgress
    } else if eq_ignore_ascii_case(s, "completed") {
        ToolCallStatus::Completed
    } else if eq_ignore_ascii_case(s, "failed") {
        ToolCallStatus::Failed
    } else {
        ToolCallStatus::Pending
    }
}

} // verus!
