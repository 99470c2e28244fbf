//! Plans: ordered lists of prioritized, statused work items. A new plan
//! always replaces the prior one wholesale.

use vstd::prelude::*;

verus! {

/// Priority of one plan entry.
#[derive(Clone, Copy, PartialEq, Eq, Structural, Debug)]
pub enum PlanPriority {
    High,
    Medium,
    Low,
}

/// Progress of one plan entry.
#[derive(Clone, Copy, PartialEq, Eq, Structural, Debug)]
pub enum PlanStatus {
    Pending,
    InProgress,
    Completed,
}

/// One prioritized, statused work item of a plan.
#[derive(Debug)]
pub struct PlanEntry {
    pub content: String,
    pub priority: PlanPriority,
    pub status: PlanStatus,
}

impl PlanEntry {
    /// Creates a plan entry from its fields.
    pub fn new(content: String, priority: PlanPriority, status: PlanStatus) -> (r: PlanEntry)
        ensures
            r.content == content,
            r.priority == priority,
            r.status == status,
    {
        PlanEntry { content, priority, status }
    }
}

} // verus!
