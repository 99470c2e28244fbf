use agentx_core::PlanPriority;
use agentx_core::PlanStatus;
use agentx_core::ToolCallStatus;
use agentx_core::ToolKind;
use agentx_core::eq_ignore_ascii_case;
use agentx_core::parse_plan_status;
use agentx_core::parse_priority;
use agentx_core::parse_tool_kind;
use agentx_core::parse_tool_status;

#[test]
fn case_insensitive_compare() {
    assert!(eq_ignore_ascii_case("ABC", "abc"));
    assert!(eq_ignore_ascii_case("MiXeD", "mIxEd"));
    assert!(!eq_ignore_ascii_case("ab", "abc"));
    assert!(!eq_ignore_ascii_case("abc", "abd"));
    // Only ASCII letters are folded.
    assert!(!eq_ignore_ascii_case("É", "é"));
}

#[test]
fn priority_parsing_is_case_insensitive() {
    assert!(matches!(parse_priority("high"), PlanPriority::High));
    assert!(matches!(parse_priority("HIGH"), PlanPriority::High));
    assert!(matches!(parse_priority("Medium"), PlanPriority::Medium));
    assert!(matches!(parse_priority("low"), PlanPriority::Low));
}

#[test]
fn priority_fallback_is_medium() {
    assert!(matches!(parse_priority("urgent"), PlanPriority::Medium));
    assert!(matches!(parse_priority(""), PlanPriority::Medium));
}

#[test]
fn plan_status_parsing() {
    assert!(matches!(parse_plan_status("pending"), PlanStatus::Pending));
    assert!(matches!(parse_plan_status("In_Progress"), PlanStatus::InProgress));
    assert!(matches!(parse_plan_status("COMPLETED"), PlanStatus::Completed));
    assert!(matches!(parse_plan_status("unheard-of"), PlanStatus::Pending));
}

#[test]
fn tool_kind_parsing() {
    assert!(matches!(parse_tool_kind("read"), ToolKind::Read));
    assert!(matches!(parse_tool_kind("Edit"), ToolKind::Edit));
    assert!(matches!(parse_tool_kind("DELETE"), ToolKind::Delete));
    assert!(matches!(parse_tool_kind("move"), ToolKind::Move));
    assert!(matches!(parse_tool_kind("search"), ToolKind::Search));
    assert!(matches!(parse_tool_kind("execute"), ToolKind::Execute));
    assert!(matches!(parse_tool_kind("think"), ToolKind::Think));
    assert!(matches!(parse_tool_kind("fetch"), ToolKind::Fetch));
    assert!(matches!(parse_tool_kind("Switch_Mode"), ToolKind::SwitchMode));
    assert!(matches!(parse_tool_kind("teleport"), ToolKind::Other));
}

#[test]
fn tool_status_parsing_accepts_both_spellings() {
    assert!(matches!(parse_tool_status("in_progress"), ToolCallStatus::InProgress));
    assert!(matches!(parse_tool_status("InProgress"), ToolCallStatus::InProgress));
    assert!(matches!(parse_tool_status("inprogress"), ToolCallStatus::InProgress));
    assert!(matches!(parse_tool_status("pending"), ToolCallStatus::Pending));
    assert!(matches!(parse_tool_status("completed"), ToolCallStatus::Completed));
    assert!(matches!(parse_tool_status("failed"), ToolCallStatus::Failed));
    assert!(matches!(parse_tool_status("mystery"), ToolCallStatus::Pending));
}
