use agentx_core::DiffContent;
use agentx_core::DiffSummary;
use agentx_core::DiffSummaryData;
use agentx_core::ToolCall;
use agentx_core::ToolCallContent;
use agentx_core::ToolCallStatus;
use agentx_core::ToolKind;

fn call_with_diffs(id: &str, diffs: Vec<(&str, Option<&str>, &str)>) -> ToolCall {
    let content = diffs
        .into_iter()
        .map(|(path, old_text, new_text)| ToolCallContent::Diff {
            diff: DiffContent {
                path: path.to_string(),
                old_text: old_text.map(|s| s.to_string()),
                new_text: new_text.to_string(),
            },
        })
        .collect();
    ToolCall {
        id: id.to_string(),
        title: format!("edit {id}"),
        kind: ToolKind::Edit,
        status: ToolCallStatus::Completed,
        content,
    }
}

#[test]
fn aggregate_counts_files_and_lines() {
    let calls = vec![
        call_with_diffs("t1", vec![("a.rs", Some("x\ny\n"), "x\nz\n")]),
        call_with_diffs("t2", vec![("b.rs", None, "one\ntwo\nthree\n")]),
    ];
    let summary = DiffSummaryData::from_tool_calls(&calls);
    assert_eq!(summary.total_files(), 2);
    assert_eq!(summary.total_additions(), 4);
    assert_eq!(summary.total_deletions(), 1);
    assert!(summary.has_changes());
}

#[test]
fn aggregate_overwrites_same_path() {
    let calls = vec![
        call_with_diffs("t1", vec![("a.rs", None, "one\ntwo\nthree\n")]),
        call_with_diffs("t2", vec![("a.rs", Some("x\n"), "x\ny\n")]),
    ];
    let summary = DiffSummaryData::from_tool_calls(&calls);
    assert_eq!(summary.total_files(), 1);
    assert_eq!(summary.files[0].path, "a.rs");
    assert_eq!(summary.files[0].additions, 1);
    assert_eq!(summary.files[0].deletions, 0);
    assert!(!summary.files[0].is_new_file);
}

#[test]
fn aggregate_empty_has_no_changes() {
    let summary = DiffSummaryData::from_tool_calls(&vec![]);
    assert_eq!(summary.total_files(), 0);
    assert_eq!(summary.total_additions(), 0);
    assert_eq!(summary.total_deletions(), 0);
    assert!(!summary.has_changes());
}

#[test]
fn aggregate_ignores_non_diff_content() {
    let call = ToolCall {
        id: "t1".to_string(),
        title: "terminal".to_string(),
        kind: ToolKind::Execute,
        status: ToolCallStatus::InProgress,
        content: vec![ToolCallContent::Terminal { terminal_id: "term-1".to_string() }],
    };
    let summary = DiffSummaryData::from_tool_calls(&vec![call]);
    assert!(!summary.has_changes());
}

#[test]
fn aggregate_twice_is_identical() {
    let calls = vec![
        call_with_diffs("t1", vec![("a.rs", Some("x\ny\n"), "x\nz\n"), ("b.rs", None, "n\n")]),
        call_with_diffs("t2", vec![("a.rs", None, "fresh\n")]),
    ];
    let first = DiffSummaryData::from_tool_calls(&calls);
    let second = DiffSummaryData::from_tool_calls(&calls);
    assert_eq!(first.files.len(), second.files.len());
    for (a, b) in first.files.iter().zip(second.files.iter()) {
        assert_eq!(a.path, b.path);
        assert_eq!(a.additions, b.additions);
        assert_eq!(a.deletions, b.deletions);
        assert_eq!(a.is_new_file, b.is_new_file);
    }
}

#[test]
fn sorted_files_descending_by_total_changes() {
    let calls = vec![
        call_with_diffs("t1", vec![("small.rs", None, "one\n")]),
        call_with_diffs("t2", vec![("big.rs", None, "a\nb\nc\nd\n")]),
        call_with_diffs("t3", vec![("mid.rs", None, "a\nb\n")]),
    ];
    let summary = DiffSummaryData::from_tool_calls(&calls);
    let sorted = summary.sorted_files();
    let paths: Vec<&str> = sorted.iter().map(|f| f.path.as_str()).collect();
    assert_eq!(paths, vec!["big.rs", "mid.rs", "small.rs"]);
    for pair in sorted.windows(2) {
        assert!(pair[0].additions + pair[0].deletions >= pair[1].additions + pair[1].deletions);
    }
}

#[test]
fn sorted_files_ties_keep_insertion_order() {
    let calls = vec![
        call_with_diffs("t1", vec![("first.rs", None, "a\nb\n")]),
        call_with_diffs("t2", vec![("second.rs", None, "c\nd\n")]),
        call_with_diffs("t3", vec![("third.rs", None, "e\nf\n")]),
    ];
    let summary = DiffSummaryData::from_tool_calls(&calls);
    let sorted = summary.sorted_files();
    let paths: Vec<&str> = sorted.iter().map(|f| f.path.as_str()).collect();
    assert_eq!(paths, vec!["first.rs", "second.rs", "third.rs"]);
}

#[test]
fn diff_summary_component_state() {
    let data = DiffSummaryData::new();
    let mut component = DiffSummary::new(data);
    assert!(!component.collapsed);
    component.toggle();
    assert!(component.collapsed);
    component.toggle();
    assert!(!component.collapsed);

    let calls = vec![call_with_diffs("t1", vec![("a.rs", None, "x\n")])];
    component.update_data(DiffSummaryData::from_tool_calls(&calls));
    assert_eq!(component.data.total_files(), 1);
}
