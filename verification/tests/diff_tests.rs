use agentx_core::FileChangeStats;
use agentx_core::count_lines;

#[test]
fn diff_one_line_changed() {
    let stats = FileChangeStats::from_diff(
        "src/main.rs".to_string(),
        Some("a\nb\nc\n"),
        "a\nx\nc\n",
    );
    assert_eq!(stats.additions, 1);
    assert_eq!(stats.deletions, 1);
    assert!(!stats.is_new_file);
    assert_eq!(stats.path, "src/main.rs");
}

#[test]
fn diff_new_file_counts_lines() {
    let stats = FileChangeStats::from_diff("notes.txt".to_string(), None, "line1\nline2\n");
    assert_eq!(stats.additions, 2);
    assert_eq!(stats.deletions, 0);
    assert!(stats.is_new_file);
}

#[test]
fn diff_identical_texts_yield_zero_counts() {
    let text = "alpha\nbeta\ngamma\n";
    let stats = FileChangeStats::from_diff("same.txt".to_string(), Some(text), text);
    assert_eq!(stats.additions, 0);
    assert_eq!(stats.deletions, 0);
    assert!(!stats.is_new_file);
}

#[test]
fn diff_empty_old_text_is_not_new_file() {
    let stats = FileChangeStats::from_diff("f".to_string(), Some(""), "a\nb\n");
    assert_eq!(stats.additions, 2);
    assert_eq!(stats.deletions, 0);
    assert!(!stats.is_new_file);
}

#[test]
fn diff_deleted_content() {
    let stats = FileChangeStats::from_diff("f".to_string(), Some("a\nb\nc\n"), "a\n");
    assert_eq!(stats.additions, 0);
    assert_eq!(stats.deletions, 2);
}

#[test]
fn total_changes_adds_both_counts() {
    let stats = FileChangeStats::from_diff("f".to_string(), Some("a\nb\nc\n"), "a\nx\nc\n");
    assert_eq!(stats.total_changes(), 2);
    assert_eq!(stats.total_changes(), stats.additions + stats.deletions);
}

#[test]
fn count_lines_empty_is_zero() {
    assert_eq!(count_lines(""), 0);
}

#[test]
fn count_lines_trailing_newline_adds_no_segment() {
    assert_eq!(count_lines("a"), 1);
    assert_eq!(count_lines("a\n"), 1);
    assert_eq!(count_lines("a\nb"), 2);
    assert_eq!(count_lines("a\nb\n"), 2);
}

#[test]
fn count_lines_empty_segments_count() {
    assert_eq!(count_lines("a\n\nb"), 3);
    assert_eq!(count_lines("\n"), 1);
    assert_eq!(count_lines("\n\n"), 2);
}

#[test]
fn diff_insert_only() {
    let stats = FileChangeStats::from_diff("f".to_string(), Some("a\nc\n"), "a\nb\nc\n");
    assert_eq!(stats.additions, 1);
    assert_eq!(stats.deletions, 0);
}
