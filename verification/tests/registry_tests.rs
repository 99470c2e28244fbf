use agentx_core::RegistryError;
use agentx_core::ToolCall;
use agentx_core::ToolCallContent;
use agentx_core::ToolCallItem;
use agentx_core::ToolCallRegistry;
use agentx_core::ToolCallStatus;
use agentx_core::ToolCallUpdateFields;
use agentx_core::ToolKind;
use agentx_core::ContentBlock;

fn sample_call(id: &str, title: &str) -> ToolCall {
    ToolCall::new(
        id.to_string(),
        title.to_string(),
        ToolKind::Read,
        ToolCallStatus::Pending,
        vec![],
    )
}

fn no_fields() -> ToolCallUpdateFields {
    ToolCallUpdateFields { title: None, kind: None, status: None, content: None }
}

#[test]
fn create_then_get() {
    let mut registry = ToolCallRegistry::new();
    assert!(registry.create(sample_call("t1", "read file")).is_ok());
    let found = registry.get(&"t1".to_string()).expect("t1 should be present");
    assert_eq!(found.title, "read file");
    assert!(matches!(found.kind, ToolKind::Read));
    assert!(registry.get(&"t2".to_string()).is_none());
}

#[test]
fn create_duplicate_id_fails() {
    let mut registry = ToolCallRegistry::new();
    assert!(registry.create(sample_call("t1", "first")).is_ok());
    let result = registry.create(sample_call("t1", "second"));
    assert_eq!(result, Err(RegistryError::DuplicateId));
    assert_eq!(registry.get(&"t1".to_string()).unwrap().title, "first");
}

#[test]
fn update_unknown_id_fails() {
    let mut registry = ToolCallRegistry::new();
    let result = registry.apply_update(&"ghost".to_string(), no_fields());
    assert_eq!(result, Err(RegistryError::UnknownId));
}

#[test]
fn update_merges_only_supplied_fields() {
    let mut registry = ToolCallRegistry::new();
    registry.create(sample_call("t1", "original title")).unwrap();
    let fields = ToolCallUpdateFields {
        title: None,
        kind: None,
        status: Some(ToolCallStatus::Completed),
        content: None,
    };
    registry.apply_update(&"t1".to_string(), fields).unwrap();
    let call = registry.get(&"t1".to_string()).unwrap();
    assert_eq!(call.title, "original title");
    assert!(matches!(call.kind, ToolKind::Read));
    assert!(matches!(call.status, ToolCallStatus::Completed));
}

#[test]
fn update_content_is_full_overwrite() {
    let mut registry = ToolCallRegistry::new();
    let mut call = sample_call("t1", "edit");
    call.content = vec![
        ToolCallContent::Content { content: ContentBlock::Text { text: "old".to_string() } },
        ToolCallContent::Terminal { terminal_id: "term".to_string() },
    ];
    registry.create(call).unwrap();
    let fields = ToolCallUpdateFields {
        title: None,
        kind: None,
        status: None,
        content: Some(vec![ToolCallContent::Content {
            content: ContentBlock::Text { text: "new".to_string() },
        }]),
    };
    registry.apply_update(&"t1".to_string(), fields).unwrap();
    let stored = registry.get(&"t1".to_string()).unwrap();
    assert_eq!(stored.content.len(), 1);
    match &stored.content[0] {
        ToolCallContent::Content { content: ContentBlock::Text { text } } => {
            assert_eq!(text, "new")
        }
        other => panic!("unexpected content: {other:?}"),
    }
}

#[test]
fn list_keeps_creation_order() {
    let mut registry = ToolCallRegistry::new();
    registry.create(sample_call("b", "second")).unwrap();
    registry.create(sample_call("a", "first")).unwrap();
    registry.create(sample_call("c", "third")).unwrap();
    let ids: Vec<&str> = registry.list().iter().map(|c| c.id.as_str()).collect();
    assert_eq!(ids, vec!["b", "a", "c"]);
}

#[test]
fn mutations_set_dirty_mark() {
    let mut registry = ToolCallRegistry::new();
    assert!(!registry.take_dirty());
    registry.create(sample_call("t1", "x")).unwrap();
    assert!(registry.take_dirty());
    assert!(!registry.take_dirty());
    registry
        .apply_update(
            &"t1".to_string(),
            ToolCallUpdateFields {
                title: Some("y".to_string()),
                kind: None,
                status: None,
                content: None,
            },
        )
        .unwrap();
    assert!(registry.take_dirty());
}

#[test]
fn tool_call_item_state() {
    let mut item = ToolCallItem::new(sample_call("t1", "run"));
    assert!(!item.open);
    assert!(!item.has_content());
    item.toggle();
    assert!(item.open);
    item.set_open(false);
    assert!(!item.open);

    item.update_status(ToolCallStatus::Failed);
    assert!(matches!(item.tool_call.status, ToolCallStatus::Failed));

    item.add_content(ToolCallContent::Terminal { terminal_id: "term-9".to_string() });
    assert!(item.has_content());
    assert_eq!(item.tool_call.content.len(), 1);

    item.set_content(vec![]);
    assert!(!item.has_content());

    item.update_tool_call(sample_call("t1", "renamed"));
    assert_eq!(item.tool_call.title, "renamed");

    let item = ToolCallItem::new(sample_call("t2", "other")).open(true);
    assert!(item.open);
}
