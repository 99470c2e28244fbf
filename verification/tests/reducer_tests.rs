use agentx_core::ApplyOutcome;
use agentx_core::DiffContent;
use agentx_core::ToolCallContent;
use agentx_core::ContentBlock;
use agentx_core::ContentChunk;
use agentx_core::Conversation;
use agentx_core::PlanEntry;
use agentx_core::PlanPriority;
use agentx_core::PlanStatus;
use agentx_core::SessionUpdate;
use agentx_core::ToolCall;
use agentx_core::ToolCallStatus;
use agentx_core::ToolCallUpdateFields;
use agentx_core::ToolKind;
use agentx_core::TranscriptItem;

fn text_chunk(text: &str) -> ContentChunk {
    ContentChunk { content: ContentBlock::Text { text: text.to_string() }, meta: None }
}

fn tool_call_event(id: &str, status: ToolCallStatus) -> SessionUpdate {
    SessionUpdate::ToolCall {
        call: ToolCall::new(
            id.to_string(),
            format!("call {id}"),
            ToolKind::Execute,
            status,
            vec![],
        ),
    }
}

#[test]
fn chunks_append_in_arrival_order() {
    let mut conversation = Conversation::new("s1".to_string());
    let o1 = conversation.apply(SessionUpdate::UserMessageChunk { chunk: text_chunk("hi") });
    let o2 = conversation.apply(SessionUpdate::AgentMessageChunk { chunk: text_chunk("hello") });
    let o3 = conversation.apply(SessionUpdate::UserMessageChunk { chunk: text_chunk("more") });
    assert_eq!(o1, ApplyOutcome::UserMessageAppended);
    assert_eq!(o2, ApplyOutcome::AgentMessageAppended);
    assert_eq!(o3, ApplyOutcome::UserMessageAppended);
    assert_eq!(conversation.transcript.len(), 3);
    assert!(matches!(&conversation.transcript[0], TranscriptItem::UserMessage { .. }));
    assert!(matches!(&conversation.transcript[1], TranscriptItem::AgentMessage { .. }));
    assert!(matches!(&conversation.transcript[2], TranscriptItem::UserMessage { .. }));
}

#[test]
fn user_chunks_are_not_coalesced() {
    let mut conversation = Conversation::new("s1".to_string());
    conversation.apply(SessionUpdate::UserMessageChunk { chunk: text_chunk("a") });
    conversation.apply(SessionUpdate::UserMessageChunk { chunk: text_chunk("b") });
    assert_eq!(conversation.transcript.len(), 2);
}

#[test]
fn thought_chunk_is_its_own_kind() {
    let mut conversation = Conversation::new("s1".to_string());
    let outcome =
        conversation.apply(SessionUpdate::AgentThoughtChunk { chunk: text_chunk("hmm") });
    assert_eq!(outcome, ApplyOutcome::AgentThoughtAppended);
    assert!(matches!(&conversation.transcript[0], TranscriptItem::AgentThought { .. }));
}

#[test]
fn tool_call_lifecycle() {
    let mut conversation = Conversation::new("s1".to_string());
    let created = conversation.apply(tool_call_event("t1", ToolCallStatus::Pending));
    assert_eq!(created, ApplyOutcome::ToolCallCreated);
    let updated = conversation.apply(SessionUpdate::ToolCallUpdate {
        id: "t1".to_string(),
        fields: ToolCallUpdateFields {
            title: None,
            kind: None,
            status: Some(ToolCallStatus::Completed),
            content: None,
        },
    });
    assert_eq!(updated, ApplyOutcome::ToolCallUpdated);

    let call = conversation.tool_call(&"t1".to_string()).expect("t1 exists");
    assert!(matches!(call.status, ToolCallStatus::Completed));

    let groups: Vec<&Vec<String>> = conversation
        .transcript
        .iter()
        .filter_map(|item| match item {
            TranscriptItem::ToolCallGroup { ids } => Some(ids),
            _ => None,
        })
        .collect();
    assert_eq!(groups.len(), 1);
    assert_eq!(groups[0].as_slice(), ["t1".to_string()]);
}

#[test]
fn unknown_id_update_is_ignored_and_stream_continues() {
    let mut conversation = Conversation::new("s1".to_string());
    conversation.apply(SessionUpdate::UserMessageChunk { chunk: text_chunk("hi") });
    let outcome = conversation.apply(SessionUpdate::ToolCallUpdate {
        id: "never-created".to_string(),
        fields: ToolCallUpdateFields { title: None, kind: None, status: None, content: None },
    });
    assert_eq!(outcome, ApplyOutcome::UnknownIdIgnored);
    assert_eq!(conversation.transcript.len(), 1);
    let after = conversation.apply(SessionUpdate::AgentMessageChunk { chunk: text_chunk("ok") });
    assert_eq!(after, ApplyOutcome::AgentMessageAppended);
    assert_eq!(conversation.transcript.len(), 2);
}

#[test]
fn consecutive_tool_calls_share_one_group() {
    let mut conversation = Conversation::new("s1".to_string());
    conversation.apply(tool_call_event("t1", ToolCallStatus::Pending));
    conversation.apply(tool_call_event("t2", ToolCallStatus::Pending));
    assert_eq!(conversation.transcript.len(), 1);
    match &conversation.transcript[0] {
        TranscriptItem::ToolCallGroup { ids } => {
            assert_eq!(ids.as_slice(), ["t1".to_string(), "t2".to_string()])
        }
        other => panic!("expected a tool-call group, got {other:?}"),
    }
}

#[test]
fn interleaved_tool_calls_open_separate_groups() {
    let mut conversation = Conversation::new("s1".to_string());
    conversation.apply(tool_call_event("t1", ToolCallStatus::Pending));
    conversation.apply(SessionUpdate::UserMessageChunk { chunk: text_chunk("pause") });
    conversation.apply(tool_call_event("t2", ToolCallStatus::Pending));
    assert_eq!(conversation.transcript.len(), 3);
    assert!(matches!(&conversation.transcript[0], TranscriptItem::ToolCallGroup { .. }));
    assert!(matches!(&conversation.transcript[2], TranscriptItem::ToolCallGroup { .. }));
}

#[test]
fn duplicate_tool_call_overwrites_in_place() {
    let mut conversation = Conversation::new("s1".to_string());
    conversation.apply(tool_call_event("t1", ToolCallStatus::Pending));
    let outcome = conversation.apply(tool_call_event("t1", ToolCallStatus::Failed));
    assert_eq!(outcome, ApplyOutcome::ToolCallReplaced);
    assert_eq!(conversation.transcript.len(), 1);
    assert_eq!(conversation.registry.list().len(), 1);
    let call = conversation.tool_call(&"t1".to_string()).unwrap();
    assert!(matches!(call.status, ToolCallStatus::Failed));
}

#[test]
fn plan_replaces_slot_and_appends_item() {
    let mut conversation = Conversation::new("s1".to_string());
    let first = vec![PlanEntry::new(
        "step one".to_string(),
        PlanPriority::High,
        PlanStatus::Pending,
    )];
    let outcome = conversation.apply(SessionUpdate::Plan { entries: first });
    assert_eq!(outcome, ApplyOutcome::PlanReplaced);
    assert_eq!(conversation.current_plan.as_ref().unwrap().len(), 1);

    let second = vec![
        PlanEntry::new("step one".to_string(), PlanPriority::High, PlanStatus::Completed),
        PlanEntry::new("step two".to_string(), PlanPriority::Low, PlanStatus::Pending),
    ];
    conversation.apply(SessionUpdate::Plan { entries: second });
    let plan = conversation.current_plan.as_ref().unwrap();
    assert_eq!(plan.len(), 2);
    assert!(matches!(plan[0].status, PlanStatus::Completed));
    assert_eq!(conversation.transcript.len(), 2);
    assert!(matches!(&conversation.transcript[1], TranscriptItem::Plan { .. }));
}

#[test]
fn commands_and_mode_updates_do_not_touch_transcript() {
    let mut conversation = Conversation::new("s1".to_string());
    let o1 = conversation.apply(SessionUpdate::AvailableCommandsUpdate {
        commands: vec!["search".to_string(), "apply".to_string()],
    });
    let o2 =
        conversation.apply(SessionUpdate::CurrentModeUpdate { mode_id: "plan".to_string() });
    assert_eq!(o1, ApplyOutcome::CommandsRecorded);
    assert_eq!(o2, ApplyOutcome::ModeRecorded);
    assert_eq!(conversation.transcript.len(), 0);
    assert_eq!(conversation.available_commands.len(), 2);
    assert_eq!(conversation.current_mode.as_deref(), Some("plan"));
}

#[test]
fn unknown_event_is_recorded_and_stream_continues() {
    let mut conversation = Conversation::new("s1".to_string());
    let outcome =
        conversation.apply(SessionUpdate::Unknown { kind: "future_event".to_string() });
    assert_eq!(outcome, ApplyOutcome::UnknownRecorded);
    match &conversation.transcript[0] {
        TranscriptItem::Unknown { kind } => assert_eq!(kind, "future_event"),
        other => panic!("expected a placeholder, got {other:?}"),
    }
    conversation.apply(SessionUpdate::UserMessageChunk { chunk: text_chunk("still alive") });
    assert_eq!(conversation.transcript.len(), 2);
}

#[test]
fn snapshot_exposes_transcript_and_summary() {
    let mut conversation = Conversation::new("s1".to_string());
    conversation.apply(SessionUpdate::ToolCall {
        call: ToolCall::new(
            "t1".to_string(),
            "edit".to_string(),
            ToolKind::Edit,
            ToolCallStatus::Completed,
            vec![ToolCallContent::Diff {
                diff: DiffContent {
                    path: "a.rs".to_string(),
                    old_text: None,
                    new_text: "x\ny\n".to_string(),
                },
            }],
        ),
    });
    let (transcript, summary) = conversation.snapshot();
    assert_eq!(transcript.len(), 1);
    assert_eq!(summary.total_files(), 1);
    assert_eq!(summary.total_additions(), 2);
}
