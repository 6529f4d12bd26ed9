use rocode::types::message::{MessageRole, PartType, SessionMessage, ToolCallStatus};

#[test]
fn add_reasoning_appends_to_last_reasoning_part() {
    let mut message = SessionMessage::assistant("session-1");
    message.add_reasoning("alpha");
    message.add_reasoning(" beta");

    let reasoning_parts = message
        .parts
        .iter()
        .filter(|part| matches!(part.part_type, PartType::Reasoning { .. }))
        .count();

    assert_eq!(reasoning_parts, 1);
    assert_eq!(message.get_reasoning(), "alpha beta");
}

#[test]
fn user_message_holds_one_text_part() {
    let message = SessionMessage::user("session-7", "hello");
    assert_eq!(message.session_id, "session-7");
    assert_eq!(message.role, MessageRole::User);
    assert_eq!(message.parts.len(), 1);
    assert_eq!(message.get_text(), "hello");
    assert!(message.metadata.is_empty());
    assert!(message.usage.is_none());
    assert!(message.finish.is_none());
    match &message.parts[0].part_type {
        PartType::Text { text, synthetic, ignored } => {
            assert_eq!(text, "hello");
            assert!(synthetic.is_none());
            assert!(ignored.is_none());
        }
        other => panic!("unexpected part {:?}", other),
    }
}

#[test]
fn message_and_part_ids_are_prefixed_uuids() {
    let a = SessionMessage::user("s", "x");
    let b = SessionMessage::user("s", "x");
    assert!(a.id.starts_with("msg_"));
    assert_eq!(a.id.len(), 40);
    assert!(a.parts[0].id.starts_with("prt_"));
    assert_eq!(a.parts[0].id.len(), 40);
    assert_eq!(a.id.as_bytes()[4 + 8], b'-');
    assert_ne!(a.id, b.id);
    assert_ne!(a.parts[0].id, b.parts[0].id);
}

#[test]
fn tool_and_assistant_messages_start_empty() {
    let tool = SessionMessage::tool("s1");
    assert_eq!(tool.role, MessageRole::Tool);
    assert!(tool.parts.is_empty());
    let assistant = SessionMessage::assistant("s1");
    assert_eq!(assistant.role, MessageRole::Assistant);
    assert_eq!(assistant.get_text(), "");
    assert_eq!(assistant.get_reasoning(), "");
}

#[test]
fn append_text_grows_the_last_text_part() {
    let mut message = SessionMessage::assistant("s");
    message.append_text("one");
    assert_eq!(message.parts.len(), 1);
    message.add_reasoning("think");
    message.append_text(" two");
    assert_eq!(message.parts.len(), 2);
    assert_eq!(message.get_text(), "one two");
    assert_eq!(message.get_reasoning(), "think");
}

#[test]
fn add_text_adds_a_part_each_time() {
    let mut message = SessionMessage::assistant("s");
    message.add_text("a");
    message.add_text("b");
    assert_eq!(message.parts.len(), 2);
    assert_eq!(message.get_text(), "ab");
}

#[test]
fn set_text_replaces_all_text_parts() {
    let mut message = SessionMessage::user("s", "first");
    message.add_reasoning("r");
    message.add_text("second");
    message.set_text("only");
    assert_eq!(message.parts.len(), 2);
    assert!(matches!(message.parts[0].part_type, PartType::Reasoning { .. }));
    assert_eq!(message.get_text(), "only");
    assert_eq!(message.get_reasoning(), "r");
}

#[test]
fn mark_text_parts_synthetic_marks_only_text_parts() {
    let mut message = SessionMessage::user("s", "t");
    message.add_reasoning("r");
    message.mark_text_parts_synthetic();
    match &message.parts[0].part_type {
        PartType::Text { synthetic, .. } => assert_eq!(*synthetic, Some(true)),
        other => panic!("unexpected part {:?}", other),
    }
    assert!(matches!(message.parts[1].part_type, PartType::Reasoning { .. }));
    assert_eq!(message.get_text(), "t");
}

#[test]
fn tool_agent_subtask_and_file_parts_carry_their_fields() {
    let mut message = SessionMessage::assistant("s");
    message.add_tool_call("call-1", "read", serde_json::Value::Null);
    message.add_tool_result("call-1", "done", false);
    message.add_agent("explorer");
    message.add_subtask("task-1", "look around");
    message.add_file("file:///a.png", "a.png", "image/png");
    assert_eq!(message.parts.len(), 5);
    match &message.parts[0].part_type {
        PartType::ToolCall { id, name, input, status, raw, state } => {
            assert_eq!(id, "call-1");
            assert_eq!(name, "read");
            assert!(input.is_null());
            assert!(matches!(status, ToolCallStatus::Running));
            assert!(raw.is_none());
            assert!(state.is_none());
        }
        other => panic!("unexpected part {:?}", other),
    }
    match &message.parts[1].part_type {
        PartType::ToolResult { tool_call_id, content, is_error, .. } => {
            assert_eq!(tool_call_id, "call-1");
            assert_eq!(content, "done");
            assert!(!is_error);
        }
        other => panic!("unexpected part {:?}", other),
    }
    match &message.parts[2].part_type {
        PartType::Agent { name, status } => {
            assert_eq!(name, "explorer");
            assert_eq!(status, "pending");
        }
        other => panic!("unexpected part {:?}", other),
    }
    match &message.parts[3].part_type {
        PartType::Subtask { id, description, status } => {
            assert_eq!(id, "task-1");
            assert_eq!(description, "look around");
            assert_eq!(status, "pending");
        }
        other => panic!("unexpected part {:?}", other),
    }
    match &message.parts[4].part_type {
        PartType::File { url, filename, mime } => {
            assert_eq!(url, "file:///a.png");
            assert_eq!(filename, "a.png");
            assert_eq!(mime, "image/png");
        }
        other => panic!("unexpected part {:?}", other),
    }
    assert_eq!(message.get_text(), "");
}
