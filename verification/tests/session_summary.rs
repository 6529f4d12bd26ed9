use std::collections::HashMap;

use rocode::tui::app_state::SelectionState;
use rocode::tui::session_context::{Message, MessagePart, MessageRole, MetaValue, TokenUsage};
use rocode::tui::session_summary::{
    assistant_elapsed_ms, assistant_footer_fields, assistant_metadata_text,
    build_session_header_subtitle, collect_message_expanded_reasoning, is_assistant_final,
    is_assistant_interrupted, selection_model_summary,
};
use rocode::types::message::Timestamp;

fn selection(agent: &str, provider: Option<&str>, model: Option<&str>, profile: Option<&str>) -> SelectionState {
    SelectionState {
        current_agent: agent.to_string(),
        current_scheduler_profile: profile.map(|s| s.to_string()),
        current_model: model.map(|s| s.to_string()),
        current_provider: provider.map(|s| s.to_string()),
        current_variant: None,
    }
}

fn message(id: &str, role: MessageRole, created_ms: i64) -> Message {
    Message {
        id: id.to_string(),
        role,
        content: String::new(),
        created_at: Timestamp { secs: created_ms / 1000, nanos: ((created_ms % 1000) * 1_000_000) as u32 },
        agent: None,
        model: None,
        mode: None,
        finish: None,
        error: None,
        completed_at: None,
        cost_bits: 0,
        tokens: TokenUsage::new(),
        metadata: None,
        parts: Vec::new(),
    }
}

#[test]
fn model_summary_names_provider_and_model() {
    assert_eq!(
        selection_model_summary(&selection("", Some("openai"), Some("gpt-5"), None)),
        Some("openai/gpt-5".to_string())
    );
    assert_eq!(
        selection_model_summary(&selection("", None, Some("gpt-5"), None)),
        Some("gpt-5".to_string())
    );
    assert_eq!(selection_model_summary(&selection("", Some("openai"), None, None)), None);
}

#[test]
fn header_subtitle_prefers_metadata_then_selection() {
    let sel = selection("build", Some("openai"), Some("gpt-5"), Some("fast"));
    assert_eq!(
        build_session_header_subtitle(vec!["plan".to_string(), "m".to_string()], &sel),
        Some("plan  \u{b7}  m".to_string())
    );
    assert_eq!(
        build_session_header_subtitle(Vec::new(), &sel),
        Some("build  \u{b7}  openai/gpt-5  \u{b7}  scheduler fast".to_string())
    );
    assert_eq!(build_session_header_subtitle(Vec::new(), &selection("", None, None, None)), None);
}

#[test]
fn final_and_interrupted_replies() {
    let mut m = message("a", MessageRole::Assistant, 0);
    assert!(!is_assistant_final(&m));
    m.finish = Some("stop".to_string());
    assert!(is_assistant_final(&m));
    m.finish = Some("tool-calls".to_string());
    assert!(!is_assistant_final(&m));
    m.finish = Some("unknown".to_string());
    assert!(!is_assistant_final(&m));

    assert!(!is_assistant_interrupted(&m));
    m.finish = Some("abort".to_string());
    assert!(is_assistant_interrupted(&m));
    m.finish = None;
    m.error = Some("MessageAbortedError: stopped".to_string());
    assert!(is_assistant_interrupted(&m));
    m.error = Some("Request ABORTED by user".to_string());
    assert!(is_assistant_interrupted(&m));
    m.error = Some("timeout".to_string());
    assert!(!is_assistant_interrupted(&m));
}

#[test]
fn metadata_text_reads_string_values_only() {
    let mut m = message("a", MessageRole::Assistant, 0);
    assert_eq!(assistant_metadata_text(&m, "scheduler_profile"), None);
    let mut metadata = HashMap::new();
    metadata.insert(
        "scheduler_profile".to_string(),
        MetaValue::Text("deep".to_string()),
    );
    metadata.insert("count".to_string(), MetaValue::Json("true".to_string()));
    m.metadata = Some(metadata);
    assert_eq!(assistant_metadata_text(&m, "scheduler_profile"), Some("deep"));
    assert_eq!(assistant_metadata_text(&m, "count"), None);
    assert_eq!(assistant_metadata_text(&m, "missing"), None);
}

#[test]
fn elapsed_time_runs_from_the_last_user_message() {
    let user_old = message("u0", MessageRole::User, 1_000);
    let user = message("u1", MessageRole::User, 10_000);
    let mut reply = message("a1", MessageRole::Assistant, 10_100);
    reply.completed_at = Some(Timestamp { secs: 12, nanos: 500_000_000 });
    let messages = vec![user_old, user, reply.clone()];
    assert_eq!(assistant_elapsed_ms(&messages, 2, &reply, true), Some(2_500));
    assert_eq!(assistant_elapsed_ms(&messages, 2, &reply, false), None);
    assert_eq!(assistant_elapsed_ms(&messages, 0, &reply, true), None);
    reply.completed_at = Some(Timestamp { secs: 9, nanos: 0 });
    assert_eq!(assistant_elapsed_ms(&messages, 2, &reply, true), None);
}

#[test]
fn footer_fields_follow_the_mode_chain() {
    let user = message("u1", MessageRole::User, 0);
    let mut reply = message("a1", MessageRole::Assistant, 10);
    let messages = vec![user.clone(), reply.clone()];
    assert!(assistant_footer_fields(&messages, 0, Some(1), &user, None).is_none());
    assert!(assistant_footer_fields(&messages, 1, None, &reply, None).is_none());

    let fields = assistant_footer_fields(&messages, 1, Some(1), &reply, Some("gpt")).expect("footer");
    assert_eq!(fields.mode, "assistant");
    assert_eq!(fields.model.as_deref(), Some("gpt"));
    assert_eq!(fields.elapsed_ms, None);
    assert!(!fields.interrupted);

    reply.agent = Some("builder".to_string());
    reply.mode = Some("   ".to_string());
    reply.model = Some(" ".to_string());
    reply.finish = Some("stop".to_string());
    reply.completed_at = Some(Timestamp { secs: 0, nanos: 750_000_000 });
    let fields = assistant_footer_fields(&messages, 1, None, &reply, Some("gpt")).expect("footer");
    assert_eq!(fields.mode, "builder");
    assert_eq!(fields.model, None);
    assert_eq!(fields.elapsed_ms, Some(750));

    reply.mode = Some("plan".to_string());
    reply.error = Some("aborted".to_string());
    reply.finish = None;
    let fields = assistant_footer_fields(&messages, 1, None, &reply, None).expect("footer");
    assert_eq!(fields.mode, "plan");
    assert!(fields.interrupted);
}

#[test]
fn expanded_reasoning_ids_are_message_id_and_part_index() {
    let mut m = message("m1", MessageRole::Assistant, 0);
    m.parts = vec![
        MessagePart::Reasoning { text: "a".to_string() },
        MessagePart::Text { text: "b".to_string() },
        MessagePart::Reasoning { text: "c".to_string() },
        MessagePart::Reasoning { text: "d".to_string() },
    ];
    let expanded = vec!["m1:2".to_string(), "m1:1".to_string(), "other:0".to_string()];
    assert_eq!(collect_message_expanded_reasoning(&m, &expanded), vec!["m1:2".to_string()]);
    let all = vec!["m1:0".to_string(), "m1:3".to_string()];
    assert_eq!(
        collect_message_expanded_reasoning(&m, &all),
        vec!["m1:0".to_string(), "m1:3".to_string()]
    );
}
