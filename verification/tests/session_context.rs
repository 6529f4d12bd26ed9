use rocode::tui::id_map::IdMap;
use rocode::tui::session_context::{
    should_insert_message_gap, Message, MessageRole, Session, SessionContext, SessionStatus,
    TokenUsage,
};
use rocode::types::message::Timestamp;

fn message(id: &str, content: &str) -> Message {
    Message {
        id: id.to_string(),
        role: MessageRole::Assistant,
        content: content.to_string(),
        created_at: Timestamp { secs: 0, nanos: 0 },
        agent: None,
        model: None,
        mode: None,
        finish: None,
        error: None,
        completed_at: None,
        cost_bits: 0,
        tokens: TokenUsage::new(),
        metadata: None,
        parts: Vec::new(),
    }
}

fn contents(ctx: &SessionContext, session_id: &str) -> Vec<String> {
    ctx.messages
        .get(session_id)
        .map(|msgs| msgs.iter().map(|m| m.content.clone()).collect())
        .unwrap_or_default()
}

fn session(id: &str) -> Session {
    Session {
        id: id.to_string(),
        title: "Named".to_string(),
        created_at: Timestamp { secs: 1, nanos: 0 },
        updated_at: Timestamp { secs: 2, nanos: 0 },
        parent_id: None,
        share: None,
        metadata: None,
    }
}

#[test]
fn message_gaps() {
    assert!(!should_insert_message_gap(None, &MessageRole::User));
    assert!(should_insert_message_gap(Some(&MessageRole::User), &MessageRole::User));
    assert!(should_insert_message_gap(Some(&MessageRole::User), &MessageRole::Assistant));
    assert!(!should_insert_message_gap(Some(&MessageRole::Assistant), &MessageRole::Assistant));
}

#[test]
fn new_context_is_empty_and_idle() {
    let ctx = SessionContext::new();
    assert!(ctx.current_session().is_none());
    assert!(ctx.current_messages().is_empty());
    assert!(matches!(ctx.status("anything"), SessionStatus::Idle));
}

#[test]
fn create_session_makes_it_current() {
    let mut ctx = SessionContext::new();
    let id = ctx.create_session(None);
    assert_eq!(id.len(), 36);
    assert_eq!(ctx.current_session_id.as_deref(), Some(id.as_str()));
    let current = ctx.current_session().expect("current session");
    assert_eq!(current.id, id);
    assert_eq!(current.title, "New Session");
    assert_eq!(current.created_at, current.updated_at);
    assert!(ctx.current_messages().is_empty());
    assert!(ctx.message_index.contains_key(&id));
    assert!(matches!(ctx.status(&id), SessionStatus::Idle));

    let other = ctx.create_session(Some("Named".to_string()));
    assert_ne!(other, id);
    assert_eq!(ctx.current_session().map(|s| s.title.as_str()), Some("Named"));
}

#[test]
fn upsert_message_replaces_or_appends() {
    let mut ctx = SessionContext::new();
    ctx.upsert_message("s", message("a", "1"));
    ctx.upsert_message("s", message("b", "2"));
    ctx.add_message("s", message("a", "3"));
    assert_eq!(contents(&ctx, "s"), vec!["3", "2"]);
    let index = ctx.message_index.get("s").expect("index");
    assert_eq!(index.get("a"), Some(&0));
    assert_eq!(index.get("b"), Some(&1));
    assert!(ctx.messages.get("other").is_none());
}

#[test]
fn upsert_message_rebuilds_a_drifted_index() {
    let mut ctx = SessionContext::new();
    ctx.upsert_message("s", message("a", "1"));
    let mut drifted = IdMap::new();
    drifted.insert("a".to_string(), 5usize);
    ctx.message_index.insert("s".to_string(), drifted);
    ctx.upsert_message("s", message("a", "2"));
    assert_eq!(contents(&ctx, "s"), vec!["1", "2"]);
    let index = ctx.message_index.get("s").expect("index");
    assert_eq!(index.get("a"), Some(&1));
}

#[test]
fn set_messages_indexes_the_last_of_each_id() {
    let mut ctx = SessionContext::new();
    ctx.set_messages("s", vec![message("a", "1"), message("b", "2"), message("a", "3")]);
    assert_eq!(contents(&ctx, "s"), vec!["1", "2", "3"]);
    let index = ctx.message_index.get("s").expect("index");
    assert_eq!(index.get("a"), Some(&2));
    assert_eq!(index.get("b"), Some(&1));
    ctx.upsert_message("s", message("a", "4"));
    assert_eq!(contents(&ctx, "s"), vec!["1", "2", "4"]);
}

#[test]
fn upsert_messages_incremental_upserts_in_order() {
    let mut ctx = SessionContext::new();
    ctx.upsert_messages_incremental("s", Vec::new());
    assert!(ctx.messages.get("s").is_none());
    ctx.upsert_messages_incremental("s", vec![message("a", "1"), message("b", "2"), message("a", "3")]);
    assert_eq!(contents(&ctx, "s"), vec!["3", "2"]);
}

#[test]
fn upsert_session_keeps_existing_messages_and_status() {
    let mut ctx = SessionContext::new();
    ctx.upsert_message("s", message("a", "1"));
    ctx.set_status("s", SessionStatus::Running);
    ctx.upsert_session(session("s"));
    assert_eq!(ctx.current_session_id.as_deref(), Some("s"));
    assert_eq!(contents(&ctx, "s"), vec!["1"]);
    assert!(matches!(ctx.status("s"), SessionStatus::Running));
    assert_eq!(ctx.current_messages().len(), 1);
    assert_eq!(ctx.current_session().map(|s| s.title.as_str()), Some("Named"));

    ctx.upsert_session(session("t"));
    assert!(ctx.current_messages().is_empty());
    assert!(matches!(ctx.status("t"), SessionStatus::Idle));
    assert!(ctx.session_status.contains_key("t"));
}
