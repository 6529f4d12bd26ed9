use rocode::tui::app_state::{
    LspConnectionStatus, LspStatus, McpConnectionStatus, McpServerStatus, SelectionState,
};
use rocode::tui::session_context::{
    Message, MessageRole, Session, SessionContext, SessionStatus, TokenUsage,
};
use rocode::tui::session_snapshot::{
    capture_session_footer, connect_hint_at, last_assistant_with_output, message_token_total,
    session_footer_snapshot, session_header_snapshot, session_status_badge, usage_text,
};
use rocode::types::message::Timestamp;

fn session(id: &str, title: &str, parent: Option<&str>) -> Session {
    Session {
        id: id.to_string(),
        title: title.to_string(),
        created_at: Timestamp { secs: 1, nanos: 0 },
        updated_at: Timestamp { secs: 2, nanos: 0 },
        parent_id: parent.map(|p| p.to_string()),
        share: None,
        metadata: None,
    }
}

fn message(id: &str, role: MessageRole, output: u64) -> Message {
    let mut tokens = TokenUsage::new();
    tokens.output = output;
    Message {
        id: id.to_string(),
        role,
        content: String::new(),
        created_at: Timestamp { secs: 0, nanos: 0 },
        agent: None,
        model: None,
        mode: None,
        finish: None,
        error: None,
        completed_at: None,
        cost_bits: 0,
        tokens,
        metadata: None,
        parts: Vec::new(),
    }
}

fn selection() -> SelectionState {
    SelectionState {
        current_agent: "build".to_string(),
        current_scheduler_profile: None,
        current_model: Some("m1".to_string()),
        current_provider: Some("p".to_string()),
        current_variant: None,
    }
}

#[test]
fn status_badges() {
    assert_eq!(session_status_badge(&SessionStatus::Idle), (None, false, false));
    assert_eq!(
        session_status_badge(&SessionStatus::Running),
        (Some("RUNNING".to_string()), true, false)
    );
    assert_eq!(
        session_status_badge(&SessionStatus::Retrying { message: "x".to_string(), attempt: 3, next: 0 }),
        (Some("RETRY 3".to_string()), true, true)
    );
}

#[test]
fn header_names_the_session_and_its_parent() {
    let mut ctx = SessionContext::new();
    ctx.upsert_session(session("root", "Root work", None));
    ctx.upsert_session(session("child", "Child task", Some("root")));
    ctx.upsert_session(session("orphan", "Orphan", Some("gone")));
    ctx.set_status("child", SessionStatus::Running);

    let h = session_header_snapshot(&ctx, "child", Vec::new(), &selection(), Some("u".to_string()));
    assert_eq!(h.title, "Child task");
    assert_eq!(h.parent_title, Some("Root work".to_string()));
    assert_eq!(h.subtitle, Some("build  ·  p/m1".to_string()));
    assert_eq!(h.usage, Some("u".to_string()));
    assert_eq!(h.status_label, Some("RUNNING".to_string()));
    assert!(h.status_running && !h.status_retrying);

    let o = session_header_snapshot(&ctx, "orphan", vec!["agent x".to_string()], &selection(), None);
    assert_eq!(o.parent_title, None);
    assert_eq!(o.subtitle, Some("agent x".to_string()));
    assert_eq!(o.status_label, None);

    let unknown = session_header_snapshot(&ctx, "nope", Vec::new(), &SelectionState {
        current_agent: String::new(),
        current_scheduler_profile: None,
        current_model: None,
        current_provider: None,
        current_variant: None,
    }, None);
    assert_eq!(unknown.title, "New Session");
    assert_eq!(unknown.parent_title, None);
    assert_eq!(unknown.subtitle, None);
}

#[test]
fn usage_counts_the_last_assistant_with_output() {
    let msgs = vec![
        message("a", MessageRole::Assistant, 5),
        message("b", MessageRole::Assistant, 0),
        message("c", MessageRole::User, 9),
    ];
    assert_eq!(last_assistant_with_output(&msgs), Some(0));
    assert_eq!(last_assistant_with_output(&Vec::new()), None);
    let t = TokenUsage { input: 1_000, output: 200, reasoning: 30, cache_read: 4, cache_write: 5 };
    assert_eq!(message_token_total(&t), 1_239);
}

#[test]
fn usage_line_joins_tokens_cost_and_prices() {
    assert_eq!(usage_text(0, Some((100, 0)), "$0.0000", None), None);
    assert_eq!(
        usage_text(12_345, Some((200_000, 6)), "$0.0123", Some("$3/$15".to_string())),
        Some("12,345/200,000 6%  ·  $0.0123  ·  $3/$15".to_string())
    );
    assert_eq!(
        usage_text(999, Some((0, 0)), "$1.0000", None),
        Some("999  ·  $1.0000".to_string())
    );
    assert_eq!(usage_text(1_000, None, "$0", None), Some("1,000  ·  $0".to_string()));
}

#[test]
fn footer_counts_servers_and_times_the_hint() {
    let lsp = vec![
        LspStatus { id: "a".to_string(), root: "/".to_string(), status: LspConnectionStatus::Connected },
        LspStatus { id: "b".to_string(), root: "/".to_string(), status: LspConnectionStatus::Error },
        LspStatus { id: "c".to_string(), root: "/".to_string(), status: LspConnectionStatus::Connected },
    ];
    let mcp = vec![
        McpServerStatus { name: "x".to_string(), status: McpConnectionStatus::Connected, error: None },
        McpServerStatus { name: "y".to_string(), status: McpConnectionStatus::Failed, error: None },
    ];
    let f = session_footer_snapshot("/work".to_string(), 2, &lsp, &mcp, false, 25);
    assert_eq!(f.directory, "/work");
    assert_eq!(f.permission_count, 2);
    assert_eq!(f.connected_lsp, 2);
    assert_eq!(f.connected_mcp, 1);
    assert!(f.has_mcp_failures);
    assert!(!f.has_mcp_registration_needed);
    assert!(f.show_connect_hint);

    assert!(!connect_hint_at(false, 9));
    assert!(connect_hint_at(false, 14));
    assert!(!connect_hint_at(false, 15));
    assert!(connect_hint_at(false, -1));
    assert!(!connect_hint_at(false, -6));
    assert!(connect_hint_at(false, -5));
    assert!(!connect_hint_at(true, 14));

    let now = capture_session_footer("/w".to_string(), 0, &Vec::new(), &Vec::new(), true);
    assert!(!now.show_connect_hint);
    assert_eq!(now.connected_lsp, 0);
}
