use rocode::tui::app_state::{resolve_model_position, QueuedPrompts, SelectionState};
use rocode::tui::id_map::IdMap;

fn empty_selection() -> SelectionState {
    SelectionState {
        current_agent: "build".to_string(),
        current_scheduler_profile: None,
        current_model: None,
        current_provider: None,
        current_variant: None,
    }
}

#[test]
fn agent_and_scheduler_profile_exclude_each_other() {
    let mut s = empty_selection();
    s.set_scheduler_profile(Some("fast".to_string()));
    assert_eq!(s.current_agent, "");
    assert_eq!(s.current_scheduler_profile.as_deref(), Some("fast"));
    s.set_agent("plan".to_string());
    assert_eq!(s.current_agent, "plan");
    assert_eq!(s.current_scheduler_profile, None);
    s.set_scheduler_profile(None);
    assert_eq!(s.current_agent, "plan");
    s.set_model("m".to_string(), "p".to_string());
    assert_eq!((s.current_model.as_deref(), s.current_provider.as_deref()), (Some("m"), Some("p")));
    s.set_model_selection("n".to_string(), None);
    assert_eq!((s.current_model.as_deref(), s.current_provider.as_deref()), (Some("n"), None));
    s.set_model_variant(Some("high".to_string()));
    assert_eq!(s.current_variant.as_deref(), Some("high"));
}

#[test]
fn model_resolves_by_id_or_suffix_else_current() {
    let ids = vec![
        vec!["openai/gpt-4o".to_string(), "openai/o3".to_string()],
        vec!["o3".to_string()],
    ];
    assert_eq!(resolve_model_position(&ids, Some("  o3 "), None), Some((0, 1)));
    assert_eq!(resolve_model_position(&ids, Some("openai/gpt-4o"), None), Some((0, 0)));
    assert_eq!(resolve_model_position(&ids, Some("   "), Some("gpt-4o")), Some((0, 0)));
    assert_eq!(resolve_model_position(&ids, None, None), None);
    assert_eq!(resolve_model_position(&ids, Some("missing"), Some("o3")), None);
}

#[test]
fn queued_prompts_read_back_what_was_set() {
    let mut q = QueuedPrompts::new();
    assert_eq!(q.queued_prompts_for_session("a"), 0);
    q.set_queued_prompts("a", 3);
    q.set_queued_prompts("b", 1);
    assert_eq!(q.queued_prompts_for_session("a"), 3);
    q.set_queued_prompts("a", 0);
    assert_eq!(q.queued_prompts_for_session("a"), 0);
    assert_eq!(q.queued_prompts_for_session("b"), 1);
}

#[test]
fn id_map_remove_takes_the_value_out() {
    let mut m: IdMap<u32> = IdMap::new();
    m.insert("x".to_string(), 1);
    m.insert("y".to_string(), 2);
    assert_eq!(m.remove("x"), Some(1));
    assert_eq!(m.remove("x"), None);
    assert_eq!(m.get("y"), Some(&2));
    assert!(!m.contains_key("x"));
}
