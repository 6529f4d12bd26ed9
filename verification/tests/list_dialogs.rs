use rocode::tui::list_dialogs::{PromptStashDialog, StashItem, Tag, TagDialog, ToolCallCancelDialog, ToolCallItem};

fn stash(s: &str) -> StashItem {
    StashItem { input: s.to_string(), created_at: 0 }
}

#[test]
fn stash_filters_ignoring_ascii_case() {
    let mut d = PromptStashDialog::new();
    d.set_entries(vec![stash("Fix the BUG"), stash("write docs"), stash("bugfix later")]);
    d.open();
    assert_eq!(d.selected_index(), Some(0));
    d.handle_input('b');
    d.handle_input('U');
    assert_eq!(d.selected_index(), Some(0));
    d.move_down();
    assert_eq!(d.selected_index(), Some(2));
    d.move_down();
    assert_eq!(d.selected_index(), Some(2));
    assert_eq!(d.remove_selected(), Some(2));
    assert_eq!(d.selected_index(), Some(0));
    d.handle_input('z');
    assert_eq!(d.selected_index(), None);
    assert_eq!(d.remove_selected(), None);
    d.handle_backspace();
    d.move_up();
    assert_eq!(d.selected_index(), Some(0));
    d.close();
    assert!(!d.is_open());
}

#[test]
fn tags_toggle_in_and_out() {
    let mut d = TagDialog::new();
    d.set_tags(vec![
        Tag { id: "t1".to_string(), name: "one".to_string(), color: None },
        Tag { id: "t2".to_string(), name: "two".to_string(), color: None },
    ]);
    d.toggle_selection();
    assert!(d.selected_tags().is_empty());
    d.open();
    d.toggle_selection();
    d.move_down();
    d.move_down();
    d.toggle_selection();
    assert_eq!(d.selected_tags(), &["t1".to_string(), "t2".to_string()]);
    d.move_up();
    d.toggle_selection();
    assert_eq!(d.selected_tags(), &["t2".to_string()]);
}

#[test]
fn tool_calls_wrap_round() {
    let mut d = ToolCallCancelDialog::new();
    d.next();
    assert_eq!(d.selected(), None);
    d.open(vec![
        ToolCallItem { id: "c1".to_string(), tool_name: "bash".to_string() },
        ToolCallItem { id: "c2".to_string(), tool_name: "read".to_string() },
    ]);
    assert_eq!(d.selected().as_deref(), Some("c1"));
    d.previous();
    assert_eq!(d.selected().as_deref(), Some("c2"));
    d.next();
    assert_eq!(d.selected().as_deref(), Some("c1"));
    d.next();
    d.next();
    assert_eq!(d.selected().as_deref(), Some("c1"));
    d.close();
    assert!(!d.is_open());
    assert_eq!(d.selected(), None);
}
