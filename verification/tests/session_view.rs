use rocode::tui::session_render::build_session_viewport_content_memo_key;
use rocode::tui::session_view::{
    map_scrollbar_row_to_offset, point_in_optional_rect, session_sidebar_visible,
    SessionMessageViewportState, SessionSidebarChromeState, SessionView, SidebarLifecycleState,
    SidebarMode, ThinkingToggleHit, Rect,
};

#[test]
fn scrollbar_row_maps_to_expected_offsets() {
    let area = Some(Rect {
        x: 10,
        y: 5,
        width: 1,
        height: 11,
    });
    assert_eq!(map_scrollbar_row_to_offset(area, 5, 100), 0);
    assert_eq!(map_scrollbar_row_to_offset(area, 10, 100), 50);
    assert_eq!(map_scrollbar_row_to_offset(area, 15, 100), 100);
}

#[test]
fn session_viewport_content_memo_key_tracks_scroll_and_height() {
    let base = build_session_viewport_content_memo_key(42, 10, 20);
    assert_eq!(base, build_session_viewport_content_memo_key(42, 10, 20));
    assert_ne!(base, build_session_viewport_content_memo_key(42, 11, 20));
    assert_ne!(base, build_session_viewport_content_memo_key(42, 10, 21));
    assert_ne!(base, build_session_viewport_content_memo_key(43, 10, 20));
}

fn viewport(lines: usize, height: usize, offset: usize) -> SessionMessageViewportState {
    let mut v = SessionMessageViewportState::new();
    v.rendered_line_count = lines;
    v.messages_viewport_height = height;
    v.scroll_offset = offset;
    v.last_messages_area = Some(Rect { x: 0, y: 2, width: 80, height: height as u16 });
    v.last_scrollbar_area = Some(Rect { x: 79, y: 2, width: 1, height: height as u16 });
    v
}

#[test]
fn scrollbar_row_outside_area_clamps_and_rounds() {
    let area = Some(Rect { x: 0, y: 0, width: 1, height: 4 });
    // three-row track: row 1 of 3 maps to 10 / 3 rounded
    assert_eq!(map_scrollbar_row_to_offset(area, 1, 10), 3);
    assert_eq!(map_scrollbar_row_to_offset(area, 2, 10), 7);
    assert_eq!(map_scrollbar_row_to_offset(area, 40, 10), 10);
    assert_eq!(map_scrollbar_row_to_offset(None, 1, 10), 0);
    assert_eq!(map_scrollbar_row_to_offset(area, 1, 0), 0);
    let flat = Some(Rect { x: 0, y: 0, width: 1, height: 1 });
    assert_eq!(map_scrollbar_row_to_offset(flat, 0, 10), 0);
}

#[test]
fn point_in_rect_saturates_at_screen_edge() {
    let area = Some(Rect { x: 65530, y: 0, width: 20, height: 1 });
    assert!(point_in_optional_rect(area, 65534, 0));
    assert!(!point_in_optional_rect(area, 65535, 0));
    assert!(!point_in_optional_rect(None, 0, 0));
}

#[test]
fn sidebar_visibility_follows_mode_and_width() {
    let mut l = SidebarLifecycleState::new();
    assert!(!session_sidebar_visible(&l, 100));
    assert!(session_sidebar_visible(&l, 121));
    assert!(!session_sidebar_visible(&l, 120));
    l.mode = SidebarMode::Show;
    assert!(session_sidebar_visible(&l, 10));
    l.mode = SidebarMode::Hide;
    assert!(!session_sidebar_visible(&l, 200));
}

#[test]
fn toggle_sidebar_flips_visibility_on_narrow_and_wide_terminals() {
    let mut view = SessionView::new("session-1".to_string());
    assert!(!view.sidebar_visible(100));
    view.toggle_sidebar(100);
    assert!(view.sidebar_visible(100));
    view.toggle_sidebar(100);
    assert!(!view.sidebar_visible(100));

    let mut wide = SessionView::new("session-2".to_string());
    assert!(wide.sidebar_visible(140));
    wide.toggle_sidebar(140);
    assert!(!wide.sidebar_visible(140));
    wide.toggle_sidebar(140);
    assert!(wide.sidebar_visible(140));
    assert_eq!(wide.session_id(), "session-2");
}

#[test]
fn sidebar_focus_never_rests_on_both_lists() {
    let mut view = SessionView::new("s".to_string());
    assert!(!view.toggle_sidebar_process_focus(100));
    assert!(view.toggle_sidebar_process_focus(140));
    assert!(view.sidebar_process_focus());
    assert!(view.toggle_sidebar_child_session_focus(140));
    assert!(view.sidebar_child_session_focus());
    assert!(!view.sidebar_process_focus());
    assert!(view.clear_sidebar_focus());
    assert!(!view.clear_sidebar_focus());
    assert!(!view.sidebar_child_session_focus());
}

#[test]
fn sidebar_selections_move_and_clamp() {
    let mut view = SessionView::new("s".to_string());
    view.move_sidebar_process_selection_up();
    assert_eq!(view.sidebar_process_selected(), 0);
    view.move_sidebar_process_selection_down(3);
    view.move_sidebar_process_selection_down(3);
    view.move_sidebar_process_selection_down(3);
    assert_eq!(view.sidebar_process_selected(), 2);
    view.move_sidebar_process_selection_down(0);
    assert_eq!(view.sidebar_process_selected(), 2);
    view.clamp_sidebar_process_selection(2);
    assert_eq!(view.sidebar_process_selected(), 1);
    view.clamp_sidebar_process_selection(0);
    assert_eq!(view.sidebar_process_selected(), 0);

    view.move_sidebar_child_session_selection_down(2);
    assert_eq!(view.sidebar_child_session_selected(), 1);
    view.move_sidebar_child_session_selection_up();
    assert_eq!(view.sidebar_child_session_selected(), 0);
    view.move_sidebar_child_session_selection_down(5);
    view.move_sidebar_child_session_selection_down(5);
    view.clamp_sidebar_child_session_selection(2);
    assert_eq!(view.sidebar_child_session_selected(), 1);
    view.clamp_sidebar_child_session_selection(0);
    assert_eq!(view.sidebar_child_session_selected(), 0);
}

fn last_offset(view: &mut SessionView) -> Option<usize> {
    let mut last = None;
    for a in view.take_pending_actions() {
        if let rocode::tui::session_view::SessionInteractionAction::SetScrollOffset(o) = a {
            last = Some(o);
        }
    }
    last
}

#[test]
fn scrolling_stays_within_content() {
    let mut view = SessionView::new("s".to_string());
    view.update_viewport_state(viewport(50, 10, 0));
    view.scroll_up();
    assert_eq!(last_offset(&mut view), None);
    view.scroll_down();
    assert_eq!(last_offset(&mut view), Some(1));
    view.scroll_down_by(100);
    assert_eq!(last_offset(&mut view), Some(40));
    view.scroll_down();
    assert_eq!(last_offset(&mut view), None);
    view.scroll_page_up();
    assert_eq!(last_offset(&mut view), Some(31));
    view.scroll_up_mouse();
    assert_eq!(last_offset(&mut view), Some(28));
    view.scroll_down_mouse();
    assert_eq!(last_offset(&mut view), Some(31));
    view.scroll_page_down();
    assert_eq!(last_offset(&mut view), Some(40));
    view.scroll_up_by(0);
    assert_eq!(last_offset(&mut view), Some(39));
    view.scroll_down_by(2);
    view.scroll_up_by(2);
    assert_eq!(last_offset(&mut view), Some(38));
}

#[test]
fn scroll_down_then_up_by_same_lines_returns() {
    let mut view = SessionView::new("s".to_string());
    view.update_viewport_state(viewport(100, 20, 30));
    view.scroll_down_by(7);
    assert_eq!(last_offset(&mut view), Some(37));
    view.scroll_up_by(7);
    assert_eq!(last_offset(&mut view), Some(30));
}

#[test]
fn scrollbar_click_drag_and_release() {
    let mut view = SessionView::new("s".to_string());
    view.update_viewport_state(viewport(110, 11, 0));
    assert!(!view.handle_scrollbar_click(10, 5));
    assert!(!view.handle_scrollbar_drag(10, 5));
    assert!(!view.stop_scrollbar_drag());
    assert!(view.handle_scrollbar_click(79, 7));
    assert_eq!(last_offset(&mut view), Some(50));
    assert!(view.handle_scrollbar_drag(10, 12));
    assert_eq!(last_offset(&mut view), Some(99));
    assert!(view.stop_scrollbar_drag());
    assert!(!view.stop_scrollbar_drag());
}

#[test]
fn click_on_reasoning_toggle_line_toggles_it() {
    let mut view = SessionView::new("s".to_string());
    view.update_viewport_state(viewport(30, 10, 5));
    view.update_toggle_hits(vec![
        ThinkingToggleHit { line_index: 7, reasoning_id: "m1:0".to_string() },
        ThinkingToggleHit { line_index: 7, reasoning_id: "m1:1".to_string() },
    ]);
    // row 4 shows line 5 + (4 - 2) = 7
    assert!(view.handle_click(3, 4));
    let actions = view.take_pending_actions();
    assert_eq!(actions.len(), 1);
    match &actions[0] {
        rocode::tui::session_view::SessionInteractionAction::ToggleReasoning(id) => {
            assert_eq!(id, "m1:0")
        }
        _ => panic!("expected a reasoning toggle"),
    }
    assert!(!view.handle_click(3, 5));
    assert!(!view.handle_click(3, 1));
    assert!(view.take_pending_actions().is_empty());
}

#[test]
fn sidebar_chrome_and_navigation_round_trip() {
    let mut view = SessionView::new("s".to_string());
    let mut chrome = SessionSidebarChromeState::new();
    chrome.last_terminal_width = 90;
    chrome.lifecycle.mode = SidebarMode::Show;
    view.update_sidebar_state(chrome);
    assert!(view.sidebar_visible(90));
    view.toggle_sidebar(90);
    // pinned open on a narrow terminal: toggling keeps it shown
    assert!(view.sidebar_visible(90));
    assert_eq!(view.take_pending_navigate_child(), None);
}

#[test]
fn scroll_to_message_prefers_its_indexed_first_line() {
    let mut view = SessionView::new("s".to_string());
    view.update_viewport_state(viewport(100, 20, 0));
    view.scroll_to_message(Some(12), Some(2));
    assert_eq!(last_offset(&mut view), Some(12));
    view.scroll_to_message(Some(95), None);
    assert_eq!(last_offset(&mut view), Some(80));
    view.scroll_to_message(None, Some(5));
    assert_eq!(last_offset(&mut view), Some(15));
    view.scroll_to_message(None, Some(usize::MAX));
    assert_eq!(last_offset(&mut view), Some(80));
    view.scroll_to_message(None, None);
    assert_eq!(last_offset(&mut view), None);
}
