use rocode::tui::session_layout::{
    overlay_sidebar_area, plan_main_layout, plan_render_layout, sidebar_close_button_area,
    sidebar_open_button_area, SessionSidebarLayout,
};
use rocode::tui::session_view::{
    Rect, SessionMessageViewportState, SessionSidebarChromeState, SessionView, SidebarMode,
};

fn rect(x: u16, y: u16, width: u16, height: u16) -> Rect {
    Rect { x, y, width, height }
}

#[test]
fn wide_terminal_docks_the_sidebar() {
    let mut chrome = SessionSidebarChromeState::new();
    chrome.open_button_area = Some(rect(1, 1, 3, 1));
    let layout = plan_render_layout(&mut chrome, rect(0, 0, 140, 30));
    assert_eq!(chrome.last_terminal_width, 140);
    assert_eq!(layout.main_area, rect(0, 0, 98, 30));
    assert_eq!(
        layout.sidebar,
        SessionSidebarLayout::Docked { sidebar_area: rect(98, 0, 42, 30) }
    );
    assert!(chrome.open_button_area.is_none());
}

#[test]
fn narrow_terminal_hides_the_sidebar_unless_shown() {
    let mut chrome = SessionSidebarChromeState::new();
    chrome.close_button_area = Some(rect(1, 1, 3, 1));
    let layout = plan_render_layout(&mut chrome, rect(0, 0, 100, 30));
    assert_eq!(layout.main_area, rect(0, 0, 100, 30));
    assert_eq!(layout.sidebar, SessionSidebarLayout::Hidden);
    assert!(chrome.close_button_area.is_none());

    chrome.lifecycle.mode = SidebarMode::Show;
    let layout = plan_render_layout(&mut chrome, rect(0, 0, 100, 30));
    assert_eq!(layout.sidebar, SessionSidebarLayout::Overlay);
}

#[test]
fn sidebar_geometry() {
    assert_eq!(overlay_sidebar_area(rect(0, 0, 100, 30)), rect(58, 0, 42, 30));
    assert_eq!(overlay_sidebar_area(rect(5, 2, 30, 10)), rect(5, 2, 30, 10));
    assert_eq!(sidebar_close_button_area(rect(58, 0, 42, 30)), rect(97, 0, 3, 1));
    assert_eq!(sidebar_open_button_area(rect(0, 0, 100, 30)), Some(rect(97, 1, 3, 1)));
    assert_eq!(sidebar_open_button_area(rect(0, 4, 2, 1)), Some(rect(0, 4, 2, 1)));
    assert_eq!(sidebar_open_button_area(rect(0, 0, 0, 5)), None);
}

#[test]
fn main_pane_shows_the_prompt_at_the_end_of_the_messages() {
    let viewport = SessionMessageViewportState::new();
    let layout = plan_main_layout(&viewport, true, rect(0, 0, 100, 30), 3, "").expect("layout");
    assert!(layout.show_header);
    assert!(layout.show_prompt);
    assert_eq!(layout.header_area, rect(0, 0, 100, 1));
    assert_eq!(layout.messages_area, rect(0, 1, 100, 1));
    assert_eq!(layout.footer_area, rect(0, 2, 100, 1));
    assert_eq!(layout.prompt_area, rect(0, 3, 100, 3));
}

#[test]
fn main_pane_hides_a_blank_prompt_away_from_the_end() {
    let mut viewport = SessionMessageViewportState::new();
    viewport.rendered_line_count = 100;
    viewport.messages_viewport_height = 20;
    let layout = plan_main_layout(&viewport, false, rect(0, 0, 60, 30), 3, "  \n").expect("layout");
    assert!(!layout.show_prompt);
    assert_eq!(layout.header_area.height, 0);
    assert_eq!(layout.prompt_area.height, 0);
    assert_eq!(layout.footer_area, rect(0, 29, 60, 1));
    assert_eq!(layout.messages_area, rect(0, 0, 60, 29));

    let layout = plan_main_layout(&viewport, false, rect(0, 0, 60, 30), 3, "draft").expect("layout");
    assert!(layout.show_prompt);
    assert_eq!(layout.messages_area, rect(0, 0, 60, 26));
    assert_eq!(layout.prompt_area, rect(0, 27, 60, 3));
}

#[test]
fn main_pane_needs_room() {
    let viewport = SessionMessageViewportState::new();
    assert!(plan_main_layout(&viewport, true, rect(0, 0, 0, 30), 3, "").is_none());
    assert!(plan_main_layout(&viewport, true, rect(0, 0, 40, 0), 3, "").is_none());
    let narrow = plan_main_layout(&viewport, true, rect(0, 0, 40, 30), 3, "").expect("layout");
    assert_eq!(narrow.header_area.height, 2);
}

#[test]
fn overlay_sidebar_backdrop_click_closes_sidebar() {
    let mut view = SessionView::new("session-1".to_string());
    view.toggle_sidebar(100);
    let area = rect(0, 0, 100, 30);
    let (layout, _) = view.layout_frame(area, true, 3, "");
    assert_eq!(layout.sidebar, SessionSidebarLayout::Overlay);

    assert!(view.sidebar_visible(area.width));
    assert!(view.handle_sidebar_chrome_click(1, 1, false));
    assert!(!view.sidebar_visible(area.width));
}

#[test]
fn docked_sidebar_close_button_click_closes_sidebar() {
    let mut view = SessionView::new("session-1".to_string());
    let area = rect(0, 0, 140, 30);
    let (layout, _) = view.layout_frame(area, true, 3, "");
    assert_eq!(layout.sidebar, SessionSidebarLayout::Docked { sidebar_area: rect(98, 0, 42, 30) });
    // the close button sits at the docked sidebar's top right
    assert!(view.sidebar_visible(area.width));
    assert!(view.handle_sidebar_chrome_click(137, 0, true));
    assert!(!view.sidebar_visible(area.width));
}

#[test]
fn overlay_close_button_closes_sidebar() {
    let mut view = SessionView::new("session-1".to_string());
    view.toggle_sidebar(100);
    let area = rect(0, 0, 100, 30);
    view.layout_frame(area, true, 3, "");
    assert!(!view.handle_sidebar_chrome_click(70, 5, true));
    assert!(view.sidebar_visible(area.width));
    assert!(view.handle_sidebar_chrome_click(98, 0, true));
    assert!(!view.sidebar_visible(area.width));
    let (layout, _) = view.layout_frame(area, true, 3, "");
    assert_eq!(layout.sidebar, SessionSidebarLayout::Hidden);
    assert!(view.handle_sidebar_chrome_click(98, 1, false));
    assert!(view.sidebar_visible(area.width));
}

#[test]
fn session_messages_area_uses_full_main_width_without_outer_inset() {
    let mut view = SessionView::new("session-1".to_string());
    let area = rect(0, 0, 100, 30);
    let (_, main) = view.layout_frame(area, true, 3, "");
    let messages_area = main.expect("main pane").messages_area;
    assert_eq!(messages_area.x, area.x);
}

#[test]
fn session_messages_start_below_single_row_header_in_wide_layout() {
    let mut view = SessionView::new("session-1".to_string());
    let area = rect(0, 0, 140, 30);
    let (_, main) = view.layout_frame(area, true, 3, "");
    let messages_area = main.expect("main pane").messages_area;
    assert_eq!(messages_area.y, area.y.saturating_add(1));
}
