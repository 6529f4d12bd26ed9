use rocode::tui::app_state::{MessageDensity, PaletteToggle, VisibilityLabels};
use rocode::tui::command_palette::{
    rank_matches, Command, CommandPalette, PaletteAction, SlashCommandPopup,
};

fn cmd(action: PaletteAction, title: &str, category: &str) -> Command {
    Command {
        action_id: action,
        title: title.to_string(),
        keybind: None,
        category: category.to_string(),
    }
}

fn palette() -> CommandPalette {
    CommandPalette::new(vec![
        cmd(PaletteAction::Other(1), "New session", "Session"),
        cmd(PaletteAction::Toggle(PaletteToggle::ToggleHeader), "Hide header", "View"),
        cmd(PaletteAction::Toggle(PaletteToggle::ToggleDensity), "Switch to cozy density", "View"),
        cmd(PaletteAction::Other(7), "Quit", "App"),
    ])
}

fn labels() -> VisibilityLabels {
    VisibilityLabels {
        show_thinking: true,
        show_tool_details: true,
        density: MessageDensity::Cozy,
        semantic_highlight: false,
        show_header: false,
        show_scrollbar: true,
        tips_hidden: false,
    }
}

#[test]
fn ranking_orders_by_score_then_position() {
    let scores = vec![Some(3), None, Some(9), Some(3), Some(-1)];
    assert_eq!(rank_matches(&scores), vec![2, 0, 3, 4]);
    assert_eq!(rank_matches(&vec![None, None]), Vec::<usize>::new());
}

#[test]
fn palette_opens_with_everything_and_the_first_selected() {
    let mut p = palette();
    assert!(!p.is_open());
    p.open();
    assert!(p.is_open());
    assert_eq!(p.filtered, vec![0, 1, 2, 3]);
    assert_eq!(p.selected_action(), Some(PaletteAction::Other(1)));
    p.close();
    assert!(!p.is_open());
}

#[test]
fn typing_filters_and_ranks_the_matches() {
    let mut p = palette();
    p.open();
    p.handle_input('q', &vec![None, None, None, Some(5)]);
    assert_eq!(p.query, "q");
    assert_eq!(p.filtered, vec![3]);
    assert_eq!(p.selected_action(), Some(PaletteAction::Other(7)));
    p.handle_input('z', &vec![None, None, None, None]);
    assert!(p.filtered.is_empty());
    assert_eq!(p.selected, None);
    assert!(p.selected_command().is_none());
    p.handle_backspace(&vec![None, None, None, Some(5)]);
    p.handle_backspace(&vec![None, None, None, None]);
    assert_eq!(p.query, "");
    assert_eq!(p.filtered, vec![0, 1, 2, 3]);
}

#[test]
fn palette_selection_stays_in_bounds() {
    let mut p = palette();
    p.open();
    p.move_up();
    assert_eq!(p.selected, Some(0));
    for _ in 0..10 {
        p.move_down();
    }
    assert_eq!(p.selected, Some(3));
    assert_eq!(p.selected_command().map(|c| c.title.as_str()), Some("Quit"));
}

#[test]
fn toggle_titles_follow_the_preferences() {
    let mut p = palette();
    p.open();
    p.sync_visibility_labels(labels(), &vec![None; 4]);
    assert_eq!(p.commands[0].title, "New session");
    assert_eq!(p.commands[1].title, "Show header");
    assert_eq!(p.commands[2].title, "Switch to compact density");
    assert_eq!(p.commands[3].title, "Quit");
    assert_eq!(p.filtered, vec![0, 1, 2, 3]);
}

fn popup() -> SlashCommandPopup {
    SlashCommandPopup::new(
        vec![PaletteAction::Other(1), PaletteAction::Other(2)],
        vec![PaletteAction::Other(1), PaletteAction::Other(2), PaletteAction::Other(3)],
    )
}

#[test]
fn slash_popup_suggests_then_filters() {
    let mut s = popup();
    s.open();
    assert!(s.is_open());
    assert_eq!(s.filtered, vec![PaletteAction::Other(1), PaletteAction::Other(2)]);
    s.handle_input('m', &vec![Some(1), None, Some(4)]);
    assert_eq!(s.query(), "m");
    assert_eq!(s.filtered, vec![PaletteAction::Other(3), PaletteAction::Other(1)]);
    assert!(s.handle_backspace(&vec![None, None, None]));
    assert_eq!(s.filtered, vec![PaletteAction::Other(1), PaletteAction::Other(2)]);
    assert!(!s.handle_backspace(&vec![None, None, None]));
}

#[test]
fn slash_popup_selects_and_hands_out_once() {
    let mut s = popup();
    s.open();
    s.move_down();
    s.move_down();
    assert_eq!(s.selected, Some(1));
    s.move_up();
    s.move_up();
    assert_eq!(s.selected, Some(0));
    s.move_down();
    s.select_current();
    assert!(!s.is_open());
    assert_eq!(s.query(), "");
    assert_eq!(s.take_action(), Some(PaletteAction::Other(2)));
    assert_eq!(s.take_action(), None);
}
