use rocode::tui::app_state::{
    normalize_theme_name, split_theme_variant, theme_mode_from_env, visibility_title,
    DialogLifecycleState, DialogSlot, MessageDensity, PaletteToggle, UiPreferencesState, UiToggle,
    VisibilityLabels,
};

#[test]
fn message_density_names() {
    assert_eq!(MessageDensity::from_str_lossy("CoZy"), MessageDensity::Cozy);
    assert_eq!(MessageDensity::from_str_lossy("cozy "), MessageDensity::Compact);
    assert_eq!(MessageDensity::from_str_lossy("compact"), MessageDensity::Compact);
    assert_eq!(MessageDensity::Cozy.as_str(), "cozy");
    assert_eq!(MessageDensity::from_str_lossy(MessageDensity::Cozy.as_str()), MessageDensity::Cozy);
    assert_eq!(MessageDensity::Compact.toggled(), MessageDensity::Cozy);
}

#[test]
fn preference_toggles_flip_one_switch() {
    let mut p = UiPreferencesState::new();
    assert!(p.show_header && !p.show_scrollbar && p.show_thinking);
    assert!(!p.toggle(UiToggle::Header));
    assert!(!p.show_header);
    assert!(p.toggle(UiToggle::MessageDensity));
    assert_eq!(p.message_density, MessageDensity::Cozy);
    assert!(!p.toggle(UiToggle::MessageDensity));
    assert!(p.toggle(UiToggle::Header));
    assert_eq!(p, UiPreferencesState::new());
}

#[test]
fn dialogs_open_once_and_close_by_priority() {
    let mut d = DialogLifecycleState::new();
    assert!(!d.has_open_dialogs());
    d.sync_dialog_open(DialogSlot::Provider, true);
    d.sync_dialog_open(DialogSlot::Help, true);
    d.sync_dialog_open(DialogSlot::Provider, true);
    assert!(d.is_dialog_open(DialogSlot::Provider));
    assert_eq!(d.top_close_dialog(), Some(DialogSlot::Help));
    assert_eq!(d.top_scroll_dialog(), Some(DialogSlot::Provider));
    d.close_dialog(DialogSlot::Help);
    assert_eq!(d.top_close_dialog(), Some(DialogSlot::Provider));
    d.sync_dialog_open(DialogSlot::Provider, false);
    assert!(!d.is_dialog_open(DialogSlot::Provider));
    assert!(!d.has_open_dialogs());
    assert_eq!(d.top_close_dialog(), None);
    d.sync_dialog_open(DialogSlot::Tag, true);
    assert_eq!(d.top_scroll_dialog(), None);
}

#[test]
fn theme_names() {
    assert_eq!(
        split_theme_variant("nord@light"),
        Some(("nord".to_string(), "light".to_string()))
    );
    assert_eq!(split_theme_variant("a:b@dark"), Some(("a:b".to_string(), "dark".to_string())));
    assert_eq!(split_theme_variant("nord@dim"), None);
    assert_eq!(split_theme_variant("nord:dark"), Some(("nord".to_string(), "dark".to_string())));
    assert_eq!(split_theme_variant("@dark"), None);
    assert_eq!(normalize_theme_name("  ", "light"), "opencode@light");
    assert_eq!(normalize_theme_name("DARK", "light"), "opencode@dark");
    assert_eq!(normalize_theme_name("Light", "dark"), "opencode@light");
    assert_eq!(normalize_theme_name(" nord ", "dark"), "nord@dark");
    assert_eq!(normalize_theme_name("nord:light", "dark"), "nord@light");
}

#[test]
fn terminal_theme_mode() {
    assert_eq!(theme_mode_from_env(Some("LIGHT".to_string()), None), "light");
    assert_eq!(theme_mode_from_env(Some("Dark".to_string()), Some("0;15".to_string())), "dark");
    assert_eq!(theme_mode_from_env(Some("other".to_string()), Some("15;0".to_string())), "dark");
    assert_eq!(theme_mode_from_env(None, Some("0;15".to_string())), "light");
    assert_eq!(theme_mode_from_env(None, Some("0;6".to_string())), "dark");
    assert_eq!(theme_mode_from_env(None, Some("0;300".to_string())), "dark");
    assert_eq!(theme_mode_from_env(None, Some("x".to_string())), "dark");
    assert_eq!(theme_mode_from_env(None, None), "dark");
}

#[test]
fn palette_toggle_titles() {
    let labels = VisibilityLabels {
        show_thinking: true,
        show_tool_details: false,
        density: MessageDensity::Compact,
        semantic_highlight: true,
        show_header: false,
        show_scrollbar: true,
        tips_hidden: true,
    };
    assert_eq!(visibility_title(PaletteToggle::ToggleThinking, &labels), "Hide thinking");
    assert_eq!(visibility_title(PaletteToggle::ToggleToolDetails, &labels), "Show tool details");
    assert_eq!(visibility_title(PaletteToggle::ToggleDensity, &labels), "Switch to cozy density");
    assert_eq!(visibility_title(PaletteToggle::ToggleSemanticHighlight, &labels), "Disable semantic highlight");
    assert_eq!(visibility_title(PaletteToggle::ToggleHeader, &labels), "Show header");
    assert_eq!(visibility_title(PaletteToggle::ToggleScrollbar, &labels), "Hide scrollbar");
    assert_eq!(visibility_title(PaletteToggle::ToggleTips, &labels), "Show tips");
}
