use rocode::tui::text_editor::TextEditorState;

#[test]
fn with_text_puts_cursor_at_end_and_scrolls() {
    let e = TextEditorState::with_text("a\nb\nc\nd\ne\nf\ng".to_string());
    assert_eq!(e.cursor(), 13);
    assert_eq!(e.cursor_row_col(), (6, 1));
    assert_eq!(e.scroll(), 2);
}

#[test]
fn insert_then_backspace_restores_text() {
    let mut e = TextEditorState::with_text("héllo".to_string());
    e.move_left();
    e.move_left();
    e.insert_char('ß');
    assert_eq!(e.text(), "hélßlo");
    e.backspace();
    assert_eq!(e.text(), "héllo");
    assert_eq!(e.cursor(), 3);
}

#[test]
fn delete_and_edges() {
    let mut e = TextEditorState::new();
    e.backspace();
    e.delete();
    e.move_left();
    e.move_right();
    assert_eq!(e.text(), "");
    assert_eq!(e.cursor(), 0);
    e.insert_char('x');
    e.insert_newline();
    e.insert_char('y');
    assert_eq!(e.text(), "x\ny");
    e.move_home();
    assert_eq!(e.cursor(), 2);
    e.delete();
    assert_eq!(e.text(), "x\n");
    e.move_left();
    e.move_home();
    assert_eq!(e.cursor(), 0);
    e.move_end();
    assert_eq!(e.cursor(), 1);
    assert_eq!(e.cursor_row_col(), (0, 1));
}

#[test]
fn scroll_up_and_down_saturate() {
    let mut e = TextEditorState::new();
    e.scroll_up();
    assert_eq!(e.scroll(), 0);
    e.scroll_down();
    e.scroll_down();
    assert_eq!(e.scroll(), 2);
    e.scroll_up();
    assert_eq!(e.scroll(), 1);
}
