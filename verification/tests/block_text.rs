use rocode::tui::block_text::{
    is_gutter_span, paint_block_line, paint_block_lines, push_merged_span, tint_sidebar_overlay,
    wrap_block_line, wrap_spans, Color, Span, Style,
};

fn span(s: &str, style: Style) -> Span {
    Span { content: s.to_string(), style }
}

fn texts(line: &[Span]) -> Vec<String> {
    line.iter().map(|s| s.content.clone()).collect()
}

#[test]
fn tint_blends_rgb_only() {
    assert_eq!(
        tint_sidebar_overlay(Color::Rgb(100, 0, 255), Color::Rgb(0, 255, 0)),
        Color::Rgb(80, 51, 204)
    );
    assert_eq!(tint_sidebar_overlay(Color::Indexed(3), Color::Rgb(1, 2, 3)), Color::Indexed(3));
}

#[test]
fn gutter_spans() {
    assert!(is_gutter_span("│ "));
    assert!(is_gutter_span(" ┃"));
    assert!(!is_gutter_span("   "));
    assert!(!is_gutter_span(""));
    assert!(!is_gutter_span("│x"));
}

#[test]
fn merged_spans_share_style() {
    let a = Style::new();
    let b = Style::new().fg(Color::Named(1));
    let mut line = Vec::new();
    push_merged_span(&mut line, 'x', a);
    push_merged_span(&mut line, 'y', a);
    push_merged_span(&mut line, 'z', b);
    assert_eq!(texts(&line), vec!["xy".to_string(), "z".to_string()]);
}

#[test]
fn wrap_spans_breaks_rows() {
    let a = Style::new();
    let b = Style::new().bg(Color::Named(2));
    let rows = wrap_spans(vec![span("abc", a), span("de\nf", b)], 2);
    let rows: Vec<Vec<String>> = rows.iter().map(|r| texts(r)).collect();
    assert_eq!(
        rows,
        vec![
            vec!["ab".to_string()],
            vec!["c".to_string(), "d".to_string()],
            vec!["e".to_string()],
            vec!["f".to_string()],
        ]
    );
    // a wide char that does not fit still goes on an empty row
    let wide = wrap_spans(vec![span("界界", a)], 1);
    assert_eq!(wide.len(), 2);
    let zero = wrap_spans(vec![span("abc", a)], 0);
    assert_eq!(zero.len(), 1);
    assert_eq!(texts(&zero[0]), vec!["abc".to_string()]);
}

#[test]
fn block_line_keeps_gutter_on_each_row() {
    let a = Style::new();
    let rows = wrap_block_line(vec![span("│ ", a), span("abcdef", a)], 6);
    let rows: Vec<Vec<String>> = rows.iter().map(|r| texts(r)).collect();
    assert_eq!(
        rows,
        vec![
            vec!["│ ".to_string(), "abc".to_string()],
            vec!["│ ".to_string(), "def".to_string()],
        ]
    );
    let narrow = wrap_block_line(vec![span("│ ", a), span("abc", a)], 3);
    assert_eq!(narrow.len(), 1);
    assert_eq!(texts(&narrow[0]), vec!["│ ".to_string()]);
}

#[test]
fn painting_fills_the_background() {
    let a = Style::new();
    let line = paint_block_line(vec![span("│", a), span("hi", a)], Color::Named(0), Color::Named(4), 6);
    assert_eq!(texts(&line), vec!["│".to_string(), "hi".to_string(), "   ".to_string()]);
    assert_eq!(line[0].style.fg, Some(Color::Named(4)));
    assert_eq!(line[1].style.fg, None);
    assert_eq!(line[2].style.bg, Some(Color::Named(0)));
    let block = paint_block_lines(vec![vec![span("│ ", a), span("hello", a)]], Color::Named(0), Color::Named(4), 5);
    assert_eq!(block.len(), 5);
    assert_eq!(texts(&block[0]), vec!["│ ".to_string(), "   ".to_string()]);
    assert_eq!(texts(&block[1]), vec!["│ ".to_string(), "he".to_string(), " ".to_string()]);
    assert_eq!(texts(&block[4]), texts(&block[0]));
    assert!(paint_block_lines(Vec::new(), Color::Reset, Color::Reset, 4).is_empty());
    let plain = paint_block_lines(vec![vec![span("x", a)]], Color::Reset, Color::Reset, 2);
    assert_eq!(texts(&plain[0]), vec!["  ".to_string()]);
}
