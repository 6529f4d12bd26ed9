use rocode::tui::session_context::MetaValue;
use std::collections::HashMap;

use rocode::tui::session_tool::{
    display_summary, generic_result_body, inline_pending_status, is_block_tool,
    is_hidden_tool_call, result_title, should_show_inline_argument_preview, ToolBodyKind,
    ToolCallState, ToolResultInfo,
};
use rocode::tui::session_tool::{
    block_body, block_header_notes, tool_call_layout, ToolCallLayout, error_lines, inline_note, pending_block_status, BlockBody, inline_output_summary, HeaderNoteKind, write_summary_text, InlineNoteKind, WriteSummary,
};

fn info(output: &str, title: Option<&str>, meta: &[(&str, MetaValue)]) -> ToolResultInfo {
    let metadata = if meta.is_empty() {
        None
    } else {
        let mut m = HashMap::new();
        for (k, v) in meta {
            m.insert(k.to_string(), v.clone());
        }
        Some(m)
    };
    ToolResultInfo {
        output: output.to_string(),
        is_error: false,
        title: title.map(|t| t.to_string()),
        metadata,
    }
}

fn text(s: &str) -> MetaValue {
    MetaValue::Text(s.to_string())
}

#[test]
fn display_mode_metadata_overrides_the_tool_kind() {
    let block = info("one line", None, &[("display.mode", text("block"))]);
    assert!(is_block_tool("read", ToolCallState::Completed, Some(&block), false));
    let inline = info("a\nb\nc\nd\ne", None, &[("display.mode", text("inline"))]);
    assert!(!is_block_tool("bash", ToolCallState::Completed, Some(&inline), true));
    let not_text = info("a\nb\nc\nd\ne", None, &[("display.mode", MetaValue::Json("true".to_string()))]);
    assert!(is_block_tool("bash", ToolCallState::Completed, Some(&not_text), true));
}

#[test]
fn shell_tools_are_blocks_once_they_have_a_result() {
    let r = info("", None, &[]);
    assert!(is_block_tool("bash", ToolCallState::Completed, Some(&r), false));
    assert!(!is_block_tool("bash", ToolCallState::Running, None, true));
    assert!(is_block_tool("shell", ToolCallState::Running, Some(&r), false));
}

#[test]
fn detail_tools_are_blocks_only_when_completed_with_details() {
    let r = info("done", None, &[]);
    assert!(is_block_tool("task", ToolCallState::Completed, Some(&r), true));
    assert!(!is_block_tool("task", ToolCallState::Completed, Some(&r), false));
    assert!(!is_block_tool("batch", ToolCallState::Running, Some(&r), true));
    assert!(!is_block_tool("question", ToolCallState::Completed, None, true));
}

#[test]
fn skill_tools_are_never_blocks() {
    let r = info("1\n2\n3\n4\n5", None, &[]);
    assert!(!is_block_tool("skill_view", ToolCallState::Completed, Some(&r), true));
}

#[test]
fn write_with_a_diff_is_a_block() {
    let with_diff = info("ok", None, &[("diff", text("--- a\n+++ b"))]);
    assert!(is_block_tool("write", ToolCallState::Completed, Some(&with_diff), true));
    let empty_diff = info("ok", None, &[("diff", text(""))]);
    assert!(!is_block_tool("edit", ToolCallState::Completed, Some(&empty_diff), true));
}

#[test]
fn long_output_makes_a_block() {
    let four = info("a\nb\nc\nd", None, &[]);
    assert!(is_block_tool("grep", ToolCallState::Completed, Some(&four), true));
    let three = info("a\nb\nc\n", None, &[]);
    assert!(!is_block_tool("grep", ToolCallState::Completed, Some(&three), true));
    assert!(!is_block_tool("grep", ToolCallState::Completed, None, true));
}

#[test]
fn argument_preview_visibility_by_state() {
    let r = info("x", None, &[]);
    assert!(!should_show_inline_argument_preview("batch", ToolCallState::Pending, None));
    assert!(should_show_inline_argument_preview("batch", ToolCallState::Completed, Some(&r)));
    assert!(!should_show_inline_argument_preview("question", ToolCallState::Completed, Some(&r)));
    assert!(should_show_inline_argument_preview("question", ToolCallState::Completed, None));
    assert!(should_show_inline_argument_preview("question", ToolCallState::Failed, Some(&r)));
    assert!(should_show_inline_argument_preview("bash", ToolCallState::Running, None));
}

#[test]
fn completed_calls_hide_without_details() {
    assert!(is_hidden_tool_call("read", ToolCallState::Completed, false));
    assert!(!is_hidden_tool_call("read", ToolCallState::Completed, true));
    assert!(!is_hidden_tool_call("task", ToolCallState::Completed, false));
    assert!(!is_hidden_tool_call("read", ToolCallState::Running, false));
}

#[test]
fn result_title_is_trimmed_and_never_blank() {
    let r = info("", Some("  Loaded skill: planner  "), &[]);
    assert_eq!(result_title(&r).as_deref(), Some("Loaded skill: planner"));
    let blank = info("", Some("   "), &[]);
    assert_eq!(result_title(&blank), None);
    let none = info("", None, &[]);
    assert_eq!(result_title(&none), None);
}

#[test]
fn display_summary_skips_blank_and_non_text_values() {
    let r = info("", None, &[("display.summary", text(" 3 files "))]);
    assert_eq!(display_summary(&r), Some(" 3 files "));
    let blank = info("", None, &[("display.summary", text("  "))]);
    assert_eq!(display_summary(&blank), None);
    let number = info("", None, &[("display.summary", MetaValue::Json("false".to_string()))]);
    assert_eq!(display_summary(&number), None);
}

#[test]
fn pending_status_words() {
    assert_eq!(
        inline_pending_status("question", Some("1 question")).as_deref(),
        Some("Asking 1 question…")
    );
    assert_eq!(
        inline_pending_status("question", Some("2 questions")).as_deref(),
        Some("Asking 2 questions…")
    );
    assert_eq!(
        inline_pending_status("todo_write", Some("3 todos")).as_deref(),
        Some("Updating 3 todos…")
    );
    assert_eq!(inline_pending_status("task", None).as_deref(), Some("Delegating…"));
    assert_eq!(
        inline_pending_status("applypatch", None).as_deref(),
        Some("Preparing patch…")
    );
    assert_eq!(
        inline_pending_status("batch", Some("2 tools: read, grep")).as_deref(),
        Some("Running 2 tools: read, grep…")
    );
    assert_eq!(inline_pending_status("batch", None), None);
    assert_eq!(inline_pending_status("read", Some("a.rs")), None);
}

fn body(normalized: &str, r: &ToolResultInfo) -> Vec<(ToolBodyKind, String)> {
    generic_result_body(normalized, r)
        .into_iter()
        .map(|l| (l.kind, l.text))
        .collect()
}

#[test]
fn block_body_shows_title_and_line_count() {
    let r = info(
        "first output line\nsecond output line\nthird output line\nfourth output line",
        Some("Repository Status"),
        &[],
    );
    let b = body("repo_status", &r);
    assert_eq!(b.len(), 6);
    assert_eq!(b[0], (ToolBodyKind::Title, "Repository Status".to_string()));
    assert_eq!(b[1], (ToolBodyKind::Count, "(4 lines of output)".to_string()));
    assert_eq!(b[2], (ToolBodyKind::Entry, "first output line".to_string()));
    assert_eq!(b[5], (ToolBodyKind::Entry, "fourth output line".to_string()));
}

#[test]
fn listing_body_names_the_directory_and_cuts_long_lists() {
    let mut out = String::from("  /src/  ");
    for i in 0..45 {
        out.push_str(&format!("\nfile{}.rs", i));
    }
    let r = info(&out, None, &[]);
    let b = body("ls", &r);
    assert_eq!(b[0], (ToolBodyKind::Directory, "[Directory]: /src/".to_string()));
    assert_eq!(b[1], (ToolBodyKind::Count, "(45 files)".to_string()));
    assert_eq!(b[2], (ToolBodyKind::Entry, "file0.rs".to_string()));
    assert_eq!(b.len(), 2 + 40 + 1);
    assert_eq!(b[42], (ToolBodyKind::More, "… (5 more lines)".to_string()));
}

#[test]
fn shell_body_keeps_all_when_few_would_be_cut() {
    let twelve: Vec<String> = (0..12).map(|i| format!("l{}", i)).collect();
    let r = info(&twelve.join("\n"), None, &[]);
    let b = body("bash", &r);
    assert_eq!(b.len(), 1 + 12);
    let thirteen: Vec<String> = (0..13).map(|i| format!("l{}", i)).collect();
    let r = info(&thirteen.join("\r\n"), None, &[]);
    let b = body("bash", &r);
    assert_eq!(b.len(), 1 + 10 + 1);
    assert_eq!(b[1], (ToolBodyKind::Entry, "l0".to_string()));
    assert_eq!(b[11], (ToolBodyKind::More, "… (3 more lines)".to_string()));
}

fn ws(verb: Option<&str>, path: Option<&str>, size: Option<usize>, lines: Option<usize>) -> WriteSummary {
    WriteSummary {
        verb: verb.map(|v| v.to_string()),
        path: path.map(|p| p.to_string()),
        size_bytes: size,
        total_lines: lines,
    }
}

#[test]
fn write_summary_lists_size_and_lines() {
    assert_eq!(
        write_summary_text(&ws(Some("created"), Some("/a.rs"), Some(2048), Some(12))),
        "created · 2.0 KB · 12 lines"
    );
    assert_eq!(write_summary_text(&ws(None, None, Some(10), None)), "updated · 10 B");
    assert_eq!(write_summary_text(&ws(None, None, None, Some(3))), "updated · 3 lines");
    assert_eq!(write_summary_text(&ws(Some("wrote"), Some("/b.txt"), None, None)), "wrote /b.txt");
    assert_eq!(write_summary_text(&ws(None, None, None, None)), "updated");
}

#[test]
fn inline_output_summary_of_one_line() {
    let s = inline_output_summary("  all good  \n").unwrap();
    assert_eq!(s.text, "all good");
    assert_eq!(s.more, None);
    assert!(inline_output_summary("   ").is_none());
    assert!(inline_output_summary(&"x".repeat(81)).is_none());
    assert!(inline_output_summary(&"é".repeat(41)).is_none());
    assert_eq!(inline_output_summary(&"é".repeat(40)).unwrap().text, "é".repeat(40));
}

#[test]
fn inline_output_summary_of_many_lines() {
    let s = inline_output_summary("\n  \nfirst real line\nsecond").unwrap();
    assert_eq!(s.text, "first real line");
    assert_eq!(s.more, Some(3));
    assert!(inline_output_summary("\n \n").is_none());
}

fn note_of(
    n: &str,
    state: ToolCallState,
    r: Option<&ToolResultInfo>,
    items: Option<&str>,
    write: Option<&WriteSummary>,
    preview: Option<&str>,
) -> Option<(InlineNoteKind, String, Option<usize>)> {
    inline_note(n, state, r, items, write, preview).map(|x| (x.kind, x.text, x.more))
}

#[test]
fn inline_note_of_a_failed_call_is_its_first_line() {
    let mut r = info("  boom  \nmore detail", Some("Title"), &[]);
    r.is_error = true;
    assert_eq!(
        note_of("bash", ToolCallState::Failed, Some(&r), None, None, None),
        Some((InlineNoteKind::Error, "boom".to_string(), None))
    );
}

#[test]
fn inline_note_prefers_summary_then_title() {
    let both = info("a\nb", Some("Loaded skill: planner"), &[("display.summary", text("2 hits"))]);
    assert_eq!(
        note_of("grep", ToolCallState::Completed, Some(&both), None, None, None),
        Some((InlineNoteKind::Summary, "2 hits".to_string(), None))
    );
    let title = info("raw body line 1\nraw body line 2", Some("Loaded skill: planner"), &[]);
    assert_eq!(
        note_of("skill_view", ToolCallState::Completed, Some(&title), None, None, None),
        Some((InlineNoteKind::Title, "Loaded skill: planner".to_string(), None))
    );
}

#[test]
fn inline_note_of_batches_patches_and_writes() {
    let r = info("ok", None, &[]);
    assert_eq!(note_of("batch", ToolCallState::Completed, Some(&r), Some(""), None, None), None);
    assert_eq!(
        note_of("apply_patch", ToolCallState::Completed, Some(&r), Some("2 files"), None, None),
        Some((InlineNoteKind::Items, "2 files".to_string(), None))
    );
    let w = ws(Some("created"), None, None, Some(4));
    assert_eq!(
        note_of("write", ToolCallState::Completed, Some(&r), None, Some(&w), None),
        Some((InlineNoteKind::Write, "created · 4 lines".to_string(), None))
    );
    assert_eq!(note_of("write", ToolCallState::Completed, Some(&r), None, None, None), None);
}

#[test]
fn inline_note_of_plain_output_and_pending_calls() {
    let r = info("first\nsecond\nthird", None, &[]);
    assert_eq!(
        note_of("grep", ToolCallState::Completed, Some(&r), None, None, None),
        Some((InlineNoteKind::Output, "first".to_string(), Some(2)))
    );
    assert_eq!(
        note_of("apply_patch", ToolCallState::Pending, None, None, None, None),
        Some((InlineNoteKind::Pending, "Preparing patch…".to_string(), None))
    );
    assert_eq!(note_of("bash", ToolCallState::Running, None, None, None, Some("$ ls")), None);
    assert_eq!(note_of("task", ToolCallState::Completed, None, None, None, None), None);
}

fn header(
    n: &str,
    preview: Option<&str>,
    r: Option<&ToolResultInfo>,
    denied: bool,
) -> Vec<(HeaderNoteKind, String)> {
    block_header_notes(n, preview, r, denied)
        .into_iter()
        .map(|h| (h.kind, h.text))
        .collect()
}

#[test]
fn block_header_of_a_read_shows_the_file_summary() {
    let r = info("<path>/tmp/a.txt</path>\n<size>4096</size>\n<total-lines>256</total-lines>", None, &[]);
    assert_eq!(
        header("read", Some("/tmp/a.txt"), Some(&r), false),
        vec![
            (HeaderNoteKind::Preview, "/tmp/a.txt".to_string()),
            (HeaderNoteKind::ReadSummary, "4.0 KB, 256 lines".to_string()),
        ]
    );
}

#[test]
fn block_header_falls_back_to_the_title_and_marks_denials() {
    let r = info("a\nb\nc\nd", Some("Repository Status"), &[]);
    assert_eq!(
        header("repo_status", None, Some(&r), true),
        vec![(HeaderNoteKind::Title, "Repository Status".to_string())]
    );
    let mut failed = info("<size>10</size>", None, &[]);
    failed.is_error = true;
    assert_eq!(
        header("read", None, Some(&failed), true),
        vec![(HeaderNoteKind::Denied, "denied".to_string())]
    );
    assert!(header("bash", None, None, true).is_empty());
}

#[test]
fn error_block_shows_the_first_non_blank_lines() {
    let out = "\nfirst\n  \nsecond\nthird\nfourth\nfifth\nsixth";
    assert_eq!(error_lines(out, false), vec!["first", "second", "third"]);
    assert_eq!(
        error_lines(out, true),
        vec!["first", "second", "third", "fourth", "fifth"]
    );
    assert_eq!(error_lines("only\n", true), vec!["only"]);
    assert!(error_lines(" \n\n", true).is_empty());
}

#[test]
fn block_body_by_tool_and_state() {
    let ok = info("x", None, &[]);
    let mut failed = info("x", None, &[]);
    failed.is_error = true;
    let done = ToolCallState::Completed;
    assert_eq!(block_body("task", done, Some(&failed), true, true), BlockBody::ErrorLines);
    assert_eq!(block_body("grep", done, Some(&ok), true, true), BlockBody::DisplayHints);
    assert_eq!(block_body("task", done, Some(&ok), true, true), BlockBody::TaskResult);
    assert_eq!(block_body("todo_write", done, Some(&ok), false, false), BlockBody::TodoWriteResult);
    assert_eq!(block_body("write_file", done, Some(&ok), true, false), BlockBody::WriteResult);
    assert_eq!(block_body("edit", done, Some(&ok), true, false), BlockBody::EditResult);
    assert_eq!(block_body("applypatch", done, Some(&ok), true, false), BlockBody::PatchResult);
    assert_eq!(block_body("read", done, Some(&ok), true, false), BlockBody::Empty);
    assert_eq!(block_body("batch", done, Some(&ok), true, false), BlockBody::BatchResult);
    assert_eq!(block_body("question", done, Some(&ok), true, false), BlockBody::QuestionResult);
    assert_eq!(block_body("grep", done, Some(&ok), true, false), BlockBody::Generic);
    assert_eq!(block_body("grep", done, Some(&ok), false, false), BlockBody::Empty);
    assert_eq!(block_body("task", ToolCallState::Running, None, true, false), BlockBody::TaskRunning);
    assert_eq!(block_body("bash", ToolCallState::Pending, None, true, false), BlockBody::Pending);
    assert_eq!(block_body("bash", ToolCallState::Failed, None, true, false), BlockBody::Empty);
}

#[test]
fn pending_block_status_lines() {
    assert_eq!(
        pending_block_status("bash", Some("$ cargo test")),
        Some(("Executing command…".to_string(), Some("$ cargo test".to_string())))
    );
    assert_eq!(
        pending_block_status("shell", Some("   ")),
        Some(("Executing command…".to_string(), None))
    );
    assert_eq!(
        pending_block_status("apply_patch", Some("a.rs")),
        Some(("Preparing patch…".to_string(), None))
    );
    assert_eq!(
        pending_block_status("todowrite", Some("3 todos")),
        Some(("Updating todo list…".to_string(), Some("3 todos".to_string())))
    );
    assert_eq!(pending_block_status("grep", Some("x")), None);
}

#[test]
fn layout_of_tool_calls() {
    let long = info("a\nb\nc\nd", None, &[]);
    let short = info("a", None, &[]);
    assert_eq!(tool_call_layout("grep", ToolCallState::Completed, Some(&long), false), ToolCallLayout::Hidden);
    assert_eq!(tool_call_layout("grep", ToolCallState::Completed, Some(&long), true), ToolCallLayout::Block);
    assert_eq!(tool_call_layout("grep", ToolCallState::Completed, Some(&short), true), ToolCallLayout::Inline);
    assert_eq!(tool_call_layout("bash", ToolCallState::Running, None, true), ToolCallLayout::Inline);
    assert_eq!(tool_call_layout("apply_patch", ToolCallState::Pending, None, true), ToolCallLayout::Inline);
    assert_eq!(tool_call_layout("task", ToolCallState::Completed, Some(&short), false), ToolCallLayout::Inline);
}
