//! How the session view shows a tool call: hidden, as one inline line or
//! as a block; what the header, the note and the body of each say; and the
//! text helpers behind them (tool kinds by name, the summary of a `read`
//! result, byte sizes for people). The tool's normalized name, the preview
//! of its arguments and the summaries of structured results come from
//! their own formatters and are handed in.
use vstd::prelude::*;
use std::collections::HashMap;
use crate::jsonish::sanitize::{trim, trim_spec};
use crate::tui::session_context::{meta_as_str, meta_string, MetaValue};
use crate::tui::session_summary::metadata_get;
use crate::text::{
    blank, is_blank,
    chars_eq, chars_of, decimal, lemma_utf8_len_push, utf8_len, utf8_width, lines_of, lines_view, parse_usize, parse_usize_spec, push_all,
    slice_chars, split_lines, string_from_chars, u64_decimal,
};

verus! {

/// Does the name spell the literal?
fn name_is(name: &[char], lit: &str) -> (r: bool)
    ensures
        r == (name@ == lit@),
{
    let l = chars_of(lit);
    chars_eq(name, &l)
}

pub open spec fn is_read_tool_spec(n: Seq<char>) -> bool {
    n == "read"@ || n == "readfile"@ || n == "read_file"@
}

pub open spec fn is_list_tool_spec(n: Seq<char>) -> bool {
    n == "ls"@ || n == "list"@ || n == "listdir"@ || n == "list_dir"@ || n == "list_directory"@
}

pub open spec fn is_write_tool_spec(n: Seq<char>) -> bool {
    n == "write"@ || n == "writefile"@ || n == "write_file"@
}

pub open spec fn is_edit_tool_spec(n: Seq<char>) -> bool {
    n == "edit"@ || n == "editfile"@ || n == "edit_file"@
}

pub open spec fn is_patch_tool_spec(n: Seq<char>) -> bool {
    n == "apply_patch"@ || n == "applypatch"@
}

/// Tools whose result block has a layout of its own.
pub open spec fn prefers_specialized_block_body_spec(n: Seq<char>) -> bool {
    ||| n == "task"@
    ||| n == "todowrite"@
    ||| n == "todo_write"@
    ||| n == "batch"@
    ||| n == "question"@
    ||| is_write_tool_spec(n)
    ||| is_edit_tool_spec(n)
    ||| is_patch_tool_spec(n)
}

pub fn is_read_tool(normalized_name: &str) -> (r: bool)
    ensures
        r == is_read_tool_spec(normalized_name@),
{
    let n = chars_of(normalized_name);
    name_is(&n, "read") || name_is(&n, "readfile") || name_is(&n, "read_file")
}

pub fn is_list_tool(normalized_name: &str) -> (r: bool)
    ensures
        r == is_list_tool_spec(normalized_name@),
{
    let n = chars_of(normalized_name);
    name_is(&n, "ls") || name_is(&n, "list") || name_is(&n, "listdir") || name_is(&n, "list_dir")
        || name_is(&n, "list_directory")
}

pub fn is_write_tool(normalized_name: &str) -> (r: bool)
    ensures
        r == is_write_tool_spec(normalized_name@),
{
    let n = chars_of(normalized_name);
    name_is(&n, "write") || name_is(&n, "writefile") || name_is(&n, "write_file")
}

pub fn is_edit_tool(normalized_name: &str) -> (r: bool)
    ensures
        r == is_edit_tool_spec(normalized_name@),
{
    let n = chars_of(normalized_name);
    name_is(&n, "edit") || name_is(&n, "editfile") || name_is(&n, "edit_file")
}

pub fn is_patch_tool(normalized_name: &str) -> (r: bool)
    ensures
        r == is_patch_tool_spec(normalized_name@),
{
    let n = chars_of(normalized_name);
    name_is(&n, "apply_patch") || name_is(&n, "applypatch")
}

pub fn prefers_specialized_block_body(normalized_name: &str) -> (r: bool)
    ensures
        r == prefers_specialized_block_body_spec(normalized_name@),
{
    let n = chars_of(normalized_name);
    name_is(&n, "task") || name_is(&n, "todowrite") || name_is(&n, "todo_write")
        || name_is(&n, "batch") || name_is(&n, "question") || is_write_tool(normalized_name)
        || is_edit_tool(normalized_name) || is_patch_tool(normalized_name)
}

/// Is the (trimmed) line a directory header such as `/src/`?
pub open spec fn is_dir_header(line: Seq<char>) -> bool {
    let t = trim_spec(line);
    t.len() > 0 && t[0] == '/' && t.last() == '/'
}

/// Splits a listing into its directory header, when the first line is one
/// (given trimmed), and the entries.
pub fn split_list_output(lines: &Vec<String>) -> (r: (Option<String>, Vec<String>))
    ensures
        lines@.len() == 0 ==> r.0 is None && r.1@.len() == 0,
        lines@.len() > 0 && is_dir_header(lines@[0]@) ==> r.0 is Some && r.0->0@ == trim_spec(
            lines@[0]@,
        ) && r.1@ == lines@.skip(1),
        lines@.len() > 0 && !is_dir_header(lines@[0]@) ==> r.0 is None && r.1@ == lines@,
{
    if lines.len() == 0 {
        return (None, Vec::new());
    }
    let first = chars_of(lines[0].as_str());
    let t = trim(&first);
    if t.len() > 0 && t[0] == '/' && t[t.len() - 1] == '/' {
        let mut rest: Vec<String> = Vec::new();
        let mut i: usize = 1;
        while i < lines.len()
            invariant
                1 <= i <= lines@.len(),
                rest@ == lines@.subrange(1, i as int),
            decreases lines.len() - i,
        {
            rest.push(lines[i].clone());
            i = i + 1;
            assert(rest@ =~= lines@.subrange(1, i as int));
        }
        (Some(string_from_chars(&t)), rest)
    } else {
        (None, lines.clone())
    }
}

// ---------------------------------------------------------------------------
// Summary of a `read` result
// ---------------------------------------------------------------------------

/// What a `read` result says of the file in its tags.
#[derive(Clone, Copy, Debug, PartialEq, Eq, Structural)]
pub struct ReadSummary {
    pub size_bytes: Option<usize>,
    pub total_lines: Option<usize>,
}

pub open spec fn open_tag(tag: Seq<char>) -> Seq<char> {
    seq!['<'] + tag + seq!['>']
}

pub open spec fn close_tag(tag: Seq<char>) -> Seq<char> {
    seq!['<', '/'] + tag + seq!['>']
}

/// The text between `<tag>` and `</tag>` when the line is exactly that.
pub open spec fn tag_value_spec(line: Seq<char>, tag: Seq<char>) -> Option<Seq<char>> {
    let o = open_tag(tag);
    let c = close_tag(tag);
    if line.len() >= o.len() && line.take(o.len() as int) == o {
        let rest = line.skip(o.len() as int);
        if rest.len() >= c.len() && rest.skip(rest.len() - c.len()) == c {
            Some(rest.take(rest.len() - c.len()))
        } else {
            None
        }
    } else {
        None
    }
}

/// The number in a `<tag>n</tag>` line.
pub open spec fn tag_number(line: Seq<char>, tag: Seq<char>) -> Option<usize> {
    match tag_value_spec(line, tag) {
        Some(v) => parse_usize_spec(v),
        None => None,
    }
}

/// The number of the first line that carries one in `<tag>n</tag>`.
pub open spec fn first_tag_number(lines: Seq<Seq<char>>, tag: Seq<char>) -> Option<usize>
    decreases lines.len(),
{
    if lines.len() == 0 {
        None
    } else {
        match first_tag_number(lines.drop_last(), tag) {
            Some(v) => Some(v),
            None => tag_number(lines.last(), tag),
        }
    }
}

/// Once a prefix of the lines carries the number, later lines change nothing.
pub proof fn lemma_first_tag_number_prefix(lines: Seq<Seq<char>>, tag: Seq<char>, i: int)
    requires
        0 <= i <= lines.len(),
        first_tag_number(lines.take(i), tag) is Some,
    ensures
        first_tag_number(lines, tag) == first_tag_number(lines.take(i), tag),
    decreases lines.len() - i,
{
    if i < lines.len() {
        assert(lines.take(i + 1).drop_last() =~= lines.take(i));
        lemma_first_tag_number_prefix(lines, tag, i + 1);
    }
    assert(lines.take(lines.len() as int) =~= lines);
}

fn tag_chars(open: bool, tag: &[char]) -> (r: Vec<char>)
    ensures
        r@ == if open { open_tag(tag@) } else { close_tag(tag@) },
{
    let mut r: Vec<char> = Vec::new();
    r.push('<');
    if !open {
        r.push('/');
    }
    push_all(&mut r, tag);
    r.push('>');
    proof {
        if open {
            assert(r@ =~= open_tag(tag@));
        } else {
            assert(r@ =~= close_tag(tag@));
        }
    }
    r
}

fn tag_value(line: &[char], tag: &[char]) -> (r: Option<Vec<char>>)
    ensures
        match r {
            Some(v) => tag_value_spec(line@, tag@) == Some(v@),
            None => tag_value_spec(line@, tag@) is None,
        },
{
    let o = tag_chars(true, tag);
    let c = tag_chars(false, tag);
    if line.len() < o.len() || !chars_eq(&slice_chars(line, 0, o.len()), &o) {
        proof {
            if line@.len() >= o@.len() {
                assert(line@.subrange(0, o@.len() as int) =~= line@.take(o@.len() as int));
            }
        }
        return None;
    }
    assert(line@.subrange(0, o@.len() as int) =~= line@.take(o@.len() as int));
    let rest = slice_chars(line, o.len(), line.len());
    assert(rest@ =~= line@.skip(o@.len() as int));
    if rest.len() < c.len() {
        return None;
    }
    let cut = rest.len() - c.len();
    let tail = slice_chars(&rest, cut, rest.len());
    assert(tail@ =~= rest@.skip(cut as int));
    if !chars_eq(&tail, &c) {
        return None;
    }
    let v = slice_chars(&rest, 0, cut);
    assert(v@ =~= rest@.take(cut as int));
    Some(v)
}

/// The text between `<tag>` and `</tag>` when the line is exactly that.
pub fn extract_tag_value(line: &str, tag: &str) -> (r: Option<String>)
    ensures
        match r {
            Some(v) => tag_value_spec(line@, tag@) == Some(v@),
            None => tag_value_spec(line@, tag@) is None,
        },
{
    let l = chars_of(line);
    let t = chars_of(tag);
    match tag_value(&l, &t) {
        Some(v) => Some(string_from_chars(&v)),
        None => None,
    }
}

fn line_tag_number(line: &[char], tag: &[char]) -> (r: Option<usize>)
    ensures
        r == tag_number(line@, tag@),
{
    match tag_value(line, tag) {
        Some(v) => parse_usize(&v),
        None => None,
    }
}

/// Reads the file size and line count from the `<size>` and
/// `<total-lines>` lines of a `read` result; the first such line counts.
pub fn parse_read_summary(result_text: &str) -> (r: ReadSummary)
    ensures
        r.size_bytes == first_tag_number(lines_of(result_text@), "size"@),
        r.total_lines == first_tag_number(lines_of(result_text@), "total-lines"@),
{
    let text = chars_of(result_text);
    let lines = split_lines(&text);
    let size_tag = chars_of("size");
    let lines_tag = chars_of("total-lines");
    let ghost ls = lines_of(result_text@);
    let mut summary = ReadSummary { size_bytes: None, total_lines: None };
    let mut i: usize = 0;
    while i < lines.len()
        invariant
            0 <= i <= lines@.len(),
            lines_view(lines@) == ls,
            ls == lines_of(result_text@),
            ls.len() == lines@.len(),
            size_tag@ == "size"@,
            lines_tag@ == "total-lines"@,
            summary.size_bytes == first_tag_number(ls.take(i as int), "size"@),
            summary.total_lines == first_tag_number(ls.take(i as int), "total-lines"@),
        decreases lines.len() - i,
    {
        proof {
            assert(ls.take(i + 1).drop_last() =~= ls.take(i as int));
            assert(ls.take(i + 1).last() == lines@[i as int]@);
        }
        if summary.size_bytes.is_none() {
            summary.size_bytes = line_tag_number(&lines[i], &size_tag);
        }
        if summary.total_lines.is_none() {
            summary.total_lines = line_tag_number(&lines[i], &lines_tag);
        }
        i = i + 1;
        if summary.size_bytes.is_some() && summary.total_lines.is_some() {
            proof {
                lemma_first_tag_number_prefix(ls, "size"@, i as int);
                lemma_first_tag_number_prefix(ls, "total-lines"@, i as int);
            }
            return summary;
        }
    }
    assert(ls.take(i as int) =~= ls);
    summary
}

// ---------------------------------------------------------------------------
// Byte sizes
// ---------------------------------------------------------------------------

/// `n / d` to the nearest integer, a tie going to the even one.
pub open spec fn div_round_half_even(n: nat, d: nat) -> nat
    recommends
        d > 0,
{
    let q = n / d;
    let r = n % d;
    if 2 * r > d {
        q + 1
    } else if 2 * r < d {
        q
    } else if q % 2 == 0 {
        q
    } else {
        q + 1
    }
}

/// `bytes / unit` with one decimal, as `{:.1}` prints it, and the unit.
pub open spec fn one_decimal(bytes: nat, unit: nat, suffix: Seq<char>) -> Seq<char> {
    let tenths = div_round_half_even(bytes * 10, unit);
    decimal(tenths / 10) + seq!['.'] + decimal(tenths % 10) + suffix
}

/// A byte count for people: `B` below 1 KiB, else KiB or MiB with one
/// decimal.
pub open spec fn format_bytes_spec(bytes: nat) -> Seq<char> {
    if bytes >= 1024 * 1024 {
        one_decimal(bytes, 1024 * 1024, " MB"@)
    } else if bytes >= 1024 {
        one_decimal(bytes, 1024, " KB"@)
    } else {
        decimal(bytes) + " B"@
    }
}

fn one_decimal_chars(bytes: usize, unit: u128, suffix: &str) -> (r: Vec<char>)
    requires
        unit == 1024 || unit == 1024 * 1024,
    ensures
        r@ == one_decimal(bytes as nat, unit as nat, suffix@),
{
    let n: u128 = bytes as u128 * 10;
    let q = n / unit;
    let rem = n % unit;
    let tenths: u128 = if 2 * rem > unit {
        q + 1
    } else if 2 * rem < unit {
        q
    } else if q % 2 == 0 {
        q
    } else {
        q + 1
    };
    proof {
        assert(n <= 0xffff_ffff_ffff_ffff * 10);
        assert(q <= n);
        assert(tenths / 10 <= 0xffff_ffff_ffff_ffff);
    }
    let mut out = u64_decimal((tenths / 10) as u64);
    out.push('.');
    let frac = u64_decimal((tenths % 10) as u64);
    push_all(&mut out, &frac);
    let s = chars_of(suffix);
    push_all(&mut out, &s);
    assert(out@ =~= one_decimal(bytes as nat, unit as nat, suffix@));
    out
}

fn format_bytes_chars(bytes: usize) -> (r: Vec<char>)
    ensures
        r@ == format_bytes_spec(bytes as nat),
{
    if bytes >= 1024 * 1024 {
        one_decimal_chars(bytes, 1024 * 1024, " MB")
    } else if bytes >= 1024 {
        one_decimal_chars(bytes, 1024, " KB")
    } else {
        let mut out = u64_decimal(bytes as u64);
        let s = chars_of(" B");
        push_all(&mut out, &s);
        out
    }
}

/// A byte count for people, such as `512 B`, `4.0 KB` or `1.5 MB`.
pub fn format_bytes(bytes: usize) -> (r: String)
    ensures
        r@ == format_bytes_spec(bytes as nat),
{
    string_from_chars(&format_bytes_chars(bytes))
}

pub open spec fn format_read_summary_spec(s: ReadSummary) -> Option<Seq<char>> {
    match (s.size_bytes, s.total_lines) {
        (Some(size), Some(lines)) => Some(format_bytes_spec(size as nat) + ", "@ + decimal(lines as nat) + " lines"@),
        (Some(size), None) => Some(format_bytes_spec(size as nat)),
        (None, Some(lines)) => Some(decimal(lines as nat) + " lines"@),
        (None, None) => None,
    }
}

/// The one-line summary of a `read` result: size, line count, or both.
pub fn format_read_summary(summary: &ReadSummary) -> (r: Option<String>)
    ensures
        match r {
            Some(s) => format_read_summary_spec(*summary) == Some(s@),
            None => format_read_summary_spec(*summary) is None,
        },
{
    match (summary.size_bytes, summary.total_lines) {
        (Some(size), Some(lines)) => {
            let mut out = format_bytes_chars(size);
            push_all(&mut out, &chars_of(", "));
            push_all(&mut out, &u64_decimal(lines as u64));
            push_all(&mut out, &chars_of(" lines"));
            Some(string_from_chars(&out))
        },
        (Some(size), None) => Some(format_bytes(size)),
        (None, Some(lines)) => {
            let mut out = u64_decimal(lines as u64);
            push_all(&mut out, &chars_of(" lines"));
            Some(string_from_chars(&out))
        },
        (None, None) => None,
    }
}


// ---------------------------------------------------------------------------
// The state and result of a tool call
// ---------------------------------------------------------------------------

/// Where a tool call stands.
#[derive(Clone, Copy, Debug, PartialEq, Eq, Structural)]
pub enum ToolCallState {
    Pending,
    Running,
    Completed,
    Failed,
}

/// What a finished tool call gave back: its output, whether it failed, its
/// title and its metadata.
pub struct ToolResultInfo {
    pub output: String,
    pub is_error: bool,
    pub title: Option<String>,
    pub metadata: Option<HashMap<String, MetaValue>>,
}

/// The text under `key` in the metadata, when the value there is a JSON
/// string.
pub open spec fn meta_text_spec(md: Option<HashMap<String, MetaValue>>, key: Seq<char>) -> Option<Seq<char>> {
    match md {
        Some(m) => if exists|s: String| s@ == key && m@.contains_key(s) {
            meta_string(m@[choose|s: String| s@ == key && m@.contains_key(s)])
        } else {
            None
        },
        None => None,
    }
}

fn meta_text<'a>(md: &'a Option<HashMap<String, MetaValue>>, key: &str) -> (r: Option<&'a str>)
    ensures
        match r {
            Some(s) => meta_text_spec(*md, key@) == Some(s@),
            None => meta_text_spec(*md, key@) is None,
        },
{
    match md {
        Some(m) => match metadata_get(m, key) {
            Some(v) => meta_as_str(v),
            None => None,
        },
        None => None,
    }
}

/// Tools whose completed result is shown as a block only with details on.
pub open spec fn detail_block_tool(n: Seq<char>) -> bool {
    ||| n == "task"@
    ||| n == "question"@
    ||| n == "todowrite"@
    ||| n == "todo_write"@
    ||| n == "apply_patch"@
    ||| n == "applypatch"@
    ||| n == "batch"@
}

/// Whether a tool call is drawn as a block: the metadata's `display.mode`
/// decides when it names one; else the tool's kind; else a non-empty diff
/// of a write or an edit; else an output of more than three lines.
pub open spec fn is_block_tool_spec(n: Seq<char>, state: ToolCallState, result: Option<ToolResultInfo>, show_tool_details: bool) -> bool {
    let mode = match result {
        Some(info) => meta_text_spec(info.metadata, "display.mode"@),
        None => None,
    };
    if mode is Some {
        mode->0 == "block"@
    } else if detail_block_tool(n) {
        state == ToolCallState::Completed && show_tool_details && result is Some
    } else if n == "bash"@ || n == "shell"@ {
        result is Some
    } else if n == "skill"@ || n == "skills_list"@ || n == "skill_view"@ {
        false
    } else {
        match result {
            Some(info) => {
                let diff = meta_text_spec(info.metadata, "diff"@);
                ((is_write_tool_spec(n) || is_edit_tool_spec(n)) && diff is Some && diff->0.len() > 0)
                    || lines_of(info.output@).len() > 3
            },
            None => false,
        }
    }
}

fn is_detail_block_tool(n: &[char]) -> (r: bool)
    ensures
        r == detail_block_tool(n@),
{
    name_is(n, "task") || name_is(n, "question") || name_is(n, "todowrite") || name_is(n, "todo_write")
        || name_is(n, "apply_patch") || name_is(n, "applypatch") || name_is(n, "batch")
}

/// Whether the tool call (its name already normalized) is drawn as a block.
pub fn is_block_tool(normalized: &str, state: ToolCallState, result: Option<&ToolResultInfo>, show_tool_details: bool) -> (r: bool)
    ensures
        r == is_block_tool_spec(normalized@, state, match result { Some(i) => Some(*i), None => None }, show_tool_details),
{
    let n = chars_of(normalized);
    if let Some(info) = result {
        if let Some(mode) = meta_text(&info.metadata, "display.mode") {
            let m = chars_of(mode);
            return name_is(&m, "block");
        }
    }
    if is_detail_block_tool(&n) {
        return state == ToolCallState::Completed && show_tool_details && result.is_some();
    }
    if name_is(&n, "bash") || name_is(&n, "shell") {
        return result.is_some();
    }
    if name_is(&n, "skill") || name_is(&n, "skills_list") || name_is(&n, "skill_view") {
        return false;
    }
    match result {
        Some(info) => {
            if is_write_tool(normalized) || is_edit_tool(normalized) {
                if let Some(d) = meta_text(&info.metadata, "diff") {
                    if d.unicode_len() > 0 {
                        return true;
                    }
                }
            }
            let cs = chars_of(info.output.as_str());
            let lines = split_lines(&cs);
            proof {
                assert(lines@.len() == lines_view(lines@).len());
            }
            lines.len() > 3
        },
        None => false,
    }
}

/// Tools whose argument preview stays hidden while the call waits or runs.
pub open spec fn quiet_while_running(n: Seq<char>) -> bool {
    ||| n == "question"@
    ||| n == "todowrite"@
    ||| n == "todo_write"@
    ||| n == "apply_patch"@
    ||| n == "applypatch"@
    ||| n == "batch"@
}

/// Tools whose argument preview stays hidden once a result is there.
pub open spec fn quiet_when_done(n: Seq<char>) -> bool {
    ||| n == "question"@
    ||| n == "todowrite"@
    ||| n == "todo_write"@
    ||| n == "apply_patch"@
    ||| n == "applypatch"@
}

pub open spec fn shows_inline_argument_preview(n: Seq<char>, state: ToolCallState, has_result: bool) -> bool {
    match state {
        ToolCallState::Pending | ToolCallState::Running => !quiet_while_running(n),
        ToolCallState::Completed => if has_result { !quiet_when_done(n) } else { true },
        ToolCallState::Failed => true,
    }
}

/// Whether an inline tool line shows the preview of its arguments.
pub fn should_show_inline_argument_preview(normalized: &str, state: ToolCallState, result: Option<&ToolResultInfo>) -> (r: bool)
    ensures
        r == shows_inline_argument_preview(normalized@, state, result is Some),
{
    let n = chars_of(normalized);
    let common = name_is(&n, "question") || name_is(&n, "todowrite") || name_is(&n, "todo_write")
        || name_is(&n, "apply_patch") || name_is(&n, "applypatch");
    match state {
        ToolCallState::Pending | ToolCallState::Running => !(common || name_is(&n, "batch")),
        ToolCallState::Completed => if result.is_some() { !common } else { true },
        ToolCallState::Failed => true,
    }
}

/// A completed call that is not shown at all: details are off and the tool
/// is none of those whose result always shows.
pub open spec fn hidden_tool_call(n: Seq<char>, state: ToolCallState, show_tool_details: bool) -> bool {
    state == ToolCallState::Completed && !show_tool_details && !detail_block_tool(n)
}

/// Whether the tool call is left out of the transcript.
pub fn is_hidden_tool_call(normalized: &str, state: ToolCallState, show_tool_details: bool) -> (r: bool)
    ensures
        r == hidden_tool_call(normalized@, state, show_tool_details),
{
    let n = chars_of(normalized);
    state == ToolCallState::Completed && !show_tool_details && !is_detail_block_tool(&n)
}

/// The result's title, trimmed, when anything is left of it.
pub open spec fn result_title_spec(info: ToolResultInfo) -> Option<Seq<char>> {
    match info.title {
        Some(t) => if trim_spec(t@).len() > 0 { Some(trim_spec(t@)) } else { None },
        None => None,
    }
}

pub fn result_title(info: &ToolResultInfo) -> (r: Option<String>)
    ensures
        match r {
            Some(s) => result_title_spec(*info) == Some(s@),
            None => result_title_spec(*info) is None,
        },
{
    match &info.title {
        Some(t) => {
            let cs = chars_of(t.as_str());
            let tr = trim(&cs);
            if tr.len() > 0 {
                Some(string_from_chars(&tr))
            } else {
                None
            }
        },
        None => None,
    }
}

/// The metadata's `display.summary`, when it is a string that is not blank.
pub open spec fn display_summary_spec(info: ToolResultInfo) -> Option<Seq<char>> {
    let s = meta_text_spec(info.metadata, "display.summary"@);
    if s is Some && !blank(s->0) { s } else { None }
}

pub fn display_summary(info: &ToolResultInfo) -> (r: Option<&str>)
    ensures
        match r {
            Some(s) => display_summary_spec(*info) == Some(s@),
            None => display_summary_spec(*info) is None,
        },
{
    match meta_text(&info.metadata, "display.summary") {
        Some(s) => if is_blank(s) { None } else { Some(s) },
        None => None,
    }
}

/// `verb`, a space, the preview and an ellipsis.
pub open spec fn progress_text(verb: Seq<char>, preview: Seq<char>) -> Seq<char> {
    verb + " "@ + preview + "…"@
}

/// The status an inline line shows while the call waits, given the
/// preview of its arguments (`preview`): a question or todo count, a
/// batch size; fixed words for a task and a patch.
pub open spec fn inline_pending_status_spec(n: Seq<char>, preview: Option<Seq<char>>) -> Option<Seq<char>> {
    if n == "question"@ {
        match preview {
            Some(p) => Some(progress_text("Asking"@, p)),
            None => None,
        }
    } else if n == "todowrite"@ || n == "todo_write"@ {
        match preview {
            Some(p) => Some(progress_text("Updating"@, p)),
            None => None,
        }
    } else if n == "task"@ {
        Some("Delegating…"@)
    } else if n == "apply_patch"@ || n == "applypatch"@ {
        Some("Preparing patch…"@)
    } else if n == "batch"@ {
        match preview {
            Some(p) => Some(progress_text("Running"@, p)),
            None => None,
        }
    } else {
        None
    }
}

fn progress_line(verb: &str, preview: &str) -> (r: String)
    ensures
        r@ == progress_text(verb@, preview@),
{
    let mut v = chars_of(verb);
    push_all(&mut v, &chars_of(" "));
    push_all(&mut v, &chars_of(preview));
    push_all(&mut v, &chars_of("…"));
    string_from_chars(&v)
}

/// The waiting status of an inline tool line; `preview` is the preview of
/// the call's arguments, as the argument formatter gives it.
pub fn inline_pending_status(normalized: &str, preview: Option<&str>) -> (r: Option<String>)
    ensures
        match r {
            Some(s) => inline_pending_status_spec(normalized@, match preview { Some(p) => Some(p@), None => None }) == Some(s@),
            None => inline_pending_status_spec(normalized@, match preview { Some(p) => Some(p@), None => None }) is None,
        },
{
    let n = chars_of(normalized);
    if name_is(&n, "question") {
        match preview {
            Some(p) => Some(progress_line("Asking", p)),
            None => None,
        }
    } else if name_is(&n, "todowrite") || name_is(&n, "todo_write") {
        match preview {
            Some(p) => Some(progress_line("Updating", p)),
            None => None,
        }
    } else if name_is(&n, "task") {
        Some(string_from_chars(&chars_of("Delegating…")))
    } else if name_is(&n, "apply_patch") || name_is(&n, "applypatch") {
        Some(string_from_chars(&chars_of("Preparing patch…")))
    } else if name_is(&n, "batch") {
        match preview {
            Some(p) => Some(progress_line("Running", p)),
            None => None,
        }
    } else {
        None
    }
}

// ---------------------------------------------------------------------------
// The body of a plain result block
// ---------------------------------------------------------------------------

/// What a line of a result block's body is.
#[derive(Clone, Copy, Debug, PartialEq, Eq, Structural)]
pub enum ToolBodyKind {
    /// The result's title; drawn through the preview formatter.
    Title,
    /// `[Directory]: root` of a listing.
    Directory,
    /// How many lines or files the output has.
    Count,
    /// One line of the output; drawn through the preview formatter.
    Entry,
    /// How many lines were left out.
    More,
}

pub struct ToolBodyLine {
    pub kind: ToolBodyKind,
    pub text: String,
}

pub open spec fn body_view(v: Seq<ToolBodyLine>) -> Seq<(ToolBodyKind, Seq<char>)> {
    v.map_values(|l: ToolBodyLine| (l.kind, l.text@))
}

/// A listing's directory header, trimmed, and its entries; other tools'
/// output is all entries.
pub open spec fn list_parts(n: Seq<char>, lines: Seq<Seq<char>>) -> (Option<Seq<char>>, Seq<Seq<char>>) {
    if is_list_tool_spec(n) && lines.len() > 0 && is_dir_header(lines[0]) {
        (Some(trim_spec(lines[0])), lines.skip(1))
    } else {
        (None, lines)
    }
}

/// How many entries show: ten for a shell, forty for a listing, six for
/// the rest; all of them when no more than two would be left out.
pub open spec fn preview_limit(n: Seq<char>, count: nat) -> nat {
    let base: nat = if n == "bash"@ || n == "shell"@ {
        10
    } else if is_list_tool_spec(n) {
        40
    } else {
        6
    };
    if count <= base + 2 { count } else { base }
}

pub open spec fn count_text(n: Seq<char>, count: nat) -> Seq<char> {
    if is_list_tool_spec(n) {
        "("@ + decimal(count) + " files)"@
    } else {
        "("@ + decimal(count) + " lines of output)"@
    }
}

/// The body of a result block with details on: the title, a listing's
/// directory, the count, the first entries and how many were left out.
pub open spec fn generic_body_spec(n: Seq<char>, title: Option<Seq<char>>, output: Seq<char>) -> Seq<(ToolBodyKind, Seq<char>)> {
    let parts = list_parts(n, lines_of(output));
    let entries = parts.1;
    let count = entries.len();
    let limit = preview_limit(n, count);
    let t = match title {
        Some(t) => seq![(ToolBodyKind::Title, t)],
        None => Seq::empty(),
    };
    let d = match parts.0 {
        Some(r) => seq![(ToolBodyKind::Directory, "[Directory]: "@ + r)],
        None => Seq::empty(),
    };
    let c = seq![(ToolBodyKind::Count, count_text(n, count))];
    let e = entries.take(limit as int).map_values(|l: Seq<char>| (ToolBodyKind::Entry, l));
    let m = if count > limit {
        seq![(ToolBodyKind::More, "… ("@ + decimal((count - limit) as nat) + " more lines)"@)]
    } else {
        Seq::empty()
    };
    t + d + c + e + m
}

fn number_text(prefix: &str, n: usize, suffix: &str) -> (r: String)
    ensures
        r@ == prefix@ + decimal(n as nat) + suffix@,
{
    let mut v = chars_of(prefix);
    push_all(&mut v, &u64_decimal(n as u64));
    push_all(&mut v, &chars_of(suffix));
    string_from_chars(&v)
}

/// The body of a plain result block (no layout of its own) when details
/// are on; the title and the entries are left for the preview formatter.
pub fn generic_result_body(normalized: &str, info: &ToolResultInfo) -> (r: Vec<ToolBodyLine>)
    ensures
        body_view(r@) == generic_body_spec(normalized@, result_title_spec(*info), info.output@),
{
    let cs = chars_of(info.output.as_str());
    let lines = split_lines(&cs);
    let ghost ls = lines_of(info.output@);
    assert(lines_view(lines@) == ls);
    assert(lines@.len() == ls.len());
    let is_list = is_list_tool(normalized);
    let mut out: Vec<ToolBodyLine> = Vec::new();
    match result_title(info) {
        Some(t) => out.push(ToolBodyLine { kind: ToolBodyKind::Title, text: t }),
        None => {},
    }
    let mut start: usize = 0;
    if is_list && lines.len() > 0 {
        assert(lines@[0]@ == ls[0]);
        let t = trim(lines[0].as_slice());
        if t.len() > 0 && t[0] == '/' && t[t.len() - 1] == '/' {
            let mut text = chars_of("[Directory]: ");
            push_all(&mut text, &t);
            out.push(ToolBodyLine { kind: ToolBodyKind::Directory, text: string_from_chars(&text) });
            start = 1;
        }
    }
    let ghost parts = list_parts(normalized@, ls);
    assert(parts.1 =~= ls.skip(start as int));
    assert(parts.0 is Some <==> start == 1);
    let count = lines.len() - start;
    let base: usize = if normalized_is_shell(normalized) {
        10
    } else if is_list {
        40
    } else {
        6
    };
    let limit = if count <= base + 2 { count } else { base };
    assert(limit == preview_limit(normalized@, count as nat));
    let counted = if is_list {
        number_text("(", count, " files)")
    } else {
        number_text("(", count, " lines of output)")
    };
    out.push(ToolBodyLine { kind: ToolBodyKind::Count, text: counted });
    let ghost head = body_view(out@);
    let ghost entries = parts.1;
    let mut i: usize = 0;
    while i < limit
        invariant
            limit <= count,
            start + count == lines.len(),
            lines_view(lines@) == ls,
            entries == ls.skip(start as int),
            0 <= i <= limit,
            body_view(out@) == head + entries.take(i as int).map_values(|l: Seq<char>| (ToolBodyKind::Entry, l)),
        decreases limit - i,
    {
        let ghost before = out@;
        let text = string_from_chars(lines[start + i].as_slice());
        proof {
            assert(lines@[start + i]@ == ls[start + i]);
            assert(entries[i as int] == ls[start + i]);
        }
        out.push(ToolBodyLine { kind: ToolBodyKind::Entry, text });
        i = i + 1;
        proof {
            assert(body_view(out@) =~= body_view(before).push((ToolBodyKind::Entry, entries[i - 1])));
            assert(entries.take(i as int).map_values(|l: Seq<char>| (ToolBodyKind::Entry, l)) =~= entries.take(
                i - 1,
            ).map_values(|l: Seq<char>| (ToolBodyKind::Entry, l)).push((ToolBodyKind::Entry, entries[i - 1])));
        }
    }
    if count > limit {
        let ghost before = out@;
        out.push(ToolBodyLine { kind: ToolBodyKind::More, text: number_text("… (", count - limit, " more lines)") });
        proof {
            assert(body_view(out@) =~= body_view(before).push(body_view(out@).last()));
        }
    }
    proof {
        let spec = generic_body_spec(normalized@, result_title_spec(*info), info.output@);
        assert(body_view(out@) =~= spec);
    }
    out
}

fn normalized_is_shell(normalized: &str) -> (r: bool)
    ensures
        r == (normalized@ == "bash"@ || normalized@ == "shell"@),
{
    let n = chars_of(normalized);
    name_is(&n, "bash") || name_is(&n, "shell")
}

// ---------------------------------------------------------------------------
// Inline summaries of a finished call
// ---------------------------------------------------------------------------

/// What a write result reports: how the file changed, its path, size and
/// line count.
pub struct WriteSummary {
    pub verb: Option<String>,
    pub path: Option<String>,
    pub size_bytes: Option<usize>,
    pub total_lines: Option<usize>,
}

/// `verb · size · n lines`, with whichever of size and lines are known;
/// `verb path` (or the verb alone) when neither is. The verb defaults to
/// `updated`.
pub open spec fn write_summary_text_spec(s: WriteSummary) -> Seq<char> {
    let verb = match s.verb {
        Some(v) => v@,
        None => "updated"@,
    };
    match (s.size_bytes, s.total_lines) {
        (Some(b), Some(l)) => verb + " · "@ + format_bytes_spec(b as nat) + " · "@ + decimal(l as nat) + " lines"@,
        (Some(b), None) => verb + " · "@ + format_bytes_spec(b as nat),
        (None, Some(l)) => verb + " · "@ + decimal(l as nat) + " lines"@,
        (None, None) => match s.path {
            Some(p) => verb + " "@ + p@,
            None => verb,
        },
    }
}

/// The inline summary of a write.
pub fn write_summary_text(s: &WriteSummary) -> (r: String)
    ensures
        r@ == write_summary_text_spec(*s),
{
    let mut out = match &s.verb {
        Some(v) => chars_of(v.as_str()),
        None => chars_of("updated"),
    };
    match (s.size_bytes, s.total_lines) {
        (Some(b), Some(l)) => {
            push_all(&mut out, &chars_of(" · "));
            push_all(&mut out, &format_bytes_chars(b));
            push_all(&mut out, &chars_of(" · "));
            push_all(&mut out, &u64_decimal(l as u64));
            push_all(&mut out, &chars_of(" lines"));
        },
        (Some(b), None) => {
            push_all(&mut out, &chars_of(" · "));
            push_all(&mut out, &format_bytes_chars(b));
        },
        (None, Some(l)) => {
            push_all(&mut out, &chars_of(" · "));
            push_all(&mut out, &u64_decimal(l as u64));
            push_all(&mut out, &chars_of(" lines"));
        },
        (None, None) => match &s.path {
            Some(p) => {
                push_all(&mut out, &chars_of(" "));
                push_all(&mut out, &chars_of(p.as_str()));
            },
            None => {},
        },
    }
    string_from_chars(&out)
}

/// The index of the first line that is not blank; -1 when there is none.
pub open spec fn first_nonblank(ls: Seq<Seq<char>>) -> int
    decreases ls.len(),
{
    if ls.len() == 0 {
        -1
    } else if !blank(ls[0]) {
        0
    } else {
        let k = first_nonblank(ls.skip(1));
        if k < 0 { -1 } else { k + 1 }
    }
}

/// What an inline line says of a plain output: a single line, trimmed, when
/// it is not empty and at most eighty bytes long; else the first line that
/// is not blank and how many lines follow it (`more`).
pub struct InlineOutputSummary {
    pub text: String,
    pub more: Option<usize>,
}

pub open spec fn inline_output_summary_spec(output: Seq<char>) -> Option<(Seq<char>, Option<nat>)> {
    let ls = lines_of(output);
    if ls.len() <= 1 {
        let t = trim_spec(output);
        if t.len() > 0 && utf8_len(t) <= 80 { Some((t, None)) } else { None }
    } else {
        let k = first_nonblank(ls);
        if k < 0 { None } else { Some((ls[k], Some((ls.len() - 1) as nat))) }
    }
}

proof fn lemma_first_nonblank_step(ls: Seq<Seq<char>>, i: int)
    requires
        0 <= i < ls.len(),
        forall|j: int| 0 <= j < i ==> blank(#[trigger] ls[j]),
        !blank(ls[i]),
    ensures
        first_nonblank(ls) == i,
    decreases i,
{
    if i > 0 {
        assert(blank(ls[0]));
        assert forall|j: int| 0 <= j < i - 1 implies blank(#[trigger] ls.skip(1)[j]) by {
            assert(ls.skip(1)[j] == ls[j + 1]);
        }
        assert(ls.skip(1)[i - 1] == ls[i]);
        lemma_first_nonblank_step(ls.skip(1), i - 1);
    }
}

proof fn lemma_all_blank(ls: Seq<Seq<char>>)
    requires
        forall|j: int| 0 <= j < ls.len() ==> blank(#[trigger] ls[j]),
    ensures
        first_nonblank(ls) == -1,
    decreases ls.len(),
{
    if ls.len() > 0 {
        assert(blank(ls[0]));
        assert forall|j: int| 0 <= j < ls.len() - 1 implies blank(#[trigger] ls.skip(1)[j]) by {
            assert(ls.skip(1)[j] == ls[j + 1]);
        }
        lemma_all_blank(ls.skip(1));
    }
}

/// Whether the text's UTF-8 encoding takes at most eighty bytes.
fn fits_eighty_bytes(t: &[char]) -> (r: bool)
    ensures
        r == (utf8_len(t@) <= 80),
{
    let mut total: usize = 0;
    let mut i: usize = 0;
    while i < t.len()
        invariant
            0 <= i <= t@.len(),
            total == utf8_len(t@.take(i as int)),
            total <= 80,
        decreases t.len() - i,
    {
        proof {
            lemma_utf8_len_push(t@.take(i as int), t@[i as int]);
            assert(t@.take(i as int).push(t@[i as int]) =~= t@.take(i + 1));
        }
        total = total + utf8_width(t[i]);
        i = i + 1;
        if total > 80 {
            proof {
                if i < t@.len() {
                    crate::text::lemma_utf8_take_increasing(t@, i as int, t@.len() as int);
                }
                assert(t@.take(t@.len() as int) =~= t@);
            }
            return false;
        }
    }
    assert(t@.take(t@.len() as int) =~= t@);
    true
}

/// The inline summary of a plain output.
pub fn inline_output_summary(output: &str) -> (r: Option<InlineOutputSummary>)
    ensures
        match r {
            Some(x) => inline_output_summary_spec(output@) == Some((x.text@, match x.more { Some(m) => Some(m as nat), None => None })),
            None => inline_output_summary_spec(output@) is None,
        },
{
    let cs = chars_of(output);
    let lines = split_lines(&cs);
    let ghost ls = lines_of(output@);
    assert(lines_view(lines@) == ls);
    assert(lines@.len() == ls.len());
    if lines.len() <= 1 {
        let t = trim(&cs);
        if t.len() > 0 && fits_eighty_bytes(&t) {
            return Some(InlineOutputSummary { text: string_from_chars(&t), more: None });
        }
        return None;
    }
    let mut i: usize = 0;
    while i < lines.len()
        invariant
            0 <= i <= lines@.len(),
            lines@.len() == ls.len(),
            lines@.len() >= 2,
            ls == lines_of(output@),
            lines_view(lines@) == ls,
            forall|j: int| 0 <= j < i ==> blank(#[trigger] ls[j]),
        decreases lines.len() - i,
    {
        let s = string_from_chars(lines[i].as_slice());
        assert(lines@[i as int]@ == ls[i as int]);
        if !is_blank(s.as_str()) {
            proof { lemma_first_nonblank_step(ls, i as int); }
            return Some(InlineOutputSummary { text: s, more: Some(lines.len() - 1) });
        }
        i = i + 1;
    }
    proof { lemma_all_blank(ls); }
    None
}

/// What the note after an inline tool line comes from.
#[derive(Clone, Copy, Debug, PartialEq, Eq, Structural)]
pub enum InlineNoteKind {
    /// The first line of a failed call's output, trimmed.
    Error,
    /// The metadata's `display.summary`.
    Summary,
    /// The result's title.
    Title,
    /// The one-line summary of a batch's or a patch's result items.
    Items,
    /// What a write did.
    Write,
    /// A plain output, or its first line and how many follow.
    Output,
    /// The status of a call still waiting or running.
    Pending,
}

pub struct InlineNote {
    pub kind: InlineNoteKind,
    pub text: String,
    pub more: Option<usize>,
}

/// The first line of a text (the whole text when it has none).
pub open spec fn first_line_or_all(s: Seq<char>) -> Seq<char> {
    if lines_of(s).len() > 0 { lines_of(s)[0] } else { s }
}

pub open spec fn opt_view(o: Option<&str>) -> Option<Seq<char>> {
    match o {
        Some(s) => Some(s@),
        None => None,
    }
}

/// The note of an inline tool line. `items` is the inline summary of a
/// batch's or patch's result items, `write` what the write result reports,
/// and `preview` the preview of the call's arguments, as their formatters
/// give them.
pub open spec fn inline_note_spec(
    n: Seq<char>,
    state: ToolCallState,
    result: Option<ToolResultInfo>,
    items: Option<Seq<char>>,
    write: Option<WriteSummary>,
    preview: Option<Seq<char>>,
) -> Option<(InlineNoteKind, Seq<char>, Option<nat>)> {
    match result {
        Some(info) => if info.is_error {
            Some((InlineNoteKind::Error, trim_spec(first_line_or_all(info.output@)), None))
        } else if display_summary_spec(info) is Some {
            Some((InlineNoteKind::Summary, display_summary_spec(info)->0, None))
        } else if result_title_spec(info) is Some {
            Some((InlineNoteKind::Title, result_title_spec(info)->0, None))
        } else if n == "batch"@ || is_patch_tool_spec(n) {
            if items is Some && items->0.len() > 0 { Some((InlineNoteKind::Items, items->0, None)) } else { None }
        } else if is_write_tool_spec(n) {
            match write {
                Some(w) => Some((InlineNoteKind::Write, write_summary_text_spec(w), None)),
                None => None,
            }
        } else {
            match inline_output_summary_spec(info.output@) {
                Some(x) => Some((InlineNoteKind::Output, x.0, x.1)),
                None => None,
            }
        },
        None => if state == ToolCallState::Pending || state == ToolCallState::Running {
            match inline_pending_status_spec(n, preview) {
                Some(t) => Some((InlineNoteKind::Pending, t, None)),
                None => None,
            }
        } else {
            None
        },
    }
}

pub open spec fn note_view(x: InlineNote) -> (InlineNoteKind, Seq<char>, Option<nat>) {
    (x.kind, x.text@, match x.more { Some(m) => Some(m as nat), None => None })
}

fn note(kind: InlineNoteKind, text: String) -> (r: InlineNote)
    ensures
        note_view(r) == (kind, text@, None::<nat>),
{
    InlineNote { kind, text, more: None }
}

/// The note after an inline tool line, if any.
pub fn inline_note(
    normalized: &str,
    state: ToolCallState,
    result: Option<&ToolResultInfo>,
    items: Option<&str>,
    write: Option<&WriteSummary>,
    preview: Option<&str>,
) -> (r: Option<InlineNote>)
    ensures
        match r {
            Some(x) => inline_note_spec(normalized@, state, match result { Some(i) => Some(*i), None => None }, opt_view(items),
                match write { Some(w) => Some(*w), None => None }, opt_view(preview)) == Some(note_view(x)),
            None => inline_note_spec(normalized@, state, match result { Some(i) => Some(*i), None => None }, opt_view(items),
                match write { Some(w) => Some(*w), None => None }, opt_view(preview)) is None,
        },
{
    match result {
        Some(info) => {
            if info.is_error {
                let cs = chars_of(info.output.as_str());
                let lines = split_lines(&cs);
                proof {
                    assert(lines@.len() == lines_view(lines@).len());
                }
                let first = if lines.len() > 0 {
                    proof { assert(lines@[0]@ == lines_of(info.output@)[0]); }
                    trim(lines[0].as_slice())
                } else {
                    trim(&cs)
                };
                return Some(note(InlineNoteKind::Error, string_from_chars(&first)));
            }
            if let Some(s) = display_summary(info) {
                return Some(note(InlineNoteKind::Summary, s.to_string()));
            }
            if let Some(t) = result_title(info) {
                return Some(note(InlineNoteKind::Title, t));
            }
            let n = chars_of(normalized);
            if name_is(&n, "batch") || is_patch_tool(normalized) {
                return match items {
                    Some(s) => if s.unicode_len() > 0 { Some(note(InlineNoteKind::Items, s.to_string())) } else { None },
                    None => None,
                };
            }
            if is_write_tool(normalized) {
                return match write {
                    Some(w) => Some(note(InlineNoteKind::Write, write_summary_text(w))),
                    None => None,
                };
            }
            match inline_output_summary(info.output.as_str()) {
                Some(x) => Some(InlineNote { kind: InlineNoteKind::Output, text: x.text, more: x.more }),
                None => None,
            }
        },
        None => {
            if state == ToolCallState::Pending || state == ToolCallState::Running {
                match inline_pending_status(normalized, preview) {
                    Some(t) => Some(note(InlineNoteKind::Pending, t)),
                    None => None,
                }
            } else {
                None
            }
        },
    }
}

/// What follows the tool's name in the header of a block.
#[derive(Clone, Copy, Debug, PartialEq, Eq, Structural)]
pub enum HeaderNoteKind {
    /// The preview of the call's arguments.
    Preview,
    /// The result's title, when there is no preview; drawn through the
    /// preview formatter.
    Title,
    /// The size and line count of a file that was read.
    ReadSummary,
    /// The call was denied.
    Denied,
}

pub struct HeaderNote {
    pub kind: HeaderNoteKind,
    pub text: String,
}

pub open spec fn header_view(v: Seq<HeaderNote>) -> Seq<(HeaderNoteKind, Seq<char>)> {
    v.map_values(|h: HeaderNote| (h.kind, h.text@))
}

/// The summary of a file that was read, from the tags of a successful
/// `read` result.
pub open spec fn read_summary_note(n: Seq<char>, result: Option<ToolResultInfo>) -> Option<Seq<char>> {
    match result {
        Some(info) => if is_read_tool_spec(n) && !info.is_error {
            format_read_summary_spec(ReadSummary {
                size_bytes: first_tag_number(lines_of(info.output@), "size"@),
                total_lines: first_tag_number(lines_of(info.output@), "total-lines"@),
            })
        } else {
            None
        },
        None => None,
    }
}

/// The notes of a block's header: the argument preview or else the
/// result's title, the read summary, and `denied` for a failed call whose
/// output says it was denied (`denied_output`).
pub open spec fn block_header_spec(
    n: Seq<char>,
    preview: Option<Seq<char>>,
    result: Option<ToolResultInfo>,
    denied_output: bool,
) -> Seq<(HeaderNoteKind, Seq<char>)> {
    let a = match preview {
        Some(p) => seq![(HeaderNoteKind::Preview, p)],
        None => match result {
            Some(info) => match result_title_spec(info) {
                Some(t) => seq![(HeaderNoteKind::Title, t)],
                None => Seq::empty(),
            },
            None => Seq::empty(),
        },
    };
    let b = match read_summary_note(n, result) {
        Some(c) => seq![(HeaderNoteKind::ReadSummary, c)],
        None => Seq::empty(),
    };
    let d = if result is Some && result->0.is_error && denied_output {
        seq![(HeaderNoteKind::Denied, "denied"@)]
    } else {
        Seq::empty()
    };
    a + b + d
}

/// The notes after the tool's name in a block's header; `preview` is the
/// preview of the call's arguments and `denied_output` whether its output
/// reads as a denial, as their formatters give them.
pub fn block_header_notes(
    normalized: &str,
    preview: Option<&str>,
    result: Option<&ToolResultInfo>,
    denied_output: bool,
) -> (r: Vec<HeaderNote>)
    ensures
        header_view(r@) == block_header_spec(normalized@, opt_view(preview), match result { Some(i) => Some(*i), None => None }, denied_output),
{
    let mut out: Vec<HeaderNote> = Vec::new();
    match preview {
        Some(p) => out.push(HeaderNote { kind: HeaderNoteKind::Preview, text: p.to_string() }),
        None => match result {
            Some(info) => match result_title(info) {
                Some(t) => out.push(HeaderNote { kind: HeaderNoteKind::Title, text: t }),
                None => {},
            },
            None => {},
        },
    }
    let ghost a = header_view(out@);
    match result {
        Some(info) => if is_read_tool(normalized) && !info.is_error {
            let summary = parse_read_summary(info.output.as_str());
            match format_read_summary(&summary) {
                Some(c) => out.push(HeaderNote { kind: HeaderNoteKind::ReadSummary, text: c }),
                None => {},
            }
        },
        None => {},
    }
    let ghost ab = header_view(out@);
    assert(ab =~= a + match read_summary_note(normalized@, match result { Some(i) => Some(*i), None => None }) {
        Some(c) => seq![(HeaderNoteKind::ReadSummary, c)],
        None => Seq::<(HeaderNoteKind, Seq<char>)>::empty(),
    });
    match result {
        Some(info) => if info.is_error && denied_output {
            out.push(HeaderNote { kind: HeaderNoteKind::Denied, text: "denied".to_string() });
        },
        None => {},
    }
    proof {
        assert(header_view(out@) =~= block_header_spec(normalized@, opt_view(preview), match result { Some(i) => Some(*i), None => None }, denied_output));
    }
    out
}

/// The lines of a text that are not blank, in order.
pub open spec fn nonblank_lines(ls: Seq<Seq<char>>) -> Seq<Seq<char>>
    decreases ls.len(),
{
    if ls.len() == 0 {
        Seq::empty()
    } else {
        let r = nonblank_lines(ls.drop_last());
        if blank(ls.last()) { r } else { r.push(ls.last()) }
    }
}

/// The lines a failed call's block shows: its first non-blank output line
/// (drawn after `Error: `) and up to four more with details on, two
/// without.
pub open spec fn error_lines_spec(output: Seq<char>, show_tool_details: bool) -> Seq<Seq<char>> {
    let nb = nonblank_lines(lines_of(output));
    let k: int = if show_tool_details { 5 } else { 3 };
    if nb.len() <= k { nb } else { nb.take(k) }
}

pub open spec fn strings_view(v: Seq<String>) -> Seq<Seq<char>> {
    v.map_values(|s: String| s@)
}

pub fn error_lines(output: &str, show_tool_details: bool) -> (r: Vec<String>)
    ensures
        strings_view(r@) == error_lines_spec(output@, show_tool_details),
{
    let cs = chars_of(output);
    let lines = split_lines(&cs);
    let ghost ls = lines_of(output@);
    assert(lines_view(lines@) == ls);
    let k: usize = if show_tool_details { 5 } else { 3 };
    let mut out: Vec<String> = Vec::new();
    let mut i: usize = 0;
    while i < lines.len() && out.len() < k
        invariant
            0 <= i <= lines@.len(),
            lines_view(lines@) == ls,
            out@.len() <= k,
            strings_view(out@) == nonblank_lines(ls.take(i as int)),
        decreases lines.len() - i,
    {
        let s = string_from_chars(lines[i].as_slice());
        let ghost before = out@;
        proof {
            assert(lines@[i as int]@ == ls[i as int]);
            assert(ls.take(i + 1).drop_last() =~= ls.take(i as int));
            assert(ls.take(i + 1).last() == ls[i as int]);
        }
        if !is_blank(s.as_str()) {
            out.push(s);
            assert(strings_view(out@) =~= strings_view(before).push(ls[i as int]));
        }
        i = i + 1;
    }
    proof {
        lemma_nonblank_prefix(ls, i as int, k as int);
        assert(ls.take(ls.len() as int) =~= ls);
    }
    out
}

/// Once `k` non-blank lines are found among the first `i`, the first `k`
/// non-blank lines of the whole text are those.
proof fn lemma_nonblank_prefix(ls: Seq<Seq<char>>, i: int, k: int)
    requires
        0 <= i <= ls.len(),
        0 <= k,
        nonblank_lines(ls.take(i)).len() <= k,
        i < ls.len() ==> nonblank_lines(ls.take(i)).len() == k,
    ensures
        (if nonblank_lines(ls).len() <= k { nonblank_lines(ls) } else { nonblank_lines(ls).take(k) })
            == nonblank_lines(ls.take(i)),
    decreases ls.len() - i,
{
    if i == ls.len() {
        assert(ls.take(i) =~= ls);
    } else {
        lemma_nonblank_extends(ls, i);
    }
}

/// The non-blank lines of a prefix are a prefix of those of the whole.
proof fn lemma_nonblank_extends(ls: Seq<Seq<char>>, i: int)
    requires
        0 <= i <= ls.len(),
    ensures
        nonblank_lines(ls.take(i)).len() <= nonblank_lines(ls).len(),
        nonblank_lines(ls).take(nonblank_lines(ls.take(i)).len() as int) == nonblank_lines(ls.take(i)),
    decreases ls.len() - i,
{
    if i == ls.len() {
        assert(ls.take(i) =~= ls);
        assert(nonblank_lines(ls).take(nonblank_lines(ls).len() as int) =~= nonblank_lines(ls));
    } else {
        lemma_nonblank_extends(ls, i + 1);
        let a = nonblank_lines(ls.take(i));
        let b = nonblank_lines(ls.take(i + 1));
        assert(ls.take(i + 1).drop_last() =~= ls.take(i));
        assert(ls.take(i + 1).last() == ls[i]);
        assert(nonblank_lines(ls).take(b.len() as int) == b);
        assert(b.take(a.len() as int) =~= a);
        assert(nonblank_lines(ls).take(a.len() as int) =~= nonblank_lines(ls).take(b.len() as int).take(a.len() as int));
    }
}

/// What the body of a tool block holds.
#[derive(Clone, Copy, Debug, PartialEq, Eq, Structural)]
pub enum BlockBody {
    /// The first lines of a failed call's output (`error_lines`).
    ErrorLines,
    /// The items the result's display hints describe.
    DisplayHints,
    TaskResult,
    TodoWriteResult,
    WriteResult,
    EditResult,
    PatchResult,
    BatchResult,
    QuestionResult,
    /// Title, count and first lines of the output (`generic_result_body`).
    Generic,
    /// The task a running `task` call delegates.
    TaskRunning,
    /// The status of a waiting or running call (`pending_block_status`).
    Pending,
    /// Nothing below the header (a read, or a result without details).
    Empty,
}

/// Which body a block has; `has_display_hints` is whether the result's
/// display hints give any items.
pub open spec fn block_body_spec(
    n: Seq<char>,
    state: ToolCallState,
    result: Option<ToolResultInfo>,
    show_tool_details: bool,
    has_display_hints: bool,
) -> BlockBody {
    match result {
        Some(info) => if info.is_error {
            BlockBody::ErrorLines
        } else if !prefers_specialized_block_body_spec(n) && has_display_hints {
            BlockBody::DisplayHints
        } else if n == "task"@ {
            BlockBody::TaskResult
        } else if n == "todowrite"@ || n == "todo_write"@ {
            BlockBody::TodoWriteResult
        } else if is_write_tool_spec(n) {
            BlockBody::WriteResult
        } else if is_edit_tool_spec(n) {
            BlockBody::EditResult
        } else if is_patch_tool_spec(n) {
            BlockBody::PatchResult
        } else if is_read_tool_spec(n) {
            BlockBody::Empty
        } else if n == "batch"@ {
            BlockBody::BatchResult
        } else if n == "question"@ {
            BlockBody::QuestionResult
        } else if show_tool_details {
            BlockBody::Generic
        } else {
            BlockBody::Empty
        },
        None => if state == ToolCallState::Pending || state == ToolCallState::Running {
            if n == "task"@ { BlockBody::TaskRunning } else { BlockBody::Pending }
        } else {
            BlockBody::Empty
        },
    }
}

/// Which body the block of a tool call has.
pub fn block_body(
    normalized: &str,
    state: ToolCallState,
    result: Option<&ToolResultInfo>,
    show_tool_details: bool,
    has_display_hints: bool,
) -> (r: BlockBody)
    ensures
        r == block_body_spec(normalized@, state, match result { Some(i) => Some(*i), None => None }, show_tool_details, has_display_hints),
{
    let n = chars_of(normalized);
    match result {
        Some(info) => if info.is_error {
            BlockBody::ErrorLines
        } else if !prefers_specialized_block_body(normalized) && has_display_hints {
            BlockBody::DisplayHints
        } else if name_is(&n, "task") {
            BlockBody::TaskResult
        } else if name_is(&n, "todowrite") || name_is(&n, "todo_write") {
            BlockBody::TodoWriteResult
        } else if is_write_tool(normalized) {
            BlockBody::WriteResult
        } else if is_edit_tool(normalized) {
            BlockBody::EditResult
        } else if is_patch_tool(normalized) {
            BlockBody::PatchResult
        } else if is_read_tool(normalized) {
            BlockBody::Empty
        } else if name_is(&n, "batch") {
            BlockBody::BatchResult
        } else if name_is(&n, "question") {
            BlockBody::QuestionResult
        } else if show_tool_details {
            BlockBody::Generic
        } else {
            BlockBody::Empty
        },
        None => if state == ToolCallState::Pending || state == ToolCallState::Running {
            if name_is(&n, "task") { BlockBody::TaskRunning } else { BlockBody::Pending }
        } else {
            BlockBody::Empty
        },
    }
}

/// The status line of a waiting or running block, and its detail (the
/// argument preview, when it is not blank); none for tools without one.
pub open spec fn pending_block_status_spec(n: Seq<char>, preview: Option<Seq<char>>) -> Option<(Seq<char>, Option<Seq<char>>)> {
    let detail = match preview {
        Some(p) => if blank(p) { None } else { Some(p) },
        None => None,
    };
    if n == "bash"@ || n == "shell"@ {
        Some(("Executing command…"@, detail))
    } else if is_patch_tool_spec(n) {
        Some(("Preparing patch…"@, None))
    } else if n == "batch"@ {
        Some(("Running batch tool calls…"@, detail))
    } else if n == "question"@ {
        Some(("Waiting for answers…"@, detail))
    } else if n == "todowrite"@ || n == "todo_write"@ {
        Some(("Updating todo list…"@, detail))
    } else {
        None
    }
}

pub fn pending_block_status(normalized: &str, preview: Option<&str>) -> (r: Option<(String, Option<String>)>)
    ensures
        match r {
            Some(x) => pending_block_status_spec(normalized@, opt_view(preview))
                == Some((x.0@, match x.1 { Some(d) => Some(d@), None => None })),
            None => pending_block_status_spec(normalized@, opt_view(preview)) is None,
        },
{
    let n = chars_of(normalized);
    let detail: Option<String> = match preview {
        Some(p) => if is_blank(p) { None } else { Some(p.to_string()) },
        None => None,
    };
    if normalized_is_shell(normalized) {
        Some(("Executing command…".to_string(), detail))
    } else if is_patch_tool(normalized) {
        Some(("Preparing patch…".to_string(), None))
    } else if name_is(&n, "batch") {
        Some(("Running batch tool calls…".to_string(), detail))
    } else if name_is(&n, "question") {
        Some(("Waiting for answers…".to_string(), detail))
    } else if name_is(&n, "todowrite") || name_is(&n, "todo_write") {
        Some(("Updating todo list…".to_string(), detail))
    } else {
        None
    }
}

/// How a tool call is shown.
#[derive(Clone, Copy, Debug, PartialEq, Eq, Structural)]
pub enum ToolCallLayout {
    Hidden,
    Block,
    Inline,
}

pub open spec fn tool_call_layout_spec(n: Seq<char>, state: ToolCallState, result: Option<ToolResultInfo>, show_tool_details: bool) -> ToolCallLayout {
    if hidden_tool_call(n, state, show_tool_details) {
        ToolCallLayout::Hidden
    } else if is_block_tool_spec(n, state, result, show_tool_details) {
        ToolCallLayout::Block
    } else {
        ToolCallLayout::Inline
    }
}

/// Whether the call is hidden, drawn as a block or as an inline line.
pub fn tool_call_layout(normalized: &str, state: ToolCallState, result: Option<&ToolResultInfo>, show_tool_details: bool) -> (r: ToolCallLayout)
    ensures
        r == tool_call_layout_spec(normalized@, state, match result { Some(i) => Some(*i), None => None }, show_tool_details),
{
    if is_hidden_tool_call(normalized, state, show_tool_details) {
        ToolCallLayout::Hidden
    } else if is_block_tool(normalized, state, result, show_tool_details) {
        ToolCallLayout::Block
    } else {
        ToolCallLayout::Inline
    }
}

} // verus!
