//! State of the small dialogs: session rename, status and subagent views,
//! and the exit logo.
use vstd::prelude::*;
use vstd::string::StringExecFns;
use crate::jsonish::sanitize::{trim, trim_spec};
use crate::text::{chars_of, string_from_chars, string_pop, string_push};

verus! {

// ---------------------------------------------------------------------------
// Session rename
// ---------------------------------------------------------------------------

pub struct SessionRenameDialog {
    open: bool,
    session_id: Option<String>,
    input: String,
}

impl SessionRenameDialog {
    pub closed spec fn is_open_spec(&self) -> bool {
        self.open
    }

    pub closed spec fn session_id_spec(&self) -> Option<Seq<char>> {
        match self.session_id {
            Some(s) => Some(s@),
            None => None,
        }
    }

    pub closed spec fn input_spec(&self) -> Seq<char> {
        self.input@
    }

    pub fn new() -> (r: Self)
        ensures
            !r.is_open_spec(),
            r.session_id_spec() is None,
            r.input_spec() == Seq::<char>::empty(),
    {
        SessionRenameDialog { open: false, session_id: None, input: String::new() }
    }

    pub fn open(&mut self, session_id: String, title: String)
        ensures
            final(self).is_open_spec(),
            final(self).session_id_spec() == Some(session_id@),
            final(self).input_spec() == title@,
    {
        self.open = true;
        self.session_id = Some(session_id);
        self.input = title;
    }

    pub fn close(&mut self)
        ensures
            !final(self).is_open_spec(),
            final(self).session_id_spec() is None,
            final(self).input_spec() == Seq::<char>::empty(),
    {
        self.open = false;
        self.session_id = None;
        self.input = String::new();
    }

    pub fn is_open(&self) -> (r: bool)
        ensures
            r == self.is_open_spec(),
    {
        self.open
    }

    pub fn handle_input(&mut self, c: char)
        ensures
            final(self).input_spec() == old(self).input_spec().push(c),
            final(self).is_open_spec() == old(self).is_open_spec(),
            final(self).session_id_spec() == old(self).session_id_spec(),
    {
        string_push(&mut self.input, c);
    }

    pub fn handle_backspace(&mut self)
        ensures
            final(self).input_spec() == if old(self).input_spec().len() == 0 {
                old(self).input_spec()
            } else {
                old(self).input_spec().drop_last()
            },
            final(self).is_open_spec() == old(self).is_open_spec(),
            final(self).session_id_spec() == old(self).session_id_spec(),
    {
        let _ = string_pop(&mut self.input);
    }

    /// The session and its new (trimmed) title, when there is a session and
    /// the title is not blank; the dialog then closes.
    pub fn confirm(&mut self) -> (r: Option<(String, String)>)
        ensures
            match old(self).session_id_spec() {
                None => r is None && *final(self) == *old(self),
                Some(id) => if trim_spec(old(self).input_spec()).len() == 0 {
                    r is None && *final(self) == *old(self)
                } else {
                    r matches Some((sid, title)) && sid@ == id && title@ == trim_spec(old(self).input_spec())
                        && !final(self).is_open_spec() && final(self).session_id_spec() is None
                        && final(self).input_spec() == Seq::<char>::empty()
                },
            },
    {
        let session_id = match &self.session_id {
            Some(s) => s.clone(),
            None => return None,
        };
        let t = trim(&chars_of(self.input.as_str()));
        if t.len() == 0 {
            return None;
        }
        let title = string_from_chars(&t);
        self.close();
        Some((session_id, title))
    }
}

// ---------------------------------------------------------------------------
// Status dialog
// ---------------------------------------------------------------------------

#[derive(Clone, Copy, Debug, PartialEq, Eq)]
pub enum StatusLineKind {
    Title,
    Normal,
    Muted,
    Success,
    Warning,
    Error,
}

#[derive(Clone, Debug)]
pub struct StatusLine {
    pub text: String,
    pub kind: StatusLineKind,
}

impl StatusLine {
    pub fn title(text: String) -> (r: Self)
        ensures
            r.text == text,
            r.kind == StatusLineKind::Title,
    {
        StatusLine { text, kind: StatusLineKind::Title }
    }

    pub fn normal(text: String) -> (r: Self)
        ensures
            r.text == text,
            r.kind == StatusLineKind::Normal,
    {
        StatusLine { text, kind: StatusLineKind::Normal }
    }

    pub fn muted(text: String) -> (r: Self)
        ensures
            r.text == text,
            r.kind == StatusLineKind::Muted,
    {
        StatusLine { text, kind: StatusLineKind::Muted }
    }

    pub fn success(text: String) -> (r: Self)
        ensures
            r.text == text,
            r.kind == StatusLineKind::Success,
    {
        StatusLine { text, kind: StatusLineKind::Success }
    }

    pub fn warning(text: String) -> (r: Self)
        ensures
            r.text == text,
            r.kind == StatusLineKind::Warning,
    {
        StatusLine { text, kind: StatusLineKind::Warning }
    }

    pub fn error(text: String) -> (r: Self)
        ensures
            r.text == text,
            r.kind == StatusLineKind::Error,
    {
        StatusLine { text, kind: StatusLineKind::Error }
    }
}

pub struct StatusDialog {
    lines: Vec<StatusLine>,
    open: bool,
    title: String,
    footer_hint: Option<String>,
}

impl StatusDialog {
    pub closed spec fn lines_spec(&self) -> Seq<StatusLine> {
        self.lines@
    }

    pub closed spec fn is_open_spec(&self) -> bool {
        self.open
    }

    pub closed spec fn title_spec(&self) -> Seq<char> {
        self.title@
    }

    pub closed spec fn footer_hint_spec(&self) -> Option<String> {
        self.footer_hint
    }

    pub fn new() -> (r: Self)
        ensures
            r.lines_spec() == Seq::<StatusLine>::empty(),
            !r.is_open_spec(),
            r.title_spec() == "Status"@,
            r.footer_hint_spec() is None,
    {
        StatusDialog {
            lines: Vec::new(),
            open: false,
            title: String::from_str("Status"),
            footer_hint: None,
        }
    }

    /// Replaces the lines with plain ones.
    pub fn set_lines(&mut self, lines: Vec<String>)
        ensures
            final(self).lines_spec().len() == lines@.len(),
            forall|i: int|
                0 <= i < lines@.len() ==> (#[trigger] final(self).lines_spec()[i]).text == lines@[i]
                    && final(self).lines_spec()[i].kind == StatusLineKind::Normal,
            final(self).is_open_spec() == old(self).is_open_spec(),
            final(self).title_spec() == old(self).title_spec(),
            final(self).footer_hint_spec() == old(self).footer_hint_spec(),
    {
        let mut out: Vec<StatusLine> = Vec::new();
        let mut k: usize = 0;
        while k < lines.len()
            invariant
                0 <= k <= lines@.len(),
                out@.len() == k,
                forall|i: int|
                    0 <= i < k ==> (#[trigger] out@[i]).text == lines@[i] && out@[i].kind
                        == StatusLineKind::Normal,
            decreases lines.len() - k,
        {
            out.push(StatusLine::normal(lines[k].clone()));
            k = k + 1;
        }
        self.lines = out;
    }

    pub fn set_status_lines(&mut self, lines: Vec<StatusLine>)
        ensures
            final(self).lines_spec() == lines@,
            final(self).is_open_spec() == old(self).is_open_spec(),
            final(self).title_spec() == old(self).title_spec(),
            final(self).footer_hint_spec() == old(self).footer_hint_spec(),
    {
        self.lines = lines;
    }

    pub fn set_title(&mut self, title: String)
        ensures
            final(self).title_spec() == title@,
            final(self).lines_spec() == old(self).lines_spec(),
            final(self).is_open_spec() == old(self).is_open_spec(),
            final(self).footer_hint_spec() == old(self).footer_hint_spec(),
    {
        self.title = title;
    }

    pub fn set_footer_hint(&mut self, hint: Option<String>)
        ensures
            final(self).footer_hint_spec() == hint,
            final(self).lines_spec() == old(self).lines_spec(),
            final(self).is_open_spec() == old(self).is_open_spec(),
            final(self).title_spec() == old(self).title_spec(),
    {
        self.footer_hint = hint;
    }

    /// Back to the default title and no footer hint.
    pub fn reset_chrome(&mut self)
        ensures
            final(self).title_spec() == "Status"@,
            final(self).footer_hint_spec() is None,
            final(self).lines_spec() == old(self).lines_spec(),
            final(self).is_open_spec() == old(self).is_open_spec(),
    {
        self.title = String::from_str("Status");
        self.footer_hint = None;
    }

    pub fn open(&mut self)
        ensures
            final(self).is_open_spec(),
            final(self).lines_spec() == old(self).lines_spec(),
            final(self).title_spec() == old(self).title_spec(),
            final(self).footer_hint_spec() == old(self).footer_hint_spec(),
    {
        self.open = true;
    }

    pub fn close(&mut self)
        ensures
            !final(self).is_open_spec(),
            final(self).lines_spec() == old(self).lines_spec(),
            final(self).title_spec() == old(self).title_spec(),
            final(self).footer_hint_spec() == old(self).footer_hint_spec(),
    {
        self.open = false;
    }

    pub fn is_open(&self) -> (r: bool)
        ensures
            r == self.is_open_spec(),
    {
        self.open
    }

    /// The lines shown.
    pub fn lines(&self) -> (r: &Vec<StatusLine>)
        ensures
            r@ == self.lines_spec(),
    {
        &self.lines
    }

    /// The title shown.
    pub fn title(&self) -> (r: &String)
        ensures
            r@ == self.title_spec(),
    {
        &self.title
    }

    /// The footer hint shown, if any.
    pub fn footer_hint(&self) -> (r: &Option<String>)
        ensures
            *r == self.footer_hint_spec(),
    {
        &self.footer_hint
    }
}

// ---------------------------------------------------------------------------
// Subagent dialog
// ---------------------------------------------------------------------------

#[derive(Clone, Debug)]
pub struct SubagentInfo {
    pub id: String,
    pub name: String,
    pub category: String,
    pub messages: Vec<SubagentMessage>,
}

#[derive(Clone, Debug)]
pub struct SubagentMessage {
    pub role: String,
    pub content: String,
}

pub struct SubagentDialog {
    pub subagent: Option<SubagentInfo>,
    pub open: bool,
    pub scroll_offset: u16,
}

impl SubagentDialog {
    pub fn new() -> (r: Self)
        ensures
            r.subagent is None,
            !r.open,
            r.scroll_offset == 0,
    {
        SubagentDialog { subagent: None, open: false, scroll_offset: 0 }
    }

    pub fn open(&mut self, subagent: SubagentInfo)
        ensures
            final(self).subagent == Some(subagent),
            final(self).open,
            final(self).scroll_offset == 0,
    {
        self.subagent = Some(subagent);
        self.open = true;
        self.scroll_offset = 0;
    }

    pub fn close(&mut self)
        ensures
            !final(self).open,
            final(self).subagent is None,
            final(self).scroll_offset == old(self).scroll_offset,
    {
        self.open = false;
        self.subagent = None;
    }

    pub fn is_open(&self) -> (r: bool)
        ensures
            r == self.open,
    {
        self.open
    }

    pub fn scroll_up(&mut self)
        ensures
            final(self).scroll_offset == if old(self).scroll_offset > 0 {
                (old(self).scroll_offset - 1) as u16
            } else {
                0
            },
            final(self).open == old(self).open,
            final(self).subagent == old(self).subagent,
    {
        if self.scroll_offset > 0 {
            self.scroll_offset = self.scroll_offset - 1;
        }
    }

    /// One line down, never past `max`.
    pub fn scroll_down(&mut self, max: u16)
        ensures
            final(self).scroll_offset == if old(self).scroll_offset < max {
                (old(self).scroll_offset + 1) as u16
            } else {
                old(self).scroll_offset
            },
            final(self).open == old(self).open,
            final(self).subagent == old(self).subagent,
    {
        if self.scroll_offset < max {
            self.scroll_offset = self.scroll_offset + 1;
        }
    }
}

// ---------------------------------------------------------------------------
// Exit logo
// ---------------------------------------------------------------------------

pub open spec fn logo_rows() -> Seq<Seq<char>> {
    seq![
        "█▀▀▄ █▀▀█ █▀▀ ▄▄▄▄ ▄▄▄█ ▄▄▄▄"@,
        "█▀█▀ █  █ █   █  █ █  █ █▀▀▀"@,
        "▀ ▀▀ ▀▀▀▀ ▀▀▀ ▀▀▀▀ ▀▀▀▀ ▀▀▀▀"@,
    ]
}

/// The logo rows, each after `pad`.
pub fn exit_logo_lines(pad: &str) -> (r: Vec<String>)
    ensures
        r@.len() == 3,
        forall|i: int| 0 <= i < 3 ==> (#[trigger] r@[i])@ == pad@ + logo_rows()[i],
{
    let rows: [&str; 3] = [
        "█▀▀▄ █▀▀█ █▀▀ ▄▄▄▄ ▄▄▄█ ▄▄▄▄",
        "█▀█▀ █  █ █   █  █ █  █ █▀▀▀",
        "▀ ▀▀ ▀▀▀▀ ▀▀▀ ▀▀▀▀ ▀▀▀▀ ▀▀▀▀",
    ];
    let mut out: Vec<String> = Vec::new();
    let mut k: usize = 0;
    while k < 3
        invariant
            0 <= k <= 3,
            forall|j: int| 0 <= j < 3 ==> (#[trigger] rows@[j])@ == logo_rows()[j],
            out@.len() == k,
            forall|i: int| 0 <= i < k ==> (#[trigger] out@[i])@ == pad@ + logo_rows()[i],
        decreases 3 - k,
    {
        let mut line = String::from_str(pad);
        line.append(rows[k]);
        out.push(line);
        k = k + 1;
    }
    out
}

} // verus!
