//! The multi-line text field of the skill editor: a text, a cursor between
//! two chars, and the first row shown.
use vstd::prelude::*;
use crate::text::{chars_of, find_char, string_from_chars};

verus! {

/// Number of `\n` in a text.
pub open spec fn count_newlines(s: Seq<char>) -> nat
    decreases s.len(),
{
    if s.len() == 0 {
        0
    } else {
        count_newlines(s.drop_last()) + if s.last() == '\n' { 1nat } else { 0nat }
    }
}

/// Number of chars after the last `\n` (all of them when there is none).
pub open spec fn last_line_len(s: Seq<char>) -> nat
    decreases s.len(),
{
    if s.len() == 0 {
        0
    } else if s.last() == '\n' {
        0
    } else {
        last_line_len(s.drop_last()) + 1
    }
}

/// Where the line holding position `c` starts.
pub open spec fn line_start_spec(s: Seq<char>, c: int) -> int {
    c - last_line_len(s.take(c))
}

/// Where the line holding position `c` ends: at the next `\n`, or the end.
pub open spec fn line_end_spec(s: Seq<char>, c: int) -> int {
    c + find_char(s.skip(c), '\n')
}

pub proof fn lemma_last_line_len_bound(s: Seq<char>)
    ensures
        last_line_len(s) <= s.len(),
    decreases s.len(),
{
    if s.len() > 0 {
        lemma_last_line_len_bound(s.drop_last());
    }
}

pub proof fn lemma_find_char_bound(s: Seq<char>, c: char)
    ensures
        find_char(s, c) <= s.len(),
    decreases s.len(),
{
    if s.len() > 0 && s[0] != c {
        lemma_find_char_bound(s.skip(1), c);
    }
}

/// The text field in mathematical terms.
pub struct TextEditorModel {
    pub text: Seq<char>,
    /// The cursor, as the number of chars before it.
    pub cursor: int,
    /// The first row shown.
    pub scroll: u16,
}

/// The row the cursor should keep in view: four rows below the top.
pub open spec fn scroll_for(text: Seq<char>, cursor: int) -> u16 {
    let row = count_newlines(text.take(cursor)) % 65536;
    if row >= 4 { (row - 4) as u16 } else { 0 }
}

/// The model after an edit or a move: the scroll follows the cursor.
pub open spec fn synced(text: Seq<char>, cursor: int) -> TextEditorModel {
    TextEditorModel { text, cursor, scroll: scroll_for(text, cursor) }
}

/// A text field with a cursor. The cursor always stands between two chars
/// of the text (or at either end).
#[derive(Clone, Debug)]
pub struct TextEditorState {
    text: Vec<char>,
    cursor: usize,
    scroll: u16,
}

impl View for TextEditorState {
    type V = TextEditorModel;

    closed spec fn view(&self) -> TextEditorModel {
        TextEditorModel { text: self.text@, cursor: self.cursor as int, scroll: self.scroll }
    }
}

impl TextEditorState {
    pub closed spec fn wf(&self) -> bool {
        self.cursor <= self.text@.len()
    }

    /// A well-formed field's cursor stands within its text.
    pub proof fn lemma_cursor_within(&self)
        requires
            self.wf(),
        ensures
            0 <= self@.cursor <= self@.text.len(),
    {
    }

    /// An empty field.
    pub fn new() -> (r: Self)
        ensures
            r.wf(),
            r@ == (TextEditorModel { text: Seq::empty(), cursor: 0, scroll: 0 }),
    {
        TextEditorState { text: Vec::new(), cursor: 0, scroll: 0 }
    }

    /// A field holding `text`, the cursor at its end.
    pub fn with_text(text: String) -> (r: Self)
        ensures
            r.wf(),
            r@ == synced(text@, text@.len() as int),
    {
        let chars = chars_of(text.as_str());
        let cursor = chars.len();
        let mut state = TextEditorState { text: chars, cursor, scroll: 0 };
        state.sync_scroll_to_cursor();
        state
    }

    pub fn text(&self) -> (r: String)
        ensures
            r@ == self@.text,
    {
        string_from_chars(&self.text)
    }

    pub fn cursor(&self) -> (r: usize)
        ensures
            r == self@.cursor,
    {
        self.cursor
    }

    pub fn scroll(&self) -> (r: u16)
        ensures
            r == self@.scroll,
    {
        self.scroll
    }

    /// Row and column of the cursor: `\n`s before it, and chars since the
    /// last of them (each kept to 16 bits, as a screen position).
    pub fn cursor_row_col(&self) -> (r: (u16, u16))
        requires
            self.wf(),
        ensures
            r.0 == count_newlines(self@.text.take(self@.cursor)) % 65536,
            r.1 == last_line_len(self@.text.take(self@.cursor)) % 65536,
    {
        let mut row: usize = 0;
        let mut col: usize = 0;
        let mut i: usize = 0;
        while i < self.cursor
            invariant
                self.wf(),
                0 <= i <= self.cursor,
                row == count_newlines(self.text@.take(i as int)),
                col == last_line_len(self.text@.take(i as int)),
                row <= i,
                col <= i,
            decreases self.cursor - i,
        {
            proof {
                assert(self.text@.take(i + 1).drop_last() =~= self.text@.take(i as int));
            }
            if self.text[i] == '\n' {
                row = row + 1;
                col = 0;
            } else {
                col = col + 1;
            }
            i = i + 1;
        }
        ((row % 65536) as u16, (col % 65536) as u16)
    }

    fn sync_scroll_to_cursor(&mut self)
        requires
            old(self).wf(),
        ensures
            final(self).wf(),
            final(self)@ == synced(old(self)@.text, old(self)@.cursor),
    {
        let (row, _) = self.cursor_row_col();
        self.scroll = if row >= 4 { row - 4 } else { 0 };
    }

    /// Inserts a char before the cursor; the cursor moves past it.
    pub fn insert_char(&mut self, c: char)
        requires
            old(self).wf(),
        ensures
            final(self).wf(),
            final(self)@ == synced(
                old(self)@.text.take(old(self)@.cursor).push(c) + old(self)@.text.skip(old(self)@.cursor),
                old(self)@.cursor + 1,
            ),
    {
        self.text.insert(self.cursor, c);
        let n = self.text.len();
        assert(self.cursor < n);
        self.cursor = self.cursor + 1;
        proof {
            let o = old(self)@;
            assert(self.text@ =~= o.text.take(o.cursor).push(c) + o.text.skip(o.cursor));
        }
        self.sync_scroll_to_cursor();
    }

    pub fn insert_newline(&mut self)
        requires
            old(self).wf(),
        ensures
            final(self).wf(),
            final(self)@ == synced(
                old(self)@.text.take(old(self)@.cursor).push('\n') + old(self)@.text.skip(old(self)@.cursor),
                old(self)@.cursor + 1,
            ),
    {
        self.insert_char('\n');
    }

    /// Removes the char before the cursor, if any.
    pub fn backspace(&mut self)
        requires
            old(self).wf(),
        ensures
            final(self).wf(),
            old(self)@.cursor == 0 ==> final(self)@ == old(self)@,
            old(self)@.cursor > 0 ==> final(self)@ == synced(
                old(self)@.text.remove(old(self)@.cursor - 1),
                old(self)@.cursor - 1,
            ),
    {
        if self.cursor > 0 {
            self.text.remove(self.cursor - 1);
            self.cursor = self.cursor - 1;
            self.sync_scroll_to_cursor();
        }
    }

    /// Removes the char after the cursor, if any.
    pub fn delete(&mut self)
        requires
            old(self).wf(),
        ensures
            final(self).wf(),
            old(self)@.cursor == old(self)@.text.len() ==> final(self)@ == old(self)@,
            old(self)@.cursor < old(self)@.text.len() ==> final(self)@ == synced(
                old(self)@.text.remove(old(self)@.cursor),
                old(self)@.cursor,
            ),
    {
        if self.cursor < self.text.len() {
            self.text.remove(self.cursor);
            self.sync_scroll_to_cursor();
        }
    }

    pub fn move_left(&mut self)
        requires
            old(self).wf(),
        ensures
            final(self).wf(),
            old(self)@.cursor == 0 ==> final(self)@ == old(self)@,
            old(self)@.cursor > 0 ==> final(self)@ == synced(old(self)@.text, old(self)@.cursor - 1),
    {
        if self.cursor > 0 {
            self.cursor = self.cursor - 1;
            self.sync_scroll_to_cursor();
        }
    }

    pub fn move_right(&mut self)
        requires
            old(self).wf(),
        ensures
            final(self).wf(),
            old(self)@.cursor == old(self)@.text.len() ==> final(self)@ == old(self)@,
            old(self)@.cursor < old(self)@.text.len() ==> final(self)@ == synced(
                old(self)@.text,
                old(self)@.cursor + 1,
            ),
    {
        if self.cursor < self.text.len() {
            self.cursor = self.cursor + 1;
            self.sync_scroll_to_cursor();
        }
    }

    /// Moves to the start of the cursor's line.
    pub fn move_home(&mut self)
        requires
            old(self).wf(),
        ensures
            final(self).wf(),
            final(self)@ == synced(old(self)@.text, line_start_spec(old(self)@.text, old(self)@.cursor)),
    {
        let mut i = self.cursor;
        while i > 0 && self.text[i - 1] != '\n'
            invariant
                self.wf(),
                0 <= i <= self.cursor,
                line_start_spec(self.text@, self.cursor as int) == line_start_spec(self.text@, i as int),
            decreases i,
        {
            proof {
                assert(self.text@.take(i as int).drop_last() =~= self.text@.take(i - 1));
            }
            i = i - 1;
        }
        proof {
            if i > 0 {
                assert(self.text@.take(i as int).last() == '\n');
            }
        }
        self.cursor = i;
        self.sync_scroll_to_cursor();
    }

    /// Moves to the end of the cursor's line.
    pub fn move_end(&mut self)
        requires
            old(self).wf(),
        ensures
            final(self).wf(),
            final(self)@ == synced(old(self)@.text, line_end_spec(old(self)@.text, old(self)@.cursor)),
    {
        let mut i = self.cursor;
        while i < self.text.len() && self.text[i] != '\n'
            invariant
                self.wf(),
                self.cursor <= i <= self.text@.len(),
                forall|j: int| self.cursor <= j < i ==> self.text@[j] != '\n',
            decreases self.text.len() - i,
        {
            i = i + 1;
        }
        proof {
            let rest = self.text@.skip(self.cursor as int);
            crate::text::lemma_find_char(rest, '\n', i - self.cursor);
        }
        self.cursor = i;
        self.sync_scroll_to_cursor();
    }

    pub fn scroll_up(&mut self)
        ensures
            final(self).wf() == old(self).wf(),
            final(self)@ == (TextEditorModel {
                scroll: if old(self)@.scroll > 0 { (old(self)@.scroll - 1) as u16 } else { 0 },
                ..old(self)@
            }),
    {
        if self.scroll > 0 {
            self.scroll = self.scroll - 1;
        }
    }

    pub fn scroll_down(&mut self)
        ensures
            final(self).wf() == old(self).wf(),
            final(self)@ == (TextEditorModel {
                scroll: if old(self)@.scroll < u16::MAX { (old(self)@.scroll + 1) as u16 } else { u16::MAX },
                ..old(self)@
            }),
    {
        self.scroll = self.scroll.saturating_add(1);
    }
}

/// An edit a text field takes.
pub enum EditorOp {
    Insert(char),
    Newline,
    Backspace,
    Delete,
    Left,
    Right,
    Home,
    End,
    ScrollUp,
    ScrollDown,
}

/// A text field after an edit.
pub open spec fn apply_op(m: TextEditorModel, op: EditorOp) -> TextEditorModel {
    match op {
        EditorOp::Insert(c) => synced(m.text.take(m.cursor).push(c) + m.text.skip(m.cursor), m.cursor + 1),
        EditorOp::Newline => synced(m.text.take(m.cursor).push('\n') + m.text.skip(m.cursor), m.cursor + 1),
        EditorOp::Backspace => if m.cursor == 0 { m } else { synced(m.text.remove(m.cursor - 1), m.cursor - 1) },
        EditorOp::Delete => if m.cursor == m.text.len() { m } else { synced(m.text.remove(m.cursor), m.cursor) },
        EditorOp::Left => if m.cursor == 0 { m } else { synced(m.text, m.cursor - 1) },
        EditorOp::Right => if m.cursor == m.text.len() { m } else { synced(m.text, m.cursor + 1) },
        EditorOp::Home => synced(m.text, line_start_spec(m.text, m.cursor)),
        EditorOp::End => synced(m.text, line_end_spec(m.text, m.cursor)),
        EditorOp::ScrollUp => TextEditorModel { scroll: if m.scroll > 0 { (m.scroll - 1) as u16 } else { 0 }, ..m },
        EditorOp::ScrollDown => TextEditorModel {
            scroll: if m.scroll < u16::MAX { (m.scroll + 1) as u16 } else { u16::MAX },
            ..m
        },
    }
}

/// Typing a char and then a backspace leaves the text and the cursor as
/// they were.
pub proof fn lemma_insert_then_backspace(m: TextEditorModel, c: char)
    requires
        0 <= m.cursor <= m.text.len(),
    ensures
        ({
            let ins = synced(m.text.take(m.cursor).push(c) + m.text.skip(m.cursor), m.cursor + 1);
            let back = synced(ins.text.remove(ins.cursor - 1), ins.cursor - 1);
            back.text == m.text && back.cursor == m.cursor
        }),
{
    let t = m.text.take(m.cursor).push(c) + m.text.skip(m.cursor);
    assert(t.remove(m.cursor) =~= m.text);
}

/// Moving right and then left returns the cursor where it was, unless it
/// stood at the end already.
pub proof fn lemma_move_right_then_left(m: TextEditorModel)
    requires
        0 <= m.cursor < m.text.len(),
    ensures
        synced(synced(m.text, m.cursor + 1).text, synced(m.text, m.cursor + 1).cursor - 1).cursor == m.cursor,
{
}

/// The cursor's line starts at or before it and ends at or after it.
pub proof fn lemma_line_bounds(s: Seq<char>, c: int)
    requires
        0 <= c <= s.len(),
    ensures
        0 <= line_start_spec(s, c) <= c,
        c <= line_end_spec(s, c) <= s.len(),
{
    lemma_last_line_len_bound(s.take(c));
    lemma_find_char_bound(s.skip(c), '\n');
}

} // verus!
