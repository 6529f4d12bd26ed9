//! Styled text of the message blocks: spans wrapped to a width, a gutter
//! kept at the left of each wrapped row, and the block's background
//! painted to its full width.
use vstd::prelude::*;
use crate::text::{chars_of, string_from_chars, string_push};
use unicode_width::UnicodeWidthChar;
use unicode_width::UnicodeWidthStr;

verus! {

/// A terminal colour: the sixteen named ones by number, a palette index,
/// or RGB.
#[derive(Clone, Copy, Debug, PartialEq, Eq, Structural)]
pub enum Color {
    Reset,
    Named(u8),
    Indexed(u8),
    Rgb(u8, u8, u8),
}

/// Colours and text modifiers of a span (modifiers as bit sets).
#[derive(Clone, Copy, Debug, PartialEq, Eq, Structural)]
pub struct Style {
    pub fg: Option<Color>,
    pub bg: Option<Color>,
    pub underline_color: Option<Color>,
    pub add_modifier: u16,
    pub sub_modifier: u16,
}

impl Style {
    /// No colour, no modifier.
    pub fn new() -> (r: Self)
        ensures
            r == (Style { fg: None, bg: None, underline_color: None, add_modifier: 0, sub_modifier: 0 }),
    {
        Style { fg: None, bg: None, underline_color: None, add_modifier: 0, sub_modifier: 0 }
    }

    pub fn fg(self, c: Color) -> (r: Self)
        ensures
            r == (Style { fg: Some(c), ..self }),
    {
        Style { fg: Some(c), ..self }
    }

    pub fn bg(self, c: Color) -> (r: Self)
        ensures
            r == (Style { bg: Some(c), ..self }),
    {
        Style { bg: Some(c), ..self }
    }
}

/// A run of text in one style.
#[derive(Clone, Debug)]
pub struct Span {
    pub content: String,
    pub style: Style,
}

/// The overlay colour of the sidebar: four parts background to one part
/// accent, when both are RGB; else the background.
pub open spec fn tint_spec(background: Color, accent: Color) -> Color {
    match (background, accent) {
        (Color::Rgb(br, bg, bb), Color::Rgb(ar, ag, ab)) => Color::Rgb(
            ((br * 4 + ar) / 5) as u8,
            ((bg * 4 + ag) / 5) as u8,
            ((bb * 4 + ab) / 5) as u8,
        ),
        _ => background,
    }
}

fn blend(b: u8, a: u8) -> (r: u8)
    ensures
        r == (b * 4 + a) / 5,
{
    ((b as u16 * 4 + a as u16) / 5) as u8
}

pub fn tint_sidebar_overlay(background: Color, accent: Color) -> (r: Color)
    ensures
        r == tint_spec(background, accent),
{
    match (background, accent) {
        (Color::Rgb(br, bg, bb), Color::Rgb(ar, ag, ab)) => Color::Rgb(blend(br, ar), blend(bg, ag), blend(bb, ab)),
        _ => background,
    }
}

// ---------------------------------------------------------------------------
// Widths
// ---------------------------------------------------------------------------

/// The columns a char takes, as the `unicode-width` crate's tables give
/// them (`None` for control chars).
pub uninterp spec fn unicode_char_width(c: char) -> Option<usize>;

/// The columns a text takes, as the `unicode-width` crate computes them.
pub uninterp spec fn unicode_str_width(s: Seq<char>) -> usize;

/// Calls `UnicodeWidthChar::width`. The contract names the result and
/// states what the crate's source shows: `None` exactly for the control
/// chars below U+0020 and from U+007F to U+009F, one column for printable
/// ASCII, never more than three columns.
#[verifier::external_body]
pub fn char_width(c: char) -> (r: Option<usize>)
    ensures
        r == unicode_char_width(c),
        r is None <==> ((c as u32) < 0x20 || (0x7f <= (c as u32) && (c as u32) < 0xa0)),
        0x20 <= (c as u32) < 0x7f ==> r == Some(1usize),
        r matches Some(w) ==> w <= 3,
{
    UnicodeWidthChar::width(c)
}

/// Calls `UnicodeWidthStr::width`. The contract only names the result.
#[verifier::external_body]
pub fn str_width(s: &str) -> (r: usize)
    ensures
        r == unicode_str_width(s@),
{
    UnicodeWidthStr::width(s)
}

/// Columns of a char when wrapping: control chars take none.
pub open spec fn cell_width(c: char) -> nat {
    match unicode_char_width(c) {
        Some(w) => w as nat,
        None => 0,
    }
}

// ---------------------------------------------------------------------------
// Spans as cells
// ---------------------------------------------------------------------------

/// Each char of a text with its style.
pub open spec fn span_cells(content: Seq<char>, st: Style) -> Seq<(char, Style)> {
    content.map_values(|c: char| (c, st))
}

/// The chars of a line with their styles, in order.
pub open spec fn line_cells(spans: Seq<Span>) -> Seq<(char, Style)>
    decreases spans.len(),
{
    if spans.len() == 0 {
        Seq::empty()
    } else {
        line_cells(spans.drop_last()) + span_cells(spans.last().content@, spans.last().style)
    }
}

/// No empty span, and no two neighbours of the same style.
pub open spec fn merged(spans: Seq<Span>) -> bool {
    &&& forall|i: int| 0 <= i < spans.len() ==> (#[trigger] spans[i]).content@.len() > 0
    &&& forall|i: int| 0 < i < spans.len() ==> (#[trigger] spans[i]).style != spans[i - 1].style
}

pub open spec fn lines_cells(lines: Seq<Vec<Span>>) -> Seq<Seq<(char, Style)>> {
    lines.map_values(|l: Vec<Span>| line_cells(l@))
}

/// Appends a char in a style to a line: to its last span when the style is
/// the same, else as a span of its own.
pub fn push_merged_span(line: &mut Vec<Span>, ch: char, style: Style)
    requires
        merged(old(line)@),
    ensures
        merged(final(line)@),
        line_cells(final(line)@) == line_cells(old(line)@).push((ch, style)),
        final(line)@.len() > 0,
{
    let n = line.len();
    if n > 0 && line[n - 1].style == style {
        let mut last = line.pop().unwrap();
        let ghost before = last.content@;
        string_push(&mut last.content, ch);
        proof {
            assert(span_cells(last.content@, style) =~= span_cells(before, style).push((ch, style)));
            assert(line@.push(last).drop_last() =~= line@);
        }
        line.push(last);
    } else {
        let mut content = String::new();
        string_push(&mut content, ch);
        let sp = Span { content, style };
        let ghost before = line@;
        line.push(sp);
        proof {
            assert(line@.drop_last() =~= before);
            assert(span_cells(sp.content@, style) =~= seq![(ch, style)]);
        }
    }
}

// ---------------------------------------------------------------------------
// Wrapping
// ---------------------------------------------------------------------------

/// Rows built so far, and the columns used on the last one.
pub struct WrapState {
    pub rows: Seq<Seq<(char, Style)>>,
    pub used: nat,
}

/// One char of the wrapping: a line break starts a row; a char that does
/// not fit starts a row unless the row is empty; the char then goes on the
/// last row.
pub open spec fn wrap_step(s: WrapState, cell: (char, Style), width: nat) -> WrapState {
    if cell.0 == '\n' {
        WrapState { rows: s.rows.push(Seq::empty()), used: 0 }
    } else {
        let t = if s.used + cell_width(cell.0) > width && s.rows.last().len() > 0 {
            WrapState { rows: s.rows.push(Seq::empty()), used: 0 }
        } else {
            s
        };
        WrapState {
            rows: t.rows.update(t.rows.len() - 1, t.rows.last().push(cell)),
            used: t.used + cell_width(cell.0),
        }
    }
}

/// The rows that wrapping the cells to `width` columns gives.
pub open spec fn wrap_cells(cells: Seq<(char, Style)>, width: nat) -> WrapState
    decreases cells.len(),
{
    if cells.len() == 0 {
        WrapState { rows: seq![Seq::empty()], used: 0 }
    } else {
        wrap_step(wrap_cells(cells.drop_last(), width), cells.last(), width)
    }
}

/// Wrapping never leaves zero rows, and an empty last row has used nothing.
pub proof fn lemma_wrap_cells_shape(cells: Seq<(char, Style)>, width: nat)
    ensures
        wrap_cells(cells, width).rows.len() >= 1,
        wrap_cells(cells, width).rows.last().len() == 0 ==> wrap_cells(cells, width).used == 0,
    decreases cells.len(),
{
    if cells.len() > 0 {
        lemma_wrap_cells_shape(cells.drop_last(), width);
    }
}

/// A merged line has cells exactly when it has spans.
pub proof fn lemma_merged_cells_nonempty(spans: Seq<Span>)
    requires
        merged(spans),
    ensures
        (line_cells(spans).len() == 0) == (spans.len() == 0),
{
    if spans.len() > 0 {
        assert(span_cells(spans.last().content@, spans.last().style).len() > 0);
    }
}

pub open spec fn all_merged(lines: Seq<Vec<Span>>) -> bool {
    forall|k: int| 0 <= k < lines.len() ==> merged(#[trigger] lines[k]@)
}

/// The wrapping itself, stated over cells.
fn wrap_spans_cells(spans: Vec<Span>, width: usize) -> (r: Vec<Vec<Span>>)
    ensures
        width == 0 ==> r@.len() == 1 && r@[0] == spans,
        width > 0 ==> lines_cells(r@) == wrap_cells(line_cells(spans@), width as nat).rows,
        width > 0 ==> all_merged(r@),
{
    if width == 0 {
        let mut one: Vec<Vec<Span>> = Vec::new();
        one.push(spans);
        return one;
    }
    let mut out: Vec<Vec<Span>> = Vec::new();
    out.push(Vec::new());
    let mut used: usize = 0;
    let ghost w = width as nat;
    let ghost cap: nat = if width >= 3 { width as nat } else { 3 };
    proof {
        assert(spans@.take(0) =~= Seq::<Span>::empty());
        assert(lines_cells(out@) =~= seq![Seq::<(char, Style)>::empty()]);
    }
    let mut i: usize = 0;
    while i < spans.len()
        invariant
            0 <= i <= spans@.len(),
            w == width as nat,
            width > 0,
            cap == (if width >= 3 { width as nat } else { 3 }),
            out@.len() >= 1,
            all_merged(out@),
            lines_cells(out@) == wrap_cells(line_cells(spans@.take(i as int)), w).rows,
            used as nat == wrap_cells(line_cells(spans@.take(i as int)), w).used,
            used <= cap,
        decreases spans.len() - i,
    {
        let st = spans[i].style;
        let cs = chars_of(spans[i].content.as_str());
        let ghost base = line_cells(spans@.take(i as int));
        proof {
            assert(spans@.take(i + 1).drop_last() =~= spans@.take(i as int));
            assert(cs@.take(0) =~= Seq::<char>::empty());
            assert(base + span_cells(cs@.take(0), st) =~= base);
        }
        let mut j: usize = 0;
        while j < cs.len()
            invariant
                0 <= j <= cs@.len(),
                w == width as nat,
                width > 0,
                cap == (if width >= 3 { width as nat } else { 3 }),
                out@.len() >= 1,
                all_merged(out@),
                lines_cells(out@) == wrap_cells(base + span_cells(cs@.take(j as int), st), w).rows,
                used as nat == wrap_cells(base + span_cells(cs@.take(j as int), st), w).used,
                used <= cap,
            decreases cs.len() - j,
        {
            let ch = cs[j];
            let ghost pre = base + span_cells(cs@.take(j as int), st);
            let ghost cur = wrap_cells(pre, w);
            proof {
                assert(base + span_cells(cs@.take(j + 1), st) =~= pre.push((ch, st)));
                assert(pre.push((ch, st)).drop_last() =~= pre);
                lemma_wrap_cells_shape(pre, w);
            }
            if ch == '\n' {
                out.push(Vec::new());
                used = 0;
                proof {
                    assert(lines_cells(out@) =~= cur.rows.push(Seq::empty()));
                }
            } else {
                let cw = match char_width(ch) {
                    Some(x) => x,
                    None => 0,
                };
                let n = out.len();
                let last_empty = out[n - 1].len() == 0;
                proof {
                    assert(lines_cells(out@)[n - 1] == line_cells(out@[n - 1]@));
                    lemma_merged_cells_nonempty(out@[n - 1]@);
                }
                let overflows = if used > width { true } else { cw > width - used };
                if overflows && !last_empty {
                    out.push(Vec::new());
                    used = 0;
                    proof {
                        assert(lines_cells(out@) =~= cur.rows.push(Seq::empty()));
                    }
                }
                let ghost mid_rows = lines_cells(out@);
                let ghost before_out = out@;
                let mut last = out.pop().unwrap();
                push_merged_span(&mut last, ch, st);
                out.push(last);
                proof {
                    assert(out@ =~= before_out.update(before_out.len() - 1, last));
                    assert(lines_cells(out@) =~= mid_rows.update(mid_rows.len() - 1, mid_rows.last().push((ch, st))));
                }
                used = used + cw;
            }
            j = j + 1;
        }
        proof {
            assert(cs@.take(j as int) =~= cs@);
            assert(spans@[i as int].content@ == cs@);
            assert(line_cells(spans@.take(i + 1)) == base + span_cells(cs@, st));
        }
        i = i + 1;
    }
    proof {
        assert(spans@.take(i as int) =~= spans@);
    }
    out
}

// ---------------------------------------------------------------------------
// Spans as values
// ---------------------------------------------------------------------------

/// A span as its text and style.
pub open spec fn span_view(s: Span) -> (Seq<char>, Style) {
    (s.content@, s.style)
}

pub open spec fn line_view(l: Seq<Span>) -> Seq<(Seq<char>, Style)> {
    l.map_values(|s: Span| span_view(s))
}

pub open spec fn rows_view(rows: Seq<Vec<Span>>) -> Seq<Seq<(Seq<char>, Style)>> {
    rows.map_values(|l: Vec<Span>| line_view(l@))
}

/// The cells of spans given as values.
pub open spec fn view_cells(l: Seq<(Seq<char>, Style)>) -> Seq<(char, Style)>
    decreases l.len(),
{
    if l.len() == 0 {
        Seq::empty()
    } else {
        view_cells(l.drop_last()) + span_cells(l.last().0, l.last().1)
    }
}

/// Cells grouped into the runs of one style: the spans that merging gives.
pub open spec fn runs(cells: Seq<(char, Style)>) -> Seq<(Seq<char>, Style)>
    decreases cells.len(),
{
    if cells.len() == 0 {
        Seq::empty()
    } else {
        let r = runs(cells.drop_last());
        let c = cells.last();
        if r.len() > 0 && r.last().1 == c.1 {
            r.update(r.len() - 1, (r.last().0.push(c.0), c.1))
        } else {
            r.push((seq![c.0], c.1))
        }
    }
}

pub proof fn lemma_line_cells_view(spans: Seq<Span>)
    ensures
        line_cells(spans) == view_cells(line_view(spans)),
    decreases spans.len(),
{
    if spans.len() > 0 {
        lemma_line_cells_view(spans.drop_last());
        assert(line_view(spans).drop_last() =~= line_view(spans.drop_last()));
    }
}

/// Runs of a text in one style after runs whose last style differs.
proof fn lemma_runs_extend(p: Seq<(char, Style)>, content: Seq<char>, st: Style, k: int)
    requires
        1 <= k <= content.len(),
        runs(p).len() == 0 || runs(p).last().1 != st,
    ensures
        runs(p + span_cells(content.take(k), st)) == runs(p).push((content.take(k), st)),
    decreases k,
{
    let q = p + span_cells(content.take(k), st);
    assert(q.drop_last() =~= p + span_cells(content.take(k - 1), st));
    assert(q.last() == (content[k - 1], st));
    if k == 1 {
        assert(p + span_cells(content.take(0), st) =~= p);
        assert(seq![content[0]] =~= content.take(1));
    } else {
        lemma_runs_extend(p, content, st, k - 1);
        assert(content.take(k - 1).push(content[k - 1]) =~= content.take(k));
    }
}

/// Merged spans are exactly the runs of their cells.
pub proof fn lemma_runs_of_merged(spans: Seq<Span>)
    requires
        merged(spans),
    ensures
        line_view(spans) == runs(line_cells(spans)),
    decreases spans.len(),
{
    if spans.len() > 0 {
        let pre = spans.drop_last();
        assert(merged(pre));
        lemma_runs_of_merged(pre);
        let last = spans.last();
        assert(last.content@.len() > 0);
        if pre.len() > 0 {
            assert(spans[spans.len() - 1].style != spans[spans.len() - 2].style);
            assert(line_view(pre).last() == span_view(pre.last()));
        }
        lemma_runs_extend(line_cells(pre), last.content@, last.style, last.content@.len() as int);
        assert(last.content@.take(last.content@.len() as int) =~= last.content@);
        assert(line_view(spans) =~= line_view(pre).push(span_view(last)));
    }
}

/// The rows of `wrap_spans` as span values.
pub open spec fn wrap_spans_spec(line: Seq<(Seq<char>, Style)>, width: nat) -> Seq<Seq<(Seq<char>, Style)>> {
    if width == 0 {
        seq![line]
    } else {
        wrap_cells(view_cells(line), width).rows.map_values(|row: Seq<(char, Style)>| runs(row))
    }
}

/// Wraps styled spans to `width` columns: a `\n` ends a row, a char that
/// would overflow a non-empty row starts the next one, and neighbouring
/// chars of one style share a span. A width of zero leaves the spans as
/// one row.
pub fn wrap_spans(spans: Vec<Span>, width: usize) -> (r: Vec<Vec<Span>>)
    ensures
        rows_view(r@) == wrap_spans_spec(line_view(spans@), width as nat),
        width > 0 ==> lines_cells(r@) == wrap_cells(line_cells(spans@), width as nat).rows,
        width > 0 ==> all_merged(r@),
{
    let ghost input = spans@;
    let r = wrap_spans_cells(spans, width);
    proof {
        lemma_line_cells_view(input);
        if width == 0 {
            assert(rows_view(r@) =~= seq![line_view(input)]);
        } else {
            let rows = wrap_cells(line_cells(input), width as nat).rows;
            assert forall|k: int| 0 <= k < r@.len() implies #[trigger] rows_view(r@)[k] == runs(rows[k]) by {
                assert(merged(r@[k]@));
                lemma_runs_of_merged(r@[k]@);
                assert(lines_cells(r@)[k] == line_cells(r@[k]@));
            }
            assert(rows_view(r@) =~= rows.map_values(|row: Seq<(char, Style)>| runs(row)));
        }
    }
    r
}

// ---------------------------------------------------------------------------
// Block lines: gutter, wrapping and background
// ---------------------------------------------------------------------------

/// Room kept free at the right of a wrapped block row.
pub const MESSAGE_BLOCK_RIGHT_PADDING: usize = 1;

/// A gutter: only border bars and spaces, with at least one bar.
pub open spec fn is_gutter_spec(content: Seq<char>) -> bool {
    &&& forall|i: int| 0 <= i < content.len() ==> (#[trigger] content[i] == '│' || content[i] == '┃' || content[i] == ' ')
    &&& exists|i: int| 0 <= i < content.len() && (#[trigger] content[i] == '│' || content[i] == '┃')
}

fn is_gutter_chars(c: &[char]) -> (r: bool)
    ensures
        r == is_gutter_spec(c@),
{
    let mut has_border = false;
    let mut i: usize = 0;
    while i < c.len()
        invariant
            0 <= i <= c@.len(),
            forall|k: int| 0 <= k < i ==> (#[trigger] c@[k] == '│' || c@[k] == '┃' || c@[k] == ' '),
            has_border == exists|k: int| 0 <= k < i && (#[trigger] c@[k] == '│' || c@[k] == '┃'),
        decreases c.len() - i,
    {
        let ch = c[i];
        if ch == '│' || ch == '┃' {
            has_border = true;
        } else if ch != ' ' {
            return false;
        }
        i = i + 1;
    }
    has_border
}

/// Is the text a gutter: border bars and spaces only, with a bar?
pub fn is_gutter_span(content: &str) -> (r: bool)
    ensures
        r == is_gutter_spec(content@),
{
    is_gutter_chars(&chars_of(content))
}

/// The rows of a block line at `width` columns. A line that opens with a
/// gutter keeps the gutter at the left of every row and wraps the rest to
/// the columns left (less the right padding); a gutter that leaves no room
/// stands alone.
pub open spec fn wrap_block_line_spec(line: Seq<(Seq<char>, Style)>, width: nat) -> Seq<Seq<(Seq<char>, Style)>> {
    if width == 0 || line.len() == 0 {
        seq![line]
    } else if !is_gutter_spec(line[0].0) {
        wrap_spans_spec(line, width)
    } else {
        let gutter = line[0];
        let gw = unicode_str_width(line[0].0) as nat;
        if gw >= width || width - gw <= MESSAGE_BLOCK_RIGHT_PADDING {
            seq![seq![gutter]]
        } else {
            wrap_spans_spec(line.skip(1), (width - gw - MESSAGE_BLOCK_RIGHT_PADDING) as nat).map_values(
                |row: Seq<(Seq<char>, Style)>| seq![gutter] + row,
            )
        }
    }
}

/// A field-by-field copy of a span.
pub fn copy_span(sp: &Span) -> (r: Span)
    ensures
        r == *sp,
{
    Span { content: sp.content.clone(), style: sp.style }
}

pub fn wrap_block_line(line: Vec<Span>, width: usize) -> (r: Vec<Vec<Span>>)
    ensures
        rows_view(r@) == wrap_block_line_spec(line_view(line@), width as nat),
{
    let ghost lv = line_view(line@);
    if width == 0 || line.len() == 0 {
        let mut one: Vec<Vec<Span>> = Vec::new();
        one.push(line);
        assert(rows_view(one@) =~= seq![lv]);
        return one;
    }
    let gutter = copy_span(&line[0]);
    if !is_gutter_span(gutter.content.as_str()) {
        return wrap_spans(line, width);
    }
    let gw = str_width(gutter.content.as_str());
    if gw >= width || width - gw <= MESSAGE_BLOCK_RIGHT_PADDING {
        let mut row: Vec<Span> = Vec::new();
        row.push(gutter);
        let mut one: Vec<Vec<Span>> = Vec::new();
        one.push(row);
        proof {
            assert(line_view(row@) =~= seq![span_view(gutter)]);
            assert(rows_view(one@) =~= seq![seq![lv[0]]]);
        }
        return one;
    }
    let body_width = width - gw - MESSAGE_BLOCK_RIGHT_PADDING;
    let mut body: Vec<Span> = Vec::new();
    let mut i: usize = 1;
    while i < line.len()
        invariant
            1 <= i <= line@.len(),
            body@ == line@.subrange(1, i as int),
        decreases line.len() - i,
    {
        body.push(copy_span(&line[i]));
        i = i + 1;
        assert(body@ =~= line@.subrange(1, i as int));
    }
    proof {
        assert(line_view(body@) =~= lv.skip(1));
    }
    let wrapped = wrap_spans(body, body_width);
    let ghost rows = wrap_spans_spec(lv.skip(1), body_width as nat);
    let mut out: Vec<Vec<Span>> = Vec::new();
    let mut k: usize = 0;
    while k < wrapped.len()
        invariant
            0 <= k <= wrapped@.len(),
            rows_view(wrapped@) == rows,
            lv.len() > 0,
            span_view(gutter) == lv[0],
            rows_view(out@) == rows.take(k as int).map_values(|row: Seq<(Seq<char>, Style)>| seq![lv[0]] + row),
        decreases wrapped.len() - k,
    {
        let mut row: Vec<Span> = Vec::new();
        row.push(copy_span(&gutter));
        let mut t: usize = 0;
        while t < wrapped[k].len()
            invariant
                0 <= t <= wrapped@[k as int]@.len(),
                k < wrapped@.len(),
                row@.len() == t + 1,
                row@[0] == gutter,
                forall|q: int| 0 <= q < t ==> row@[q + 1] == wrapped@[k as int]@[q],
            decreases wrapped@[k as int]@.len() - t,
        {
            row.push(copy_span(&wrapped[k][t]));
            t = t + 1;
        }
        proof {
            assert(line_view(row@) =~= seq![lv[0]] + line_view(wrapped@[k as int]@));
            assert(rows_view(wrapped@)[k as int] == line_view(wrapped@[k as int]@));
            assert(rows[k as int] == line_view(wrapped@[k as int]@));
        }
        let ghost before = out@;
        out.push(row);
        proof {
            assert(rows_view(out@) =~= rows_view(before).push(line_view(row@)));
            assert(rows.take(k + 1).map_values(|row: Seq<(Seq<char>, Style)>| seq![lv[0]] + row) =~= rows.take(
                k as int,
            ).map_values(|row: Seq<(Seq<char>, Style)>| seq![lv[0]] + row).push(seq![lv[0]] + rows[k as int]));
        }
        k = k + 1;
    }
    assert(rows.take(k as int) =~= rows);
    out
}

/// Columns of a line: the sum of its spans' widths, kept within `usize`.
pub open spec fn rendered_width(line: Seq<(Seq<char>, Style)>) -> nat
    decreases line.len(),
{
    if line.len() == 0 {
        0
    } else {
        let w: nat = rendered_width(line.drop_last()) + (unicode_str_width(line.last().0) as nat);
        if w <= usize::MAX { w } else { usize::MAX as nat }
    }
}

pub open spec fn spaces(n: nat) -> Seq<char> {
    Seq::new(n, |i: int| ' ')
}

pub open spec fn default_style() -> Style {
    Style { fg: None, bg: None, underline_color: None, add_modifier: 0, sub_modifier: 0 }
}

/// A span on the block's background; a leading gutter also takes the
/// border colour.
pub open spec fn painted_style(k: int, sp: (Seq<char>, Style), background: Color, border: Color) -> Style {
    if k == 0 && is_gutter_spec(sp.0) {
        Style { fg: Some(border), bg: Some(background), ..sp.1 }
    } else {
        Style { bg: Some(background), ..sp.1 }
    }
}

/// A block row painted: every span on the background, and blank cells up
/// to `width` columns.
pub open spec fn paint_line_spec(
    line: Seq<(Seq<char>, Style)>,
    background: Color,
    border: Color,
    width: nat,
) -> Seq<(Seq<char>, Style)> {
    let styled = Seq::new(line.len(), |k: int| (line[k].0, painted_style(k, line[k], background, border)));
    let total = rendered_width(line);
    if total < width {
        styled.push((spaces((width - total) as nat), Style { bg: Some(background), ..default_style() }))
    } else {
        styled
    }
}

fn spaces_string(n: usize) -> (r: String)
    ensures
        r@ == spaces(n as nat),
{
    let mut s = String::new();
    let mut i: usize = 0;
    while i < n
        invariant
            0 <= i <= n,
            s@ == spaces(i as nat),
        decreases n - i,
    {
        string_push(&mut s, ' ');
        i = i + 1;
        assert(s@ =~= spaces(i as nat));
    }
    s
}

pub fn paint_block_line(line: Vec<Span>, background: Color, border_color: Color, width: usize) -> (r: Vec<Span>)
    ensures
        line_view(r@) == paint_line_spec(line_view(line@), background, border_color, width as nat),
{
    let ghost lv = line_view(line@);
    let mut styled: Vec<Span> = Vec::new();
    let mut rendered: usize = 0;
    let mut k: usize = 0;
    while k < line.len()
        invariant
            0 <= k <= line@.len(),
            lv == line_view(line@),
            rendered as nat == rendered_width(lv.take(k as int)),
            line_view(styled@) == Seq::new(k as nat, |q: int| (lv[q].0, painted_style(q, lv[q], background, border_color))),
        decreases line.len() - k,
    {
        let sp = &line[k];
        let w = str_width(sp.content.as_str());
        proof {
            assert(lv.take(k + 1).drop_last() =~= lv.take(k as int));
            assert(lv.take(k + 1).last() == span_view(*sp));
        }
        rendered = rendered.saturating_add(w);
        let gutter = k == 0 && is_gutter_span(sp.content.as_str());
        let style = if gutter { sp.style.fg(border_color).bg(background) } else { sp.style.bg(background) };
        let ghost before = styled@;
        let new_span = Span { content: sp.content.clone(), style };
        styled.push(new_span);
        proof {
            assert(lv[k as int] == span_view(line@[k as int]));
            assert(style == painted_style(k as int, lv[k as int], background, border_color));
            assert(span_view(new_span) == (lv[k as int].0, painted_style(k as int, lv[k as int], background, border_color)));
            assert(line_view(styled@) =~= line_view(before).push(span_view(new_span)));
            assert(line_view(styled@) =~= Seq::new((k + 1) as nat, |q: int| (lv[q].0, painted_style(q, lv[q], background, border_color))));
        }
        k = k + 1;
    }
    assert(lv.take(k as int) =~= lv);
    if rendered < width {
        let pad = Span { content: spaces_string(width - rendered), style: Style::new().bg(background) };
        let ghost before = styled@;
        styled.push(pad);
        assert(line_view(styled@) =~= line_view(before).push(span_view(pad)));
    }
    styled
}

/// The rows of block lines, one after the other.
pub open spec fn block_rows(lines: Seq<Seq<(Seq<char>, Style)>>, width: nat) -> Seq<Seq<(Seq<char>, Style)>>
    decreases lines.len(),
{
    if lines.len() == 0 {
        Seq::empty()
    } else {
        block_rows(lines.drop_last(), width) + wrap_block_line_spec(lines.last(), width)
    }
}

/// A message block: its lines wrapped and painted, between two padding
/// rows that repeat the first row's gutter (or are blank).
pub open spec fn paint_block_lines_spec(
    lines: Seq<Seq<(Seq<char>, Style)>>,
    background: Color,
    border: Color,
    width: nat,
) -> Seq<Seq<(Seq<char>, Style)>> {
    let painted = block_rows(lines, width).map_values(
        |row: Seq<(Seq<char>, Style)>| paint_line_spec(row, background, border, width),
    );
    if painted.len() == 0 {
        painted
    } else {
        let first = painted[0];
        let pad_src = if first.len() > 0 && is_gutter_spec(first[0].0) {
            seq![(first[0].0, default_style())]
        } else {
            Seq::empty()
        };
        let pad = paint_line_spec(pad_src, background, border, width);
        seq![pad] + painted + seq![pad]
    }
}

fn copy_line(l: &Vec<Span>) -> (r: Vec<Span>)
    ensures
        r@ == l@,
{
    let mut out: Vec<Span> = Vec::new();
    let mut i: usize = 0;
    while i < l.len()
        invariant
            0 <= i <= l@.len(),
            out@ == l@.take(i as int),
        decreases l.len() - i,
    {
        out.push(copy_span(&l[i]));
        i = i + 1;
        assert(out@ =~= l@.take(i as int));
    }
    assert(l@.take(i as int) =~= l@);
    out
}

pub fn paint_block_lines(lines: Vec<Vec<Span>>, background: Color, border_color: Color, width: usize) -> (r: Vec<Vec<Span>>)
    ensures
        rows_view(r@) == paint_block_lines_spec(rows_view(lines@), background, border_color, width as nat),
{
    let ghost lv = rows_view(lines@);
    let mut painted: Vec<Vec<Span>> = Vec::new();
    let mut i: usize = 0;
    while i < lines.len()
        invariant
            0 <= i <= lines@.len(),
            lv == rows_view(lines@),
            rows_view(painted@) == block_rows(lv.take(i as int), width as nat).map_values(
                |row: Seq<(Seq<char>, Style)>| paint_line_spec(row, background, border_color, width as nat),
            ),
        decreases lines.len() - i,
    {
        let rows = wrap_block_line(copy_line(&lines[i]), width);
        proof {
            assert(lv.take(i + 1).drop_last() =~= lv.take(i as int));
            assert(lv.take(i + 1).last() == line_view(lines@[i as int]@));
        }
        let ghost prefix = painted@;
        let mut k: usize = 0;
        while k < rows.len()
            invariant
                0 <= k <= rows@.len(),
                rows_view(painted@) == rows_view(prefix) + rows_view(rows@).take(k as int).map_values(
                    |row: Seq<(Seq<char>, Style)>| paint_line_spec(row, background, border_color, width as nat),
                ),
            decreases rows.len() - k,
        {
            let p = paint_block_line(copy_line(&rows[k]), background, border_color, width);
            let ghost before = painted@;
            painted.push(p);
            proof {
                assert(rows_view(rows@)[k as int] == line_view(rows@[k as int]@));
                assert(rows_view(painted@) =~= rows_view(before).push(line_view(p@)));
                assert(rows_view(rows@).take(k + 1) =~= rows_view(rows@).take(k as int).push(rows_view(rows@)[k as int]));
                assert(rows_view(painted@) =~= rows_view(prefix) + rows_view(rows@).take(k + 1).map_values(
                    |row: Seq<(Seq<char>, Style)>| paint_line_spec(row, background, border_color, width as nat),
                ));
            }
            k = k + 1;
        }
        proof {
            assert(rows_view(rows@).take(k as int) =~= rows_view(rows@));
            let f = |row: Seq<(Seq<char>, Style)>| paint_line_spec(row, background, border_color, width as nat);
            assert((block_rows(lv.take(i as int), width as nat) + rows_view(rows@)).map_values(f) =~= block_rows(
                lv.take(i as int),
                width as nat,
            ).map_values(f) + rows_view(rows@).map_values(f));
        }
        i = i + 1;
    }
    assert(lv.take(i as int) =~= lv);
    if painted.len() == 0 {
        return painted;
    }
    let first_is_gutter = painted[0].len() > 0 && is_gutter_span(painted[0][0].content.as_str());
    let mut pad_src: Vec<Span> = Vec::new();
    if first_is_gutter {
        pad_src.push(Span { content: painted[0][0].content.clone(), style: Style::new() });
    }
    proof {
        let first = rows_view(painted@)[0];
        assert(first == line_view(painted@[0]@));
        if first_is_gutter {
            assert(line_view(pad_src@) =~= seq![(first[0].0, default_style())]);
        } else {
            assert(line_view(pad_src@) =~= Seq::<(Seq<char>, Style)>::empty());
        }
    }
    let pad = paint_block_line(copy_line(&pad_src), background, border_color, width);
    let mut out: Vec<Vec<Span>> = Vec::new();
    out.push(copy_line(&pad));
    let mut j: usize = 0;
    while j < painted.len()
        invariant
            0 <= j <= painted@.len(),
            rows_view(out@) == seq![line_view(pad@)] + rows_view(painted@).take(j as int),
        decreases painted.len() - j,
    {
        let ghost before = out@;
        out.push(copy_line(&painted[j]));
        proof {
            assert(rows_view(out@) =~= rows_view(before).push(line_view(painted@[j as int]@)));
            assert(rows_view(painted@)[j as int] == line_view(painted@[j as int]@));
            assert(rows_view(painted@).take(j + 1) =~= rows_view(painted@).take(j as int).push(rows_view(painted@)[j as int]));
        }
        j = j + 1;
    }
    let ghost before = out@;
    out.push(pad);
    proof {
        assert(rows_view(painted@).take(j as int) =~= rows_view(painted@));
        assert(rows_view(out@) =~= rows_view(before).push(line_view(pad@)));
    }
    out
}

/// The rows laid end to end.
pub open spec fn concat_rows(rows: Seq<Seq<(char, Style)>>) -> Seq<(char, Style)>
    decreases rows.len(),
{
    if rows.len() == 0 {
        Seq::empty()
    } else {
        concat_rows(rows.drop_last()) + rows.last()
    }
}

/// The cells without line breaks.
pub open spec fn without_breaks(cells: Seq<(char, Style)>) -> Seq<(char, Style)>
    decreases cells.len(),
{
    if cells.len() == 0 {
        Seq::empty()
    } else if cells.last().0 == '\n' {
        without_breaks(cells.drop_last())
    } else {
        without_breaks(cells.drop_last()).push(cells.last())
    }
}

/// Wrapping loses and reorders nothing: the rows laid end to end are the
/// text without its line breaks, each char in its style.
pub proof fn lemma_wrap_keeps_text(cells: Seq<(char, Style)>, width: nat)
    ensures
        concat_rows(wrap_cells(cells, width).rows) == without_breaks(cells),
    decreases cells.len(),
{
    if cells.len() == 0 {
        let rows = wrap_cells(cells, width).rows;
        assert(rows.drop_last() =~= Seq::<Seq<(char, Style)>>::empty());
        assert(concat_rows(rows.drop_last()) =~= Seq::<(char, Style)>::empty());
        assert(rows.last() =~= Seq::<(char, Style)>::empty());
        assert(concat_rows(rows) == concat_rows(rows.drop_last()) + rows.last());
        assert(concat_rows(rows) =~= Seq::<(char, Style)>::empty());
    } else {
        let pre = cells.drop_last();
        let s = wrap_cells(pre, width);
        let c = cells.last();
        lemma_wrap_keeps_text(pre, width);
        lemma_wrap_cells_shape(pre, width);
        if c.0 == '\n' {
            let rows = s.rows.push(Seq::empty());
            assert(rows.drop_last() =~= s.rows);
            assert(concat_rows(rows) =~= concat_rows(s.rows));
        } else {
            let t = if s.used + cell_width(c.0) > width && s.rows.last().len() > 0 {
                WrapState { rows: s.rows.push(Seq::empty()), used: 0 }
            } else {
                s
            };
            assert(concat_rows(t.rows) == concat_rows(s.rows)) by {
                if t.rows != s.rows {
                    assert(t.rows.drop_last() =~= s.rows);
                    assert(concat_rows(t.rows) =~= concat_rows(s.rows) + Seq::<(char, Style)>::empty());
                }
            }
            let rows = t.rows.update(t.rows.len() - 1, t.rows.last().push(c));
            assert(rows.drop_last() =~= t.rows.drop_last());
            assert(concat_rows(t.rows) == concat_rows(t.rows.drop_last()) + t.rows.last());
            assert(concat_rows(rows) =~= concat_rows(t.rows).push(c));
        }
    }
}

} // verus!
