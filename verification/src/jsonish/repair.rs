//! State-machine-aware repairs of broken JSON syntax.
//!
//! Every pass walks the text once, following whether it is inside a
//! double-quoted string (and after a backslash there); each pass is stated
//! as a function from a position and that state to the rest of the output.
use vstd::prelude::*;
use vstd::string::StringExecFns;
use crate::text::{
    hex_digit, hex_digit_lower, hex_val, hex_val_spec, is_ascii_hexdigit, is_ascii_hexdigit_spec, is_control,
    is_control_spec, is_whitespace, slice_chars, string_from_chars, unicode_white_space,
};

verus! {

/// Output of a pass from some position on, and whether it repaired anything.
pub open spec fn cons(ch: char, rest: (Seq<char>, bool)) -> (Seq<char>, bool) {
    (seq![ch] + rest.0, rest.1)
}

pub open spec fn cons2(a: char, b: char, rest: (Seq<char>, bool)) -> (Seq<char>, bool) {
    (seq![a, b] + rest.0, rest.1)
}

pub open spec fn mark(rest: (Seq<char>, bool)) -> (Seq<char>, bool) {
    (rest.0, true)
}

/// The views of a list of strings.
pub open spec fn views(v: Seq<String>) -> Seq<Seq<char>> {
    v.map_values(|s: String| s@)
}

/// The list of repair notes after optionally adding `msg`.
pub open spec fn note_if(notes: Seq<Seq<char>>, cond: bool, msg: Seq<char>) -> Seq<Seq<char>> {
    if cond { notes.push(msg) } else { notes }
}

pub fn push_note(repairs: &mut Vec<String>, msg: &str)
    ensures
        views(final(repairs)@) == views(old(repairs)@).push(msg@),
{
    repairs.push(String::from_str(msg));
    assert(views(repairs@) =~= views(old(repairs)@).push(msg@));
}

/// First char at or after `j` that is not whitespace.
pub open spec fn next_non_ws(c: Seq<char>, j: int) -> Option<char>
    decreases c.len() - j,
{
    if j < 0 || j >= c.len() {
        None
    } else if !unicode_white_space(c[j]) {
        Some(c[j])
    } else {
        next_non_ws(c, j + 1)
    }
}

/// Index of the first char at or after `j` that is not whitespace (or the length).
pub open spec fn skip_ws(c: Seq<char>, j: int) -> int
    decreases c.len() - j,
{
    if j < 0 || j >= c.len() {
        if j < 0 { j } else { c.len() as int }
    } else if !unicode_white_space(c[j]) {
        j
    } else {
        skip_ws(c, j + 1)
    }
}

pub proof fn lemma_skip_ws(c: Seq<char>, j: int)
    requires
        0 <= j <= c.len(),
    ensures
        j <= skip_ws(c, j) <= c.len(),
        skip_ws(c, j) < c.len() ==> !unicode_white_space(c[skip_ws(c, j)]),
        forall|k: int| j <= k < skip_ws(c, j) ==> unicode_white_space(#[trigger] c[k]),
        next_non_ws(c, j) == if skip_ws(c, j) < c.len() {
            Some(c[skip_ws(c, j)])
        } else {
            None::<char>
        },
    decreases c.len() - j,
{
    if j < c.len() && unicode_white_space(c[j]) {
        lemma_skip_ws(c, j + 1);
    }
}

pub fn exec_skip_ws(c: &[char], j: usize) -> (r: usize)
    requires
        j <= c@.len(),
    ensures
        r == skip_ws(c@, j as int),
{
    let mut k = j;
    proof { lemma_skip_ws(c@, j as int); }
    while k < c.len()
        invariant
            j <= k <= c@.len(),
            skip_ws(c@, k as int) == skip_ws(c@, j as int),
        decreases c.len() - k,
    {
        if !is_whitespace(c[k]) {
            return k;
        }
        k = k + 1;
    }
    k
}

pub fn exec_next_non_ws(c: &[char], j: usize) -> (r: Option<char>)
    requires
        j <= c@.len(),
    ensures
        r == next_non_ws(c@, j as int),
{
    let k = exec_skip_ws(c, j);
    proof { lemma_skip_ws(c@, j as int); }
    if k < c.len() { Some(c[k]) } else { None }
}

// ---------------------------------------------------------------------------
// Trailing comma removal
// ---------------------------------------------------------------------------

pub open spec fn trailing_commas_from(c: Seq<char>, i: int, ins: bool, esc: bool) -> (Seq<char>, bool)
    decreases c.len() - i,
{
    if i < 0 || i >= c.len() {
        (Seq::empty(), false)
    } else {
        let ch = c[i];
        if ins {
            if esc {
                cons(ch, trailing_commas_from(c, i + 1, true, false))
            } else if ch == '\\' {
                cons(ch, trailing_commas_from(c, i + 1, true, true))
            } else if ch == '"' {
                cons(ch, trailing_commas_from(c, i + 1, false, esc))
            } else {
                cons(ch, trailing_commas_from(c, i + 1, true, esc))
            }
        } else if ch == '"' {
            cons(ch, trailing_commas_from(c, i + 1, true, esc))
        } else if ch == ',' && (next_non_ws(c, i + 1) == Some('}') || next_non_ws(c, i + 1) == Some(']')
            || next_non_ws(c, i + 1) == Some(',')) {
            mark(trailing_commas_from(c, i + 1, false, esc))
        } else {
            cons(ch, trailing_commas_from(c, i + 1, false, esc))
        }
    }
}

/// Removes a comma (outside strings) that is followed, after whitespace, by
/// `}`, `]` or another comma.
pub open spec fn remove_trailing_commas_spec(c: Seq<char>) -> (Seq<char>, bool) {
    trailing_commas_from(c, 0, false, false)
}

pub fn remove_trailing_commas(input: &[char], repairs: &mut Vec<String>) -> (r: Vec<char>)
    ensures
        r@ == remove_trailing_commas_spec(input@).0,
        views(final(repairs)@) == note_if(
            views(old(repairs)@),
            remove_trailing_commas_spec(input@).1,
            "removed trailing commas"@,
        ),
{
    let mut out: Vec<char> = Vec::new();
    let mut in_string = false;
    let mut escape = false;
    let mut fixed = false;
    let mut i: usize = 0;
    let ghost total = remove_trailing_commas_spec(input@);
    while i < input.len()
        invariant
            0 <= i <= input@.len(),
            total == remove_trailing_commas_spec(input@),
            total.0 == out@ + trailing_commas_from(input@, i as int, in_string, escape).0,
            total.1 == (fixed || trailing_commas_from(input@, i as int, in_string, escape).1),
            repairs@ == old(repairs)@,
        decreases input.len() - i,
    {
        let ch = input[i];
        let ghost rest = trailing_commas_from(input@, i + 1, false, escape);
        if in_string {
            if escape {
                escape = false;
            } else if ch == '\\' {
                escape = true;
            } else if ch == '"' {
                in_string = false;
            }
            out.push(ch);
            i = i + 1;
        } else if ch == '"' {
            in_string = true;
            out.push(ch);
            i = i + 1;
        } else {
            if ch == ',' {
                let nn = exec_next_non_ws(input, i + 1);
                if nn == Some('}') || nn == Some(']') || nn == Some(',') {
                    fixed = true;
                    i = i + 1;
                    continue;
                }
            }
            out.push(ch);
            i = i + 1;
        }
        assert(total.0 =~= out@ + trailing_commas_from(input@, i as int, in_string, escape).0);
    }
    if fixed {
        push_note(repairs, "removed trailing commas");
    }
    out
}


// ---------------------------------------------------------------------------
// String tracking shared by several passes
// ---------------------------------------------------------------------------

/// Where a closing quote would end the string that starts at `k`
/// (`kesc`: the char before `k` was an escaping backslash): the index just
/// past that quote, or the length when the string never closes.
pub open spec fn string_end_from(c: Seq<char>, k: int, kesc: bool) -> int
    decreases c.len() - k,
{
    if k < 0 || k >= c.len() {
        c.len() as int
    } else if kesc {
        string_end_from(c, k + 1, false)
    } else if c[k] == '\\' {
        string_end_from(c, k + 1, true)
    } else if c[k] == '"' {
        k + 1
    } else {
        string_end_from(c, k + 1, false)
    }
}

pub proof fn lemma_string_end_bounds(c: Seq<char>, k: int, kesc: bool)
    requires
        0 <= k <= c.len(),
    ensures
        k <= string_end_from(c, k, kesc) <= c.len(),
    decreases c.len() - k,
{
    if k < c.len() {
        if kesc || c[k] == '\\' || c[k] != '"' {
            lemma_string_end_bounds(c, k + 1, !kesc && c[k] == '\\');
        }
    }
}

fn exec_string_end(c: &[char], k0: usize) -> (r: usize)
    requires
        k0 <= c@.len(),
    ensures
        r == string_end_from(c@, k0 as int, false),
        k0 <= r <= c@.len(),
{
    let mut k = k0;
    let mut kesc = false;
    proof { lemma_string_end_bounds(c@, k0 as int, false); }
    while k < c.len()
        invariant
            k0 <= k <= c@.len(),
            string_end_from(c@, k as int, kesc) == string_end_from(c@, k0 as int, false),
        decreases c.len() - k,
    {
        if kesc {
            kesc = false;
        } else if c[k] == '\\' {
            kesc = true;
        } else if c[k] == '"' {
            return k + 1;
        }
        k = k + 1;
    }
    k
}

// ---------------------------------------------------------------------------
// Missing comma insertion
// ---------------------------------------------------------------------------

/// After a string closes at `i - 1`: the next non-blank char opens a string
/// that is followed by `:`, so a field separator is missing.
pub open spec fn comma_missing_at(c: Seq<char>, i: int) -> bool {
    let j = skip_ws(c, i);
    &&& j < c.len()
    &&& c[j] == '"'
    &&& skip_ws(c, string_end_from(c, j + 1, false)) < c.len()
    &&& c[skip_ws(c, string_end_from(c, j + 1, false))] == ':'
}

pub open spec fn missing_commas_from(c: Seq<char>, i: int, ins: bool, esc: bool) -> (Seq<char>, bool)
    decreases c.len() - i,
{
    if i < 0 || i >= c.len() {
        (Seq::empty(), false)
    } else {
        let ch = c[i];
        if ins {
            if esc {
                cons(ch, missing_commas_from(c, i + 1, true, false))
            } else if ch == '\\' {
                cons(ch, missing_commas_from(c, i + 1, true, true))
            } else if ch == '"' {
                if comma_missing_at(c, i + 1) {
                    mark(cons2(ch, ',', missing_commas_from(c, i + 1, false, esc)))
                } else {
                    cons(ch, missing_commas_from(c, i + 1, false, esc))
                }
            } else {
                cons(ch, missing_commas_from(c, i + 1, true, esc))
            }
        } else if ch == '"' {
            cons(ch, missing_commas_from(c, i + 1, true, esc))
        } else {
            cons(ch, missing_commas_from(c, i + 1, false, esc))
        }
    }
}

/// Inserts `,` between `"value" "key":` (a string followed by a key).
pub open spec fn insert_missing_commas_spec(c: Seq<char>) -> (Seq<char>, bool) {
    missing_commas_from(c, 0, false, false)
}

pub fn insert_missing_commas(input: &[char], repairs: &mut Vec<String>) -> (r: Vec<char>)
    ensures
        r@ == insert_missing_commas_spec(input@).0,
        views(final(repairs)@) == note_if(
            views(old(repairs)@),
            insert_missing_commas_spec(input@).1,
            "inserted missing commas between fields"@,
        ),
{
    let mut out: Vec<char> = Vec::new();
    let mut in_string = false;
    let mut escape = false;
    let mut fixed = false;
    let mut i: usize = 0;
    let ghost total = insert_missing_commas_spec(input@);
    while i < input.len()
        invariant
            0 <= i <= input@.len(),
            total == insert_missing_commas_spec(input@),
            total.0 == out@ + missing_commas_from(input@, i as int, in_string, escape).0,
            total.1 == (fixed || missing_commas_from(input@, i as int, in_string, escape).1),
            repairs@ == old(repairs)@,
        decreases input.len() - i,
    {
        let ch = input[i];
        if in_string {
            if escape {
                escape = false;
                out.push(ch);
            } else if ch == '\\' {
                escape = true;
                out.push(ch);
            } else if ch == '"' {
                in_string = false;
                out.push(ch);
                let j = exec_skip_ws(input, i + 1);
                proof { lemma_skip_ws(input@, i + 1); }
                if j < input.len() && input[j] == '"' {
                    let k = exec_string_end(input, j + 1);
                    let k2 = exec_skip_ws(input, k);
                    proof { lemma_skip_ws(input@, k as int); }
                    if k2 < input.len() && input[k2] == ':' {
                        out.push(',');
                        fixed = true;
                    }
                }
            } else {
                out.push(ch);
            }
        } else {
            if ch == '"' {
                in_string = true;
            }
            out.push(ch);
        }
        i = i + 1;
        assert(total.0 =~= out@ + missing_commas_from(input@, i as int, in_string, escape).0);
    }
    if fixed {
        push_note(repairs, "inserted missing commas between fields");
    }
    out
}

// ---------------------------------------------------------------------------
// Missing colon insertion
// ---------------------------------------------------------------------------

/// After a key string closes at `i - 1`: the next non-blank char starts a value.
pub open spec fn colon_missing_at(c: Seq<char>, i: int) -> bool {
    let j = skip_ws(c, i);
    &&& j < c.len()
    &&& (c[j] == '"' || c[j] == '{' || c[j] == '[' || ('0' <= c[j] && c[j] <= '9') || c[j] == '-')
}

pub open spec fn missing_colons_from(c: Seq<char>, i: int, ins: bool, esc: bool, ek: bool) -> (Seq<char>, bool)
    decreases c.len() - i,
{
    if i < 0 || i >= c.len() {
        (Seq::empty(), false)
    } else {
        let ch = c[i];
        if ins {
            if esc {
                cons(ch, missing_colons_from(c, i + 1, true, false, ek))
            } else if ch == '\\' {
                cons(ch, missing_colons_from(c, i + 1, true, true, ek))
            } else if ch == '"' {
                if ek && colon_missing_at(c, i + 1) {
                    mark(cons2(ch, ':', missing_colons_from(c, i + 1, false, esc, false)))
                } else {
                    cons(ch, missing_colons_from(c, i + 1, false, esc, false))
                }
            } else {
                cons(ch, missing_colons_from(c, i + 1, true, esc, ek))
            }
        } else if ch == '"' {
            cons(ch, missing_colons_from(c, i + 1, true, esc, ek))
        } else if ch == '{' || ch == ',' {
            cons(ch, missing_colons_from(c, i + 1, false, esc, true))
        } else if ch == ':' || ch == '}' || ch == ']' {
            cons(ch, missing_colons_from(c, i + 1, false, esc, false))
        } else {
            cons(ch, missing_colons_from(c, i + 1, false, esc, ek))
        }
    }
}

/// Inserts `:` between a key string (after `{` or `,`) and a value that
/// directly follows it.
pub open spec fn insert_missing_colons_spec(c: Seq<char>) -> (Seq<char>, bool) {
    missing_colons_from(c, 0, false, false, false)
}

pub fn insert_missing_colons(input: &[char], repairs: &mut Vec<String>) -> (r: Vec<char>)
    ensures
        r@ == insert_missing_colons_spec(input@).0,
        views(final(repairs)@) == note_if(
            views(old(repairs)@),
            insert_missing_colons_spec(input@).1,
            "inserted missing colons"@,
        ),
{
    let mut out: Vec<char> = Vec::new();
    let mut in_string = false;
    let mut escape = false;
    let mut fixed = false;
    let mut expect_key = false;
    let mut i: usize = 0;
    let ghost total = insert_missing_colons_spec(input@);
    while i < input.len()
        invariant
            0 <= i <= input@.len(),
            total == insert_missing_colons_spec(input@),
            total.0 == out@ + missing_colons_from(input@, i as int, in_string, escape, expect_key).0,
            total.1 == (fixed || missing_colons_from(input@, i as int, in_string, escape, expect_key).1),
            repairs@ == old(repairs)@,
        decreases input.len() - i,
    {
        let ch = input[i];
        if in_string {
            if escape {
                escape = false;
                out.push(ch);
            } else if ch == '\\' {
                escape = true;
                out.push(ch);
            } else if ch == '"' {
                in_string = false;
                out.push(ch);
                if expect_key {
                    let j = exec_skip_ws(input, i + 1);
                    proof { lemma_skip_ws(input@, i + 1); }
                    if j < input.len() && (input[j] == '"' || input[j] == '{' || input[j] == '['
                        || ('0' <= input[j] && input[j] <= '9') || input[j] == '-') {
                        out.push(':');
                        fixed = true;
                    }
                    expect_key = false;
                }
            } else {
                out.push(ch);
            }
        } else {
            if ch == '"' {
                in_string = true;
            } else if ch == '{' || ch == ',' {
                expect_key = true;
            } else if ch == ':' || ch == '}' || ch == ']' {
                expect_key = false;
            }
            out.push(ch);
        }
        i = i + 1;
        assert(total.0 =~= out@ + missing_colons_from(input@, i as int, in_string, escape, expect_key).0);
    }
    if fixed {
        push_note(repairs, "inserted missing colons");
    }
    out
}

// ---------------------------------------------------------------------------
// Line ending normalization
// ---------------------------------------------------------------------------

pub open spec fn line_endings_from(c: Seq<char>, i: int, ins: bool, esc: bool) -> (Seq<char>, bool)
    decreases c.len() - i,
{
    if i < 0 || i >= c.len() {
        (Seq::empty(), false)
    } else {
        let ch = c[i];
        if ins {
            if esc {
                cons(ch, line_endings_from(c, i + 1, true, false))
            } else if ch == '\\' {
                cons(ch, line_endings_from(c, i + 1, true, true))
            } else if ch == '"' {
                cons(ch, line_endings_from(c, i + 1, false, esc))
            } else if ch == '\r' {
                if i + 1 < c.len() && c[i + 1] == '\n' {
                    line_endings_from(c, i + 1, true, esc)
                } else {
                    mark(cons('\n', line_endings_from(c, i + 1, true, esc)))
                }
            } else {
                cons(ch, line_endings_from(c, i + 1, true, esc))
            }
        } else if ch == '"' {
            cons(ch, line_endings_from(c, i + 1, true, esc))
        } else {
            cons(ch, line_endings_from(c, i + 1, false, esc))
        }
    }
}

/// Inside strings, `\r\n` becomes `\n` and a lone `\r` becomes `\n`.
pub open spec fn normalize_line_endings_spec(c: Seq<char>) -> (Seq<char>, bool) {
    if !c.contains('\r') {
        (c, false)
    } else {
        line_endings_from(c, 0, false, false)
    }
}

pub fn contains_char(c: &[char], x: char) -> (r: bool)
    ensures
        r == c@.contains(x),
{
    let mut i: usize = 0;
    while i < c.len()
        invariant
            0 <= i <= c@.len(),
            forall|k: int| 0 <= k < i ==> c@[k] != x,
        decreases c.len() - i,
    {
        if c[i] == x {
            return true;
        }
        i = i + 1;
    }
    false
}

pub fn normalize_line_endings(input: &[char], repairs: &mut Vec<String>) -> (r: Vec<char>)
    ensures
        r@ == normalize_line_endings_spec(input@).0,
        views(final(repairs)@) == note_if(
            views(old(repairs)@),
            normalize_line_endings_spec(input@).1,
            "normalized line endings in strings"@,
        ),
{
    if !contains_char(input, '\r') {
        let r = slice_chars(input, 0, input.len());
        assert(input@.subrange(0, input@.len() as int) =~= input@);
        return r;
    }
    let mut out: Vec<char> = Vec::new();
    let mut in_string = false;
    let mut escape = false;
    let mut fixed = false;
    let mut i: usize = 0;
    let ghost total = normalize_line_endings_spec(input@);
    while i < input.len()
        invariant
            0 <= i <= input@.len(),
            input@.contains('\r'),
            total == normalize_line_endings_spec(input@),
            total.0 == out@ + line_endings_from(input@, i as int, in_string, escape).0,
            total.1 == (fixed || line_endings_from(input@, i as int, in_string, escape).1),
            repairs@ == old(repairs)@,
        decreases input.len() - i,
    {
        let ch = input[i];
        if in_string {
            if escape {
                escape = false;
                out.push(ch);
            } else if ch == '\\' {
                escape = true;
                out.push(ch);
            } else if ch == '"' {
                in_string = false;
                out.push(ch);
            } else if ch == '\r' {
                if i + 1 < input.len() && input[i + 1] == '\n' {
                } else {
                    out.push('\n');
                    fixed = true;
                }
            } else {
                out.push(ch);
            }
        } else {
            if ch == '"' {
                in_string = true;
            }
            out.push(ch);
        }
        i = i + 1;
        assert(total.0 =~= out@ + line_endings_from(input@, i as int, in_string, escape).0);
    }
    if fixed {
        push_note(repairs, "normalized line endings in strings");
    }
    out
}


// ---------------------------------------------------------------------------
// Unclosed string repair
// ---------------------------------------------------------------------------

/// One char of string tracking: (inside a string, after a backslash there).
pub open spec fn str_step(st: (bool, bool), ch: char) -> (bool, bool) {
    if st.0 {
        if st.1 {
            (true, false)
        } else if ch == '\\' {
            (true, true)
        } else if ch == '"' {
            (false, st.1)
        } else {
            st
        }
    } else if ch == '"' {
        (true, st.1)
    } else {
        st
    }
}

/// String tracking over `s`, starting from `st`.
pub open spec fn str_run(st: (bool, bool), s: Seq<char>) -> (bool, bool)
    decreases s.len(),
{
    if s.len() == 0 {
        st
    } else {
        str_run(str_step(st, s[0]), s.drop_first())
    }
}

/// Whether the text ends inside a string, and after a backslash there.
pub open spec fn str_state(c: Seq<char>) -> (bool, bool) {
    str_run((false, false), c)
}

pub proof fn lemma_str_run_push(st: (bool, bool), s: Seq<char>, ch: char)
    ensures
        str_run(st, s.push(ch)) == str_step(str_run(st, s), ch),
    decreases s.len(),
{
    assert(s.push(ch)[0] == if s.len() == 0 { ch } else { s[0] });
    if s.len() == 0 {
        assert(s.push(ch).drop_first() =~= Seq::<char>::empty());
        assert(str_run(str_step(st, ch), Seq::<char>::empty()) == str_step(st, ch));
        assert(str_run(st, s) == st);
    } else {
        lemma_str_run_push(str_step(st, s[0]), s.drop_first(), ch);
        assert(s.push(ch).drop_first() =~= s.drop_first().push(ch));
    }
}

/// Number of backslashes at the end of the text.
pub open spec fn trailing_backslashes(c: Seq<char>) -> nat
    decreases c.len(),
{
    if c.len() == 0 || c.last() != '\\' {
        0
    } else {
        1 + trailing_backslashes(c.drop_last())
    }
}

/// Closes a string left open at the end; an unpaired final backslash would
/// escape the added quote, so it is dropped first.
pub open spec fn repair_unclosed_strings_spec(c: Seq<char>) -> (Seq<char>, bool) {
    if str_state(c).0 {
        let base = if trailing_backslashes(c) % 2 == 1 { c.drop_last() } else { c };
        (base.push('"'), true)
    } else {
        (c, false)
    }
}

pub fn repair_unclosed_strings(input: &[char], repairs: &mut Vec<String>) -> (r: Vec<char>)
    ensures
        r@ == repair_unclosed_strings_spec(input@).0,
        views(final(repairs)@) == note_if(
            views(old(repairs)@),
            repair_unclosed_strings_spec(input@).1,
            "closed unclosed string"@,
        ),
{
    let mut in_string = false;
    let mut escape = false;
    let mut i: usize = 0;
    while i < input.len()
        invariant
            0 <= i <= input@.len(),
            str_run((false, false), input@.take(i as int)) == (in_string, escape),
        decreases input.len() - i,
    {
        proof {
            lemma_str_run_push((false, false), input@.take(i as int), input@[i as int]);
            assert(input@.take(i as int).push(input@[i as int]) =~= input@.take(i + 1));
        }
        let ch = input[i];
        if in_string {
            if escape {
                escape = false;
            } else if ch == '\\' {
                escape = true;
            } else if ch == '"' {
                in_string = false;
            }
        } else if ch == '"' {
            in_string = true;
        }
        i = i + 1;
    }
    assert(input@.take(input@.len() as int) =~= input@);
    let mut out = slice_chars(input, 0, input.len());
    assert(input@.subrange(0, input@.len() as int) =~= input@);
    if in_string {
        let mut n: usize = 0;
        let mut k = input.len();
        while k > 0 && input[k - 1] == '\\'
            invariant
                0 <= k <= input@.len(),
                n + k == input@.len(),
                trailing_backslashes(input@) == n + trailing_backslashes(input@.take(k as int)),
            decreases k,
        {
            assert(input@.take(k as int).drop_last() =~= input@.take(k - 1));
            k = k - 1;
            n = n + 1;
        }
        assert(trailing_backslashes(input@.take(k as int)) == 0);
        if n % 2 == 1 {
            out.pop();
        }
        out.push('"');
        push_note(repairs, "closed unclosed string");
    }
    out
}

/// Inside a string, "after a backslash" is exactly an odd run of trailing
/// backslashes; outside strings it never holds.
proof fn lemma_escape_parity(c: Seq<char>)
    ensures
        str_state(c).0 ==> (str_state(c).1 <==> trailing_backslashes(c) % 2 == 1),
        !str_state(c).0 ==> !str_state(c).1,
        str_state(c).0 && trailing_backslashes(c) > 0 ==> trailing_backslashes(c) < c.len(),
    decreases c.len(),
{
    if c.len() > 0 {
        let p = c.drop_last();
        lemma_escape_parity(p);
        lemma_str_run_push((false, false), p, c.last());
        assert(p.push(c.last()) =~= c);
        if c.last() == '\\' && trailing_backslashes(p) > 0 {
            assert(p.len() > 0);
        }
    }
}

/// Law: after the unclosed-string repair the text no longer ends inside a
/// string.
pub proof fn lemma_repair_unclosed_closes(c: Seq<char>)
    ensures
        !str_state(repair_unclosed_strings_spec(c).0).0,
{
    lemma_escape_parity(c);
    if str_state(c).0 {
        let base = if trailing_backslashes(c) % 2 == 1 { c.drop_last() } else { c };
        if trailing_backslashes(c) % 2 == 1 {
            let p = c.drop_last();
            lemma_str_run_push((false, false), p, c.last());
            assert(p.push(c.last()) =~= c);
            lemma_escape_parity(p);
            assert(trailing_backslashes(p) + 1 == trailing_backslashes(c));
            assert(str_state(p).0);
        }
        assert(str_state(base).0 && !str_state(base).1);
        lemma_str_run_push((false, false), base, '"');
    }
}

// ---------------------------------------------------------------------------
// Bracket balancing
// ---------------------------------------------------------------------------

/// Removes the last occurrence of `x`, if any.
pub open spec fn remove_last_of(s: Seq<char>, x: char) -> Seq<char>
    decreases s.len(),
{
    if s.len() == 0 {
        s
    } else if s.last() == x {
        s.drop_last()
    } else {
        remove_last_of(s.drop_last(), x).push(s.last())
    }
}

/// One char of bracket tracking: string state and the stack of openers.
pub open spec fn bal_step(st: (bool, bool, Seq<char>), ch: char) -> (bool, bool, Seq<char>) {
    if st.0 {
        if st.1 {
            (true, false, st.2)
        } else if ch == '\\' {
            (true, true, st.2)
        } else if ch == '"' {
            (false, st.1, st.2)
        } else {
            st
        }
    } else if ch == '"' {
        (true, st.1, st.2)
    } else if ch == '{' || ch == '[' {
        (st.0, st.1, st.2.push(ch))
    } else if ch == '}' {
        (st.0, st.1, remove_last_of(st.2, '{'))
    } else if ch == ']' {
        (st.0, st.1, remove_last_of(st.2, '['))
    } else {
        st
    }
}

pub open spec fn bal_run(st: (bool, bool, Seq<char>), s: Seq<char>) -> (bool, bool, Seq<char>)
    decreases s.len(),
{
    if s.len() == 0 {
        st
    } else {
        bal_run(bal_step(st, s[0]), s.drop_first())
    }
}

pub open spec fn bal_state(c: Seq<char>) -> (bool, bool, Seq<char>) {
    bal_run((false, false, Seq::empty()), c)
}

pub open spec fn closer(ch: char) -> char {
    if ch == '{' { '}' } else { ']' }
}

/// Closers for a stack of openers, innermost first.
pub open spec fn closers_of(stack: Seq<char>) -> Seq<char>
    decreases stack.len(),
{
    if stack.len() == 0 {
        Seq::empty()
    } else {
        seq![closer(stack.last())] + closers_of(stack.drop_last())
    }
}

/// Appends the closers of every bracket left open (outside strings), in
/// reverse nesting order, with the note naming the open brackets.
pub open spec fn balance_brackets_spec(c: Seq<char>) -> (Seq<char>, Option<Seq<char>>) {
    let stack = bal_state(c).2;
    if stack.len() == 0 {
        (c, None)
    } else {
        (c + closers_of(stack), Some("balanced brackets (unclosed: "@ + stack + ")"@))
    }
}

pub proof fn lemma_bal_run_concat(st: (bool, bool, Seq<char>), a: Seq<char>, b: Seq<char>)
    ensures
        bal_run(bal_run(st, a), b) == bal_run(st, a + b),
    decreases a.len(),
{
    if a.len() == 0 {
        assert(a + b =~= b);
    } else {
        lemma_bal_run_concat(bal_step(st, a[0]), a.drop_first(), b);
        assert((a + b).drop_first() =~= a.drop_first() + b);
    }
}

proof fn lemma_remove_last_of_index(s: Seq<char>, x: char, p: int)
    requires
        0 <= p < s.len(),
        s[p] == x,
        forall|k: int| p < k < s.len() ==> s[k] != x,
    ensures
        remove_last_of(s, x) == s.remove(p),
    decreases s.len(),
{
    if s.last() == x {
        assert(p == s.len() - 1);
        assert(s.drop_last() =~= s.remove(p));
    } else {
        lemma_remove_last_of_index(s.drop_last(), x, p);
        assert(s.drop_last().remove(p).push(s.last()) =~= s.remove(p));
    }
}

proof fn lemma_remove_last_of_absent(s: Seq<char>, x: char)
    requires
        forall|k: int| 0 <= k < s.len() ==> s[k] != x,
    ensures
        remove_last_of(s, x) == s,
    decreases s.len(),
{
    if s.len() > 0 {
        lemma_remove_last_of_absent(s.drop_last(), x);
        assert(s.drop_last().push(s.last()) =~= s);
    }
}

/// Removes the last occurrence of `x` from the stack.
fn pop_last_of(stack: &mut Vec<char>, x: char)
    ensures
        final(stack)@ == remove_last_of(old(stack)@, x),
{
    let mut k = stack.len();
    while k > 0
        invariant
            0 <= k <= stack@.len(),
            stack@ == old(stack)@,
            forall|j: int| k <= j < stack@.len() ==> stack@[j] != x,
        decreases k,
    {
        if stack[k - 1] == x {
            proof { lemma_remove_last_of_index(stack@, x, k - 1); }
            stack.remove(k - 1);
            return;
        }
        k = k - 1;
    }
    proof { lemma_remove_last_of_absent(stack@, x); }
}

pub fn balance_brackets_stateful(input: &[char], repairs: &mut Vec<String>) -> (r: Vec<char>)
    ensures
        r@ == balance_brackets_spec(input@).0,
        views(final(repairs)@) == match balance_brackets_spec(input@).1 {
            Some(msg) => views(old(repairs)@).push(msg),
            None => views(old(repairs)@),
        },
{
    let mut stack: Vec<char> = Vec::new();
    let mut in_string = false;
    let mut escape = false;
    let mut i: usize = 0;
    let ghost total = bal_state(input@);
    assert(input@.skip(0) =~= input@);
    while i < input.len()
        invariant
            0 <= i <= input@.len(),
            total == bal_state(input@),
            total == bal_run((in_string, escape, stack@), input@.skip(i as int)),
        decreases input.len() - i,
    {
        let ch = input[i];
        proof {
            assert(input@.skip(i as int).drop_first() =~= input@.skip(i + 1));
        }
        if in_string {
            if escape {
                escape = false;
            } else if ch == '\\' {
                escape = true;
            } else if ch == '"' {
                in_string = false;
            }
        } else if ch == '"' {
            in_string = true;
        } else if ch == '{' || ch == '[' {
            stack.push(ch);
        } else if ch == '}' {
            pop_last_of(&mut stack, '{');
        } else if ch == ']' {
            pop_last_of(&mut stack, '[');
        }
        i = i + 1;
    }
    assert(input@.skip(0) =~= input@);
    let mut out = slice_chars(input, 0, input.len());
    assert(input@.subrange(0, input@.len() as int) =~= input@);
    if stack.len() == 0 {
        return out;
    }
    let ghost base = out@;
    let mut k = stack.len();
    assert(stack@.take(k as int) =~= stack@);
    while k > 0
        invariant
            0 <= k <= stack@.len(),
            out@ + closers_of(stack@.take(k as int)) == base + closers_of(stack@),
        decreases k,
    {
        let opener = stack[k - 1];
        proof {
            let t = stack@.take(k as int);
            assert(t.drop_last() =~= stack@.take(k - 1));
            assert(t.last() == opener);
        }
        if opener == '{' {
            out.push('}');
        } else {
            out.push(']');
        }
        k = k - 1;
        assert(out@ + closers_of(stack@.take(k as int)) =~= base + closers_of(stack@));
    }
    assert(out@ =~= base + closers_of(stack@));
    let mut msg = String::from_str("balanced brackets (unclosed: ");
    let stack_text = string_from_chars(&stack);
    msg.append(stack_text.as_str());
    msg.append(")");
    repairs.push(msg);
    assert(views(repairs@) =~= views(old(repairs)@).push(msg@));
    out
}

proof fn lemma_closers_balance(st: Seq<char>)
    requires
        forall|k: int| 0 <= k < st.len() ==> st[k] == '{' || st[k] == '[',
    ensures
        bal_run((false, false, st), closers_of(st)) == (false, false, Seq::<char>::empty()),
    decreases st.len(),
{
    if st.len() == 0 {
    } else {
        let rest = closers_of(st.drop_last());
        assert(closers_of(st) == seq![closer(st.last())] + rest);
        assert((seq![closer(st.last())] + rest).drop_first() =~= rest);
        assert(remove_last_of(st, st.last()) == st.drop_last());
        lemma_closers_balance(st.drop_last());
    }
}

proof fn lemma_bal_stack_openers(st: (bool, bool, Seq<char>), s: Seq<char>)
    requires
        forall|k: int| 0 <= k < st.2.len() ==> st.2[k] == '{' || st.2[k] == '[',
        !st.0 ==> !st.1,
    ensures
        forall|k: int| 0 <= k < bal_run(st, s).2.len() ==> bal_run(st, s).2[k] == '{' || bal_run(st, s).2[k] == '[',
        !bal_run(st, s).0 ==> !bal_run(st, s).1,
    decreases s.len(),
{
    if s.len() > 0 {
        let nx = bal_step(st, s[0]);
        if !st.0 && (s[0] == '}' || s[0] == ']') {
            lemma_remove_last_of_subset(st.2, if s[0] == '}' { '{' } else { '[' });
        }
        lemma_bal_stack_openers(nx, s.drop_first());
    }
}

proof fn lemma_remove_last_of_subset(s: Seq<char>, x: char)
    ensures
        forall|k: int| 0 <= k < remove_last_of(s, x).len() ==> s.contains(#[trigger] remove_last_of(s, x)[k]),
    decreases s.len(),
{
    if s.len() > 0 && s.last() != x {
        lemma_remove_last_of_subset(s.drop_last(), x);
        let r = remove_last_of(s.drop_last(), x);
        assert forall|k: int| 0 <= k < r.push(s.last()).len() implies s.contains(#[trigger] r.push(s.last())[k]) by {
            if k < r.len() {
                let w = choose|w: int| 0 <= w < s.drop_last().len() && s.drop_last()[w] == r[k];
                assert(s[w] == r[k]);
            } else {
                assert(s[s.len() - 1] == s.last());
            }
        }
    } else if s.len() > 0 {
        assert forall|k: int| 0 <= k < s.drop_last().len() implies s.contains(#[trigger] s.drop_last()[k]) by {
            assert(s[k] == s.drop_last()[k]);
        }
    }
}

/// Law: when the text does not end inside a string, balancing leaves no
/// bracket open, so balancing again changes nothing.
pub proof fn lemma_balance_closes_all(c: Seq<char>)
    requires
        !bal_state(c).0,
    ensures
        bal_state(balance_brackets_spec(c).0).2.len() == 0,
        balance_brackets_spec(balance_brackets_spec(c).0) == (balance_brackets_spec(c).0, None::<Seq<char>>),
{
    let st = bal_state(c);
    lemma_bal_stack_openers((false, false, Seq::empty()), c);
    if st.2.len() > 0 {
        lemma_bal_run_concat((false, false, Seq::empty()), c, closers_of(st.2));
        lemma_closers_balance(st.2);
        assert(st == (false, false, st.2));
    }
}


// ---------------------------------------------------------------------------
// Aggressive close of truncated input
// ---------------------------------------------------------------------------

/// Length of the text without its trailing whitespace, looking at the first `n` chars.
pub open spec fn rtrim_len(c: Seq<char>, n: int) -> int
    decreases n,
{
    if n <= 0 || n > c.len() {
        if n <= 0 { 0 } else { rtrim_len(c, c.len() as int) }
    } else if unicode_white_space(c[n - 1]) {
        rtrim_len(c, n - 1)
    } else {
        n
    }
}

pub proof fn lemma_rtrim_len(c: Seq<char>, n: int)
    requires
        0 <= n <= c.len(),
    ensures
        0 <= rtrim_len(c, n) <= n,
        rtrim_len(c, n) > 0 ==> !unicode_white_space(c[rtrim_len(c, n) - 1]),
        forall|k: int| rtrim_len(c, n) <= k < n ==> unicode_white_space(#[trigger] c[k]),
    decreases n,
{
    if n > 0 && unicode_white_space(c[n - 1]) {
        lemma_rtrim_len(c, n - 1);
    }
}

/// The text without trailing whitespace (`str::trim_end`).
pub open spec fn trim_end_spec(c: Seq<char>) -> Seq<char> {
    c.take(rtrim_len(c, c.len() as int))
}

pub fn trim_end_len(c: &[char]) -> (r: usize)
    ensures
        r == rtrim_len(c@, c@.len() as int),
{
    let mut n = c.len();
    while n > 0 && is_whitespace(c[n - 1])
        invariant
            0 <= n <= c@.len(),
            rtrim_len(c@, n as int) == rtrim_len(c@, c@.len() as int),
        decreases n,
    {
        n = n - 1;
    }
    n
}

/// Length after removing every trailing `x` (`trim_end_matches`).
pub open spec fn strip_trailing_len(c: Seq<char>, n: int, x: char) -> int
    decreases n,
{
    if n <= 0 || n > c.len() {
        0
    } else if c[n - 1] == x {
        strip_trailing_len(c, n - 1, x)
    } else {
        n
    }
}

/// Finalization of truncated input: a dangling `:` gets `null`, dangling
/// commas and an unfinished escape are dropped; trailing whitespace goes
/// unless the text already ends with `}` or `]`.
pub open spec fn aggressive_close_spec(c: Seq<char>) -> (Seq<char>, Option<Seq<char>>) {
    let t = trim_end_spec(c);
    if t.len() > 0 && (t.last() == '}' || t.last() == ']') {
        (c, None)
    } else if t.len() == 0 {
        (t, None)
    } else if t.last() == ':' {
        (t + "null"@, Some("added null for truncated value"@))
    } else if t.last() == ',' {
        (t.take(strip_trailing_len(t, t.len() as int, ',')), Some("removed dangling comma"@))
    } else if t.last() == '\\' {
        (t.drop_last(), Some("removed truncated escape sequence"@))
    } else {
        (t, None)
    }
}

pub fn aggressive_close(input: &[char], repairs: &mut Vec<String>) -> (r: Vec<char>)
    ensures
        r@ == aggressive_close_spec(input@).0,
        views(final(repairs)@) == match aggressive_close_spec(input@).1 {
            Some(msg) => views(old(repairs)@).push(msg),
            None => views(old(repairs)@),
        },
{
    let n = trim_end_len(input);
    proof { lemma_rtrim_len(input@, input@.len() as int); }
    if n > 0 && (input[n - 1] == '}' || input[n - 1] == ']') {
        let r = slice_chars(input, 0, input.len());
        assert(input@.subrange(0, input@.len() as int) =~= input@);
        return r;
    }
    let mut t = slice_chars(input, 0, n);
    assert(t@ =~= trim_end_spec(input@));
    if n == 0 {
        return t;
    }
    let last = input[n - 1];
    if last == ':' {
        t.push('n');
        t.push('u');
        t.push('l');
        t.push('l');
        proof {
            reveal_strlit("null");
        }
        assert(t@ =~= trim_end_spec(input@) + "null"@);
        push_note(repairs, "added null for truncated value");
        t
    } else if last == ',' {
        let mut m = n;
        while m > 0 && t[m - 1] == ','
            invariant
                0 <= m <= n,
                t@.len() == n,
                strip_trailing_len(t@, m as int, ',') == strip_trailing_len(t@, n as int, ','),
            decreases m,
        {
            m = m - 1;
        }
        let r = slice_chars(&t, 0, m);
        push_note(repairs, "removed dangling comma");
        r
    } else if last == '\\' {
        t.pop();
        push_note(repairs, "removed truncated escape sequence");
        t
    } else {
        t
    }
}

// ---------------------------------------------------------------------------
// Single quote conversion
// ---------------------------------------------------------------------------

pub open spec fn single_quotes_from(c: Seq<char>, i: int, dq: bool, sq: bool, esc: bool) -> (Seq<char>, bool)
    decreases c.len() - i,
{
    if i < 0 || i >= c.len() {
        (Seq::empty(), false)
    } else {
        let ch = c[i];
        if esc {
            cons(ch, single_quotes_from(c, i + 1, dq, sq, false))
        } else if ch == '\\' {
            cons(ch, single_quotes_from(c, i + 1, dq, sq, true))
        } else if !dq && !sq {
            if ch == '\'' {
                mark(cons('"', single_quotes_from(c, i + 1, dq, true, esc)))
            } else if ch == '"' {
                cons(ch, single_quotes_from(c, i + 1, true, sq, esc))
            } else {
                cons(ch, single_quotes_from(c, i + 1, dq, sq, esc))
            }
        } else if sq {
            if ch == '\'' {
                cons('"', single_quotes_from(c, i + 1, dq, false, esc))
            } else if ch == '"' {
                cons2('\\', '"', single_quotes_from(c, i + 1, dq, sq, esc))
            } else {
                cons(ch, single_quotes_from(c, i + 1, dq, sq, esc))
            }
        } else if ch == '"' {
            cons(ch, single_quotes_from(c, i + 1, false, sq, esc))
        } else {
            cons(ch, single_quotes_from(c, i + 1, dq, sq, esc))
        }
    }
}

/// Single-quoted strings become double-quoted; a double quote inside them is escaped.
pub open spec fn convert_single_quotes_spec(c: Seq<char>) -> (Seq<char>, bool) {
    single_quotes_from(c, 0, false, false, false)
}

pub fn convert_single_quotes(input: &[char], repairs: &mut Vec<String>) -> (r: Vec<char>)
    ensures
        r@ == convert_single_quotes_spec(input@).0,
        views(final(repairs)@) == note_if(
            views(old(repairs)@),
            convert_single_quotes_spec(input@).1,
            "converted single quotes to double quotes"@,
        ),
{
    let mut out: Vec<char> = Vec::new();
    let mut in_double = false;
    let mut in_single = false;
    let mut escape = false;
    let mut converted = false;
    let mut i: usize = 0;
    let ghost total = convert_single_quotes_spec(input@);
    while i < input.len()
        invariant
            0 <= i <= input@.len(),
            total == convert_single_quotes_spec(input@),
            total.0 == out@ + single_quotes_from(input@, i as int, in_double, in_single, escape).0,
            total.1 == (converted || single_quotes_from(input@, i as int, in_double, in_single, escape).1),
            repairs@ == old(repairs)@,
        decreases input.len() - i,
    {
        let ch = input[i];
        if escape {
            escape = false;
            out.push(ch);
        } else if ch == '\\' {
            escape = true;
            out.push(ch);
        } else if !in_double && !in_single {
            if ch == '\'' {
                out.push('"');
                in_single = true;
                converted = true;
            } else if ch == '"' {
                in_double = true;
                out.push(ch);
            } else {
                out.push(ch);
            }
        } else if in_single {
            if ch == '\'' {
                out.push('"');
                in_single = false;
            } else if ch == '"' {
                out.push('\\');
                out.push('"');
            } else {
                out.push(ch);
            }
        } else {
            if ch == '"' {
                in_double = false;
            }
            out.push(ch);
        }
        i = i + 1;
        assert(total.0 =~= out@ + single_quotes_from(input@, i as int, in_double, in_single, escape).0);
    }
    if converted {
        push_note(repairs, "converted single quotes to double quotes");
    }
    out
}


// ---------------------------------------------------------------------------
// Control characters and escape sequences inside strings
// ---------------------------------------------------------------------------

pub open spec fn is_simple_escape(ch: char) -> bool {
    ch == '"' || ch == '\\' || ch == '/' || ch == 'b' || ch == 'f' || ch == 'n' || ch == 'r' || ch == 't'
}

pub open spec fn hex4_at(c: Seq<char>, j: int) -> bool {
    &&& 0 <= j && j + 3 < c.len()
    &&& is_ascii_hexdigit_spec(c[j])
    &&& is_ascii_hexdigit_spec(c[j + 1])
    &&& is_ascii_hexdigit_spec(c[j + 2])
    &&& is_ascii_hexdigit_spec(c[j + 3])
}

pub open spec fn hex4_val(c: Seq<char>, j: int) -> nat {
    hex_val_spec(c[j]) * 4096 + hex_val_spec(c[j + 1]) * 256 + hex_val_spec(c[j + 2]) * 16
        + hex_val_spec(c[j + 3])
}

/// Number of hex digits at `j`, at most `limit`.
pub open spec fn hex_run(c: Seq<char>, j: int, limit: nat) -> nat
    decreases limit,
{
    if limit == 0 || j < 0 || j >= c.len() || !is_ascii_hexdigit_spec(c[j]) {
        0
    } else {
        1 + hex_run(c, j + 1, (limit - 1) as nat)
    }
}

pub open spec fn zeros(n: nat) -> Seq<char> {
    Seq::new(n, |k: int| '0')
}

pub open spec fn replacement_escape() -> Seq<char> {
    seq!['\\', 'u', 'F', 'F', 'F', 'D']
}

/// The escape written for a raw control char inside a string.
pub open spec fn control_escape(ch: char) -> Seq<char> {
    if ch == '\n' {
        seq!['\\', 'n']
    } else if ch == '\r' {
        seq!['\\', 'r']
    } else if ch == '\t' {
        seq!['\\', 't']
    } else if ch == '\x08' {
        seq!['\\', 'b']
    } else if ch == '\x0C' {
        seq!['\\', 'f']
    } else {
        seq!['\\', 'u', '0', '0', hex_digit_lower((ch as u32 / 16) as nat), hex_digit_lower((ch as u32 % 16) as nat)]
    }
}

pub open spec fn pre(p: Seq<char>, rest: (Seq<char>, bool)) -> (Seq<char>, bool) {
    (p + rest.0, rest.1)
}

pub open spec fn escapes_from(c: Seq<char>, i: int, ins: bool) -> (Seq<char>, bool)
    decreases c.len() - i,
{
    if i < 0 || i >= c.len() {
        (Seq::empty(), false)
    } else {
        let ch = c[i];
        if ins {
            if ch == '\\' {
                if i + 1 < c.len() {
                    let nx = c[i + 1];
                    if is_simple_escape(nx) {
                        cons2('\\', nx, escapes_from(c, i + 2, true))
                    } else if nx == 'u' {
                        if i + 5 < c.len() && hex4_at(c, i + 2) {
                            let code = hex4_val(c, i + 2);
                            if 0xD800 <= code && code <= 0xDBFF {
                                if i + 11 < c.len() && c[i + 6] == '\\' && c[i + 7] == 'u' {
                                    pre(c.subrange(i, i + 12), escapes_from(c, i + 12, true))
                                } else {
                                    mark(pre(replacement_escape(), escapes_from(c, i + 6, true)))
                                }
                            } else if 0xDC00 <= code && code <= 0xDFFF {
                                mark(pre(replacement_escape(), escapes_from(c, i + 6, true)))
                            } else {
                                pre(c.subrange(i, i + 6), escapes_from(c, i + 6, true))
                            }
                        } else {
                            let h = hex_run(c, i + 2, 4);
                            proof {
                                lemma_hex_run_bound(c, i + 2, 4);
                            }
                            mark(pre(
                                seq!['\\', 'u'] + c.subrange(i + 2, i + 2 + h) + zeros((4 - h) as nat),
                                escapes_from(c, i + 2 + h, true),
                            ))
                        }
                    } else {
                        mark(cons2('\\', '\\', escapes_from(c, i + 1, true)))
                    }
                } else {
                    mark(cons2('\\', '\\', escapes_from(c, i + 1, true)))
                }
            } else if ch == '"' {
                cons(ch, escapes_from(c, i + 1, false))
            } else if is_control_spec(ch) {
                mark(pre(control_escape(ch), escapes_from(c, i + 1, true)))
            } else {
                cons(ch, escapes_from(c, i + 1, true))
            }
        } else if ch == '"' {
            cons(ch, escapes_from(c, i + 1, true))
        } else {
            cons(ch, escapes_from(c, i + 1, false))
        }
    }
}

/// Inside strings: raw control chars are escaped, invalid escapes get their
/// backslash doubled, truncated `\u` escapes are padded with zeros and lone
/// surrogates become U+FFFD.
pub open spec fn escape_control_chars_spec(c: Seq<char>) -> (Seq<char>, bool) {
    escapes_from(c, 0, false)
}

pub proof fn lemma_hex_run_bound(c: Seq<char>, j: int, limit: nat)
    requires
        0 <= j <= c.len(),
    ensures
        hex_run(c, j, limit) <= limit,
        j + hex_run(c, j, limit) <= c.len(),
        forall|k: int| j <= k < j + hex_run(c, j, limit) ==> is_ascii_hexdigit_spec(#[trigger] c[k]),
        j + hex_run(c, j, limit) < c.len() && hex_run(c, j, limit) < limit ==> !is_ascii_hexdigit_spec(
            c[j + hex_run(c, j, limit)],
        ),
    decreases limit,
{
    if limit > 0 && j < c.len() && is_ascii_hexdigit_spec(c[j]) {
        lemma_hex_run_bound(c, j + 1, (limit - 1) as nat);
    }
}

#[verifier::spinoff_prover]
#[verifier::rlimit(60)]
pub fn escape_control_chars_in_strings(input: &[char], repairs: &mut Vec<String>) -> (r: Vec<char>)
    ensures
        r@ == escape_control_chars_spec(input@).0,
        views(final(repairs)@) == note_if(
            views(old(repairs)@),
            escape_control_chars_spec(input@).1,
            "escaped control characters / fixed escape sequences in strings"@,
        ),
{
    let mut out: Vec<char> = Vec::new();
    let mut in_string = false;
    let mut fixed = false;
    let mut i: usize = 0;
    let n = input.len();
    let ghost total = escape_control_chars_spec(input@);
    while i < n
        invariant
            n == input@.len(),
            0 <= i <= n,
            total == escape_control_chars_spec(input@),
            total.0 == out@ + escapes_from(input@, i as int, in_string).0,
            total.1 == (fixed || escapes_from(input@, i as int, in_string).1),
            repairs@ == old(repairs)@,
        decreases n - i,
    {
        let ch = input[i];
        let ghost old_out = out@;
        let ghost old_i = i;
        if in_string {
            if ch == '\\' {
                if n - i > 1 {
                    let nx = input[i + 1];
                    if nx == '"' || nx == '\\' || nx == '/' || nx == 'b' || nx == 'f' || nx == 'n'
                        || nx == 'r' || nx == 't' {
                        out.push('\\');
                        out.push(nx);
                        i = i + 2;
                    } else if nx == 'u' {
                        if n - i > 5 && is_ascii_hexdigit(input[i + 2]) && is_ascii_hexdigit(input[i + 3])
                            && is_ascii_hexdigit(input[i + 4]) && is_ascii_hexdigit(input[i + 5]) {
                            let code = hex_val(input[i + 2]) * 4096 + hex_val(input[i + 3]) * 256
                                + hex_val(input[i + 4]) * 16 + hex_val(input[i + 5]);
                            if 0xD800 <= code && code <= 0xDBFF {
                                if n - i > 11 && input[i + 6] == '\\' && input[i + 7] == 'u' {
                                    let mut j: usize = 0;
                                    while j < 12
                                        invariant
                                            i + 11 < n,
                                            n == input@.len(),
                                            0 <= j <= 12,
                                            out@ == old_out + input@.subrange(i as int, i + j),
                                        decreases 12 - j,
                                    {
                                        out.push(input[i + j]);
                                        j = j + 1;
                                        assert(out@ =~= old_out + input@.subrange(i as int, i + j));
                                    }
                                    i = i + 12;
                                } else {
                                    out.push('\\');
                                    out.push('u');
                                    out.push('F');
                                    out.push('F');
                                    out.push('F');
                                    out.push('D');
                                    i = i + 6;
                                    fixed = true;
                                }
                            } else if 0xDC00 <= code && code <= 0xDFFF {
                                out.push('\\');
                                out.push('u');
                                out.push('F');
                                out.push('F');
                                out.push('F');
                                out.push('D');
                                i = i + 6;
                                fixed = true;
                            } else {
                                let mut j: usize = 0;
                                while j < 6
                                    invariant
                                        i + 5 < n,
                                        n == input@.len(),
                                        0 <= j <= 6,
                                        out@ == old_out + input@.subrange(i as int, i + j),
                                    decreases 6 - j,
                                {
                                    out.push(input[i + j]);
                                    j = j + 1;
                                    assert(out@ =~= old_out + input@.subrange(i as int, i + j));
                                }
                                i = i + 6;
                            }
                        } else {
                            proof { lemma_hex_run_bound(input@, i + 2, 4); }
                            out.push('\\');
                            out.push('u');
                            let mut h: usize = 0;
                            let ghost mid = out@;
                            while i + 2 + h < n && h < 4 && is_ascii_hexdigit(input[i + 2 + h])
                                invariant
                                    i + 1 < n,
                                    n == input@.len(),
                                    0 <= h <= 4,
                                    i + 2 + h <= n,
                                    hex_run(input@, i + 2 + h, (4 - h) as nat) + h == hex_run(input@, i + 2, 4),
                                    out@ == mid + input@.subrange(i + 2, i + 2 + h),
                                decreases 4 - h,
                            {
                                out.push(input[i + 2 + h]);
                                h = h + 1;
                                assert(out@ =~= mid + input@.subrange(i + 2, i + 2 + h));
                            }
                            let ghost mid2 = out@;
                            let mut z: usize = h;
                            while z < 4
                                invariant
                                    h <= z <= 4,
                                    out@ == mid2 + zeros((z - h) as nat),
                                decreases 4 - z,
                            {
                                out.push('0');
                                z = z + 1;
                                assert(out@ =~= mid2 + zeros((z - h) as nat));
                            }
                            i = i + 2 + h;
                            fixed = true;
                            assert(out@ =~= old_out + (seq!['\\', 'u'] + input@.subrange(old_i + 2, old_i + 2 + hex_run(input@, old_i + 2, 4)) + zeros((4 - hex_run(input@, old_i + 2, 4)) as nat)));
                        }
                    } else {
                        out.push('\\');
                        out.push('\\');
                        i = i + 1;
                        fixed = true;
                    }
                } else {
                    out.push('\\');
                    out.push('\\');
                    i = i + 1;
                    fixed = true;
                }
            } else if ch == '"' {
                in_string = false;
                out.push(ch);
                i = i + 1;
            } else if is_control(ch) {
                if ch == '\n' {
                    out.push('\\');
                    out.push('n');
                } else if ch == '\r' {
                    out.push('\\');
                    out.push('r');
                } else if ch == '\t' {
                    out.push('\\');
                    out.push('t');
                } else if ch == '\x08' {
                    out.push('\\');
                    out.push('b');
                } else if ch == '\x0C' {
                    out.push('\\');
                    out.push('f');
                } else {
                    let v = ch as u32;
                    out.push('\\');
                    out.push('u');
                    out.push('0');
                    out.push('0');
                    out.push(hex_digit(v / 16));
                    out.push(hex_digit(v % 16));
                }
                fixed = true;
                i = i + 1;
            } else {
                out.push(ch);
                i = i + 1;
            }
        } else {
            if ch == '"' {
                in_string = true;
            }
            out.push(ch);
            i = i + 1;
        }
        assert(total.0 =~= out@ + escapes_from(input@, i as int, in_string).0);
    }
    if fixed {
        push_note(repairs, "escaped control characters / fixed escape sequences in strings");
    }
    out
}

} // verus!
