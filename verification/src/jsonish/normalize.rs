//! Conversion of non-standard JSON-like syntax to JSON: comments, Python
//! literals, special numbers, unquoted keys, hex numbers and `+` signs.
use vstd::prelude::*;
use crate::jsonish::repair::{cons, skip_ws, lemma_skip_ws, exec_skip_ws, views, note_if, push_note};
use crate::text::{
    decimal, hex_val, hex_val_spec, is_alphabetic, is_alphanumeric, is_ascii_digit,
    is_ascii_digit_spec, is_ascii_hexdigit, is_ascii_hexdigit_spec, is_whitespace, chars_of,
    chars_eq, lemma_utf8_len_bounds, lemma_utf8_len_concat, lemma_utf8_len_push, matches_at, push_all,
    slice_chars, starts_with_at, u64_decimal, unicode_alphabetic, unicode_alphanumeric,
    unicode_white_space, utf8_len, utf8_width,
};

verus! {

pub open spec fn pre1(p: Seq<char>, rest: Seq<char>) -> Seq<char> {
    p + rest
}

// ---------------------------------------------------------------------------
// Comments
// ---------------------------------------------------------------------------

/// Where scanning for the end of a block comment stops: past `*/`, or at the
/// last char when none is found (the scan needs two chars).
pub open spec fn block_comment_end(c: Seq<char>, j: int) -> int
    decreases c.len() - j,
{
    if j < 0 || j + 1 >= c.len() {
        j
    } else if c[j] == '*' && c[j + 1] == '/' {
        j + 2
    } else {
        block_comment_end(c, j + 1)
    }
}

pub proof fn lemma_block_comment_end(c: Seq<char>, j: int)
    requires
        0 <= j,
    ensures
        j <= block_comment_end(c, j),
        j <= c.len() ==> block_comment_end(c, j) <= c.len(),
    decreases c.len() - j,
{
    if j + 1 < c.len() && !(c[j] == '*' && c[j + 1] == '/') {
        lemma_block_comment_end(c, j + 1);
    }
}

/// First newline at or after `j`, or the length.
pub open spec fn newline_from(c: Seq<char>, j: int) -> int
    decreases c.len() - j,
{
    if j < 0 || j >= c.len() {
        if j < 0 { j } else { c.len() as int }
    } else if c[j] == '\n' {
        j
    } else {
        newline_from(c, j + 1)
    }
}

pub proof fn lemma_newline_from(c: Seq<char>, j: int)
    requires
        0 <= j <= c.len(),
    ensures
        j <= newline_from(c, j) <= c.len(),
        newline_from(c, j) < c.len() ==> c[newline_from(c, j)] == '\n',
    decreases c.len() - j,
{
    if j < c.len() && c[j] != '\n' {
        lemma_newline_from(c, j + 1);
    }
}

fn exec_block_comment_end(c: &[char], j0: usize) -> (r: usize)
    requires
        j0 <= c@.len(),
    ensures
        r == block_comment_end(c@, j0 as int),
        j0 <= r <= c@.len(),
{
    let n = c.len();
    let mut j = j0;
    proof { lemma_block_comment_end(c@, j0 as int); }
    while n - j > 1
        invariant
            n == c@.len(),
            j0 <= j <= n,
            block_comment_end(c@, j as int) == block_comment_end(c@, j0 as int),
        decreases n - j,
    {
        if c[j] == '*' && c[j + 1] == '/' {
            return j + 2;
        }
        j = j + 1;
    }
    j
}

fn exec_newline_from(c: &[char], j0: usize) -> (r: usize)
    requires
        j0 <= c@.len(),
    ensures
        r == newline_from(c@, j0 as int),
        j0 <= r <= c@.len(),
        r < c@.len() ==> c@[r as int] == '\n',
{
    let mut j = j0;
    proof { lemma_newline_from(c@, j0 as int); }
    while j < c.len() && c[j] != '\n'
        invariant
            j0 <= j <= c@.len(),
            newline_from(c@, j as int) == newline_from(c@, j0 as int),
        decreases c.len() - j,
    {
        j = j + 1;
    }
    j
}

pub open spec fn comments_from(c: Seq<char>, i: int, ins: bool, esc: bool) -> Seq<char>
    decreases c.len() - i,
{
    if i < 0 || i >= c.len() {
        Seq::empty()
    } else {
        let ch = c[i];
        if ins {
            if esc {
                seq![ch] + comments_from(c, i + 1, true, false)
            } else if ch == '\\' {
                seq![ch] + comments_from(c, i + 1, true, true)
            } else if ch == '"' {
                seq![ch] + comments_from(c, i + 1, false, esc)
            } else {
                seq![ch] + comments_from(c, i + 1, true, esc)
            }
        } else if ch == '"' {
            seq![ch] + comments_from(c, i + 1, true, esc)
        } else if ch == '/' && i + 1 < c.len() && c[i + 1] == '*' {
            let e = block_comment_end(c, i + 2);
            proof {
                lemma_block_comment_end(c, i + 2);
            }
            if e >= c.len() {
                Seq::empty()
            } else {
                seq![' '] + comments_from(c, e, false, esc)
            }
        } else if ch == '/' && i + 1 < c.len() && c[i + 1] == '/' {
            let e = newline_from(c, i + 2);
            proof {
                lemma_newline_from(c, i + 2);
            }
            if e < c.len() {
                seq!['\n'] + comments_from(c, e + 1, false, esc)
            } else {
                Seq::empty()
            }
        } else {
            seq![ch] + comments_from(c, i + 1, false, esc)
        }
    }
}

/// JavaScript-style comments outside strings are dropped: a block comment
/// becomes one space, a line comment keeps its newline.
pub open spec fn strip_comments_spec(c: Seq<char>) -> Seq<char> {
    comments_from(c, 0, false, false)
}

pub fn strip_comments(input: &[char]) -> (r: Vec<char>)
    ensures
        r@ == strip_comments_spec(input@),
{
    let mut out: Vec<char> = Vec::new();
    let n = input.len();
    let mut i: usize = 0;
    let mut in_string = false;
    let mut escape = false;
    let ghost total = strip_comments_spec(input@);
    while i < n
        invariant
            n == input@.len(),
            0 <= i <= n,
            total == strip_comments_spec(input@),
            total == out@ + comments_from(input@, i as int, in_string, escape),
        decreases n - i,
    {
        let ch = input[i];
        if in_string {
            if escape {
                escape = false;
            } else if ch == '\\' {
                escape = true;
            } else if ch == '"' {
                in_string = false;
            }
            out.push(ch);
            i = i + 1;
        } else if ch == '"' {
            in_string = true;
            out.push(ch);
            i = i + 1;
        } else if ch == '/' && n - i > 1 && input[i + 1] == '*' {
            i = exec_block_comment_end(input, i + 2);
            if i < n {
                out.push(' ');
            } else {
                assert(total =~= out@);
            }
        } else if ch == '/' && n - i > 1 && input[i + 1] == '/' {
            i = exec_newline_from(input, i + 2);
            if i < n {
                out.push('\n');
                i = i + 1;
            } else {
                assert(total =~= out@);
            }
        } else {
            out.push(ch);
            i = i + 1;
        }
        assert(total =~= out@ + comments_from(input@, i as int, in_string, escape));
    }
    assert(total =~= out@);
    out
}


// ---------------------------------------------------------------------------
// Shared string tracking for the token rewrites
// ---------------------------------------------------------------------------

/// One char inside a string: (still inside, after a backslash).
pub open spec fn in_string_step(esc: bool, ch: char) -> (bool, bool) {
    if esc {
        (true, false)
    } else if ch == '\\' {
        (true, true)
    } else if ch == '"' {
        (false, esc)
    } else {
        (true, esc)
    }
}

fn exec_in_string_step(esc: bool, ch: char) -> (r: (bool, bool))
    ensures
        r == in_string_step(esc, ch),
{
    if esc {
        (true, false)
    } else if ch == '\\' {
        (true, true)
    } else if ch == '"' {
        (false, esc)
    } else {
        (true, esc)
    }
}

fn is_word_char(c: char) -> (r: bool)
    ensures
        r == unicode_alphanumeric(c),
{
    is_alphanumeric(c)
}

// ---------------------------------------------------------------------------
// Python literals
// ---------------------------------------------------------------------------

pub open spec fn python_literal_at(c: Seq<char>, i: int) -> Option<(int, Seq<char>)> {
    if matches_at(c, i, seq!['T', 'r', 'u', 'e']) {
        Some((4, seq!['t', 'r', 'u', 'e']))
    } else if matches_at(c, i, seq!['F', 'a', 'l', 's', 'e']) {
        Some((5, seq!['f', 'a', 'l', 's', 'e']))
    } else if matches_at(c, i, seq!['N', 'o', 'n', 'e']) {
        Some((4, seq!['n', 'u', 'l', 'l']))
    } else {
        None
    }
}

/// `True`, `False` or `None` at position `i`: its length and its JSON form.
pub fn match_python_literal(s: &[char], i: usize) -> (r: Option<(usize, Vec<char>)>)
    ensures
        match r {
            Some((n, json)) => python_literal_at(s@, i as int) == Some((n as int, json@)),
            None => python_literal_at(s@, i as int) is None,
        },
{
    let t = vec!['T', 'r', 'u', 'e'];
    let f = vec!['F', 'a', 'l', 's', 'e'];
    let nn = vec!['N', 'o', 'n', 'e'];
    assert(t@ =~= seq!['T', 'r', 'u', 'e']);
    assert(f@ =~= seq!['F', 'a', 'l', 's', 'e']);
    assert(nn@ =~= seq!['N', 'o', 'n', 'e']);
    if starts_with_at(s, i, &t) {
        let j = vec!['t', 'r', 'u', 'e'];
        assert(j@ =~= seq!['t', 'r', 'u', 'e']);
        Some((4, j))
    } else if starts_with_at(s, i, &f) {
        let j = vec!['f', 'a', 'l', 's', 'e'];
        assert(j@ =~= seq!['f', 'a', 'l', 's', 'e']);
        Some((5, j))
    } else if starts_with_at(s, i, &nn) {
        let j = vec!['n', 'u', 'l', 'l'];
        assert(j@ =~= seq!['n', 'u', 'l', 'l']);
        Some((4, j))
    } else {
        None
    }
}

pub open spec fn python_literals_from(c: Seq<char>, i: int, ins: bool, esc: bool) -> Seq<char>
    decreases c.len() - i,
{
    if i < 0 || i >= c.len() {
        Seq::empty()
    } else {
        let ch = c[i];
        if ins {
            let st = in_string_step(esc, ch);
            seq![ch] + python_literals_from(c, i + 1, st.0, st.1)
        } else if ch == '"' {
            seq![ch] + python_literals_from(c, i + 1, true, esc)
        } else {
            match python_literal_at(c, i) {
                Some((n, json)) => {
                    if (i == 0 || !unicode_alphanumeric(c[i - 1])) && (i + n >= c.len()
                        || !unicode_alphanumeric(c[i + n])) {
                        json + python_literals_from(c, i + n, false, esc)
                    } else {
                        seq![ch] + python_literals_from(c, i + 1, false, esc)
                    }
                },
                None => seq![ch] + python_literals_from(c, i + 1, false, esc),
            }
        }
    }
}

/// Python `True`/`False`/`None` standing alone outside strings become
/// `true`/`false`/`null`.
pub open spec fn replace_python_literals_spec(c: Seq<char>) -> Seq<char> {
    python_literals_from(c, 0, false, false)
}

pub fn replace_python_literals(input: &[char]) -> (r: Vec<char>)
    ensures
        r@ == replace_python_literals_spec(input@),
{
    let mut out: Vec<char> = Vec::new();
    let n = input.len();
    let mut i: usize = 0;
    let mut in_string = false;
    let mut escape = false;
    let ghost total = replace_python_literals_spec(input@);
    while i < n
        invariant
            n == input@.len(),
            0 <= i <= n,
            total == replace_python_literals_spec(input@),
            total == out@ + python_literals_from(input@, i as int, in_string, escape),
        decreases n - i,
    {
        let ch = input[i];
        if in_string {
            let st = exec_in_string_step(escape, ch);
            in_string = st.0;
            escape = st.1;
            out.push(ch);
            i = i + 1;
        } else if ch == '"' {
            in_string = true;
            out.push(ch);
            i = i + 1;
        } else {
            let m = match_python_literal(input, i);
            let mut done = false;
            if let Some((len, json)) = m {
                let prev_ok = i == 0 || !is_word_char(input[i - 1]);
                let next_ok = n - i <= len || !is_word_char(input[i + len]);
                if prev_ok && next_ok {
                    push_all(&mut out, &json);
                    i = i + len;
                    done = true;
                }
            }
            if !done {
                out.push(ch);
                i = i + 1;
            }
        }
        assert(total =~= out@ + python_literals_from(input@, i as int, in_string, escape));
    }
    out
}

// ---------------------------------------------------------------------------
// Infinity / NaN
// ---------------------------------------------------------------------------

pub open spec fn word_end_ok(c: Seq<char>, k: int) -> bool {
    k >= c.len() || !unicode_alphanumeric(c[k])
}

pub open spec fn neg_infinity() -> Seq<char> {
    seq!['-', 'I', 'n', 'f', 'i', 'n', 'i', 't', 'y']
}

pub open spec fn infinity() -> Seq<char> {
    seq!['I', 'n', 'f', 'i', 'n', 'i', 't', 'y']
}

pub open spec fn nan() -> Seq<char> {
    seq!['N', 'a', 'N']
}

pub open spec fn json_null() -> Seq<char> {
    seq!['n', 'u', 'l', 'l']
}

pub open spec fn special_numbers_from(c: Seq<char>, i: int, ins: bool, esc: bool) -> Seq<char>
    decreases c.len() - i,
{
    if i < 0 || i >= c.len() {
        Seq::empty()
    } else {
        let ch = c[i];
        if ins {
            let st = in_string_step(esc, ch);
            seq![ch] + special_numbers_from(c, i + 1, st.0, st.1)
        } else if ch == '"' {
            seq![ch] + special_numbers_from(c, i + 1, true, esc)
        } else if matches_at(c, i, neg_infinity()) && word_end_ok(c, i + 9) {
            json_null() + special_numbers_from(c, i + 9, false, esc)
        } else if matches_at(c, i, infinity()) && word_end_ok(c, i + 8) {
            json_null() + special_numbers_from(c, i + 8, false, esc)
        } else if matches_at(c, i, nan()) && word_end_ok(c, i + 3) {
            json_null() + special_numbers_from(c, i + 3, false, esc)
        } else {
            seq![ch] + special_numbers_from(c, i + 1, false, esc)
        }
    }
}

/// `Infinity`, `-Infinity` and `NaN` (not followed by a letter or digit)
/// outside strings become `null`.
pub open spec fn replace_special_numbers_spec(c: Seq<char>) -> Seq<char> {
    special_numbers_from(c, 0, false, false)
}

fn word_ends_at(c: &[char], k: usize) -> (r: bool)
    ensures
        r == word_end_ok(c@, k as int),
{
    k >= c.len() || !is_word_char(c[k])
}

fn push_null(out: &mut Vec<char>)
    ensures
        final(out)@ == old(out)@ + json_null(),
{
    out.push('n');
    out.push('u');
    out.push('l');
    out.push('l');
    assert(out@ =~= old(out)@ + json_null());
}

pub fn replace_special_numbers(input: &[char]) -> (r: Vec<char>)
    ensures
        r@ == replace_special_numbers_spec(input@),
{
    let mut out: Vec<char> = Vec::new();
    let n = input.len();
    let mut i: usize = 0;
    let mut in_string = false;
    let mut escape = false;
    let ghost total = replace_special_numbers_spec(input@);
    let ni = vec!['-', 'I', 'n', 'f', 'i', 'n', 'i', 't', 'y'];
    let inf = vec!['I', 'n', 'f', 'i', 'n', 'i', 't', 'y'];
    let na = vec!['N', 'a', 'N'];
    assert(ni@ =~= neg_infinity());
    assert(inf@ =~= infinity());
    assert(na@ =~= nan());
    while i < n
        invariant
            n == input@.len(),
            0 <= i <= n,
            ni@ == neg_infinity(),
            inf@ == infinity(),
            na@ == nan(),
            total == replace_special_numbers_spec(input@),
            total == out@ + special_numbers_from(input@, i as int, in_string, escape),
        decreases n - i,
    {
        let ch = input[i];
        if in_string {
            let st = exec_in_string_step(escape, ch);
            in_string = st.0;
            escape = st.1;
            out.push(ch);
            i = i + 1;
        } else if ch == '"' {
            in_string = true;
            out.push(ch);
            i = i + 1;
        } else if starts_with_at(input, i, &ni) && word_ends_at(input, i + 9) {
            push_null(&mut out);
            i = i + 9;
        } else if starts_with_at(input, i, &inf) && word_ends_at(input, i + 8) {
            push_null(&mut out);
            i = i + 8;
        } else if starts_with_at(input, i, &na) && word_ends_at(input, i + 3) {
            push_null(&mut out);
            i = i + 3;
        } else {
            out.push(ch);
            i = i + 1;
        }
        assert(total =~= out@ + special_numbers_from(input@, i as int, in_string, escape));
    }
    out
}


// ---------------------------------------------------------------------------
// Unquoted keys
// ---------------------------------------------------------------------------

pub open spec fn ident_start(ch: char) -> bool {
    unicode_alphabetic(ch) || ch == '_' || ch == '$'
}

pub open spec fn ident_char(ch: char) -> bool {
    unicode_alphanumeric(ch) || ch == '_' || ch == '$'
}

/// End of the identifier that starts at `j`.
pub open spec fn ident_end(c: Seq<char>, j: int) -> int
    decreases c.len() - j,
{
    if j < 0 || j >= c.len() || !ident_char(c[j]) {
        if j < 0 { j } else if j >= c.len() { c.len() as int } else { j }
    } else {
        ident_end(c, j + 1)
    }
}

pub proof fn lemma_ident_end(c: Seq<char>, j: int)
    requires
        0 <= j <= c.len(),
    ensures
        j <= ident_end(c, j) <= c.len(),
    decreases c.len() - j,
{
    if j < c.len() && ident_char(c[j]) {
        lemma_ident_end(c, j + 1);
    }
}

pub open spec fn unquoted_keys_from(c: Seq<char>, i: int, ins: bool, esc: bool) -> Seq<char>
    decreases c.len() - i,
{
    if i < 0 || i >= c.len() {
        Seq::empty()
    } else {
        let ch = c[i];
        if ins {
            let st = in_string_step(esc, ch);
            seq![ch] + unquoted_keys_from(c, i + 1, st.0, st.1)
        } else if ch == '"' {
            seq![ch] + unquoted_keys_from(c, i + 1, true, esc)
        } else if ch == '{' || ch == ',' {
            let j = skip_ws(c, i + 1);
            proof {
                lemma_skip_ws(c, i + 1);
            }
            let ws = c.subrange(i + 1, j);
            if j < c.len() && ident_start(c[j]) {
                let e = ident_end(c, j);
                proof {
                    lemma_ident_end(c, j);
                }
                let key = c.subrange(j, e);
                let k = skip_ws(c, e);
                proof {
                    lemma_skip_ws(c, e);
                }
                if k < c.len() && c[k] == ':' {
                    seq![ch] + ws + seq!['"'] + key + seq!['"'] + c.subrange(e, k)
                        + unquoted_keys_from(c, k, false, esc)
                } else {
                    // not a key: the identifier goes out as it is
                    seq![ch] + ws + key + unquoted_keys_from(c, e, false, esc)
                }
            } else {
                seq![ch] + ws + unquoted_keys_from(c, j, false, esc)
            }
        } else {
            seq![ch] + unquoted_keys_from(c, i + 1, false, esc)
        }
    }
}

/// After `{` or `,` (outside strings), an identifier followed by `:` gets quoted.
pub open spec fn quote_unquoted_keys_spec(c: Seq<char>) -> Seq<char> {
    unquoted_keys_from(c, 0, false, false)
}

fn is_ident_start(ch: char) -> (r: bool)
    ensures
        r == ident_start(ch),
{
    is_alphabetic(ch) || ch == '_' || ch == '$'
}

fn is_ident_char(ch: char) -> (r: bool)
    ensures
        r == ident_char(ch),
{
    is_alphanumeric(ch) || ch == '_' || ch == '$'
}

/// The output for a `{` or `,` at `i` (outside strings) and where scanning resumes.
fn unquoted_key_step(input: &[char], i: usize, Ghost(esc): Ghost<bool>) -> (r: (Vec<char>, usize))
    requires
        i < input@.len(),
        input@[i as int] == '{' || input@[i as int] == ',',
    ensures
        i < r.1 <= input@.len(),
        unquoted_keys_from(input@, i as int, false, esc)
            == r.0@ + unquoted_keys_from(input@, r.1 as int, false, esc),
{
    let n = input.len();
    let ch = input[i];
    let mut out: Vec<char> = Vec::new();
    out.push(ch);
    let j = exec_skip_ws(input, i + 1);
    proof { lemma_skip_ws(input@, i + 1); }
    let ws = slice_chars(input, i + 1, j);
    push_all(&mut out, &ws);
    if j < n && is_ident_start(input[j]) {
        let mut e = j;
        proof { lemma_ident_end(input@, j as int); }
        while e < n && is_ident_char(input[e])
            invariant
                n == input@.len(),
                j <= e <= n,
                ident_end(input@, e as int) == ident_end(input@, j as int),
            decreases n - e,
        {
            e = e + 1;
        }
        let key = slice_chars(input, j, e);
        let k = exec_skip_ws(input, e);
        proof { lemma_skip_ws(input@, e as int); }
        if k < n && input[k] == ':' {
            out.push('"');
            push_all(&mut out, &key);
            out.push('"');
            let gap = slice_chars(input, e, k);
            push_all(&mut out, &gap);
            assert(unquoted_keys_from(input@, i as int, false, esc)
                =~= out@ + unquoted_keys_from(input@, k as int, false, esc));
            (out, k)
        } else {
            push_all(&mut out, &key);
            assert(unquoted_keys_from(input@, i as int, false, esc)
                =~= out@ + unquoted_keys_from(input@, e as int, false, esc));
            (out, e)
        }
    } else {
        assert(unquoted_keys_from(input@, i as int, false, esc)
            =~= out@ + unquoted_keys_from(input@, j as int, false, esc));
        (out, j)
    }
}

pub fn quote_unquoted_keys(input: &[char]) -> (r: Vec<char>)
    ensures
        r@ == quote_unquoted_keys_spec(input@),
{
    let mut out: Vec<char> = Vec::new();
    let n = input.len();
    let mut i: usize = 0;
    let mut in_string = false;
    let mut escape = false;
    let ghost total = quote_unquoted_keys_spec(input@);
    while i < n
        invariant
            n == input@.len(),
            0 <= i <= n,
            total == quote_unquoted_keys_spec(input@),
            total == out@ + unquoted_keys_from(input@, i as int, in_string, escape),
        decreases n - i,
    {
        let ch = input[i];
        if in_string {
            let st = exec_in_string_step(escape, ch);
            in_string = st.0;
            escape = st.1;
            out.push(ch);
            i = i + 1;
        } else if ch == '"' {
            in_string = true;
            out.push(ch);
            i = i + 1;
        } else if ch == '{' || ch == ',' {
            let (chunk, nxt) = unquoted_key_step(input, i, Ghost(escape));
            push_all(&mut out, &chunk);
            i = nxt;
        } else {
            out.push(ch);
            i = i + 1;
        }
        assert(total =~= out@ + unquoted_keys_from(input@, i as int, in_string, escape));
    }
    out
}

// ---------------------------------------------------------------------------
// Hexadecimal numbers
// ---------------------------------------------------------------------------

/// End of the run of hex digits starting at `j`.
pub open spec fn hex_digits_end(c: Seq<char>, j: int) -> int
    decreases c.len() - j,
{
    if j < 0 || j >= c.len() || !is_ascii_hexdigit_spec(c[j]) {
        if j < 0 { j } else if j >= c.len() { c.len() as int } else { j }
    } else {
        hex_digits_end(c, j + 1)
    }
}

pub proof fn lemma_hex_digits_end(c: Seq<char>, j: int)
    requires
        0 <= j <= c.len(),
    ensures
        j <= hex_digits_end(c, j) <= c.len(),
    decreases c.len() - j,
{
    if j < c.len() && is_ascii_hexdigit_spec(c[j]) {
        lemma_hex_digits_end(c, j + 1);
    }
}

/// Value of the hex digits `c[a..b]`.
pub open spec fn hex_value(c: Seq<char>, a: int, b: int) -> nat
    decreases b - a,
{
    if b <= a {
        0
    } else {
        hex_value(c, a, b - 1) * 16 + hex_val_spec(c[b - 1])
    }
}

pub open spec fn hex_numbers_from(c: Seq<char>, i: int, ins: bool, esc: bool) -> Seq<char>
    decreases c.len() - i,
{
    if i < 0 || i >= c.len() {
        Seq::empty()
    } else {
        let ch = c[i];
        if ins {
            let st = in_string_step(esc, ch);
            seq![ch] + hex_numbers_from(c, i + 1, st.0, st.1)
        } else if ch == '"' {
            seq![ch] + hex_numbers_from(c, i + 1, true, esc)
        } else if ch == '0' && i + 1 < c.len() && (c[i + 1] == 'x' || c[i + 1] == 'X') {
            let e = hex_digits_end(c, i + 2);
            proof {
                lemma_hex_digits_end(c, i + 2);
            }
            if e > i + 2 && hex_value(c, i + 2, e) <= u64::MAX {
                decimal(hex_value(c, i + 2, e)) + hex_numbers_from(c, e, false, esc)
            } else {
                seq![ch] + hex_numbers_from(c, i + 1, false, esc)
            }
        } else {
            seq![ch] + hex_numbers_from(c, i + 1, false, esc)
        }
    }
}

/// `0x…` numbers outside strings become decimal, when they fit in 64 bits.
pub open spec fn convert_hex_numbers_spec(c: Seq<char>) -> Seq<char> {
    hex_numbers_from(c, 0, false, false)
}

proof fn lemma_hex_value_mono(c: Seq<char>, a: int, b: int, d: int)
    requires
        a <= b <= d,
    ensures
        hex_value(c, a, b) <= hex_value(c, a, d),
    decreases d - b,
{
    if b < d {
        lemma_hex_value_mono(c, a, b, d - 1);
    }
}

/// Value of `c[a..b]` when it fits in a `u64` (`u64::from_str_radix(.., 16)`).
fn parse_hex(c: &[char], a: usize, b: usize) -> (r: Option<u64>)
    requires
        a <= b <= c@.len(),
    ensures
        match r {
            Some(v) => v == hex_value(c@, a as int, b as int),
            None => hex_value(c@, a as int, b as int) > u64::MAX,
        },
{
    let mut acc: u64 = 0;
    let mut k = a;
    while k < b
        invariant
            a <= k <= b <= c@.len(),
            acc == hex_value(c@, a as int, k as int),
        decreases b - k,
    {
        let d = hex_val(c[k]) as u64;
        if acc > (u64::MAX - d) / 16 {
            proof {
                assert(hex_value(c@, a as int, k + 1) == acc * 16 + d);
                assert(acc * 16 + d > u64::MAX) by (nonlinear_arith)
                    requires acc > (u64::MAX - d) / 16, d < 16;
                lemma_hex_value_mono(c@, a as int, k + 1, b as int);
            }
            return None;
        }
        proof {
            assert(acc * 16 + d <= u64::MAX) by (nonlinear_arith)
                requires acc <= (u64::MAX - d) / 16, d < 16;
        }
        acc = acc * 16 + d;
        k = k + 1;
    }
    Some(acc)
}

pub fn convert_hex_numbers(input: &[char]) -> (r: Vec<char>)
    ensures
        r@ == convert_hex_numbers_spec(input@),
{
    let mut out: Vec<char> = Vec::new();
    let n = input.len();
    let mut i: usize = 0;
    let mut in_string = false;
    let mut escape = false;
    let ghost total = convert_hex_numbers_spec(input@);
    while i < n
        invariant
            n == input@.len(),
            0 <= i <= n,
            total == convert_hex_numbers_spec(input@),
            total == out@ + hex_numbers_from(input@, i as int, in_string, escape),
        decreases n - i,
    {
        let ch = input[i];
        let mut done = false;
        if in_string {
            let st = exec_in_string_step(escape, ch);
            in_string = st.0;
            escape = st.1;
        } else if ch == '"' {
            in_string = true;
        } else if ch == '0' && n - i > 1 && (input[i + 1] == 'x' || input[i + 1] == 'X') {
            let hs = i + 2;
            let mut he = hs;
            proof { lemma_hex_digits_end(input@, hs as int); }
            while he < n && is_ascii_hexdigit(input[he])
                invariant
                    n == input@.len(),
                    hs <= he <= n,
                    hex_digits_end(input@, he as int) == hex_digits_end(input@, hs as int),
                decreases n - he,
            {
                he = he + 1;
            }
            if he > hs {
                if let Some(val) = parse_hex(input, hs, he) {
                    let digits = u64_decimal(val);
                    push_all(&mut out, &digits);
                    i = he;
                    done = true;
                }
            }
        }
        if !done {
            out.push(ch);
            i = i + 1;
        }
        assert(total =~= out@ + hex_numbers_from(input@, i as int, in_string, escape));
    }
    out
}

// ---------------------------------------------------------------------------
// Plus prefix
// ---------------------------------------------------------------------------

/// Last char before `i` that is not whitespace.
pub open spec fn last_non_ws_before(c: Seq<char>, i: int) -> Option<char>
    decreases i,
{
    if i <= 0 || i > c.len() {
        None
    } else if !unicode_white_space(c[i - 1]) {
        Some(c[i - 1])
    } else {
        last_non_ws_before(c, i - 1)
    }
}

pub open spec fn plus_droppable(c: Seq<char>, i: int) -> bool {
    let p = last_non_ws_before(c, i);
    ||| p == Some(':')
    ||| p == Some(',')
    ||| p == Some('[')
    ||| p is None
    ||| (i > 0 && unicode_white_space(c[i - 1]))
}

pub open spec fn plus_prefix_from(c: Seq<char>, i: int, ins: bool, esc: bool) -> Seq<char>
    decreases c.len() - i,
{
    if i < 0 || i >= c.len() {
        Seq::empty()
    } else {
        let ch = c[i];
        if ins {
            let st = in_string_step(esc, ch);
            seq![ch] + plus_prefix_from(c, i + 1, st.0, st.1)
        } else if ch == '"' {
            seq![ch] + plus_prefix_from(c, i + 1, true, esc)
        } else if ch == '+' && i + 1 < c.len() && is_ascii_digit_spec(c[i + 1]) && plus_droppable(c, i) {
            plus_prefix_from(c, i + 1, false, esc)
        } else {
            seq![ch] + plus_prefix_from(c, i + 1, false, esc)
        }
    }
}

/// A `+` before a digit, after `:`, `,`, `[`, the start or whitespace, is dropped.
pub open spec fn strip_plus_prefix_spec(c: Seq<char>) -> Seq<char> {
    plus_prefix_from(c, 0, false, false)
}

fn exec_last_non_ws_before(c: &[char], i: usize) -> (r: Option<char>)
    requires
        i <= c@.len(),
    ensures
        r == last_non_ws_before(c@, i as int),
{
    let mut k = i;
    while k > 0
        invariant
            0 <= k <= i <= c@.len(),
            last_non_ws_before(c@, k as int) == last_non_ws_before(c@, i as int),
        decreases k,
    {
        if !is_whitespace(c[k - 1]) {
            return Some(c[k - 1]);
        }
        k = k - 1;
    }
    None
}

pub fn strip_plus_prefix(input: &[char]) -> (r: Vec<char>)
    ensures
        r@ == strip_plus_prefix_spec(input@),
{
    let mut out: Vec<char> = Vec::new();
    let n = input.len();
    let mut i: usize = 0;
    let mut in_string = false;
    let mut escape = false;
    let ghost total = strip_plus_prefix_spec(input@);
    while i < n
        invariant
            n == input@.len(),
            0 <= i <= n,
            total == strip_plus_prefix_spec(input@),
            total == out@ + plus_prefix_from(input@, i as int, in_string, escape),
        decreases n - i,
    {
        let ch = input[i];
        let mut skip = false;
        if in_string {
            let st = exec_in_string_step(escape, ch);
            in_string = st.0;
            escape = st.1;
        } else if ch == '"' {
            in_string = true;
        } else if ch == '+' && n - i > 1 && is_ascii_digit(input[i + 1]) {
            let p = exec_last_non_ws_before(input, i);
            let prev_ws = i > 0 && is_whitespace(input[i - 1]);
            if p == Some(':') || p == Some(',') || p == Some('[') || p.is_none() || prev_ws {
                skip = true;
            }
        }
        if !skip {
            out.push(ch);
        }
        i = i + 1;
        assert(total =~= out@ + plus_prefix_from(input@, i as int, in_string, escape));
    }
    out
}


// ---------------------------------------------------------------------------
// The normalization phase
// ---------------------------------------------------------------------------

/// Byte length of a text, as `str::len` would report it.
pub fn utf8_len_of(c: &[char]) -> (r: u128)
    ensures
        r == utf8_len(c@),
{
    let mut k: usize = 0;
    let mut total: u128 = 0;
    while k < c.len()
        invariant
            0 <= k <= c@.len(),
            total == utf8_len(c@.take(k as int)),
            total <= 4 * k,
        decreases c.len() - k,
    {
        proof {
            lemma_utf8_len_push(c@.take(k as int), c@[k as int]);
            assert(c@.take(k as int).push(c@[k as int]) =~= c@.take(k + 1));
        }
        total = total + utf8_width(c[k]) as u128;
        k = k + 1;
    }
    assert(c@.take(c@.len() as int) =~= c@);
    total
}


/// The normalization phase: each rewrite in turn, with a note for each
/// rewrite that changed the text (comments: that changed its byte length).
pub open spec fn normalize_syntax_spec(c: Seq<char>) -> (Seq<char>, Seq<Seq<char>>) {
    let s1 = strip_comments_spec(c);
    let n1 = note_if(Seq::empty(), utf8_len(s1) != utf8_len(c), "stripped comments"@);
    let s2 = replace_python_literals_spec(s1);
    let n2 = note_if(n1, s2 != s1, "converted Python literals to JSON"@);
    let s3 = replace_special_numbers_spec(s2);
    let n3 = note_if(n2, s3 != s2, "replaced Infinity/NaN with null"@);
    let s4 = quote_unquoted_keys_spec(s3);
    let n4 = note_if(n3, s4 != s3, "quoted unquoted keys"@);
    let s5 = convert_hex_numbers_spec(s4);
    let n5 = note_if(n4, s5 != s4, "converted hex numbers to decimal"@);
    let s6 = strip_plus_prefix_spec(s5);
    let n6 = note_if(n5, s6 != s5, "stripped plus prefix from numbers"@);
    (s6, n6)
}

pub fn normalize_syntax(input: &[char], repairs: &mut Vec<String>) -> (r: Vec<char>)
    ensures
        r@ == normalize_syntax_spec(input@).0,
        views(final(repairs)@) == views(old(repairs)@) + normalize_syntax_spec(input@).1,
{
    let ghost base = views(repairs@);
    let s1 = strip_comments(input);
    if utf8_len_of(&s1) != utf8_len_of(input) {
        push_note(repairs, "stripped comments");
    }
    let s2 = replace_python_literals(&s1);
    if !chars_eq(&s2, &s1) {
        push_note(repairs, "converted Python literals to JSON");
    }
    let s3 = replace_special_numbers(&s2);
    if !chars_eq(&s3, &s2) {
        push_note(repairs, "replaced Infinity/NaN with null");
    }
    let s4 = quote_unquoted_keys(&s3);
    if !chars_eq(&s4, &s3) {
        push_note(repairs, "quoted unquoted keys");
    }
    let s5 = convert_hex_numbers(&s4);
    if !chars_eq(&s5, &s4) {
        push_note(repairs, "converted hex numbers to decimal");
    }
    let s6 = strip_plus_prefix(&s5);
    if !chars_eq(&s6, &s5) {
        push_note(repairs, "stripped plus prefix from numbers");
    }
    assert(views(repairs@) =~= base + normalize_syntax_spec(input@).1);
    s6
}

} // verus!
