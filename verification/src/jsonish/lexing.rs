//! How a JSON reader sees a text: which chars stand inside string literals
//! and what the escape sequences there decode to; and what the repair
//! passes keep of it.
use vstd::prelude::*;
use crate::jsonish::normalize::{
    block_comment_end, comments_from, lemma_block_comment_end, lemma_newline_from, newline_from, strip_comments_spec,
};
use crate::jsonish::repair::{
    control_escape, escape_control_chars_spec, escapes_from, hex4_at, hex4_val, is_simple_escape,
    convert_single_quotes_spec, next_non_ws, remove_trailing_commas_spec, single_quotes_from, trailing_commas_from,
};
use crate::text::{hex_digit_lower, hex_val_spec, is_ascii_hexdigit_spec, is_control_spec, unicode_white_space};

verus! {

// ---------------------------------------------------------------------------
// Reading a text as a JSON reader does
// ---------------------------------------------------------------------------

/// One char read: whether the reader is inside a string literal, and right
/// after a backslash there. A quote outside opens a literal, an unescaped
/// quote inside closes it; a backslash escapes the next char only inside.
pub open spec fn lex_step(st: (bool, bool), ch: char) -> (bool, bool) {
    if st.0 {
        if st.1 {
            (true, false)
        } else if ch == '\\' {
            (true, true)
        } else if ch == '"' {
            (false, false)
        } else {
            (true, false)
        }
    } else if ch == '"' {
        (true, false)
    } else {
        (false, false)
    }
}

/// The reader's state before the char at `j`, having started in `st`.
pub open spec fn lex_from(st: (bool, bool), s: Seq<char>, j: int) -> (bool, bool)
    decreases j,
{
    if j <= 0 || s.len() == 0 {
        st
    } else {
        lex_from(lex_step(st, s[0]), s.skip(1), j - 1)
    }
}

/// Whether the char at `j` stands outside every string literal (an opening
/// quote counts as outside).
pub open spec fn outside_string(s: Seq<char>, j: int) -> bool {
    !lex_from((false, false), s, j).0
}

pub proof fn lemma_lex_cons(st: (bool, bool), a: char, s: Seq<char>, j: int)
    requires
        j >= 0,
    ensures
        lex_from(st, seq![a] + s, j + 1) == lex_from(lex_step(st, a), s, j),
{
    assert((seq![a] + s).skip(1) =~= s);
}

pub proof fn lemma_next_non_ws_cons(a: char, s: Seq<char>, j: int)
    requires
        j >= 0,
    ensures
        next_non_ws(seq![a] + s, j + 1) == next_non_ws(s, j),
    decreases s.len() - j,
{
    let t = seq![a] + s;
    if j < s.len() {
        assert(t[j + 1] == s[j]);
        if unicode_white_space(s[j]) {
            lemma_next_non_ws_cons(a, s, j + 1);
        }
    }
}

// ---------------------------------------------------------------------------
// Trailing commas
// ---------------------------------------------------------------------------

/// No comma outside a string is followed, after whitespace, by `}`, `]` or
/// another comma (reading from state `st`).
pub open spec fn commas_clean(st: (bool, bool), r: Seq<char>) -> bool {
    forall|j: int|
        #![trigger r[j]]
        0 <= j < r.len() && r[j] == ',' && !lex_from(st, r, j).0 ==> {
            let n = next_non_ws(r, j + 1);
            n != Some('}') && n != Some(']') && n != Some(',')
        }
}

proof fn lemma_first_non_ws_kept(c: Seq<char>, k: int, ins: bool, esc: bool)
    requires
        0 <= k <= c.len(),
        next_non_ws(c, k) != Some(','),
    ensures
        next_non_ws(trailing_commas_from(c, k, ins, esc).0, 0) == next_non_ws(c, k),
    decreases c.len() - k,
{
    let r = trailing_commas_from(c, k, ins, esc);
    if k < c.len() {
        let ch = c[k];
        let st2 = if ins {
            if esc { (true, false) } else if ch == '\\' { (true, true) } else if ch == '"' { (false, esc) } else { (true, esc) }
        } else if ch == '"' {
            (true, esc)
        } else {
            (false, esc)
        };
        if unicode_white_space(ch) {
            assert(ch != ',');
            lemma_first_non_ws_kept(c, k + 1, st2.0, st2.1);
            let rest = trailing_commas_from(c, k + 1, st2.0, st2.1).0;
            assert(r.0 == seq![ch] + rest);
            lemma_next_non_ws_cons(ch, rest, 0);
        } else {
            assert(ch != ',');
            let rest = trailing_commas_from(c, k + 1, st2.0, st2.1).0;
            assert(r.0 == seq![ch] + rest);
            assert(r.0[0] == ch);
        }
    }
}

proof fn lemma_trailing_clean(c: Seq<char>, i: int, ins: bool, esc: bool)
    requires
        0 <= i <= c.len(),
        !ins ==> !esc,
    ensures
        commas_clean((ins, esc), trailing_commas_from(c, i, ins, esc).0),
    decreases c.len() - i,
{
    let r = trailing_commas_from(c, i, ins, esc).0;
    if i < c.len() {
        let ch = c[i];
        let dropped = !ins && ch != '"' && ch == ',' && (next_non_ws(c, i + 1) == Some('}')
            || next_non_ws(c, i + 1) == Some(']') || next_non_ws(c, i + 1) == Some(','));
        let st2 = if ins {
            if esc { (true, false) } else if ch == '\\' { (true, true) } else if ch == '"' { (false, esc) } else { (true, esc) }
        } else if ch == '"' {
            (true, esc)
        } else {
            (false, esc)
        };
        lemma_trailing_clean(c, i + 1, st2.0, st2.1);
        let rest = trailing_commas_from(c, i + 1, st2.0, st2.1).0;
        if dropped {
            assert(r == rest);
        } else {
            assert(r == seq![ch] + rest);
            assert(st2 == lex_step((ins, esc), ch));
            assert forall|j: int|
                #![trigger r[j]]
                0 <= j < r.len() && r[j] == ',' && !lex_from((ins, esc), r, j).0 implies {
                    let n = next_non_ws(r, j + 1);
                    n != Some('}') && n != Some(']') && n != Some(',')
                } by {
                lemma_next_non_ws_cons(ch, rest, j);
                if j == 0 {
                    assert(ch == ',' && !ins);
                    if next_non_ws(c, i + 1) != Some(',') {
                        lemma_first_non_ws_kept(c, i + 1, st2.0, st2.1);
                    }
                } else {
                    lemma_lex_cons((ins, esc), ch, rest, j - 1);
                    assert(r[j] == rest[j - 1]);
                    assert(rest[j - 1] == ',');
                }
            }
        }
    }
}

/// After trailing-comma removal, no comma outside a string is followed,
/// after whitespace, by `}`, `]` or another comma.
pub proof fn lemma_no_trailing_commas_remain(c: Seq<char>)
    ensures
        forall|j: int|
            #![trigger remove_trailing_commas_spec(c).0[j]]
            0 <= j < remove_trailing_commas_spec(c).0.len() && remove_trailing_commas_spec(c).0[j] == ','
                && outside_string(remove_trailing_commas_spec(c).0, j) ==> {
                let n = next_non_ws(remove_trailing_commas_spec(c).0, j + 1);
                n != Some('}') && n != Some(']') && n != Some(',')
            },
{
    lemma_trailing_clean(c, 0, false, false);
}

proof fn lemma_trailing_identity_from(c: Seq<char>, i: int, ins: bool, esc: bool)
    requires
        0 <= i <= c.len(),
        !ins ==> !esc,
        commas_clean((ins, esc), c.skip(i)),
    ensures
        trailing_commas_from(c, i, ins, esc) == (c.skip(i), false),
    decreases c.len() - i,
{
    if i < c.len() {
        let ch = c[i];
        let s = c.skip(i);
        let t = c.skip(i + 1);
        assert(s =~= seq![ch] + t);
        assert(s[0] == ch);
        let st2 = lex_step((ins, esc), ch);
        if !ins && ch == ',' {
            lemma_next_non_ws_cons(ch, t, 0);
            lemma_next_non_ws_shift(c, i + 1);
        }
        assert forall|j: int| #![trigger t[j]] 0 <= j < t.len() && t[j] == ',' && !lex_from(st2, t, j).0 implies {
            let n = next_non_ws(t, j + 1);
            n != Some('}') && n != Some(']') && n != Some(',')
        } by {
            lemma_lex_cons((ins, esc), ch, t, j);
            lemma_next_non_ws_cons(ch, t, j + 1);
            assert(s[j + 1] == t[j]);
        }
        lemma_trailing_identity_from(c, i + 1, st2.0, st2.1);
    } else {
        assert(c.skip(i) =~= Seq::<char>::empty());
    }
}

proof fn lemma_next_non_ws_shift(c: Seq<char>, k: int)
    requires
        0 <= k <= c.len(),
    ensures
        next_non_ws(c.skip(k), 0) == next_non_ws(c, k),
    decreases c.len() - k,
{
    if k < c.len() {
        let t = c.skip(k);
        assert(t =~= seq![c[k]] + c.skip(k + 1));
        lemma_next_non_ws_cons(c[k], c.skip(k + 1), 0);
        lemma_next_non_ws_shift(c, k + 1);
    }
}

/// Trailing-comma removal leaves a text with no such comma exactly as it
/// was, and reports no repair: only the commas the law above forbids are
/// ever dropped.
pub proof fn lemma_clean_commas_unchanged(c: Seq<char>)
    requires
        forall|j: int|
            0 <= j < c.len() && c[j] == ',' && outside_string(c, j) ==> {
                let n = next_non_ws(c, j + 1);
                n != Some('}') && n != Some(']') && n != Some(',')
            },
    ensures
        remove_trailing_commas_spec(c) == (c, false),
{
    assert(c.skip(0) =~= c);
    assert(commas_clean((false, false), c.skip(0)));
    lemma_trailing_identity_from(c, 0, false, false);
}

// ---------------------------------------------------------------------------
// Comments
// ---------------------------------------------------------------------------

/// Whether a comment (`//` or `/*`) starts at `j`.
pub open spec fn opens_comment_at(s: Seq<char>, j: int) -> bool {
    s[j] == '/' && j + 1 < s.len() && (s[j + 1] == '/' || s[j + 1] == '*')
}

/// No comment starts outside a string (reading from state `st`).
pub open spec fn comment_free(st: (bool, bool), s: Seq<char>) -> bool {
    forall|j: int| #![trigger s[j]] 0 <= j < s.len() && !lex_from(st, s, j).0 ==> !opens_comment_at(s, j)
}

proof fn lemma_comments_identity_from(c: Seq<char>, i: int, ins: bool, esc: bool)
    requires
        0 <= i <= c.len(),
        !ins ==> !esc,
        comment_free((ins, esc), c.skip(i)),
    ensures
        comments_from(c, i, ins, esc) == c.skip(i),
    decreases c.len() - i,
{
    if i < c.len() {
        let ch = c[i];
        let s = c.skip(i);
        let t = c.skip(i + 1);
        assert(s =~= seq![ch] + t);
        assert(s[0] == ch);
        let st2 = lex_step((ins, esc), ch);
        assert(!ins ==> !opens_comment_at(s, 0));
        assert forall|j: int| #![trigger t[j]] 0 <= j < t.len() && !lex_from(st2, t, j).0 implies !opens_comment_at(t, j) by {
            lemma_lex_cons((ins, esc), ch, t, j);
            assert(s[j + 1] == t[j]);
            assert(!opens_comment_at(s, j + 1));
            if j + 1 < t.len() {
                assert(s[j + 2] == t[j + 1]);
            }
        }
        if !ins && ch == '/' && i + 1 < c.len() {
            assert(s[1] == c[i + 1]);
        }
        lemma_comments_identity_from(c, i + 1, st2.0, st2.1);
    } else {
        assert(c.skip(i) =~= Seq::<char>::empty());
    }
}

/// Comment stripping leaves a text in which no comment starts outside a
/// string exactly as it was; in particular `//` and `/*` inside string
/// literals are kept.
pub proof fn lemma_strip_comments_keeps_comment_free_text(c: Seq<char>)
    requires
        forall|j: int| 0 <= j < c.len() && outside_string(c, j) ==> !opens_comment_at(c, j),
    ensures
        strip_comments_spec(c) == c,
{
    assert(c.skip(0) =~= c);
    assert(comment_free((false, false), c.skip(0)));
    lemma_comments_identity_from(c, 0, false, false);
}

proof fn lemma_comments_first_char(c: Seq<char>, k: int, ins: bool, esc: bool)
    requires
        0 <= k < c.len(),
        c[k] != '/',
    ensures
        comments_from(c, k, ins, esc).len() > 0,
        comments_from(c, k, ins, esc)[0] == c[k],
{
}

proof fn lemma_comments_clean(c: Seq<char>, i: int, ins: bool, esc: bool)
    requires
        0 <= i <= c.len(),
        !ins ==> !esc,
    ensures
        comment_free((ins, esc), comments_from(c, i, ins, esc)),
    decreases c.len() - i,
{
    let r = comments_from(c, i, ins, esc);
    if i < c.len() {
        let ch = c[i];
        if !ins && ch == '/' && i + 1 < c.len() && c[i + 1] == '*' {
            let e = block_comment_end(c, i + 2);
            lemma_block_comment_end(c, i + 2);
            if e < c.len() {
                lemma_comments_clean(c, e, false, esc);
                let rest = comments_from(c, e, false, esc);
                assert(r == seq![' '] + rest);
                assert forall|j: int| #![trigger r[j]] 0 <= j < r.len() && !lex_from((ins, esc), r, j).0 implies !opens_comment_at(r, j) by {
                    if j > 0 {
                        lemma_lex_cons((ins, esc), ' ', rest, j - 1);
                        assert(r[j] == rest[j - 1]);
                        if j + 1 < r.len() {
                            assert(r[j + 1] == rest[j]);
                        }
                    }
                }
            }
        } else if !ins && ch == '/' && i + 1 < c.len() && c[i + 1] == '/' {
            let e = newline_from(c, i + 2);
            lemma_newline_from(c, i + 2);
            if e < c.len() {
                lemma_comments_clean(c, e + 1, false, esc);
                let rest = comments_from(c, e + 1, false, esc);
                assert(r == seq!['\n'] + rest);
                assert forall|j: int| #![trigger r[j]] 0 <= j < r.len() && !lex_from((ins, esc), r, j).0 implies !opens_comment_at(r, j) by {
                    if j > 0 {
                        lemma_lex_cons((ins, esc), '\n', rest, j - 1);
                        assert(r[j] == rest[j - 1]);
                        if j + 1 < r.len() {
                            assert(r[j + 1] == rest[j]);
                        }
                    }
                }
            }
        } else {
            let st2 = lex_step((ins, esc), ch);
            let st3 = if ins {
                if esc { (true, false) } else if ch == '\\' { (true, true) } else if ch == '"' { (false, esc) } else { (true, esc) }
            } else if ch == '"' {
                (true, esc)
            } else {
                (false, esc)
            };
            assert(st3 == st2);
            lemma_comments_clean(c, i + 1, st2.0, st2.1);
            let rest = comments_from(c, i + 1, st2.0, st2.1);
            assert(r == seq![ch] + rest);
            assert forall|j: int| #![trigger r[j]] 0 <= j < r.len() && !lex_from((ins, esc), r, j).0 implies !opens_comment_at(r, j) by {
                if j == 0 {
                    if ch == '/' && i + 1 < c.len() {
                        lemma_comments_first_char(c, i + 1, st2.0, st2.1);
                        assert(r[1] == c[i + 1]);
                    }
                } else {
                    lemma_lex_cons((ins, esc), ch, rest, j - 1);
                    assert(r[j] == rest[j - 1]);
                    if j + 1 < r.len() {
                        assert(r[j + 1] == rest[j]);
                    }
                }
            }
        }
    }
}

/// After comment stripping no comment starts outside a string.
pub proof fn lemma_no_comment_remains(c: Seq<char>)
    ensures
        forall|j: int|
            #![trigger strip_comments_spec(c)[j]]
            0 <= j < strip_comments_spec(c).len() && outside_string(strip_comments_spec(c), j) ==> !opens_comment_at(
                strip_comments_spec(c),
                j,
            ),
{
    lemma_comments_clean(c, 0, false, false);
}

// ---------------------------------------------------------------------------
// Single quotes
// ---------------------------------------------------------------------------

/// Neither an apostrophe nor a backslash stands outside a string (reading
/// from state `st`).
pub open spec fn no_bare_quote(st: (bool, bool), s: Seq<char>) -> bool {
    forall|j: int| #![trigger s[j]] 0 <= j < s.len() && !lex_from(st, s, j).0 ==> s[j] != '\'' && s[j] != '\\'
}

proof fn lemma_quotes_identity_from(c: Seq<char>, i: int, dq: bool, esc: bool)
    requires
        0 <= i <= c.len(),
        !dq ==> !esc,
        no_bare_quote((dq, esc), c.skip(i)),
    ensures
        single_quotes_from(c, i, dq, false, esc) == (c.skip(i), false),
    decreases c.len() - i,
{
    if i < c.len() {
        let ch = c[i];
        let s = c.skip(i);
        let t = c.skip(i + 1);
        assert(s =~= seq![ch] + t);
        assert(s[0] == ch);
        let st2 = lex_step((dq, esc), ch);
        assert forall|j: int| #![trigger t[j]] 0 <= j < t.len() && !lex_from(st2, t, j).0 implies t[j] != '\'' && t[j] != '\\' by {
            lemma_lex_cons((dq, esc), ch, t, j);
            assert(s[j + 1] == t[j]);
        }
        lemma_quotes_identity_from(c, i + 1, st2.0, st2.1);
    } else {
        assert(c.skip(i) =~= Seq::<char>::empty());
    }
}

/// Quote conversion leaves a text in which no apostrophe and no backslash
/// stands outside a string exactly as it was, and reports no repair: the
/// contents of double-quoted strings are never touched, so text that is
/// already JSON passes through unchanged.
pub proof fn lemma_quotes_keep_double_quoted_text(c: Seq<char>)
    requires
        forall|j: int| 0 <= j < c.len() && outside_string(c, j) ==> c[j] != '\'' && c[j] != '\\',
    ensures
        convert_single_quotes_spec(c) == (c, false),
{
    assert(c.skip(0) =~= c);
    assert(no_bare_quote((false, false), c.skip(0)));
    lemma_quotes_identity_from(c, 0, false, false);
}

/// No apostrophe stands outside a string (reading from state `st`).
pub open spec fn apostrophes_inside(st: (bool, bool), r: Seq<char>) -> bool {
    forall|j: int| #![trigger r[j]] 0 <= j < r.len() && !lex_from(st, r, j).0 ==> r[j] != '\''
}

proof fn lemma_quotes_converted_from(c: Seq<char>, i: int, dq: bool, sq: bool)
    requires
        0 <= i <= c.len(),
        !(dq && sq),
        forall|j: int| 0 <= j < c.len() ==> c[j] != '\\',
    ensures
        apostrophes_inside((dq || sq, false), single_quotes_from(c, i, dq, sq, false).0),
    decreases c.len() - i,
{
    let st = (dq || sq, false);
    let r = single_quotes_from(c, i, dq, sq, false).0;
    if i < c.len() {
        let ch = c[i];
        assert(ch != '\\');
        if sq && ch == '"' {
            lemma_quotes_converted_from(c, i + 1, dq, sq);
            let rest = single_quotes_from(c, i + 1, dq, sq, false).0;
            assert(r == seq!['\\', '"'] + rest);
            let mid = seq!['"'] + rest;
            assert(r =~= seq!['\\'] + mid);
            assert forall|j: int| #![trigger r[j]] 0 <= j < r.len() && !lex_from(st, r, j).0 implies r[j] != '\'' by {
                if j >= 2 {
                    lemma_lex_cons(st, '\\', mid, j - 1);
                    lemma_lex_cons(lex_step(st, '\\'), '"', rest, j - 2);
                    assert(r[j] == rest[j - 2]);
                }
            }
        } else {
            let (out_ch, ndq, nsq) = if !dq && !sq {
                if ch == '\'' { ('"', false, true) } else if ch == '"' { ('"', true, false) } else { (ch, false, false) }
            } else if sq {
                if ch == '\'' { ('"', false, false) } else { (ch, false, true) }
            } else if ch == '"' {
                ('"', false, false)
            } else {
                (ch, true, false)
            };
            lemma_quotes_converted_from(c, i + 1, ndq, nsq);
            let rest = single_quotes_from(c, i + 1, ndq, nsq, false).0;
            assert(r == seq![out_ch] + rest);
            assert(lex_step(st, out_ch) == (ndq || nsq, false));
            assert forall|j: int| #![trigger r[j]] 0 <= j < r.len() && !lex_from(st, r, j).0 implies r[j] != '\'' by {
                if j >= 1 {
                    lemma_lex_cons(st, out_ch, rest, j - 1);
                    assert(r[j] == rest[j - 1]);
                }
            }
        }
    }
}

/// After quote conversion of a text without backslashes, no apostrophe
/// stands outside a string: every single-quoted string has become a
/// double-quoted one.
pub proof fn lemma_no_bare_apostrophe_remains(c: Seq<char>)
    requires
        forall|j: int| 0 <= j < c.len() ==> c[j] != '\\',
    ensures
        forall|j: int|
            #![trigger convert_single_quotes_spec(c).0[j]]
            0 <= j < convert_single_quotes_spec(c).0.len() && outside_string(convert_single_quotes_spec(c).0, j)
                ==> convert_single_quotes_spec(c).0[j] != '\'',
{
    lemma_quotes_converted_from(c, 0, false, false);
}

// ---------------------------------------------------------------------------
// What string literals decode to
// ---------------------------------------------------------------------------

/// The code of the char that a simple escape `\e` stands for.
pub open spec fn unescaped(e: char) -> u32 {
    if e == 'n' {
        10
    } else if e == 'r' {
        13
    } else if e == 't' {
        9
    } else if e == 'b' {
        8
    } else if e == 'f' {
        12
    } else {
        e as u32
    }
}

/// The code points a JSON reader takes a text for, from `i` on: inside a
/// string literal `\uXXXX` and the simple escapes (`\n`, `\"`, ...) are
/// decoded; everything else, quotes included, stands for itself.
pub open spec fn decoded_from(s: Seq<char>, i: int, ins: bool) -> Seq<u32>
    decreases s.len() - i,
{
    if i < 0 || i >= s.len() {
        Seq::empty()
    } else if ins && s[i] == '\\' && i + 1 < s.len() && s[i + 1] == 'u' && hex4_at(s, i + 2) {
        seq![hex4_val(s, i + 2) as u32] + decoded_from(s, i + 6, true)
    } else if ins && s[i] == '\\' && i + 1 < s.len() && is_simple_escape(s[i + 1]) {
        seq![unescaped(s[i + 1])] + decoded_from(s, i + 2, true)
    } else {
        seq![s[i] as u32] + decoded_from(s, i + 1, if ins { s[i] != '"' } else { s[i] == '"' })
    }
}

pub open spec fn codes(s: Seq<char>) -> Seq<u32> {
    s.map_values(|ch: char| ch as u32)
}

proof fn lemma_decoded_shift(p: Seq<char>, s: Seq<char>, k: int, ins: bool)
    requires
        0 <= k,
    ensures
        decoded_from(p + s, p.len() + k, ins) == decoded_from(s, k, ins),
    decreases s.len() - k,
{
    let t = p + s;
    let m = p.len() + k;
    if k < s.len() {
        assert(t[m] == s[k]);
        if k + 1 < s.len() {
            assert(t[m + 1] == s[k + 1]);
        }
        if k + 5 < s.len() {
            assert(t[m + 2] == s[k + 2]);
            assert(t[m + 3] == s[k + 3]);
            assert(t[m + 4] == s[k + 4]);
            assert(t[m + 5] == s[k + 5]);
        }
        assert(hex4_at(t, m + 2) == hex4_at(s, k + 2));
        if hex4_at(s, k + 2) {
            assert(hex4_val(t, m + 2) == hex4_val(s, k + 2));
        }
        lemma_decoded_shift(p, s, k + 1, ins);
        lemma_decoded_shift(p, s, k + 1, !ins);
        lemma_decoded_shift(p, s, k + 1, true);
        lemma_decoded_shift(p, s, k + 1, false);
        if k + 2 <= s.len() {
            lemma_decoded_shift(p, s, k + 2, true);
        }
        if k + 6 <= s.len() {
            lemma_decoded_shift(p, s, k + 6, true);
        }
    }
}

proof fn lemma_hex_digit_round_trip(n: nat)
    requires
        n < 16,
    ensures
        is_ascii_hexdigit_spec(hex_digit_lower(n)),
        hex_val_spec(hex_digit_lower(n)) == n,
{
    assert(((48 + n) as u8) as char as u32 == (48 + n) as u8);
    assert(((87 + n) as u8) as char as u32 == (87 + n) as u8);
}

/// A control char's escape decodes back to it.
proof fn lemma_control_escape_decodes(ch: char, rest: Seq<char>)
    requires
        is_control_spec(ch),
    ensures
        decoded_from(control_escape(ch) + rest, 0, true) == seq![ch as u32] + decoded_from(rest, 0, true),
{
    let e = control_escape(ch);
    let t = e + rest;
    let v = ch as u32;
    if ch == '\n' || ch == '\r' || ch == '\t' || ch == '\x08' || ch == '\x0C' {
        assert(e.len() == 2);
        assert(t[0] == '\\' && t[1] == e[1]);
        assert(!hex4_at(t, 2) || t[1] != 'u');
        lemma_decoded_shift(e, rest, 0, true);
    } else {
        assert(v < 256);
        let hi = (v / 16) as nat;
        let lo = (v % 16) as nat;
        lemma_hex_digit_round_trip(hi);
        lemma_hex_digit_round_trip(lo);
        assert(e.len() == 6);
        assert(t[0] == '\\' && t[1] == 'u' && t[2] == '0' && t[3] == '0' && t[4] == hex_digit_lower(hi)
            && t[5] == hex_digit_lower(lo));
        assert(hex4_at(t, 2));
        assert(hex4_val(t, 2) == hi * 16 + lo);
        assert(hi * 16 + lo == v);
        lemma_decoded_shift(e, rest, 0, true);
    }
}

proof fn lemma_escapes_decode_from(c: Seq<char>, i: int, ins: bool)
    requires
        0 <= i <= c.len(),
        forall|j: int| 0 <= j < c.len() ==> c[j] != '\\',
    ensures
        decoded_from(escapes_from(c, i, ins).0, 0, ins) == codes(c.skip(i)),
    decreases c.len() - i,
{
    if i < c.len() {
        let ch = c[i];
        let out = escapes_from(c, i, ins).0;
        assert(codes(c.skip(i)) =~= seq![ch as u32] + codes(c.skip(i + 1)));
        if ins && is_control_spec(ch) && ch != '"' {
            lemma_escapes_decode_from(c, i + 1, true);
            let rest = escapes_from(c, i + 1, true).0;
            assert(out == control_escape(ch) + rest);
            lemma_control_escape_decodes(ch, rest);
        } else {
            let st2 = if ins { ch != '"' } else { ch == '"' };
            lemma_escapes_decode_from(c, i + 1, st2);
            let rest = escapes_from(c, i + 1, st2).0;
            assert(out == seq![ch] + rest);
            assert(out[0] == ch);
            lemma_decoded_shift(seq![ch], rest, 0, st2);
        }
    } else {
        assert(codes(c.skip(i)) =~= Seq::<u32>::empty());
    }
}

/// Escaping control chars keeps what every string decodes to: on a text
/// without backslashes, reading the escaped text as JSON gives back the
/// original chars, a raw newline in a string becoming `\n`, which decodes
/// to a newline.
pub proof fn lemma_escaping_keeps_decoded_text(c: Seq<char>)
    requires
        forall|j: int| 0 <= j < c.len() ==> c[j] != '\\',
    ensures
        decoded_from(escape_control_chars_spec(c).0, 0, false) == codes(c),
{
    lemma_escapes_decode_from(c, 0, false);
    assert(c.skip(0) =~= c);
}

} // verus!
