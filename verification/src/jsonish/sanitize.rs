//! Removal of framing noise around a JSON-like payload: byte order mark,
//! terminal escape sequences, XML-style wrappers, markdown fences and
//! trailing semicolons.
use vstd::prelude::*;
use crate::jsonish::repair::{
    lemma_rtrim_len, lemma_skip_ws, note_if, push_note, rtrim_len, skip_ws, strip_trailing_len,
    trim_end_len, exec_skip_ws, views,
};
use crate::jsonish::normalize::utf8_len_of;
use crate::text::{chars_of, matches_at, push_all, slice_chars, starts_with_at, utf8_len};

verus! {

// ---------------------------------------------------------------------------
// Searching and trimming
// ---------------------------------------------------------------------------

/// First position at or after `k` where `pat` occurs.
pub open spec fn first_match(c: Seq<char>, pat: Seq<char>, k: int) -> Option<int>
    decreases c.len() + 1 - k,
{
    if k < 0 || k + pat.len() > c.len() {
        None
    } else if matches_at(c, k, pat) {
        Some(k)
    } else {
        first_match(c, pat, k + 1)
    }
}

/// Last position at or before `k` where `pat` occurs.
pub open spec fn last_match(c: Seq<char>, pat: Seq<char>, k: int) -> Option<int>
    decreases k + 1,
{
    if k < 0 {
        None
    } else if matches_at(c, k, pat) {
        Some(k)
    } else {
        last_match(c, pat, k - 1)
    }
}

/// `str::find`.
pub open spec fn find_spec(c: Seq<char>, pat: Seq<char>) -> Option<int> {
    first_match(c, pat, 0)
}

/// `str::rfind`.
pub open spec fn rfind_spec(c: Seq<char>, pat: Seq<char>) -> Option<int> {
    last_match(c, pat, c.len() - pat.len())
}

pub proof fn lemma_first_match(c: Seq<char>, pat: Seq<char>, k: int)
    requires
        0 <= k,
    ensures
        first_match(c, pat, k) matches Some(p) ==> k <= p && p + pat.len() <= c.len() && matches_at(c, p, pat),
    decreases c.len() + 1 - k,
{
    if k + pat.len() <= c.len() && !matches_at(c, k, pat) {
        lemma_first_match(c, pat, k + 1);
    }
}

pub proof fn lemma_last_match(c: Seq<char>, pat: Seq<char>, k: int)
    ensures
        last_match(c, pat, k) matches Some(p) ==> 0 <= p <= k && matches_at(c, p, pat),
    decreases k + 1,
{
    if k >= 0 && !matches_at(c, k, pat) {
        lemma_last_match(c, pat, k - 1);
    }
}

pub fn find_from(c: &[char], pat: &[char], from: usize) -> (r: Option<usize>)
    ensures
        match r {
            Some(p) => first_match(c@, pat@, from as int) == Some(p as int),
            None => first_match(c@, pat@, from as int) is None,
        },
{
    let n = c.len();
    let m = pat.len();
    if m > n || from > n - m {
        return None;
    }
    let mut k = from;
    while k <= n - m
        invariant
            n == c@.len(),
            m == pat@.len(),
            m <= n,
            from <= k,
            first_match(c@, pat@, k as int) == first_match(c@, pat@, from as int),
        decreases n + 1 - k,
    {
        if starts_with_at(c, k, pat) {
            return Some(k);
        }
        if m == 0 {
            assert(c@.subrange(k as int, k as int) =~= pat@);
        }
        k = k + 1;
    }
    None
}

pub fn rfind(c: &[char], pat: &[char]) -> (r: Option<usize>)
    ensures
        match r {
            Some(p) => rfind_spec(c@, pat@) == Some(p as int),
            None => rfind_spec(c@, pat@) is None,
        },
{
    let n = c.len();
    let m = pat.len();
    if m > n {
        return None;
    }
    let mut k = n - m;
    loop
        invariant
            0 <= k <= n - m,
            n == c@.len(),
            m == pat@.len(),
            m <= n,
            last_match(c@, pat@, k as int) == rfind_spec(c@, pat@),
        decreases k,
    {
        if starts_with_at(c, k, pat) {
            return Some(k);
        }
        if k == 0 {
            assert(last_match(c@, pat@, -1) is None);
            return None;
        }
        k = k - 1;
    }
}

/// `str::trim`: no leading or trailing whitespace.
pub open spec fn trim_spec(c: Seq<char>) -> Seq<char> {
    let s = skip_ws(c, 0);
    let e = rtrim_len(c, c.len() as int);
    if s >= e { Seq::empty() } else { c.subrange(s, e) }
}

pub fn trim(c: &[char]) -> (r: Vec<char>)
    ensures
        r@ == trim_spec(c@),
{
    let s = exec_skip_ws(c, 0);
    let e = trim_end_len(c);
    if s >= e {
        Vec::new()
    } else {
        proof { lemma_rtrim_len(c@, c@.len() as int); }
        slice_chars(c, s, e)
    }
}

// ---------------------------------------------------------------------------
// Terminal escape sequences
// ---------------------------------------------------------------------------

/// End of a CSI sequence whose parameters start at `j`: past the final
/// byte (`@`..=`~`), or the end of the text.
pub open spec fn csi_end(c: Seq<char>, j: int) -> int
    decreases c.len() - j,
{
    if j < 0 || j >= c.len() {
        if j < 0 { j } else { c.len() as int }
    } else if '\x40' <= c[j] && c[j] <= '\x7e' {
        j + 1
    } else {
        csi_end(c, j + 1)
    }
}

/// End of an OSC sequence whose body starts at `j`: past BEL or `ESC \`.
pub open spec fn osc_end(c: Seq<char>, j: int) -> int
    decreases c.len() - j,
{
    if j < 0 || j >= c.len() {
        if j < 0 { j } else { c.len() as int }
    } else if c[j] == '\x07' {
        j + 1
    } else if c[j] == '\x1b' && j + 1 < c.len() && c[j + 1] == '\\' {
        j + 2
    } else {
        osc_end(c, j + 1)
    }
}

pub proof fn lemma_csi_end(c: Seq<char>, j: int)
    requires
        0 <= j <= c.len(),
    ensures
        j <= csi_end(c, j) <= c.len(),
    decreases c.len() - j,
{
    if j < c.len() && !('\x40' <= c[j] && c[j] <= '\x7e') {
        lemma_csi_end(c, j + 1);
    }
}

pub proof fn lemma_osc_end(c: Seq<char>, j: int)
    requires
        0 <= j <= c.len(),
    ensures
        j <= osc_end(c, j) <= c.len(),
    decreases c.len() - j,
{
    if j < c.len() && c[j] != '\x07' && !(c[j] == '\x1b' && j + 1 < c.len() && c[j + 1] == '\\') {
        lemma_osc_end(c, j + 1);
    }
}

pub open spec fn ansi_from(c: Seq<char>, i: int) -> Seq<char>
    decreases c.len() - i,
{
    if i < 0 || i >= c.len() {
        Seq::empty()
    } else if c[i] == '\x1b' {
        if i + 1 < c.len() && c[i + 1] == '[' {
            proof {
                lemma_csi_end(c, i + 2);
            }
            ansi_from(c, csi_end(c, i + 2))
        } else if i + 1 < c.len() && c[i + 1] == ']' {
            proof {
                lemma_osc_end(c, i + 2);
            }
            ansi_from(c, osc_end(c, i + 2))
        } else if i + 1 < c.len() {
            ansi_from(c, i + 2)
        } else {
            ansi_from(c, i + 1)
        }
    } else {
        seq![c[i]] + ansi_from(c, i + 1)
    }
}

/// Removes terminal escape sequences: CSI (`ESC [` … final byte), OSC
/// (`ESC ]` … BEL or `ESC \`) and two-char escapes.
pub open spec fn strip_ansi_spec(c: Seq<char>) -> Seq<char> {
    ansi_from(c, 0)
}

pub fn strip_ansi_escapes(input: &[char]) -> (r: Vec<char>)
    ensures
        r@ == strip_ansi_spec(input@),
{
    let mut out: Vec<char> = Vec::new();
    let n = input.len();
    let mut i: usize = 0;
    let ghost total = strip_ansi_spec(input@);
    while i < n
        invariant
            n == input@.len(),
            0 <= i <= n,
            total == strip_ansi_spec(input@),
            total == out@ + ansi_from(input@, i as int),
        decreases n - i,
    {
        let ch = input[i];
        if ch == '\x1b' {
            if n - i > 1 && input[i + 1] == '[' {
                let mut j = i + 2;
                proof { lemma_csi_end(input@, j as int); }
                while j < n && !('\x40' <= input[j] && input[j] <= '\x7e')
                    invariant
                        n == input@.len(),
                        i + 2 <= j <= n,
                        csi_end(input@, j as int) == csi_end(input@, i + 2),
                    decreases n - j,
                {
                    j = j + 1;
                }
                i = if j < n { j + 1 } else { j };
            } else if n - i > 1 && input[i + 1] == ']' {
                let mut j = i + 2;
                proof { lemma_osc_end(input@, j as int); }
                while j < n && input[j] != '\x07' && !(input[j] == '\x1b' && n - j > 1 && input[j + 1] == '\\')
                    invariant
                        n == input@.len(),
                        i + 2 <= j <= n,
                        osc_end(input@, j as int) == osc_end(input@, i + 2),
                    decreases n - j,
                {
                    j = j + 1;
                }
                i = if j >= n { j } else if input[j] == '\x07' { j + 1 } else { j + 2 };
            } else if n - i > 1 {
                i = i + 2;
            } else {
                i = i + 1;
            }
        } else {
            out.push(ch);
            i = i + 1;
        }
        assert(total =~= out@ + ansi_from(input@, i as int));
    }
    out
}

proof fn lemma_ansi_no_escape(c: Seq<char>, i: int)
    requires
        0 <= i,
    ensures
        !ansi_from(c, i).contains('\x1b'),
    decreases c.len() - i,
{
    if i < c.len() {
        if c[i] == '\x1b' {
            if i + 1 < c.len() && c[i + 1] == '[' {
                lemma_csi_end(c, i + 2);
                lemma_ansi_no_escape(c, csi_end(c, i + 2));
            } else if i + 1 < c.len() && c[i + 1] == ']' {
                lemma_osc_end(c, i + 2);
                lemma_ansi_no_escape(c, osc_end(c, i + 2));
            } else if i + 1 < c.len() {
                lemma_ansi_no_escape(c, i + 2);
            } else {
                lemma_ansi_no_escape(c, i + 1);
            }
        } else {
            lemma_ansi_no_escape(c, i + 1);
            let r = ansi_from(c, i + 1);
            assert forall|k: int| 0 <= k < (seq![c[i]] + r).len() implies (seq![c[i]] + r)[k] != '\x1b' by {
                if k > 0 {
                    assert((seq![c[i]] + r)[k] == r[k - 1]);
                }
            }
        }
    }
}

/// Law: no escape char survives the escape-sequence stripping.
pub proof fn lemma_strip_ansi_removes_escapes(c: Seq<char>)
    ensures
        !strip_ansi_spec(c).contains('\x1b'),
{
    lemma_ansi_no_escape(c, 0);
}


// ---------------------------------------------------------------------------
// The sanitize phase
// ---------------------------------------------------------------------------

pub open spec fn bom() -> char {
    '\u{feff}'
}

/// Index of the first char at or after `k` that is not `x`.
pub open spec fn skip_char(c: Seq<char>, x: char, k: int) -> int
    decreases c.len() - k,
{
    if k < 0 || k >= c.len() || c[k] != x {
        if k < 0 { 0 } else if k >= c.len() { c.len() as int } else { k }
    } else {
        skip_char(c, x, k + 1)
    }
}

pub proof fn lemma_skip_char(c: Seq<char>, x: char, k: int)
    requires
        0 <= k <= c.len(),
    ensures
        k <= skip_char(c, x, k) <= c.len(),
    decreases c.len() - k,
{
    if k < c.len() && c[k] == x {
        lemma_skip_char(c, x, k + 1);
    }
}

/// The tags whose wrappers are stripped, in the order they are tried.
pub open spec fn wrapper_tags() -> Seq<Seq<char>> {
    seq![
        "tool_call"@,
        "function_call"@,
        "tool_input"@,
        "json"@,
        "arguments"@,
        "tool_result"@,
    ]
}

/// The content span of a `<tag>` / `<tag ...>` … `</tag>` wrapper.
pub open spec fn wrapper_span(s: Seq<char>, tag: Seq<char>) -> Option<(int, int)> {
    let open = seq!['<'] + tag + seq!['>'];
    let open_attr = seq!['<'] + tag + seq![' '];
    let close = seq!['<', '/'] + tag + seq!['>'];
    let start = match find_spec(s, open) {
        Some(p) => Some(p),
        None => find_spec(s, open_attr),
    };
    match start {
        None => None,
        Some(st) => match first_match(s, seq!['>'], st) {
            None => None,
            Some(gt) => match rfind_spec(s, close) {
                None => None,
                Some(ce) => if gt + 1 < ce { Some((gt + 1, ce)) } else { None },
            },
        },
    }
}

pub open spec fn wrapper_note(tag: Seq<char>) -> Seq<char> {
    "stripped <"@ + tag + "> wrapper"@
}

/// Strips the first wrapper, trying the tags from `k` on.
pub open spec fn strip_wrappers_from(s: Seq<char>, tags: Seq<Seq<char>>, k: int) -> (Seq<char>, Option<Seq<char>>)
    decreases tags.len() - k,
{
    if k < 0 || k >= tags.len() {
        (s, None)
    } else {
        match wrapper_span(s, tags[k]) {
            Some((a, b)) => (s.subrange(a, b), Some(wrapper_note(tags[k]))),
            None => strip_wrappers_from(s, tags, k + 1),
        }
    }
}

pub open spec fn ticks() -> Seq<char> {
    seq!['`', '`', '`']
}

pub open spec fn note_opt(notes: Seq<Seq<char>>, msg: Option<Seq<char>>) -> Seq<Seq<char>> {
    match msg {
        Some(m) => notes.push(m),
        None => notes,
    }
}

/// Markdown fences around the payload: the opening fence line goes, and the
/// closing fence when there is one.
pub open spec fn strip_fences_spec(s: Seq<char>) -> (Seq<char>, Option<Seq<char>>) {
    let t = trim_spec(s);
    if matches_at(t, 0, ticks()) {
        match find_spec(t, seq!['\n']) {
            Some(nl) => {
                let after = t.subrange(nl + 1, t.len() as int);
                match rfind_spec(after, ticks()) {
                    Some(cp) => (trim_spec(after.take(cp)), Some("stripped markdown code fences"@)),
                    None => (trim_spec(after), Some("stripped markdown opening fence"@)),
                }
            },
            None => (s, None),
        }
    } else {
        (s, None)
    }
}

/// Trailing semicolons after the payload go.
pub open spec fn strip_semicolons_spec(s: Seq<char>) -> (Seq<char>, Option<Seq<char>>) {
    let t = s.take(rtrim_len(s, s.len() as int));
    if t.len() > 0 && t.last() == ';' {
        (t.take(strip_trailing_len(t, t.len() as int, ';')), Some("stripped trailing semicolons"@))
    } else {
        (s, None)
    }
}

/// The sanitize phase and its notes.
pub open spec fn sanitize_spec(c: Seq<char>) -> (Seq<char>, Seq<Seq<char>>) {
    let has_bom = c.len() > 0 && c[0] == bom();
    let s1 = if has_bom { c.skip(skip_char(c, bom(), 0)) } else { c };
    let n1 = note_if(Seq::empty(), has_bom, "stripped BOM"@);
    let s2 = strip_ansi_spec(s1);
    let n2 = note_if(n1, utf8_len(s2) != utf8_len(s1), "stripped ANSI escape sequences"@);
    let w = strip_wrappers_from(s2, wrapper_tags(), 0);
    let n3 = note_opt(n2, w.1);
    let f = strip_fences_spec(w.0);
    let n4 = note_opt(n3, f.1);
    let t = strip_semicolons_spec(f.0);
    let n5 = note_opt(n4, t.1);
    (trim_spec(t.0), n5)
}

fn tag_span(s: &[char], tag: &[char]) -> (r: Option<(usize, usize)>)
    ensures
        match r {
            Some((a, b)) => wrapper_span(s@, tag@) == Some((a as int, b as int)) && a < b <= s@.len(),
            None => wrapper_span(s@, tag@) is None,
        },
{
    let mut open: Vec<char> = Vec::new();
    open.push('<');
    push_all(&mut open, tag);
    let mut open_attr = open.clone();
    open.push('>');
    open_attr.push(' ');
    let mut close: Vec<char> = Vec::new();
    close.push('<');
    close.push('/');
    push_all(&mut close, tag);
    close.push('>');
    assert(open@ =~= seq!['<'] + tag@ + seq!['>']);
    assert(open_attr@ =~= seq!['<'] + tag@ + seq![' ']);
    assert(close@ =~= seq!['<', '/'] + tag@ + seq!['>']);
    let start = match find_from(s, &open, 0) {
        Some(p) => Some(p),
        None => find_from(s, &open_attr, 0),
    };
    let st = match start {
        Some(st) => st,
        None => return None,
    };
    let gt_pat = vec!['>'];
    assert(gt_pat@ =~= seq!['>']);
    let gt = match find_from(s, &gt_pat, st) {
        Some(g) => g,
        None => return None,
    };
    proof { lemma_first_match(s@, seq!['>'], st as int); }
    let ce = match rfind(s, &close) {
        Some(e) => e,
        None => return None,
    };
    proof { lemma_last_match(s@, close@, s@.len() - close@.len()); }
    if gt < ce && ce - gt > 1 {
        Some((gt + 1, ce))
    } else {
        None
    }
}

fn strip_wrappers(s: Vec<char>, repairs: &mut Vec<String>) -> (r: Vec<char>)
    ensures
        r@ == strip_wrappers_from(s@, wrapper_tags(), 0).0,
        views(final(repairs)@) == note_opt(views(old(repairs)@), strip_wrappers_from(s@, wrapper_tags(), 0).1),
{
    let tags: [&str; 6] = ["tool_call", "function_call", "tool_input", "json", "arguments", "tool_result"];
    let ghost tv = wrapper_tags();
    let mut k: usize = 0;
    while k < 6
        invariant
            0 <= k <= 6,
            tv == wrapper_tags(),
            forall|j: int| 0 <= j < 6 ==> (#[trigger] tags@[j])@ == tv[j],
            strip_wrappers_from(s@, tv, k as int) == strip_wrappers_from(s@, tv, 0),
            repairs@ == old(repairs)@,
        decreases 6 - k,
    {
        let tag_str = tags[k];
        let tag = chars_of(tag_str);
        if let Some((a, b)) = tag_span(&s, &tag) {
            let r = slice_chars(&s, a, b);
            let mut msg = String::from_str("stripped <");
            msg.append(tag_str);
            msg.append("> wrapper");
            repairs.push(msg);
            assert(views(repairs@) =~= views(old(repairs)@).push(wrapper_note(tv[k as int])));
            return r;
        }
        k = k + 1;
    }
    s
}

fn strip_fences(s: Vec<char>, repairs: &mut Vec<String>) -> (r: Vec<char>)
    ensures
        r@ == strip_fences_spec(s@).0,
        views(final(repairs)@) == note_opt(views(old(repairs)@), strip_fences_spec(s@).1),
{
    let t = trim(&s);
    let tl = t.len();
    let tk = vec!['`', '`', '`'];
    assert(tk@ =~= ticks());
    if starts_with_at(&t, 0, &tk) {
        let nl_pat = vec!['\n'];
        assert(nl_pat@ =~= seq!['\n']);
        if let Some(nl) = find_from(&t, &nl_pat, 0) {
            proof {
                lemma_first_match(t@, nl_pat@, 0);
                assert(nl_pat@.len() == 1);
                assert(nl + 1 <= t@.len());
            }
            let after = slice_chars(&t, nl + 1, tl);
            if let Some(cp) = rfind(&after, &tk) {
                proof { lemma_last_match(after@, tk@, after@.len() - tk@.len()); }
                let head = slice_chars(&after, 0, cp);
                assert(head@ =~= after@.take(cp as int));
                push_note(repairs, "stripped markdown code fences");
                return trim(&head);
            } else {
                push_note(repairs, "stripped markdown opening fence");
                return trim(&after);
            }
        }
    }
    s
}

fn strip_semicolons(s: Vec<char>, repairs: &mut Vec<String>) -> (r: Vec<char>)
    ensures
        r@ == strip_semicolons_spec(s@).0,
        views(final(repairs)@) == note_opt(views(old(repairs)@), strip_semicolons_spec(s@).1),
{
    let n = trim_end_len(&s);
    proof { lemma_rtrim_len(s@, s@.len() as int); }
    if n > 0 && s[n - 1] == ';' {
        let t = slice_chars(&s, 0, n);
        assert(t@ =~= s@.take(n as int));
        let mut m = n;
        while m > 0 && t[m - 1] == ';'
            invariant
                0 <= m <= n,
                t@.len() == n,
                strip_trailing_len(t@, m as int, ';') == strip_trailing_len(t@, n as int, ';'),
            decreases m,
        {
            m = m - 1;
        }
        let r = slice_chars(&t, 0, m);
        push_note(repairs, "stripped trailing semicolons");
        return r;
    }
    s
}

/// Remove non-JSON framing that language models wrap around tool-call output.
pub fn sanitize_input(input: &[char], repairs: &mut Vec<String>) -> (r: Vec<char>)
    ensures
        r@ == sanitize_spec(input@).0,
        views(final(repairs)@) == views(old(repairs)@) + sanitize_spec(input@).1,
{
    let ghost base = views(repairs@);
    let n = input.len();
    let s1 = if n > 0 && input[0] == '\u{feff}' {
        let mut k: usize = 0;
        proof { lemma_skip_char(input@, bom(), 0); }
        while k < n && input[k] == '\u{feff}'
            invariant
                n == input@.len(),
                0 <= k <= n,
                skip_char(input@, bom(), k as int) == skip_char(input@, bom(), 0),
            decreases n - k,
        {
            k = k + 1;
        }
        push_note(repairs, "stripped BOM");
        let r = slice_chars(input, k, n);
        assert(r@ =~= input@.skip(k as int));
        r
    } else {
        let r = slice_chars(input, 0, n);
        assert(r@ =~= input@);
        r
    };
    let s2 = strip_ansi_escapes(&s1);
    if utf8_len_of(&s2) != utf8_len_of(&s1) {
        push_note(repairs, "stripped ANSI escape sequences");
    }
    let s3 = strip_wrappers(s2, repairs);
    let s4 = strip_fences(s3, repairs);
    let s5 = strip_semicolons(s4, repairs);
    let r = trim(&s5);
    assert(views(repairs@) =~= base + sanitize_spec(input@).1);
    r
}

} // verus!
