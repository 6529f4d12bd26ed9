//! Text decisions behind the rendering of assistant messages: scheduler
//! stage headers, the route decision embedded in a message, token labels.
use vstd::prelude::*;
use crate::jsonish::detect::{doc_fields, field_view, json_parse, json_top_fields, parse_json_value, top_fields, JsonDoc, JsonField};
use crate::jsonish::sanitize::{
    find_from, find_spec, first_match, lemma_first_match, lemma_last_match, rfind, rfind_spec, trim,
    trim_spec,
};
use crate::text::{
    chars_eq, chars_of, matches_at, push_all, slice_chars, starts_with_at, string_from_chars,
    to_uppercase, unicode_uppercase,
};

verus! {

// ---------------------------------------------------------------------------
// Stage decoration
// ---------------------------------------------------------------------------

/// Which theme colour a stage header takes.
#[derive(Clone, Copy, Debug, PartialEq, Eq, Structural)]
pub enum StageTone {
    Info,
    Warning,
    Secondary,
    Primary,
    Success,
}

/// Icon, label and colour of a scheduler stage's header.
#[derive(Clone, Copy, Debug)]
pub struct StageDecoration {
    pub icon: &'static str,
    pub label: &'static str,
    pub tone: StageTone,
}

pub open spec fn stage_decoration_spec(stage: Seq<char>) -> (Seq<char>, Seq<char>, StageTone) {
    if stage == "route"@ {
        ("◈"@, "Route"@, StageTone::Info)
    } else if stage == "interview"@ {
        ("❓"@, "Interview"@, StageTone::Warning)
    } else if stage == "plan"@ {
        ("📋"@, "Plan"@, StageTone::Info)
    } else if stage == "delegation"@ {
        ("📤"@, "Delegation"@, StageTone::Secondary)
    } else if stage == "review"@ {
        ("🔍"@, "Review"@, StageTone::Warning)
    } else if stage == "execution-orchestration"@ {
        ("⚡"@, "Execution"@, StageTone::Primary)
    } else if stage == "synthesis"@ {
        ("✦"@, "Synthesis"@, StageTone::Success)
    } else if stage == "handoff"@ {
        ("📎"@, "Handoff"@, StageTone::Secondary)
    } else {
        ("◈"@, "Stage"@, StageTone::Primary)
    }
}

fn is_lit(s: &[char], lit: &str) -> (r: bool)
    ensures
        r == (s@ == lit@),
{
    chars_eq(s, &chars_of(lit))
}

pub fn stage_decoration(stage: &str) -> (r: StageDecoration)
    ensures
        (r.icon@, r.label@, r.tone) == stage_decoration_spec(stage@),
{
    let s = chars_of(stage);
    if is_lit(&s, "route") {
        StageDecoration { icon: "◈", label: "Route", tone: StageTone::Info }
    } else if is_lit(&s, "interview") {
        StageDecoration { icon: "❓", label: "Interview", tone: StageTone::Warning }
    } else if is_lit(&s, "plan") {
        StageDecoration { icon: "📋", label: "Plan", tone: StageTone::Info }
    } else if is_lit(&s, "delegation") {
        StageDecoration { icon: "📤", label: "Delegation", tone: StageTone::Secondary }
    } else if is_lit(&s, "review") {
        StageDecoration { icon: "🔍", label: "Review", tone: StageTone::Warning }
    } else if is_lit(&s, "execution-orchestration") {
        StageDecoration { icon: "⚡", label: "Execution", tone: StageTone::Primary }
    } else if is_lit(&s, "synthesis") {
        StageDecoration { icon: "✦", label: "Synthesis", tone: StageTone::Success }
    } else if is_lit(&s, "handoff") {
        StageDecoration { icon: "📎", label: "Handoff", tone: StageTone::Secondary }
    } else {
        StageDecoration { icon: "◈", label: "Stage", tone: StageTone::Primary }
    }
}

// ---------------------------------------------------------------------------
// Stage heading
// ---------------------------------------------------------------------------

/// A `## Title` first line, split from the body after it: at the first
/// blank line, else at the first line break. Otherwise no title.
pub open spec fn split_stage_heading_spec(text: Seq<char>) -> (Option<Seq<char>>, Seq<char>) {
    if matches_at(text, 0, "## "@) {
        let rest = text.skip(3);
        match find_spec(rest, "\n\n"@) {
            Some(i) => (Some(trim_spec(rest.take(i))), rest.skip(i + 2)),
            None => match find_spec(rest, "\n"@) {
                Some(i) => (Some(trim_spec(rest.take(i))), rest.skip(i + 1)),
                None => (None, text),
            },
        }
    } else {
        (None, text)
    }
}

pub fn split_stage_heading(text: &str) -> (r: (Option<String>, String))
    ensures
        (match r.0 {
            Some(t) => Some(t@),
            None => None,
        }, r.1@) == split_stage_heading_spec(text@),
{
    let c = chars_of(text);
    let head = chars_of("## ");
    proof {
        reveal_strlit("## ");
        reveal_strlit("\n\n");
        reveal_strlit("\n");
    }
    if starts_with_at(&c, 0, &head) {
        let rest = slice_chars(&c, 3, c.len());
        assert(rest@ =~= c@.skip(3));
        let blank = chars_of("\n\n");
        match find_from(&rest, &blank, 0) {
            Some(i) => {
                proof { lemma_first_match(rest@, blank@, 0); }
                let tpart = slice_chars(&rest, 0, i);
                assert(tpart@ =~= rest@.take(i as int));
                let title = trim(&tpart);
                let body = slice_chars(&rest, i + 2, rest.len());
                assert(body@ =~= rest@.skip(i + 2));
                return (Some(string_from_chars(&title)), string_from_chars(&body));
            },
            None => {},
        }
        let nl = chars_of("\n");
        match find_from(&rest, &nl, 0) {
            Some(i) => {
                proof { lemma_first_match(rest@, nl@, 0); }
                let tpart = slice_chars(&rest, 0, i);
                assert(tpart@ =~= rest@.take(i as int));
                let title = trim(&tpart);
                let body = slice_chars(&rest, i + 1, rest.len());
                assert(body@ =~= rest@.skip(i + 1));
                return (Some(string_from_chars(&title)), string_from_chars(&body));
            },
            None => {},
        }
    }
    (None, string_from_chars(&c))
}

// ---------------------------------------------------------------------------
// The route decision in a message
// ---------------------------------------------------------------------------

/// The trimmed text between the first `fence` and the next three
/// backticks after it.
pub open spec fn fenced_block_with(text: Seq<char>, fence: Seq<char>) -> Option<Seq<char>> {
    match find_spec(text, fence) {
        Some(start) => {
            let rest = text.skip(start + fence.len());
            match find_spec(rest, "```"@) {
                Some(end) => Some(trim_spec(rest.take(end))),
                None => None,
            }
        },
        None => None,
    }
}

/// A fenced block: one opened by ```` ```json ````, else ```` ```JSON ````,
/// else any ```` ``` ````.
pub open spec fn fenced_json_spec(text: Seq<char>) -> Option<Seq<char>> {
    match fenced_block_with(text, "```json"@) {
        Some(b) => Some(b),
        None => match fenced_block_with(text, "```JSON"@) {
            Some(b) => Some(b),
            None => fenced_block_with(text, "```"@),
        },
    }
}

fn fenced_block_with_exec(text: &[char], fence: &str) -> (r: Option<Vec<char>>)
    ensures
        match r {
            Some(b) => fenced_block_with(text@, fence@) == Some(b@),
            None => fenced_block_with(text@, fence@) is None,
        },
{
    let f = chars_of(fence);
    let ticks = chars_of("```");
    match find_from(text, &f, 0) {
        Some(start) => {
            proof { lemma_first_match(text@, f@, 0); }
            let n = text.len();
            assert(start + f@.len() <= n);
            let rest = slice_chars(text, start + f.len(), n);
            assert(rest@ =~= text@.skip(start + f@.len()));
            match find_from(&rest, &ticks, 0) {
                Some(end) => {
                    proof { lemma_first_match(rest@, ticks@, 0); }
                    let part = slice_chars(&rest, 0, end);
                    assert(part@ =~= rest@.take(end as int));
                    Some(trim(&part))
                },
                None => None,
            }
        },
        None => None,
    }
}

/// The content of the first fenced block of the text, trimmed.
pub fn extract_fenced_json_block(text: &str) -> (r: Option<String>)
    ensures
        match r {
            Some(b) => fenced_json_spec(text@) == Some(b@),
            None => fenced_json_spec(text@) is None,
        },
{
    match fenced_json_chars(&chars_of(text)) {
        Some(b) => Some(string_from_chars(&b)),
        None => None,
    }
}

fn fenced_json_chars(t: &[char]) -> (r: Option<Vec<char>>)
    ensures
        match r {
            Some(b) => fenced_json_spec(t@) == Some(b@),
            None => fenced_json_spec(t@) is None,
        },
{
    match fenced_block_with_exec(t, "```json") {
        Some(b) => Some(b),
        None => match fenced_block_with_exec(t, "```JSON") {
            Some(b) => Some(b),
            None => fenced_block_with_exec(t, "```"),
        },
    }
}

/// The JSON text that a message carries: a fenced block, the whole message
/// when it is braced, or from its first `{` to its last `}`.
pub open spec fn json_candidate_spec(text: Seq<char>) -> Option<Seq<char>> {
    let t = trim_spec(text);
    if t.len() == 0 {
        None
    } else {
        match fenced_json_spec(t) {
            Some(b) => Some(b),
            None => if t[0] == '{' && t.last() == '}' {
                Some(t)
            } else {
                match (find_spec(t, "{"@), rfind_spec(t, "}"@)) {
                    (Some(s), Some(e)) => if s < e { Some(t.subrange(s, e + 1)) } else { None },
                    _ => None,
                }
            },
        }
    }
}

fn json_candidate_chars(text: &[char]) -> (r: Option<Vec<char>>)
    ensures
        match r {
            Some(b) => json_candidate_spec(text@) == Some(b@),
            None => json_candidate_spec(text@) is None,
        },
{
    let t = trim(text);
    if t.len() == 0 {
        return None;
    }
    match fenced_json_chars(&t) {
        Some(b) => return Some(b),
        None => {},
    }
    if t[0] == '{' && t[t.len() - 1] == '}' {
        return Some(t);
    }
    let open = chars_of("{");
    let close = chars_of("}");
    proof {
        reveal_strlit("{");
        reveal_strlit("}");
    }
    let s = match find_from(&t, &open, 0) {
        Some(s) => s,
        None => return None,
    };
    let e = match rfind(&t, &close) {
        Some(e) => e,
        None => return None,
    };
    proof {
        lemma_first_match(t@, open@, 0);
        lemma_last_match(t@, close@, t@.len() - close@.len());
    }
    if s < e {
        Some(slice_chars(&t, s, e + 1))
    } else {
        None
    }
}

/// The JSON text that a message carries, if any.
pub fn extract_json_candidate(text: &str) -> (r: Option<String>)
    ensures
        match r {
            Some(b) => json_candidate_spec(text@) == Some(b@),
            None => json_candidate_spec(text@) is None,
        },
{
    match json_candidate_chars(&chars_of(text)) {
        Some(b) => Some(string_from_chars(&b)),
        None => None,
    }
}

/// The route decision of a message: its JSON text parsed, with the
/// top-level fields when it is an object. `None` when the message carries
/// no JSON text or that text does not parse.
pub fn parse_route_decision_value(text: &str) -> (r: Option<(JsonDoc, Option<Vec<JsonField>>)>)
    ensures
        match r {
            None => match json_candidate_spec(text@) {
                None => true,
                Some(c) => json_top_fields(c) is Err,
            },
            Some((doc, fields)) => match json_candidate_spec(text@) {
                None => false,
                Some(c) => json_parse(c) == Ok::<JsonDoc, Seq<char>>(doc) && doc_fields(doc) == match fields {
                    Some(fs) => Some(fs@.map_values(|f: JsonField| field_view(f))),
                    None => None,
                },
            },
        },
{
    let candidate = match extract_json_candidate(text) {
        Some(c) => c,
        None => return None,
    };
    match parse_json_value(candidate.as_str()) {
        Ok(doc) => {
            let fields = top_fields(&doc);
            Some((doc, fields))
        },
        Err(_) => None,
    }
}

/// The string value of a top-level field of the decision.
pub fn route_string_field(fields: &Option<Vec<JsonField>>, key: &str) -> (r: Option<String>)
    ensures
        match *fields {
            None => r is None,
            Some(fs) => match r {
                Some(v) => exists|k: int| 0 <= k < fs@.len() && fs@[k].0@ == key@
                    && (forall|j: int| 0 <= j < k ==> fs@[j].0@ != key@) && fs@[k].1 == Some(v),
                None => forall|k: int| 0 <= k < fs@.len() && fs@[k].0@ == key@
                    ==> (fs@[k].1 is None || exists|j: int| 0 <= j < k && fs@[j].0@ == key@),
            },
        },
{
    let fs = match fields {
        Some(fs) => fs,
        None => return None,
    };
    let key_chars = chars_of(key);
    let mut k: usize = 0;
    while k < fs.len()
        invariant
            0 <= k <= fs@.len(),
            key_chars@ == key@,
            *fields == Some(*fs),
            forall|j: int| 0 <= j < k ==> fs@[j].0@ != key@,
        decreases fs.len() - k,
    {
        if chars_eq(&chars_of(fs[k].0.as_str()), &key_chars) {
            let v = fs[k].1.clone();
            return v;
        }
        k = k + 1;
    }
    None
}

// ---------------------------------------------------------------------------
// Tokens and think tags
// ---------------------------------------------------------------------------

/// The text with every occurrence of `p` taken out, left to right.
pub open spec fn remove_all(s: Seq<char>, p: Seq<char>) -> Seq<char>
    decreases s.len(),
{
    if s.len() == 0 {
        s
    } else if p.len() > 0 && matches_at(s, 0, p) {
        remove_all(s.skip(p.len() as int), p)
    } else {
        seq![s[0]] + remove_all(s.skip(1), p)
    }
}

fn remove_all_exec(s: &[char], p: &[char]) -> (r: Vec<char>)
    requires
        p@.len() > 0,
    ensures
        r@ == remove_all(s@, p@),
{
    let mut out: Vec<char> = Vec::new();
    let mut i: usize = 0;
    assert(s@.skip(0) =~= s@);
    while i < s.len()
        invariant
            0 <= i <= s@.len(),
            p@.len() > 0,
            remove_all(s@, p@) == out@ + remove_all(s@.skip(i as int), p@),
        decreases s.len() - i,
    {
        let ghost rest = s@.skip(i as int);
        if starts_with_at(s, i, p) {
            proof {
                assert(rest.subrange(0, p@.len() as int) =~= s@.subrange(i as int, i + p@.len()));
                assert(matches_at(rest, 0, p@));
                assert(rest.skip(p@.len() as int) =~= s@.skip(i + p@.len()));
            }
            i = i + p.len();
        } else {
            proof {
                if matches_at(rest, 0, p@) {
                    assert(rest.subrange(0, p@.len() as int) =~= s@.subrange(i as int, i + p@.len()));
                }
                assert(rest.skip(1) =~= s@.skip(i + 1));
            }
            let ghost before = out@;
            out.push(s[i]);
            assert(out@ + remove_all(s@.skip(i + 1), p@) =~= before + (seq![s@[i as int]] + remove_all(rest.skip(1), p@)));
            i = i + 1;
        }
    }
    assert(s@.skip(i as int) =~= Seq::<char>::empty());
    assert(out@ + Seq::<char>::empty() =~= out@);
    out
}

/// Takes out the `<think>`, `</think>` and `<think/>` tags, in that order.
pub fn strip_think_tags(text: &str) -> (r: String)
    ensures
        r@ == remove_all(remove_all(remove_all(text@, "<think>"@), "</think>"@), "<think/>"@),
{
    proof {
        reveal_strlit("<think>");
        reveal_strlit("</think>");
        reveal_strlit("<think/>");
    }
    let a = remove_all_exec(&chars_of(text), &chars_of("<think>"));
    let b = remove_all_exec(&a, &chars_of("</think>"));
    let c = remove_all_exec(&b, &chars_of("<think/>"));
    string_from_chars(&c)
}

/// Position of the first `-` or `_`, or the length.
pub open spec fn find_dash(s: Seq<char>) -> nat
    decreases s.len(),
{
    if s.len() == 0 {
        0
    } else if s[0] == '-' || s[0] == '_' {
        0
    } else {
        1 + find_dash(s.skip(1))
    }
}

/// The pieces between `-`s and `_`s.
pub open spec fn split_dash(s: Seq<char>) -> Seq<Seq<char>>
    decreases s.len(),
{
    let i = find_dash(s);
    if i < s.len() {
        seq![s.take(i as int)] + split_dash(s.skip(i + 1int))
    } else {
        seq![s]
    }
}

/// A word with its first char in capitals.
pub open spec fn capitalized(p: Seq<char>) -> Seq<char> {
    if p.len() == 0 { p } else { unicode_uppercase(p[0]) + p.skip(1) }
}

/// The non-empty pieces, capitalized and joined with spaces.
pub open spec fn join_capitalized(parts: Seq<Seq<char>>) -> Seq<char>
    decreases parts.len(),
{
    if parts.len() == 0 {
        Seq::empty()
    } else {
        let pre = join_capitalized(parts.drop_last());
        let p = parts.last();
        if p.len() == 0 {
            pre
        } else if pre.len() == 0 {
            capitalized(p)
        } else {
            pre + seq![' '] + capitalized(p)
        }
    }
}

pub proof fn lemma_find_dash(s: Seq<char>, m: int)
    requires
        0 <= m <= s.len(),
        m < s.len() ==> (s[m] == '-' || s[m] == '_'),
        forall|i: int| 0 <= i < m ==> s[i] != '-' && s[i] != '_',
    ensures
        find_dash(s) == m,
    decreases m,
{
    if s.len() > 0 && m > 0 {
        lemma_find_dash(s.skip(1), m - 1);
    }
}

/// `machine-token_name` as `Machine Token Name`.
pub fn prettify_token(raw: &str) -> (r: String)
    ensures
        r@ == join_capitalized(split_dash(raw@)),
{
    let s = chars_of(raw);
    let mut out: Vec<char> = Vec::new();
    let mut pos: usize = 0;
    let ghost mut done: Seq<Seq<char>> = Seq::empty();
    assert(s@.skip(0) =~= s@);
    assert(done + split_dash(s@.skip(0)) =~= split_dash(s@));
    loop
        invariant
            0 <= pos <= s@.len(),
            s@ == raw@,
            done + split_dash(s@.skip(pos as int)) == split_dash(s@),
            out@ == join_capitalized(done),
        decreases s.len() - pos,
    {
        let mut j: usize = pos;
        while j < s.len() && s[j] != '-' && s[j] != '_'
            invariant
                pos <= j <= s@.len(),
                forall|i: int| pos <= i < j ==> s@[i] != '-' && s@[i] != '_',
            decreases s.len() - j,
        {
            j = j + 1;
        }
        let ghost rest = s@.skip(pos as int);
        proof {
            lemma_find_dash(rest, j - pos);
        }
        let piece = slice_chars(&s, pos, j);
        assert(piece@ =~= rest.take(j - pos));
        let ghost before = out@;
        if piece.len() > 0 {
            if out.len() > 0 {
                out.push(' ');
            }
            let up = to_uppercase(piece[0]);
            push_all(&mut out, &up);
            let tail = slice_chars(&piece, 1, piece.len());
            push_all(&mut out, &tail);
            proof {
                assert(tail@ =~= piece@.skip(1));
                if before.len() == 0 {
                    assert(out@ =~= capitalized(piece@));
                } else {
                    assert(out@ =~= before + seq![' '] + capitalized(piece@));
                }
            }
        }
        proof {
            let nd = done.push(piece@);
            assert(nd.drop_last() =~= done);
            assert(join_capitalized(nd) == out@);
            if j < s.len() {
                assert(rest.skip(j - pos + 1) =~= s@.skip(j + 1));
                assert(split_dash(rest) == seq![rest.take(j - pos)] + split_dash(rest.skip(j - pos + 1)));
                assert(nd + split_dash(s@.skip(j + 1)) =~= done + split_dash(rest));
            } else {
                assert(piece@ =~= rest);
                assert(split_dash(rest) == seq![rest]);
                assert(nd =~= done + split_dash(rest));
            }
            done = nd;
        }
        if j >= s.len() {
            proof {
                assert(done == split_dash(s@)) by {
                    assert(s@.skip(j as int) =~= Seq::<char>::empty());
                }
            }
            return string_from_chars(&out);
        }
        pos = j + 1;
    }
}

} // verus!
