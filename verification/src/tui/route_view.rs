//! The route stage of a scheduler run, as the session shows it: the stage
//! header, then the routing decision parsed from the message's JSON, field
//! by field; the free text it carries is left to the markdown renderer.
use vstd::prelude::*;
use crate::jsonish::detect::{field_lookup, fields_view, lookup_field, JsonDoc, JsonField};
use crate::jsonish::sanitize::{trim, trim_spec};
use crate::text::{chars_of, decimal, push_all, string_from_chars, u64_decimal};
use crate::tui::session_text::{
    join_capitalized, json_candidate_spec, parse_route_decision_value, prettify_token, split_dash,
    split_stage_heading, split_stage_heading_spec, stage_decoration, stage_decoration_spec, StageTone,
};
use crate::jsonish::detect::{doc_fields, json_parse};

verus! {

/// The colour of a decision field's value.
#[derive(Clone, Copy, Debug, PartialEq, Eq, Structural)]
pub enum RouteTone {
    Text,
    Info,
    Warning,
    Success,
    Muted,
}

/// A line of the route stage.
#[derive(Clone, Debug)]
pub enum RouteLine {
    /// The stage header: icon, `Profile · Label`, and the stage's place as
    /// `  (i/n)` when both are known, in the stage's colour.
    Header { icon: String, title: String, counter: Option<String>, tone: StageTone },
    /// The rule under the header.
    Separator,
    /// `◈ Routing Decision`.
    Heading,
    /// `• label: value`.
    Field { label: String, value: String, tone: RouteTone },
    Blank,
    /// `✦ title`, opening free text.
    Section { title: String },
    /// Free text, drawn as markdown and indented two columns.
    Markdown { text: String },
}

/// A route line in mathematical terms.
pub enum RouteLineView {
    Header { icon: Seq<char>, title: Seq<char>, counter: Option<Seq<char>>, tone: StageTone },
    Separator,
    Heading,
    Field { label: Seq<char>, value: Seq<char>, tone: RouteTone },
    Blank,
    Section { title: Seq<char> },
    Markdown { text: Seq<char> },
}

pub open spec fn line_view(l: RouteLine) -> RouteLineView {
    match l {
        RouteLine::Header { icon, title, counter, tone } => RouteLineView::Header {
            icon: icon@,
            title: title@,
            counter: match counter {
                Some(c) => Some(c@),
                None => None,
            },
            tone,
        },
        RouteLine::Separator => RouteLineView::Separator,
        RouteLine::Heading => RouteLineView::Heading,
        RouteLine::Field { label, value, tone } => RouteLineView::Field { label: label@, value: value@, tone },
        RouteLine::Blank => RouteLineView::Blank,
        RouteLine::Section { title } => RouteLineView::Section { title: title@ },
        RouteLine::Markdown { text } => RouteLineView::Markdown { text: text@ },
    }
}

pub open spec fn lines_view(v: Seq<RouteLine>) -> Seq<RouteLineView> {
    v.map_values(|l: RouteLine| line_view(l))
}

pub open spec fn prettified(s: Seq<char>) -> Seq<char> {
    join_capitalized(split_dash(s))
}

/// The stage header of a stage run by a scheduler profile.
pub open spec fn stage_header_spec(profile: Seq<char>, stage: Seq<char>, index: Option<u64>, total: Option<u64>) -> Seq<
    RouteLineView,
> {
    let (icon, label, tone) = stage_decoration_spec(stage);
    seq![
        RouteLineView::Header {
            icon: icon + " "@,
            title: prettified(profile) + " \u{b7} "@ + label,
            counter: match (index, total) {
                (Some(i), Some(n)) => Some("  ("@ + decimal(i as nat) + "/"@ + decimal(n as nat) + ")"@),
                _ => None,
            },
            tone,
        },
        RouteLineView::Separator,
    ]
}

/// A top-level string field of the decision.
pub open spec fn string_field(fs: Seq<(Seq<char>, Option<Seq<char>>)>, key: Seq<char>) -> Option<Seq<char>> {
    match field_lookup(fs, key, 0) {
        Some(Some(s)) => Some(s),
        _ => None,
    }
}

/// The first entry under `key` from `k` on.
pub open spec fn entry_lookup(es: Seq<(String, JsonDoc)>, key: Seq<char>, k: int) -> Option<JsonDoc>
    decreases es.len() - k,
{
    if k < 0 || k >= es.len() {
        None
    } else if es[k].0@ == key {
        Some(es[k].1)
    } else {
        entry_lookup(es, key, k + 1)
    }
}

/// A top-level boolean field of the decision.
pub open spec fn bool_field(doc: JsonDoc, key: Seq<char>) -> Option<bool> {
    match doc {
        JsonDoc::Object(es) => match entry_lookup(es@, key, 0) {
            Some(JsonDoc::Bool(b)) => Some(b),
            _ => None,
        },
        _ => None,
    }
}

/// A string field trimmed, when something is left.
pub open spec fn trimmed_text(fs: Seq<(Seq<char>, Option<Seq<char>>)>, key: Seq<char>) -> Option<Seq<char>> {
    match string_field(fs, key) {
        Some(s) => if trim_spec(s).len() > 0 { Some(trim_spec(s)) } else { None },
        None => None,
    }
}

pub open spec fn opt_line(b: bool, l: RouteLineView) -> Seq<RouteLineView> {
    if b { seq![l] } else { Seq::empty() }
}

/// Free text under a section title, when there is any.
pub open spec fn section_lines(title: Seq<char>, text: Option<Seq<char>>) -> Seq<RouteLineView> {
    match text {
        Some(t) => seq![
            RouteLineView::Blank,
            RouteLineView::Section { title },
            RouteLineView::Markdown { text: t },
        ],
        None => Seq::empty(),
    }
}

/// `• Mode:` with the prettified mode (`Unknown` when there is none) and
/// direct kind; warning for `direct`, success for `orchestrate`.
pub open spec fn mode_line(fs: Seq<(Seq<char>, Option<Seq<char>>)>) -> RouteLineView {
    let mode = match string_field(fs, "mode"@) {
        Some(m) => prettified(m),
        None => "Unknown"@,
    };
    let label = match string_field(fs, "direct_kind"@) {
        Some(k) => mode + " "@ + prettified(k),
        None => mode,
    };
    let tone = match string_field(fs, "mode"@) {
        Some(m) => if m == "direct"@ {
            RouteTone::Warning
        } else if m == "orchestrate"@ {
            RouteTone::Success
        } else {
            RouteTone::Text
        },
        None => RouteTone::Text,
    };
    RouteLineView::Field { label: "Mode"@, value: label, tone }
}

pub open spec fn preset_lines(fs: Seq<(Seq<char>, Option<Seq<char>>)>) -> Seq<RouteLineView> {
    match string_field(fs, "preset"@) {
        Some(p) => seq![RouteLineView::Field { label: "Preset"@, value: prettified(p), tone: RouteTone::Info }],
        None => Seq::empty(),
    }
}

pub open spec fn review_lines(fs: Seq<(Seq<char>, Option<Seq<char>>)>) -> Seq<RouteLineView> {
    match string_field(fs, "review_mode"@) {
        Some(r) => seq![
            RouteLineView::Field {
                label: "Review"@,
                value: prettified(r),
                tone: if r == "skip"@ { RouteTone::Warning } else { RouteTone::Success },
            },
        ],
        None => Seq::empty(),
    }
}

pub open spec fn plan_lines(doc: JsonDoc) -> Seq<RouteLineView> {
    match bool_field(doc, "insert_plan_stage"@) {
        Some(b) => seq![
            RouteLineView::Field {
                label: "Insert Plan Stage"@,
                value: if b { "Yes"@ } else { "No"@ },
                tone: if b { RouteTone::Success } else { RouteTone::Muted },
            },
        ],
        None => Seq::empty(),
    }
}

pub open spec fn reason_lines(fs: Seq<(Seq<char>, Option<Seq<char>>)>) -> Seq<RouteLineView> {
    match trimmed_text(fs, "rationale_summary"@) {
        Some(t) => seq![RouteLineView::Field { label: "Reason"@, value: t, tone: RouteTone::Text }],
        None => Seq::empty(),
    }
}

/// The decision's lines: heading, mode (with its direct kind), preset,
/// review mode, whether a plan stage is inserted, the reason, then the
/// appended context and the direct response.
pub open spec fn decision_lines_spec(doc: JsonDoc, fs: Seq<(Seq<char>, Option<Seq<char>>)>) -> Seq<RouteLineView> {
    seq![RouteLineView::Heading, mode_line(fs)] + preset_lines(fs) + review_lines(fs) + plan_lines(doc)
        + reason_lines(fs) + section_lines("Appended Context"@, trimmed_text(fs, "context_append"@))
        + section_lines("Direct Response"@, trimmed_text(fs, "direct_response"@))
}

/// The route stage of a message: `None` when its body (after any `## `
/// heading) holds no decision that parses; else the header of the `route`
/// stage for the profile (`scheduler` when none is named) and the
/// decision's lines.
pub open spec fn route_stage_spec(
    text: Seq<char>,
    profile: Option<Seq<char>>,
    index: Option<u64>,
    total: Option<u64>,
) -> Option<Seq<RouteLineView>> {
    let body = trim_spec(split_stage_heading_spec(text).1);
    match json_candidate_spec(body) {
        None => None,
        Some(c) => match json_parse(c) {
            Err(_) => None,
            Ok(doc) => match doc_fields(doc) {
                Some(fs) => Some(
                    stage_header_spec(
                        match profile {
                            Some(p) => p,
                            None => "scheduler"@,
                        },
                        "route"@,
                        index,
                        total,
                    ) + decision_lines_spec(doc, fs),
                ),
                None => Some(
                    stage_header_spec(
                        match profile {
                            Some(p) => p,
                            None => "scheduler"@,
                        },
                        "route"@,
                        index,
                        total,
                    ) + decision_lines_spec(doc, Seq::empty()),
                ),
            },
        },
    }
}

fn string_field_exec(fields: &Option<Vec<JsonField>>, key: &str) -> (r: Option<String>)
    ensures
        opt_view(r) == match *fields {
            Some(fs) => string_field(fields_view(fs@), key@),
            None => string_field(Seq::empty(), key@),
        },
{
    match fields {
        Some(fs) => {
            let k = string_from_chars(&chars_of(key));
            match lookup_field(fs, &k) {
                Some(Some(s)) => Some(s),
                _ => None,
            }
        },
        None => None,
    }
}

pub open spec fn opt_view(o: Option<String>) -> Option<Seq<char>> {
    match o {
        Some(s) => Some(s@),
        None => None,
    }
}

fn bool_field_exec(doc: &JsonDoc, key: &str) -> (r: Option<bool>)
    ensures
        r == bool_field(*doc, key@),
{
    match doc {
        JsonDoc::Object(es) => {
            let target = chars_of(key);
            let mut k: usize = 0;
            while k < es.len()
                invariant
                    0 <= k <= es@.len(),
                    target@ == key@,
                    entry_lookup(es@, key@, k as int) == entry_lookup(es@, key@, 0),
                    bool_field(*doc, key@) == match entry_lookup(es@, key@, 0) {
                        Some(JsonDoc::Bool(b)) => Some(b),
                        _ => None::<bool>,
                    },
                decreases es.len() - k,
            {
                if crate::text::chars_eq(&chars_of(es[k].0.as_str()), &target) {
                    assert(es@[k as int].0@ == key@);
                    assert(entry_lookup(es@, key@, k as int) == Some(es@[k as int].1));
                    return match &es[k].1 {
                        JsonDoc::Bool(b) => Some(*b),
                        _ => None,
                    };
                }
                k = k + 1;
            }
            None
        },
        _ => None,
    }
}

fn trimmed_exec(fields: &Option<Vec<JsonField>>, key: &str) -> (r: Option<String>)
    ensures
        opt_view(r) == match *fields {
            Some(fs) => trimmed_text(fields_view(fs@), key@),
            None => trimmed_text(Seq::empty(), key@),
        },
{
    match string_field_exec(fields, key) {
        Some(s) => {
            let t = trim(&chars_of(s.as_str()));
            if t.len() > 0 { Some(string_from_chars(&t)) } else { None }
        },
        None => None,
    }
}

fn push_section(out: &mut Vec<RouteLine>, title: &str, text: Option<String>)
    ensures
        lines_view(final(out)@) == lines_view(old(out)@) + section_lines(title@, opt_view(text)),
{
    match text {
        Some(t) => {
            out.push(RouteLine::Blank);
            out.push(RouteLine::Section { title: string_from_chars(&chars_of(title)) });
            out.push(RouteLine::Markdown { text: t });
        },
        None => {},
    }
    assert(lines_view(out@) =~= lines_view(old(out)@) + section_lines(title@, opt_view(text)));
}

/// The stage header.
pub fn stage_header_lines(profile: &str, stage: &str, index: Option<u64>, total: Option<u64>) -> (r: Vec<RouteLine>)
    ensures
        lines_view(r@) == stage_header_spec(profile@, stage@, index, total),
{
    let deco = stage_decoration(stage);
    let mut icon = chars_of(deco.icon);
    push_all(&mut icon, &chars_of(" "));
    let mut title = chars_of(prettify_token(profile).as_str());
    push_all(&mut title, &chars_of(" \u{b7} "));
    push_all(&mut title, &chars_of(deco.label));
    let counter = match (index, total) {
        (Some(i), Some(n)) => {
            let mut c = chars_of("  (");
            push_all(&mut c, &u64_decimal(i));
            push_all(&mut c, &chars_of("/"));
            push_all(&mut c, &u64_decimal(n));
            push_all(&mut c, &chars_of(")"));
            Some(string_from_chars(&c))
        },
        _ => None,
    };
    let mut out: Vec<RouteLine> = Vec::new();
    out.push(
        RouteLine::Header {
            icon: string_from_chars(&icon),
            title: string_from_chars(&title),
            counter,
            tone: deco.tone,
        },
    );
    out.push(RouteLine::Separator);
    assert(lines_view(out@) =~= stage_header_spec(profile@, stage@, index, total));
    out
}

fn field_line(label: &str, value: String, tone: RouteTone) -> (r: RouteLine)
    ensures
        line_view(r) == (RouteLineView::Field { label: label@, value: value@, tone }),
{
    RouteLine::Field { label: string_from_chars(&chars_of(label)), value, tone }
}

fn push_mode(out: &mut Vec<RouteLine>, fields: &Option<Vec<JsonField>>)
    ensures
        lines_view(final(out)@) == lines_view(old(out)@).push(
            mode_line(
                match *fields {
                    Some(fs) => fields_view(fs@),
                    None => Seq::empty(),
                },
            ),
        ),
{
    let mode_raw = string_field_exec(fields, "mode");
    let mut label: Vec<char> = match &mode_raw {
        Some(m) => chars_of(prettify_token(m.as_str()).as_str()),
        None => chars_of("Unknown"),
    };
    match string_field_exec(fields, "direct_kind") {
        Some(k) => {
            push_all(&mut label, &chars_of(" "));
            push_all(&mut label, &chars_of(prettify_token(k.as_str()).as_str()));
        },
        None => {},
    }
    let tone = match &mode_raw {
        Some(m) => {
            let mc = chars_of(m.as_str());
            if crate::text::chars_eq(&mc, &chars_of("direct")) {
                RouteTone::Warning
            } else if crate::text::chars_eq(&mc, &chars_of("orchestrate")) {
                RouteTone::Success
            } else {
                RouteTone::Text
            }
        },
        None => RouteTone::Text,
    };
    out.push(field_line("Mode", string_from_chars(&label), tone));
    assert(lines_view(out@) =~= lines_view(old(out)@).push(
        mode_line(
            match *fields {
                Some(fs) => fields_view(fs@),
                None => Seq::empty(),
            },
        ),
    ));
}

fn push_fields(out: &mut Vec<RouteLine>, doc: &JsonDoc, fields: &Option<Vec<JsonField>>)
    ensures
        ({
            let fs = match *fields {
                Some(fs) => fields_view(fs@),
                None => Seq::empty(),
            };
            lines_view(final(out)@) == lines_view(old(out)@) + preset_lines(fs) + review_lines(fs) + plan_lines(*doc)
                + reason_lines(fs)
        }),
{
    let ghost fs = match fields {
        Some(fs) => fields_view(fs@),
        None => Seq::empty(),
    };
    let ghost v0 = lines_view(out@);
    match string_field_exec(fields, "preset") {
        Some(p) => out.push(field_line("Preset", prettify_token(p.as_str()), RouteTone::Info)),
        None => {},
    }
    assert(lines_view(out@) =~= v0 + preset_lines(fs));
    let ghost v1 = lines_view(out@);
    match string_field_exec(fields, "review_mode") {
        Some(r) => {
            let skip = crate::text::chars_eq(&chars_of(r.as_str()), &chars_of("skip"));
            out.push(field_line("Review", prettify_token(r.as_str()), if skip { RouteTone::Warning } else { RouteTone::Success }));
        },
        None => {},
    }
    assert(lines_view(out@) =~= v1 + review_lines(fs));
    let ghost v2 = lines_view(out@);
    match bool_field_exec(doc, "insert_plan_stage") {
        Some(b) => out.push(
            field_line(
                "Insert Plan Stage",
                string_from_chars(&chars_of(if b { "Yes" } else { "No" })),
                if b { RouteTone::Success } else { RouteTone::Muted },
            ),
        ),
        None => {},
    }
    assert(lines_view(out@) =~= v2 + plan_lines(*doc));
    let ghost v3 = lines_view(out@);
    match trimmed_exec(fields, "rationale_summary") {
        Some(t) => out.push(field_line("Reason", t, RouteTone::Text)),
        None => {},
    }
    assert(lines_view(out@) =~= v3 + reason_lines(fs));
}

/// The lines of a parsed decision.
pub fn decision_lines(doc: &JsonDoc, fields: &Option<Vec<JsonField>>) -> (r: Vec<RouteLine>)
    ensures
        lines_view(r@) == decision_lines_spec(
            *doc,
            match *fields {
                Some(fs) => fields_view(fs@),
                None => Seq::empty(),
            },
        ),
{
    let ghost fs = match fields {
        Some(fs) => fields_view(fs@),
        None => Seq::empty(),
    };
    let mut out: Vec<RouteLine> = Vec::new();
    out.push(RouteLine::Heading);
    push_mode(&mut out, fields);
    push_fields(&mut out, doc, fields);
    push_section(&mut out, "Appended Context", trimmed_exec(fields, "context_append"));
    push_section(&mut out, "Direct Response", trimmed_exec(fields, "direct_response"));
    assert(lines_view(out@) =~= decision_lines_spec(*doc, fs));
    out
}

/// The route stage of a message; `None` when it holds no decision that
/// parses. `profile`, `index` and `total` are what the message's metadata
/// names as the scheduler profile and the stage's place.
pub fn route_stage_lines(text: &str, profile: Option<&str>, index: Option<u64>, total: Option<u64>) -> (r: Option<Vec<RouteLine>>)
    ensures
        match r {
            Some(v) => route_stage_spec(
                text@,
                match profile {
                    Some(p) => Some(p@),
                    None => None,
                },
                index,
                total,
            ) == Some(lines_view(v@)),
            None => route_stage_spec(
                text@,
                match profile {
                    Some(p) => Some(p@),
                    None => None,
                },
                index,
                total,
            ) is None,
        },
{
    let (_, body) = split_stage_heading(text);
    let trimmed = string_from_chars(&trim(&chars_of(body.as_str())));
    let (doc, fields) = match parse_route_decision_value(trimmed.as_str()) {
        Some(d) => d,
        None => return None,
    };
    let p = match profile {
        Some(p) => p,
        None => "scheduler",
    };
    proof {
        reveal_strlit("scheduler");
    }
    let mut out = stage_header_lines(p, "route", index, total);
    let ghost head = out@;
    let mut rest = decision_lines(&doc, &fields);
    let ghost tail = rest@;
    out.append(&mut rest);
    assert(lines_view(out@) =~= lines_view(head) + lines_view(tail));
    Some(out)
}

} // verus!
