//! Parsing the objects found by the streaming scanner.
use vstd::prelude::*;
use crate::jsonish::detect::{
    detect_tool, detect_tool_spec, doc_fields, json_parse, lemma_detected_tool_is_listed,
    parse_json_value, top_fields, JsonDoc,
};
use crate::jsonish::pipeline::{repair_json, repair_json_spec};
use crate::jsonish::repair::views;
use crate::jsonish::scanner::{objects_wf, scan_all, ObjectModel, StreamingToolParser};
use crate::text::{lemma_utf8_len_bounds, lemma_utf8_len_concat, slice_chars, string_from_chars, utf8_len};

verus! {

/// Successful parse result with diagnostics.
#[derive(Debug)]
pub struct ToolParseResult {
    pub tool_name: String,
    pub value: JsonDoc,
    /// Byte range of this object in the original buffer.
    pub span: (usize, usize),
    /// Repair operations applied (for diagnostics).
    pub repairs: Vec<String>,
}

/// Parse failure diagnostics.
#[derive(Debug)]
pub enum ParseError {
    /// No JSON object found in buffer.
    NoObject,
    /// JSON structure found but repair failed.
    InvalidJson { repaired: String, serde_error: String },
    /// Valid JSON but no tool schema matched.
    NoToolMatch { value: JsonDoc },
}

/// The chars of a tracked object; an object not closed yet runs to the end.
pub open spec fn object_text(text: Seq<char>, o: ObjectModel) -> Seq<char> {
    text.subrange(
        o.start_char,
        match o.end_char {
            Some(e) => e,
            None => text.len() as int,
        },
    )
}

/// Byte range of a tracked object in the buffer.
pub open spec fn object_span(text: Seq<char>, o: ObjectModel) -> (int, int) {
    (
        o.start,
        match o.end {
            Some(e) => e,
            None => utf8_len(text) as int,
        },
    )
}

/// What parsing object `index` of the buffer gives.
pub open spec fn parse_outcome(
    text: Seq<char>,
    schemas: Seq<crate::jsonish::scanner::ToolSchema>,
    index: int,
    aggressive: bool,
    r: Result<ToolParseResult, ParseError>,
) -> bool {
    let objs = scan_all(text).1;
    if index < 0 || index >= objs.len() {
        r matches Err(ParseError::NoObject)
    } else {
        let o = objs[index];
        let rep = repair_json_spec(object_text(text, o), aggressive);
        match json_parse(rep.0) {
            Err(msg) => r matches Err(ParseError::InvalidJson { repaired, serde_error })
                && repaired@ == rep.0 && serde_error@ == msg,
            Ok(doc) => match detect_tool_spec(doc_fields(doc), schemas) {
                None => r matches Err(ParseError::NoToolMatch { value }) && value == doc,
                Some(name) => r matches Ok(res) && res.tool_name@ == name && res.value == doc
                    && res.span.0 == object_span(text, o).0 && res.span.1 == object_span(text, o).1
                    && views(res.repairs@) == rep.1,
            },
        }
    }
}

impl StreamingToolParser {
    fn parse_object(&self, index: usize, aggressive: bool) -> (r: Result<ToolParseResult, ParseError>)
        requires
            self.wf(),
        ensures
            parse_outcome(self.text(), self.schemas(), index as int, aggressive, r),
    {
        proof { self.lemma_wf_facts(); }
        if index >= self.objects.len() {
            return Err(ParseError::NoObject);
        }
        let obj = self.objects[index];
        proof {
            assert(scan_all(self.text()).1[index as int] == obj.model());
        }
        let end = match obj.end {
            Some(e) => e,
            None => self.state.byte_offset,
        };
        let end_char = match obj.end_char {
            Some(e) => e,
            None => self.chars.len(),
        };
        let slice = slice_chars(&self.chars, obj.start_char, end_char);
        let mut repairs: Vec<String> = Vec::new();
        let repaired = repair_json(&slice, aggressive, &mut repairs);
        assert(views(repairs@) =~= repair_json_spec(slice@, aggressive).1);
        let repaired_text = string_from_chars(&repaired);
        match parse_json_value(repaired_text.as_str()) {
            Err(msg) => Err(ParseError::InvalidJson { repaired: repaired_text, serde_error: msg }),
            Ok(value) => {
                let fields = top_fields(&value);
                match detect_tool(&fields, &self.schemas) {
                    None => Err(ParseError::NoToolMatch { value }),
                    Some(tool_name) => Ok(
                        ToolParseResult { tool_name, value, span: (obj.start, end), repairs },
                    ),
                }
            },
        }
    }

    fn last_index(&self) -> (r: usize)
        ensures
            r as int == if self.objects@.len() == 0 { 0 } else { self.objects@.len() - 1 },
    {
        if self.objects.len() == 0 { 0 } else { self.objects.len() - 1 }
    }

    /// Try to parse the last discovered object. Safe to call mid-stream.
    pub fn try_parse(&self) -> (r: Result<ToolParseResult, ParseError>)
        requires
            self.wf(),
        ensures
            parse_outcome(
                self.text(),
                self.schemas(),
                if scan_all(self.text()).1.len() == 0 { 0 } else { scan_all(self.text()).1.len() - 1 },
                false,
                r,
            ),
    {
        proof { self.lemma_wf_facts(); }
        let i = self.last_index();
        assert(i as int == if scan_all(self.text()).1.len() == 0 { 0 } else { scan_all(self.text()).1.len() - 1 });
        self.parse_object(i, false)
    }

    /// Call when stream ends. Uses more aggressive repair strategies.
    pub fn finalize(&self) -> (r: Result<ToolParseResult, ParseError>)
        requires
            self.wf(),
        ensures
            parse_outcome(
                self.text(),
                self.schemas(),
                if scan_all(self.text()).1.len() == 0 { 0 } else { scan_all(self.text()).1.len() - 1 },
                true,
                r,
            ),
    {
        proof { self.lemma_wf_facts(); }
        let i = self.last_index();
        assert(i as int == if scan_all(self.text()).1.len() == 0 { 0 } else { scan_all(self.text()).1.len() - 1 });
        self.parse_object(i, true)
    }

    fn parse_all(&self, aggressive: bool) -> (r: Vec<Result<ToolParseResult, ParseError>>)
        requires
            self.wf(),
        ensures
            r@.len() == scan_all(self.text()).1.len(),
            forall|i: int|
                0 <= i < r@.len() ==> parse_outcome(self.text(), self.schemas(), i, aggressive, #[trigger] r@[i]),
    {
        proof { self.lemma_wf_facts(); }
        let mut out: Vec<Result<ToolParseResult, ParseError>> = Vec::new();
        let mut i: usize = 0;
        while i < self.objects.len()
            invariant
                self.wf(),
                0 <= i <= self.objects@.len(),
                out@.len() == i,
                forall|j: int|
                    0 <= j < i ==> parse_outcome(self.text(), self.schemas(), j, aggressive, #[trigger] out@[j]),
            decreases self.objects.len() - i,
        {
            let r = self.parse_object(i, aggressive);
            out.push(r);
            i = i + 1;
        }
        out
    }

    /// Try to parse all discovered objects.
    pub fn try_parse_all(&self) -> (r: Vec<Result<ToolParseResult, ParseError>>)
        requires
            self.wf(),
        ensures
            r@.len() == scan_all(self.text()).1.len(),
            forall|i: int|
                0 <= i < r@.len() ==> parse_outcome(self.text(), self.schemas(), i, false, #[trigger] r@[i]),
    {
        self.parse_all(false)
    }

    /// Finalize all discovered objects.
    pub fn finalize_all(&self) -> (r: Vec<Result<ToolParseResult, ParseError>>)
        requires
            self.wf(),
        ensures
            r@.len() == scan_all(self.text()).1.len(),
            forall|i: int|
                0 <= i < r@.len() ==> parse_outcome(self.text(), self.schemas(), i, true, #[trigger] r@[i]),
    {
        self.parse_all(true)
    }
}

/// A parse that succeeds, on any buffer the parser can hold, names one of
/// the listed schemas and gives a span that is not empty, lies in the
/// buffer, and starts at the byte offset of a `{`.
pub proof fn lemma_parse_success_in_buffer(
    p: StreamingToolParser,
    index: int,
    aggressive: bool,
    r: Result<ToolParseResult, ParseError>,
)
    requires
        p.wf(),
        parse_outcome(p.text(), p.schemas(), index, aggressive, r),
        r is Ok,
    ensures
        exists|k: int| 0 <= k < p.schemas().len() && #[trigger] p.schemas()[k].name@ == r->Ok_0.tool_name@,
        0 <= r->Ok_0.span.0 < r->Ok_0.span.1 <= utf8_len(p.text()),
        exists|c: int|
            0 <= c < p.text().len() && #[trigger] p.text()[c] == '{' && r->Ok_0.span.0 == utf8_len(p.text().take(c)),
{
    p.lemma_wf_facts();
    let text = p.text();
    let objs = scan_all(text).1;
    let o = objs[index];
    let rep = repair_json_spec(object_text(text, o), aggressive);
    let doc = json_parse(rep.0)->Ok_0;
    lemma_detected_tool_is_listed(doc_fields(doc), p.schemas());
    let s = o.start_char;
    let e = match o.end_char {
        Some(e) => e,
        None => text.len() as int,
    };
    assert(text.take(e) =~= text.take(s) + text.subrange(s, e));
    lemma_utf8_len_concat(text.take(s), text.subrange(s, e));
    lemma_utf8_len_bounds(text.subrange(s, e));
    assert(text =~= text.take(e) + text.subrange(e, text.len() as int));
    lemma_utf8_len_concat(text.take(e), text.subrange(e, text.len() as int));
    if o.end_char is None {
        assert(text.take(e) =~= text);
    }
    assert(text[s] == '{');
}

/// Two parse outcomes say the same: the same kind, and equal texts, values,
/// spans and repairs.
pub open spec fn same_outcome(a: Result<ToolParseResult, ParseError>, b: Result<ToolParseResult, ParseError>) -> bool {
    match (a, b) {
        (Ok(x), Ok(y)) => x.tool_name@ == y.tool_name@ && x.value == y.value && x.span == y.span
            && views(x.repairs@) == views(y.repairs@),
        (Err(ParseError::NoObject), Err(ParseError::NoObject)) => true,
        (
            Err(ParseError::InvalidJson { repaired: r1, serde_error: e1 }),
            Err(ParseError::InvalidJson { repaired: r2, serde_error: e2 }),
        ) => r1@ == r2@ && e1@ == e2@,
        (Err(ParseError::NoToolMatch { value: v1 }), Err(ParseError::NoToolMatch { value: v2 })) => v1 == v2,
        _ => false,
    }
}

/// The outcome of parsing an object depends on the buffered text and the
/// schemas alone: two parsers that hold the same text, however it was
/// split into pushes, give the same outcome for every object.
pub proof fn lemma_outcome_depends_on_text_only(
    p1: StreamingToolParser,
    p2: StreamingToolParser,
    index: int,
    aggressive: bool,
    r1: Result<ToolParseResult, ParseError>,
    r2: Result<ToolParseResult, ParseError>,
)
    requires
        p1.text() == p2.text(),
        p1.schemas() == p2.schemas(),
        parse_outcome(p1.text(), p1.schemas(), index, aggressive, r1),
        parse_outcome(p2.text(), p2.schemas(), index, aggressive, r2),
    ensures
        same_outcome(r1, r2),
{
}

/// Parsing every object depends on the buffered text and the schemas
/// alone: two parsers that hold the same text, however it was split into
/// pushes, track as many objects and give the same outcome for each, in
/// order.
pub proof fn lemma_parse_all_depends_on_text_only(
    p1: StreamingToolParser,
    p2: StreamingToolParser,
    aggressive: bool,
    rs1: Seq<Result<ToolParseResult, ParseError>>,
    rs2: Seq<Result<ToolParseResult, ParseError>>,
)
    requires
        p1.text() == p2.text(),
        p1.schemas() == p2.schemas(),
        rs1.len() == scan_all(p1.text()).1.len(),
        rs2.len() == scan_all(p2.text()).1.len(),
        forall|i: int| 0 <= i < rs1.len() ==> parse_outcome(p1.text(), p1.schemas(), i, aggressive, #[trigger] rs1[i]),
        forall|i: int| 0 <= i < rs2.len() ==> parse_outcome(p2.text(), p2.schemas(), i, aggressive, #[trigger] rs2[i]),
    ensures
        rs1.len() == rs2.len(),
        forall|i: int| 0 <= i < rs1.len() ==> same_outcome(#[trigger] rs1[i], rs2[i]),
{
    assert forall|i: int| 0 <= i < rs1.len() implies same_outcome(#[trigger] rs1[i], rs2[i]) by {
        assert(parse_outcome(p1.text(), p1.schemas(), i, aggressive, rs1[i]));
        assert(parse_outcome(p2.text(), p2.schemas(), i, aggressive, rs2[i]));
        lemma_outcome_depends_on_text_only(p1, p2, i, aggressive, rs1[i], rs2[i]);
    }
}

} // verus!
