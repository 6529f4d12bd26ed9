//! The streaming scanner: it follows strings, braces and brackets over a
//! growing buffer and records where each top-level object starts and ends.
use vstd::prelude::*;
use vstd::string::StringExecFns;
use crate::text::{chars_of, lemma_utf8_len_bounds, lemma_utf8_len_concat, lemma_utf8_len_push, lemma_utf8_len_single, utf8_len, utf8_width, utf8_width_spec};

verus! {

/// Describes a tool's JSON structure for matching parsed objects to tools.
#[derive(Clone, Debug)]
pub struct ToolSchema {
    pub name: String,
    /// Keys that must be present (higher match weight).
    pub required_keys: Vec<String>,
    /// Optional keys (lower match weight).
    pub optional_keys: Vec<String>,
}

/// Scanner state in mathematical terms.
pub struct ScanModel {
    pub brace_depth: int,
    pub bracket_depth: int,
    pub in_string: bool,
    pub escape: bool,
}

/// A top-level object in mathematical terms: byte offsets (`start`, `end`)
/// and the matching char indices.
pub struct ObjectModel {
    pub start: int,
    pub end: Option<int>,
    pub start_char: int,
    pub end_char: Option<int>,
}

pub open spec fn initial_scan() -> ScanModel {
    ScanModel { brace_depth: 0, bracket_depth: 0, in_string: false, escape: false }
}

/// One character of the state machine; `byte` is the byte offset of `c`
/// in the buffer and `idx` its char index.
pub open spec fn scan_step(
    m: ScanModel,
    objs: Seq<ObjectModel>,
    c: char,
    byte: int,
    idx: int,
) -> (ScanModel, Seq<ObjectModel>) {
    if m.in_string {
        if m.escape {
            (ScanModel { escape: false, ..m }, objs)
        } else if c == '\\' {
            (ScanModel { escape: true, ..m }, objs)
        } else if c == '"' {
            (ScanModel { in_string: false, ..m }, objs)
        } else {
            (m, objs)
        }
    } else if c == '"' {
        (ScanModel { in_string: true, ..m }, objs)
    } else if c == '{' {
        let objs2 = if m.brace_depth == 0 && m.bracket_depth == 0 {
            objs.push(ObjectModel { start: byte, end: None, start_char: idx, end_char: None })
        } else {
            objs
        };
        (ScanModel { brace_depth: m.brace_depth + 1, ..m }, objs2)
    } else if c == '}' {
        let d = if m.brace_depth - 1 < 0 { 0 } else { m.brace_depth - 1 };
        let objs2 = if d == 0 && m.bracket_depth == 0 && objs.len() > 0
            && objs.last().end is None {
            objs.update(
                objs.len() - 1,
                ObjectModel {
                    end: Some(byte + utf8_width_spec(c)),
                    end_char: Some(idx + 1),
                    ..objs.last()
                },
            )
        } else {
            objs
        };
        (ScanModel { brace_depth: d, ..m }, objs2)
    } else if c == '[' {
        (ScanModel { bracket_depth: m.bracket_depth + 1, ..m }, objs)
    } else if c == ']' {
        let d = if m.bracket_depth - 1 < 0 { 0 } else { m.bracket_depth - 1 };
        (ScanModel { bracket_depth: d, ..m }, objs)
    } else {
        (m, objs)
    }
}

/// Scans `s`, whose first char sits at byte offset `byte` and char index `idx`.
pub open spec fn scan_chars(
    m: ScanModel,
    objs: Seq<ObjectModel>,
    s: Seq<char>,
    byte: int,
    idx: int,
) -> (ScanModel, Seq<ObjectModel>)
    decreases s.len(),
{
    if s.len() == 0 {
        (m, objs)
    } else {
        let (m2, o2) = scan_step(m, objs, s[0], byte, idx);
        scan_chars(m2, o2, s.drop_first(), byte + utf8_width_spec(s[0]), idx + 1)
    }
}

/// The scanner state and objects after scanning a whole buffer from the start.
pub open spec fn scan_all(s: Seq<char>) -> (ScanModel, Seq<ObjectModel>) {
    scan_chars(initial_scan(), Seq::empty(), s, 0, 0)
}

/// Scanning in two pieces gives what scanning the concatenation gives.
pub proof fn lemma_scan_concat(
    m: ScanModel,
    objs: Seq<ObjectModel>,
    a: Seq<char>,
    b: Seq<char>,
    byte: int,
    idx: int,
)
    ensures
        ({
            let (m1, o1) = scan_chars(m, objs, a, byte, idx);
            scan_chars(m1, o1, b, byte + utf8_len(a), idx + a.len())
        }) == scan_chars(m, objs, a + b, byte, idx),
    decreases a.len(),
{
    if a.len() == 0 {
        assert(a + b =~= b);
    } else {
        let (m2, o2) = scan_step(m, objs, a[0], byte, idx);
        lemma_scan_concat(m2, o2, a.drop_first(), b, byte + utf8_width_spec(a[0]), idx + 1);
        assert((a + b).drop_first() =~= a.drop_first() + b);
        assert(a =~= seq![a[0]] + a.drop_first());
        lemma_utf8_len_concat(seq![a[0]], a.drop_first());
        assert(seq![a[0]].drop_last() =~= Seq::<char>::empty());
        lemma_utf8_len_single(a[0]);
        assert(utf8_len(a) == utf8_width_spec(a[0]) + utf8_len(a.drop_first()));
    }
}

/// Well-formed objects for a buffer: offsets agree with the text, ends come
/// after starts, and starts increase.
pub open spec fn objects_wf(objs: Seq<ObjectModel>, t: Seq<char>) -> bool {
    &&& forall|i: int|
        #![trigger objs[i]]
        0 <= i < objs.len() ==> {
            &&& 0 <= objs[i].start_char < t.len()
            &&& objs[i].start == utf8_len(t.take(objs[i].start_char))
            &&& t[objs[i].start_char] == '{'
            &&& (objs[i].end_char is None <==> objs[i].end is None)
            &&& (objs[i].end_char matches Some(e) ==> {
                &&& objs[i].start_char < e <= t.len()
                &&& objs[i].end == Some(utf8_len(t.take(e)) as int)
                &&& t[e - 1] == '}'
            })
        }
    &&& forall|i: int, j: int|
        #![trigger objs[i], objs[j]]
        0 <= i < j < objs.len() ==> objs[i].start_char < objs[j].start_char
}

pub open spec fn scan_bounded(m: ScanModel, t: Seq<char>) -> bool {
    &&& 0 <= m.brace_depth <= t.len()
    &&& 0 <= m.bracket_depth <= t.len()
}

proof fn lemma_step_wf(m: ScanModel, objs: Seq<ObjectModel>, t: Seq<char>, c: char)
    requires
        objects_wf(objs, t),
        scan_bounded(m, t),
    ensures
        ({
            let (m2, o2) = scan_step(m, objs, c, utf8_len(t) as int, t.len() as int);
            objects_wf(o2, t.push(c)) && scan_bounded(m2, t.push(c))
        }),
{
    let t2 = t.push(c);
    let (m2, o2) = scan_step(m, objs, c, utf8_len(t) as int, t.len() as int);
    assert forall|k: int| 0 <= k <= t.len() implies #[trigger] t2.take(k) == t.take(k) by {
        assert(t2.take(k) =~= t.take(k));
    }
    assert(t2.take(t.len() as int) =~= t);
    assert(t2.take(t.len() + 1 as int) =~= t2);
    lemma_utf8_len_push(t, c);
    assert forall|i: int| 0 <= i < objs.len() implies #[trigger] t2[objs[i].start_char] == t[objs[i].start_char] by {}
    assert forall|i: int| 0 <= i < o2.len() implies ({
        &&& 0 <= o2[i].start_char < t2.len()
        &&& o2[i].start == utf8_len(t2.take(o2[i].start_char))
        &&& t2[o2[i].start_char] == '{'
        &&& (o2[i].end_char is None <==> o2[i].end is None)
        &&& (o2[i].end_char matches Some(e) ==> {
            &&& o2[i].start_char < e <= t2.len()
            &&& o2[i].end == Some(utf8_len(t2.take(e)) as int)
            &&& t2[e - 1] == '}'
        })
    }) by {
        if i < objs.len() {
            let o = objs[i];
            if let Some(e) = o.end_char {
                assert(t2[e - 1] == t[e - 1]);
            }
        }
    }
    assert(objects_wf(o2, t2));
}

pub proof fn lemma_scan_wf(
    m: ScanModel,
    objs: Seq<ObjectModel>,
    t: Seq<char>,
    s: Seq<char>,
)
    requires
        objects_wf(objs, t),
        scan_bounded(m, t),
    ensures
        ({
            let (m2, o2) = scan_chars(m, objs, s, utf8_len(t) as int, t.len() as int);
            objects_wf(o2, t + s) && scan_bounded(m2, t + s)
        }),
    decreases s.len(),
{
    if s.len() == 0 {
        assert(t + s =~= t);
    } else {
        let (m2, o2) = scan_step(m, objs, s[0], utf8_len(t) as int, t.len() as int);
        lemma_step_wf(m, objs, t, s[0]);
        lemma_utf8_len_push(t, s[0]);
        lemma_scan_wf(m2, o2, t.push(s[0]), s.drop_first());
        assert(t.push(s[0]) + s.drop_first() =~= t + s);
    }
}

// ---------------------------------------------------------------------------
// Executable state
// ---------------------------------------------------------------------------

/// Tracks a top-level JSON object discovered in the buffer.
#[derive(Clone, Copy)]
pub(crate) struct TrackedObject {
    /// Byte offset of the opening `{`.
    pub(crate) start: usize,
    /// Byte offset past the closing `}`, if seen.
    pub(crate) end: Option<usize>,
    pub(crate) start_char: usize,
    pub(crate) end_char: Option<usize>,
}

impl TrackedObject {
    pub(crate) open spec fn model(self) -> ObjectModel {
        ObjectModel {
            start: self.start as int,
            end: match self.end {
                Some(e) => Some(e as int),
                None => None,
            },
            start_char: self.start_char as int,
            end_char: match self.end_char {
                Some(e) => Some(e as int),
                None => None,
            },
        }
    }
}

/// Character-level state machine for JSON structure tracking.
#[derive(Clone, Copy)]
pub(crate) struct ScannerState {
    pub(crate) brace_depth: i32,
    pub(crate) bracket_depth: i32,
    pub(crate) in_string: bool,
    pub(crate) escape: bool,
    pub(crate) byte_offset: usize,
}

impl ScannerState {
    pub(crate) fn new() -> (r: Self)
        ensures
            r.model() == initial_scan(),
            r.byte_offset == 0,
    {
        ScannerState {
            brace_depth: 0,
            bracket_depth: 0,
            in_string: false,
            escape: false,
            byte_offset: 0,
        }
    }

    pub(crate) open spec fn model(self) -> ScanModel {
        ScanModel {
            brace_depth: self.brace_depth as int,
            bracket_depth: self.bracket_depth as int,
            in_string: self.in_string,
            escape: self.escape,
        }
    }
}

pub(crate) open spec fn objects_model(objs: Seq<TrackedObject>) -> Seq<ObjectModel> {
    objs.map_values(|o: TrackedObject| o.model())
}

/// Streaming parser state: the buffer received so far, the scanner state
/// and the top-level objects found in it.
pub struct StreamingToolParser {
    pub(crate) buffer: String,
    pub(crate) chars: Vec<char>,
    pub(crate) state: ScannerState,
    pub(crate) objects: Vec<TrackedObject>,
    pub(crate) schemas: Vec<ToolSchema>,
}

/// Deltas joined in order.
pub open spec fn joined_deltas(ds: Seq<Seq<char>>) -> Seq<char>
    decreases ds.len(),
{
    if ds.len() == 0 {
        Seq::empty()
    } else {
        joined_deltas(ds.drop_last()) + ds.last()
    }
}

/// Pushing deltas one after another into a new parser, with no reset
/// between them, leaves the buffer holding every delta in push order:
/// `texts[i]` is the parser's text after `i` pushes, each push adding its
/// delta as `push` states.
pub proof fn lemma_buffer_after_pushes(texts: Seq<Seq<char>>, deltas: Seq<Seq<char>>)
    requires
        texts.len() == deltas.len() + 1,
        texts[0] == Seq::<char>::empty(),
        forall|i: int| 0 <= i < deltas.len() ==> #[trigger] texts[i + 1] == texts[i] + deltas[i],
    ensures
        texts[deltas.len() as int] == joined_deltas(deltas),
    decreases deltas.len(),
{
    if deltas.len() > 0 {
        let n = deltas.len() as int;
        assert forall|i: int| 0 <= i < deltas.drop_last().len() implies #[trigger] texts.drop_last()[i + 1]
            == texts.drop_last()[i] + deltas.drop_last()[i] by {
            assert(texts[i + 1] == texts[i] + deltas[i]);
        }
        lemma_buffer_after_pushes(texts.drop_last(), deltas.drop_last());
        assert(texts[n] == texts[n - 1] + deltas[n - 1]);
    } else {
        assert(joined_deltas(deltas) =~= Seq::<char>::empty());
    }
}

impl StreamingToolParser {
    /// The text received so far.
    pub closed spec fn text(&self) -> Seq<char> {
        self.buffer@
    }

    /// Scanner state and objects, in mathematical terms.
    pub closed spec fn scan(&self) -> (ScanModel, Seq<ObjectModel>) {
        (self.state.model(), objects_model(self.objects@))
    }

    pub closed spec fn schemas(&self) -> Seq<ToolSchema> {
        self.schemas@
    }

    pub closed spec fn wf(&self) -> bool {
        &&& self.chars@ == self.buffer@
        &&& self.scan() == scan_all(self.buffer@)
        &&& objects_wf(objects_model(self.objects@), self.buffer@)
        &&& scan_bounded(self.state.model(), self.buffer@)
        &&& self.buffer@.len() < i32::MAX
        &&& self.state.byte_offset == utf8_len(self.buffer@)
    }

    /// What well-formedness says of the fields.
    pub(crate) proof fn lemma_wf_facts(&self)
        requires
            self.wf(),
        ensures
            self.chars@ == self.text(),
            objects_model(self.objects@) == scan_all(self.text()).1,
            self.objects@.len() == scan_all(self.text()).1.len(),
            objects_wf(scan_all(self.text()).1, self.text()),
            self.state.byte_offset == utf8_len(self.text()),
            self.schemas@ == self.schemas(),
            forall|i: int| 0 <= i < self.objects@.len() ==> #[trigger] self.objects@[i].model() == scan_all(self.text()).1[i],
    {
    }

    pub fn new(schemas: Vec<ToolSchema>) -> (r: Self)
        ensures
            r.wf(),
            r.text() == Seq::<char>::empty(),
            r.schemas() == schemas@,
    {
        let r = StreamingToolParser {
            buffer: String::new(),
            chars: Vec::new(),
            state: ScannerState::new(),
            objects: Vec::new(),
            schemas,
        };
        assert(objects_model(r.objects@) =~= Seq::<ObjectModel>::empty());
        r
    }

    /// Current buffer content (for diagnostics).
    pub fn buffer(&self) -> (r: &str)
        ensures
            r@ == self.text(),
    {
        self.buffer.as_str()
    }

    /// Number of top-level objects tracked so far.
    pub fn object_count(&self) -> (r: usize)
        requires
            self.wf(),
        ensures
            r == scan_all(self.text()).1.len(),
    {
        self.objects.len()
    }

    /// Push streaming delta into the parser. Core entry point.
    pub fn push(&mut self, delta: &str)
        requires
            old(self).wf(),
            old(self).text().len() + delta@.len() < i32::MAX,
            utf8_len(old(self).text() + delta@) <= usize::MAX,
        ensures
            final(self).wf(),
            final(self).text() == old(self).text() + delta@,
            final(self).schemas() == old(self).schemas(),
    {
        let d = chars_of(delta);
        let ghost t0 = self.buffer@;
        let ghost target = scan_chars(
            self.state.model(),
            objects_model(self.objects@),
            d@,
            utf8_len(t0) as int,
            t0.len() as int,
        );
        proof {
            lemma_scan_concat(initial_scan(), Seq::empty(), t0, d@, 0, 0);
            lemma_utf8_len_concat(t0, d@);
            lemma_utf8_len_bounds(t0 + d@);
        }
        self.buffer.append(delta);
        assert(d@.skip(0) =~= d@);
        assert(t0 + d@.take(0) =~= t0);
        let mut k: usize = 0;
        while k < d.len()
            invariant
                0 <= k <= d@.len(),
                d@ == delta@,
                self.buffer@ == t0 + d@,
                t0.len() + d@.len() < i32::MAX,
                utf8_len(t0 + d@) <= usize::MAX,
                self.chars@ == t0 + d@.take(k as int),
                self.state.byte_offset == utf8_len(t0 + d@.take(k as int)),
                target == scan_chars(
                    self.state.model(),
                    objects_model(self.objects@),
                    d@.skip(k as int),
                    utf8_len(t0 + d@.take(k as int)) as int,
                    (t0.len() + k) as int,
                ),
                objects_wf(objects_model(self.objects@), t0 + d@.take(k as int)),
                scan_bounded(self.state.model(), t0 + d@.take(k as int)),
                self.schemas@ == old(self).schemas@,
            decreases d.len() - k,
        {
            let ghost pre = t0 + d@.take(k as int);
            let c = d[k];
            proof {
                lemma_utf8_len_push(pre, c);
                assert(pre.push(c) =~= t0 + d@.take(k + 1));
                lemma_utf8_len_concat(t0 + d@.take(k + 1), d@.skip(k + 1));
                assert(t0 + d@.take(k + 1) + d@.skip(k + 1) =~= t0 + d@);
                lemma_step_wf(self.state.model(), objects_model(self.objects@), pre, c);
                assert(d@.skip(k as int).drop_first() =~= d@.skip(k + 1));
            }
            let off = self.state.byte_offset;
            let idx = self.chars.len();
            self.scan_char(c, off, idx);
            self.chars.push(c);
            self.state.byte_offset = off + utf8_width(c);
            k = k + 1;
        }
        proof {
            assert(d@.take(d@.len() as int) =~= d@);
            assert(d@.skip(d@.len() as int) =~= Seq::<char>::empty());
        }
    }

    /// State machine: process a single character at `byte_offset` / `idx`.
    fn scan_char(&mut self, ch: char, byte_offset: usize, idx: usize)
        requires
            old(self).chars@.len() == idx,
            idx + 1 < i32::MAX,
            byte_offset + utf8_width_spec(ch) <= usize::MAX,
            scan_bounded(old(self).state.model(), old(self).chars@),
        ensures
            (final(self).state.model(), objects_model(final(self).objects@)) == scan_step(
                old(self).state.model(),
                objects_model(old(self).objects@),
                ch,
                byte_offset as int,
                idx as int,
            ),
            final(self).state.byte_offset == old(self).state.byte_offset,
            final(self).buffer == old(self).buffer,
            final(self).chars == old(self).chars,
            final(self).schemas == old(self).schemas,
    {
        let ghost om = objects_model(self.objects@);
        if self.state.in_string {
            if self.state.escape {
                self.state.escape = false;
                return;
            }
            if ch == '\\' {
                self.state.escape = true;
                return;
            }
            if ch == '"' {
                self.state.in_string = false;
            }
            return;
        }
        if ch == '"' {
            self.state.in_string = true;
        } else if ch == '{' {
            if self.state.brace_depth == 0 && self.state.bracket_depth == 0 {
                self.objects.push(
                    TrackedObject { start: byte_offset, end: None, start_char: idx, end_char: None },
                );
                assert(objects_model(self.objects@) =~= om.push(
                    ObjectModel { start: byte_offset as int, end: None, start_char: idx as int, end_char: None },
                ));
            }
            self.state.brace_depth = self.state.brace_depth + 1;
        } else if ch == '}' {
            self.state.brace_depth = if self.state.brace_depth - 1 < 0 {
                0
            } else {
                self.state.brace_depth - 1
            };
            if self.state.brace_depth == 0 && self.state.bracket_depth == 0 {
                let n = self.objects.len();
                if n > 0 {
                    let last = self.objects[n - 1];
                    if last.end.is_none() {
                        let w = utf8_width(ch);
                        let upd = TrackedObject {
                            start: last.start,
                            end: Some(byte_offset + w),
                            start_char: last.start_char,
                            end_char: Some(idx + 1),
                        };
                        self.objects.set(n - 1, upd);
                        assert(objects_model(self.objects@) =~= om.update(
                            n - 1,
                            ObjectModel {
                                end: Some(byte_offset + utf8_width_spec(ch)),
                                end_char: Some(idx + 1),
                                ..om.last()
                            },
                        ));
                    }
                }
            }
        } else if ch == '[' {
            self.state.bracket_depth = self.state.bracket_depth + 1;
        } else if ch == ']' {
            self.state.bracket_depth = if self.state.bracket_depth - 1 < 0 {
                0
            } else {
                self.state.bracket_depth - 1
            };
        }
    }

    /// Reset parser state for reuse.
    pub fn reset(&mut self)
        ensures
            final(self).wf(),
            final(self).text() == Seq::<char>::empty(),
            final(self).schemas() == old(self).schemas(),
    {
        self.buffer = String::new();
        self.chars = Vec::new();
        self.state = ScannerState::new();
        self.objects = Vec::new();
        assert(objects_model(self.objects@) =~= Seq::<ObjectModel>::empty());
    }
}

} // verus!
