//! Session messages and their parts as exchanged with the server.
use vstd::prelude::*;
use std::collections::HashMap;

verus! {

/// A UTC instant in plain values: whole seconds since the Unix epoch and
/// the nanoseconds past them, as `chrono::DateTime<Utc>` gives them by
/// `timestamp` and `timestamp_subsec_nanos`.
#[derive(Debug, Clone, Copy, PartialEq, Eq, Structural)]
pub struct Timestamp {
    pub secs: i64,
    pub nanos: u32,
}

/// Milliseconds since the epoch, as chrono's `timestamp_millis` counts
/// them: whole seconds times a thousand, plus the whole milliseconds of the
/// nanoseconds.
pub open spec fn millis_of(t: Timestamp) -> int {
    t.secs * 1000 + t.nanos / 1_000_000
}

/// Whether the milliseconds fit an `i64`, as they do for every instant in
/// chrono's range.
pub open spec fn millis_fit(t: Timestamp) -> bool {
    i64::MIN <= millis_of(t) <= i64::MAX
}

impl Timestamp {
    /// Milliseconds since the epoch.
    pub fn timestamp_millis(&self) -> (r: i64)
        requires
            millis_fit(*self),
        ensures
            r == millis_of(*self),
    {
        let ms: i128 = (self.secs as i128) * 1000 + ((self.nanos / 1_000_000) as i128);
        ms as i64
    }
}

/// Calls `chrono::Utc::now` and reads the instant out as a `Timestamp`.
/// Nothing is claimed of it: it is the time. (It panics when the system
/// clock stands before 1970.)
#[verifier::external_body]
pub(crate) fn utc_now() -> Timestamp {
    let now = chrono::Utc::now();
    Timestamp { secs: now.timestamp(), nanos: now.timestamp_subsec_nanos() }
}

/// Calls `uuid::Uuid::new_v4` and renders the id with `Display`, which
/// writes the hyphenated form: 36 characters. Which id comes is chance.
/// (It panics when the system's random source fails.)
#[verifier::external_body]
pub(crate) fn new_uuid_v4() -> (r: String)
    ensures
        r@.len() == 36,
{
    uuid::Uuid::new_v4().to_string()
}

#[derive(Debug, Clone)]
pub enum FilePartSource {
    File { path: String, text: FileSourceText },
    Symbol {
        path: String,
        name: String,
        kind: i32,
        range: LspRange,
        text: FileSourceText,
    },
    Resource {
        client_name: String,
        uri: String,
        text: FileSourceText,
    },
}

#[derive(Debug, Clone)]
pub struct FileSourceText {
    pub value: String,
    pub start: i32,
    pub end: i32,
}

#[derive(Debug, Clone)]
pub struct LspRange {
    pub start: LspPosition,
    pub end: LspPosition,
}

#[derive(Debug, Clone)]
pub struct LspPosition {
    pub line: i32,
    pub character: i32,
}

#[derive(Debug, Clone)]
pub struct FilePart {
    pub id: String,
    pub session_id: String,
    pub message_id: String,
    pub mime: String,
    pub url: String,
    pub filename: Option<String>,
    pub source: Option<FilePartSource>,
}

#[derive(Debug, Clone)]
pub struct AgentPart {
    pub id: String,
    pub session_id: String,
    pub message_id: String,
    pub name: String,
    pub source: Option<AgentSource>,
}

#[derive(Debug, Clone)]
pub struct AgentSource {
    pub value: String,
    pub start: i32,
    pub end: i32,
}

#[derive(Debug, Clone)]
pub struct CompactionPart {
    pub id: String,
    pub session_id: String,
    pub message_id: String,
    pub auto: bool,
}

#[derive(Debug, Clone)]
pub struct SubtaskPart {
    pub id: String,
    pub session_id: String,
    pub message_id: String,
    pub prompt: String,
    pub description: String,
    pub agent: String,
    pub model: Option<ModelRef>,
    pub command: Option<String>,
}

#[derive(Debug, Clone)]
pub struct ModelRef {
    pub provider_id: String,
    pub model_id: String,
}

#[derive(Debug, Clone)]
pub struct RetryTime {
    pub created: i64,
}

#[derive(Debug, Clone)]
pub struct StepStartPart {
    pub id: String,
    pub session_id: String,
    pub message_id: String,
    pub snapshot: Option<String>,
}

#[derive(Debug, Clone)]
pub struct StepTokens {
    pub total: Option<i32>,
    pub input: i32,
    pub output: i32,
    pub reasoning: i32,
    pub cache: CacheTokens,
}

#[derive(Debug, Clone)]
pub struct CacheTokens {
    pub read: i32,
    pub write: i32,
}

#[derive(Debug, Clone)]
pub struct RunningTime {
    pub start: i64,
}

#[derive(Debug, Clone)]
pub struct CompletedTime {
    pub start: i64,
    pub end: i64,
    pub compacted: Option<i64>,
}

#[derive(Debug, Clone)]
pub struct ErrorTime {
    pub start: i64,
    pub end: i64,
}

#[derive(Debug, Clone, PartialEq)]
pub enum MessageRole {
    User,
    Assistant,
    System,
    Tool,
}

#[derive(Debug, Clone, Default)]
pub enum ToolCallStatus {
    #[default]
    Pending,
    Running,
    Completed,
    Error,
}

#[derive(Debug, Clone)]
pub struct RetryPart {
    pub id: String,
    pub session_id: String,
    pub message_id: String,
    pub attempt: i32,
    pub error: serde_json::Value,
    pub time: RetryTime,
}

#[derive(Debug, Clone)]
pub enum ToolState {
    Pending { input: serde_json::Value, raw: String },
    Running {
        input: serde_json::Value,
        title: Option<String>,
        metadata: Option<HashMap<String, serde_json::Value>>,
        time: RunningTime,
    },
    Completed {
        input: serde_json::Value,
        output: String,
        title: String,
        metadata: HashMap<String, serde_json::Value>,
        time: CompletedTime,
        attachments: Option<Vec<FilePart>>,
    },
    Error {
        input: serde_json::Value,
        error: String,
        metadata: Option<HashMap<String, serde_json::Value>>,
        time: ErrorTime,
    },
}

#[derive(Debug, Clone)]
pub struct ToolPart {
    pub id: String,
    pub session_id: String,
    pub message_id: String,
    pub call_id: String,
    pub tool: String,
    pub state: ToolState,
    pub metadata: Option<HashMap<String, serde_json::Value>>,
}

/// Usage statistics for a single message. The total cost, an `f64`, is
/// carried as its bits (`f64::to_bits`); nothing here computes with it.
#[derive(Debug, Clone, Default)]
pub struct MessageUsage {
    pub input_tokens: u64,
    pub output_tokens: u64,
    pub reasoning_tokens: u64,
    pub cache_write_tokens: u64,
    pub cache_read_tokens: u64,
    pub total_cost_bits: u64,
}

#[derive(Debug, Clone)]
pub struct SessionMessage {
    pub id: String,
    pub session_id: String,
    pub role: MessageRole,
    pub parts: Vec<MessagePart>,
    pub created_at: Timestamp,
    pub metadata: HashMap<String, serde_json::Value>,
    pub usage: Option<MessageUsage>,
    /// The finish reason from the LLM provider (e.g. "stop", "tool-calls").
    /// Set during streaming when FinishStep is received.
    pub finish: Option<String>,
}

#[derive(Debug, Clone)]
pub struct MessagePart {
    pub id: String,
    pub part_type: PartType,
    pub created_at: Timestamp,
    pub message_id: Option<String>,
}

#[derive(Debug, Clone)]
pub enum PartType {
    Text { text: String, synthetic: Option<bool>, ignored: Option<bool> },
    ToolCall {
        id: String,
        name: String,
        input: serde_json::Value,
        status: ToolCallStatus,
        raw: Option<String>,
        state: Option<ToolState>,
    },
    ToolResult {
        tool_call_id: String,
        content: String,
        is_error: bool,
        title: Option<String>,
        metadata: Option<HashMap<String, serde_json::Value>>,
        attachments: Option<Vec<serde_json::Value>>,
    },
    Reasoning { text: String },
    File { url: String, filename: String, mime: String },
    StepStart { id: String, name: String },
    StepFinish { id: String, output: Option<String> },
    Snapshot { content: String },
    Patch { old_string: String, new_string: String, filepath: String },
    Agent { name: String, status: String },
    Subtask { id: String, description: String, status: String },
    Retry { count: u32, reason: String },
    Compaction { summary: String },
}

// ---------------------------------------------------------------------------
// What a message says
// ---------------------------------------------------------------------------

pub open spec fn message_id_prefix() -> Seq<char> {
    seq!['m', 's', 'g', '_']
}

pub open spec fn part_id_prefix() -> Seq<char> {
    seq!['p', 'r', 't', '_']
}

/// An id made of the prefix and a fresh hyphenated UUID.
pub open spec fn is_fresh_id(id: Seq<char>, prefix: Seq<char>) -> bool {
    id.len() == prefix.len() + 36 && id.subrange(0, prefix.len() as int) == prefix
}

/// A part that a message has just made: a fresh `prt_` id and no message id.
pub open spec fn is_fresh_part(p: MessagePart) -> bool {
    is_fresh_id(p.id@, part_id_prefix()) && p.message_id is None
}

pub open spec fn is_text(p: MessagePart) -> bool {
    p.part_type is Text
}

pub open spec fn is_reasoning(p: MessagePart) -> bool {
    p.part_type is Reasoning
}

/// The text a part holds when it is a text part; nothing otherwise.
pub open spec fn part_text(p: MessagePart) -> Seq<char> {
    match p.part_type {
        PartType::Text { text, .. } => text@,
        _ => Seq::empty(),
    }
}

/// The text a part holds when it is a reasoning part; nothing otherwise.
pub open spec fn part_reasoning(p: MessagePart) -> Seq<char> {
    match p.part_type {
        PartType::Reasoning { text } => text@,
        _ => Seq::empty(),
    }
}

/// The flags of a text part.
pub open spec fn text_flags(p: MessagePart) -> (Option<bool>, Option<bool>) {
    match p.part_type {
        PartType::Text { synthetic, ignored, .. } => (synthetic, ignored),
        _ => (None, None),
    }
}

/// What each part gives, joined in order.
pub open spec fn concat_by(parts: Seq<MessagePart>, g: spec_fn(MessagePart) -> Seq<char>) -> Seq<char>
    decreases parts.len(),
{
    if parts.len() == 0 {
        Seq::empty()
    } else {
        concat_by(parts.drop_last(), g) + g(parts.last())
    }
}

/// The text parts' texts, joined.
pub open spec fn concat_texts(parts: Seq<MessagePart>) -> Seq<char> {
    concat_by(parts, |p: MessagePart| part_text(p))
}

/// The reasoning parts' texts, joined.
pub open spec fn concat_reasonings(parts: Seq<MessagePart>) -> Seq<char> {
    concat_by(parts, |p: MessagePart| part_reasoning(p))
}

/// The index of the last part that meets `f`; -1 when none does.
pub open spec fn last_index_where(parts: Seq<MessagePart>, f: spec_fn(MessagePart) -> bool) -> int
    decreases parts.len(),
{
    if parts.len() == 0 {
        -1
    } else if f(parts.last()) {
        parts.len() - 1
    } else {
        last_index_where(parts.drop_last(), f)
    }
}

pub open spec fn last_text_index(parts: Seq<MessagePart>) -> int {
    last_index_where(parts, |p: MessagePart| is_text(p))
}

pub open spec fn last_reasoning_index(parts: Seq<MessagePart>) -> int {
    last_index_where(parts, |p: MessagePart| is_reasoning(p))
}

/// The parts that are not text parts, in order.
pub open spec fn without_texts(parts: Seq<MessagePart>) -> Seq<MessagePart>
    decreases parts.len(),
{
    if parts.len() == 0 {
        Seq::empty()
    } else if is_text(parts.last()) {
        without_texts(parts.drop_last())
    } else {
        without_texts(parts.drop_last()).push(parts.last())
    }
}

/// Everything of a message but its parts is the same.
pub open spec fn same_header(a: SessionMessage, b: SessionMessage) -> bool {
    &&& a.id == b.id
    &&& a.session_id == b.session_id
    &&& a.role == b.role
    &&& a.created_at == b.created_at
    &&& a.metadata == b.metadata
    &&& a.usage == b.usage
    &&& a.finish == b.finish
}

pub open spec fn same_part_header(a: MessagePart, b: MessagePart) -> bool {
    a.id == b.id && a.created_at == b.created_at && a.message_id == b.message_id
}

/// A fresh text part with this text and no flags.
pub open spec fn is_new_text_part(p: MessagePart, text: Seq<char>) -> bool {
    is_fresh_part(p) && is_text(p) && part_text(p) == text && text_flags(p) == (None::<bool>, None::<bool>)
}

/// A fresh reasoning part with this text.
pub open spec fn is_new_reasoning_part(p: MessagePart, text: Seq<char>) -> bool {
    is_fresh_part(p) && is_reasoning(p) && part_reasoning(p) == text
}

/// `new` is `old` with one part added at the end.
pub open spec fn one_pushed(old: Seq<MessagePart>, new: Seq<MessagePart>) -> bool {
    new.len() == old.len() + 1 && new.drop_last() == old
}

/// `new` is `old` with the part at `k` changed alone.
pub open spec fn only_changed_at(old: Seq<MessagePart>, new: Seq<MessagePart>, k: int) -> bool {
    &&& 0 <= k < old.len()
    &&& new.len() == old.len()
    &&& forall|j: int| 0 <= j < old.len() && j != k ==> new[j] == old[j]
    &&& same_part_header(new[k], old[k])
}

/// What `append_text` makes of the parts: the last text part grows by
/// `t`, its flags kept; with no text part, a new one holds `t`.
pub open spec fn text_appended(old: Seq<MessagePart>, new: Seq<MessagePart>, t: Seq<char>) -> bool {
    let k = last_text_index(old);
    if k >= 0 {
        &&& only_changed_at(old, new, k)
        &&& is_text(new[k])
        &&& part_text(new[k]) == part_text(old[k]) + t
        &&& text_flags(new[k]) == text_flags(old[k])
    } else {
        one_pushed(old, new) && is_new_text_part(new.last(), t)
    }
}

/// What `add_reasoning` makes of the parts: the last reasoning part grows
/// by `t`; with no reasoning part, a new one holds `t`.
pub open spec fn reasoning_appended(old: Seq<MessagePart>, new: Seq<MessagePart>, t: Seq<char>) -> bool {
    let k = last_reasoning_index(old);
    if k >= 0 {
        &&& only_changed_at(old, new, k)
        &&& is_reasoning(new[k])
        &&& part_reasoning(new[k]) == part_reasoning(old[k]) + t
    } else {
        one_pushed(old, new) && is_new_reasoning_part(new.last(), t)
    }
}

/// A text part marked synthetic; any other part as it is.
pub open spec fn marked_synthetic(old: MessagePart, new: MessagePart) -> bool {
    if is_text(old) {
        &&& same_part_header(new, old)
        &&& is_text(new)
        &&& part_text(new) == part_text(old)
        &&& text_flags(new) == (Some(true), text_flags(old).1)
    } else {
        new == old
    }
}

pub open spec fn pending_status() -> Seq<char> {
    seq!['p', 'e', 'n', 'd', 'i', 'n', 'g']
}

/// A message just made: a fresh `msg_` id, this session and role, no
/// metadata, usage or finish reason.
pub open spec fn is_new_message(m: SessionMessage, session_id: Seq<char>, role: MessageRole) -> bool {
    &&& is_fresh_id(m.id@, message_id_prefix())
    &&& m.session_id@ == session_id
    &&& m.role == role
    &&& m.metadata@ == Map::<String, serde_json::Value>::empty()
    &&& m.usage is None
    &&& m.finish is None
}

/// The last index where `f` holds: in range, `f` holds there and at no
/// later index.
pub proof fn lemma_last_index_where(parts: Seq<MessagePart>, f: spec_fn(MessagePart) -> bool)
    ensures
        -1 <= last_index_where(parts, f) < parts.len(),
        last_index_where(parts, f) >= 0 ==> f(parts[last_index_where(parts, f)]),
        forall|j: int| last_index_where(parts, f) < j < parts.len() ==> !f(#[trigger] parts[j]),
    decreases parts.len(),
{
    if parts.len() > 0 && !f(parts.last()) {
        lemma_last_index_where(parts.drop_last(), f);
        assert forall|j: int| last_index_where(parts, f) < j < parts.len() implies !f(#[trigger] parts[j]) by {
            if j < parts.len() - 1 {
                assert(parts[j] == parts.drop_last()[j]);
            }
        }
    }
}

// ---------------------------------------------------------------------------
// Making parts
// ---------------------------------------------------------------------------

fn fresh_id(prefix: &str) -> (r: String)
    ensures
        r@.len() == prefix@.len() + 36,
        r@.subrange(0, prefix@.len() as int) == prefix@,
{
    let uuid = new_uuid_v4();
    let mut id = String::from_str(prefix);
    id.append(uuid.as_str());
    assert(id@.subrange(0, prefix@.len() as int) =~= prefix@);
    id
}

fn new_part(part_type: PartType) -> (r: MessagePart)
    ensures
        is_fresh_part(r),
        r.part_type == part_type,
{
    proof {
        reveal_strlit("prt_");
        assert("prt_"@ =~= part_id_prefix());
    }
    let id = fresh_id("prt_");
    MessagePart { id, part_type, created_at: utc_now(), message_id: None }
}

fn new_text_part(text: &str) -> (r: MessagePart)
    ensures
        is_new_text_part(r, text@),
{
    new_part(PartType::Text { text: String::from_str(text), synthetic: None, ignored: None })
}

fn part_is_text(p: &MessagePart) -> (r: bool)
    ensures
        r == is_text(*p),
{
    match p.part_type {
        PartType::Text { .. } => true,
        _ => false,
    }
}

fn part_is_reasoning(p: &MessagePart) -> (r: bool)
    ensures
        r == is_reasoning(*p),
{
    match p.part_type {
        PartType::Reasoning { .. } => true,
        _ => false,
    }
}

fn find_last_text(parts: &Vec<MessagePart>) -> (r: Option<usize>)
    ensures
        match r {
            Some(k) => k < parts.len() && k as int == last_text_index(parts@),
            None => last_text_index(parts@) == -1,
        },
{
    let mut i = parts.len();
    assert(parts@.take(i as int) =~= parts@);
    while i > 0
        invariant
            i <= parts.len(),
            last_text_index(parts@) == last_text_index(parts@.take(i as int)),
        decreases i,
    {
        let j = i - 1;
        assert(parts@.take(i as int).drop_last() =~= parts@.take(j as int));
        assert(parts@.take(i as int).last() == parts@[j as int]);
        if part_is_text(&parts[j]) {
            return Some(j);
        }
        i = j;
    }
    None
}

fn find_last_reasoning(parts: &Vec<MessagePart>) -> (r: Option<usize>)
    ensures
        match r {
            Some(k) => k < parts.len() && k as int == last_reasoning_index(parts@),
            None => last_reasoning_index(parts@) == -1,
        },
{
    let mut i = parts.len();
    assert(parts@.take(i as int) =~= parts@);
    while i > 0
        invariant
            i <= parts.len(),
            last_reasoning_index(parts@) == last_reasoning_index(parts@.take(i as int)),
        decreases i,
    {
        let j = i - 1;
        assert(parts@.take(i as int).drop_last() =~= parts@.take(j as int));
        assert(parts@.take(i as int).last() == parts@[j as int]);
        if part_is_reasoning(&parts[j]) {
            return Some(j);
        }
        i = j;
    }
    None
}

// ---------------------------------------------------------------------------
// Messages
// ---------------------------------------------------------------------------

impl SessionMessage {
    fn with_parts(session_id: &str, role: MessageRole, parts: Vec<MessagePart>) -> (r: Self)
        ensures
            is_new_message(r, session_id@, role),
            r.parts@ == parts@,
    {
        proof {
            reveal_strlit("msg_");
            assert("msg_"@ =~= message_id_prefix());
        }
        let id = fresh_id("msg_");
        SessionMessage {
            id,
            session_id: String::from_str(session_id),
            role,
            parts,
            created_at: utc_now(),
            metadata: HashMap::new(),
            usage: None,
            finish: None,
        }
    }

    /// A user message holding one text part.
    pub fn user(session_id: &str, text: &str) -> (r: Self)
        ensures
            is_new_message(r, session_id@, MessageRole::User),
            r.parts@.len() == 1,
            is_new_text_part(r.parts@[0], text@),
    {
        let mut parts = Vec::new();
        parts.push(new_text_part(text));
        Self::with_parts(session_id, MessageRole::User, parts)
    }

    /// An assistant message with no parts yet.
    pub fn assistant(session_id: &str) -> (r: Self)
        ensures
            is_new_message(r, session_id@, MessageRole::Assistant),
            r.parts@.len() == 0,
    {
        Self::with_parts(session_id, MessageRole::Assistant, Vec::new())
    }

    /// A tool message with no parts yet.
    pub fn tool(session_id: &str) -> (r: Self)
        ensures
            is_new_message(r, session_id@, MessageRole::Tool),
            r.parts@.len() == 0,
    {
        Self::with_parts(session_id, MessageRole::Tool, Vec::new())
    }

    /// Adds a text part.
    pub fn add_text(&mut self, text: &str)
        ensures
            same_header(*final(self), *old(self)),
            one_pushed(old(self).parts@, final(self).parts@),
            is_new_text_part(final(self).parts@.last(), text@),
    {
        let part = new_text_part(text);
        self.parts.push(part);
        assert(self.parts@.drop_last() =~= old(self).parts@);
    }

    /// Marks every text part synthetic.
    pub fn mark_text_parts_synthetic(&mut self)
        ensures
            same_header(*final(self), *old(self)),
            final(self).parts@.len() == old(self).parts@.len(),
            forall|j: int|
                0 <= j < old(self).parts@.len() ==> marked_synthetic(
                    #[trigger] old(self).parts@[j],
                    final(self).parts@[j],
                ),
    {
        let n = self.parts.len();
        let mut i: usize = 0;
        while i < n
            invariant
                n == self.parts@.len(),
                n == old(self).parts@.len(),
                i <= n,
                same_header(*self, *old(self)),
                forall|j: int| 0 <= j < i ==> marked_synthetic(#[trigger] old(self).parts@[j], self.parts@[j]),
                forall|j: int| i <= j < n ==> #[trigger] self.parts@[j] == old(self).parts@[j],
            decreases n - i,
        {
            match &mut self.parts[i].part_type {
                PartType::Text { synthetic, .. } => {
                    *synthetic = Some(true);
                },
                _ => {},
            }
            i += 1;
        }
    }

    /// Adds a file part.
    pub fn add_file(&mut self, url: &str, filename: &str, mime: &str)
        ensures
            same_header(*final(self), *old(self)),
            one_pushed(old(self).parts@, final(self).parts@),
            is_fresh_part(final(self).parts@.last()),
            (final(self).parts@.last().part_type matches PartType::File { url: u, filename: f, mime: m }
                && u@ == url@ && f@ == filename@ && m@ == mime@),
    {
        let part = new_part(
            PartType::File {
                url: String::from_str(url),
                filename: String::from_str(filename),
                mime: String::from_str(mime),
            },
        );
        self.parts.push(part);
        assert(self.parts@.drop_last() =~= old(self).parts@);
    }

    /// Adds `text` to the last reasoning part; with none, adds a reasoning
    /// part holding it.
    pub fn add_reasoning(&mut self, text: &str)
        ensures
            same_header(*final(self), *old(self)),
            reasoning_appended(old(self).parts@, final(self).parts@, text@),
    {
        match find_last_reasoning(&self.parts) {
            Some(k) => {
                proof {
                    lemma_last_index_where(self.parts@, |p: MessagePart| is_reasoning(p));
                }
                match &mut self.parts[k].part_type {
                    PartType::Reasoning { text: existing } => {
                        existing.append(text);
                    },
                    _ => {},
                }
            },
            None => {
                let part = new_part(PartType::Reasoning { text: String::from_str(text) });
                self.parts.push(part);
                assert(self.parts@.drop_last() =~= old(self).parts@);
            },
        }
    }

    /// Adds a tool call part, running.
    pub fn add_tool_call(&mut self, id: &str, name: &str, input: serde_json::Value)
        ensures
            same_header(*final(self), *old(self)),
            one_pushed(old(self).parts@, final(self).parts@),
            is_fresh_part(final(self).parts@.last()),
            (final(self).parts@.last().part_type matches PartType::ToolCall {
                id: i,
                name: n,
                input: v,
                status: ToolCallStatus::Running,
                raw: None,
                state: None,
            } && i@ == id@ && n@ == name@ && v == input),
    {
        let part = new_part(
            PartType::ToolCall {
                id: String::from_str(id),
                name: String::from_str(name),
                input,
                status: ToolCallStatus::Running,
                raw: None,
                state: None,
            },
        );
        self.parts.push(part);
        assert(self.parts@.drop_last() =~= old(self).parts@);
    }

    /// Adds a tool result part.
    pub fn add_tool_result(&mut self, tool_call_id: &str, content: &str, is_error: bool)
        ensures
            same_header(*final(self), *old(self)),
            one_pushed(old(self).parts@, final(self).parts@),
            is_fresh_part(final(self).parts@.last()),
            (final(self).parts@.last().part_type matches PartType::ToolResult {
                tool_call_id: i,
                content: c,
                is_error: e,
                title: None,
                metadata: None,
                attachments: None,
            } && i@ == tool_call_id@ && c@ == content@ && e == is_error),
    {
        let part = new_part(
            PartType::ToolResult {
                tool_call_id: String::from_str(tool_call_id),
                content: String::from_str(content),
                is_error,
                title: None,
                metadata: None,
                attachments: None,
            },
        );
        self.parts.push(part);
        assert(self.parts@.drop_last() =~= old(self).parts@);
    }

    /// Adds an agent part, pending.
    pub fn add_agent(&mut self, name: &str)
        ensures
            same_header(*final(self), *old(self)),
            one_pushed(old(self).parts@, final(self).parts@),
            is_fresh_part(final(self).parts@.last()),
            (final(self).parts@.last().part_type matches PartType::Agent { name: n, status: st }
                && n@ == name@ && st@ == pending_status()),
    {
        proof {
            reveal_strlit("pending");
        }
        let part = new_part(
            PartType::Agent { name: String::from_str(name), status: String::from_str("pending") },
        );
        self.parts.push(part);
        assert(self.parts@.drop_last() =~= old(self).parts@);
    }

    /// Adds a subtask part, pending.
    pub fn add_subtask(&mut self, id: &str, description: &str)
        ensures
            same_header(*final(self), *old(self)),
            one_pushed(old(self).parts@, final(self).parts@),
            is_fresh_part(final(self).parts@.last()),
            (final(self).parts@.last().part_type matches PartType::Subtask {
                id: i,
                description: d,
                status: st,
            } && i@ == id@ && d@ == description@ && st@ == pending_status()),
    {
        proof {
            reveal_strlit("pending");
        }
        let part = new_part(
            PartType::Subtask {
                id: String::from_str(id),
                description: String::from_str(description),
                status: String::from_str("pending"),
            },
        );
        self.parts.push(part);
        assert(self.parts@.drop_last() =~= old(self).parts@);
    }

    /// The text parts' texts, joined.
    pub fn get_text(&self) -> (r: String)
        ensures
            r@ == concat_texts(self.parts@),
    {
        let mut out = String::new();
        let mut i: usize = 0;
        while i < self.parts.len()
            invariant
                i <= self.parts@.len(),
                out@ == concat_texts(self.parts@.take(i as int)),
            decreases self.parts@.len() - i,
        {
            match &self.parts[i].part_type {
                PartType::Text { text, .. } => {
                    out.append(text.as_str());
                },
                _ => {},
            }
            assert(self.parts@.take(i + 1).drop_last() =~= self.parts@.take(i as int));
            i += 1;
        }
        assert(self.parts@.take(i as int) =~= self.parts@);
        out
    }

    /// Adds `text` to the last text part; with none, adds a text part.
    pub fn append_text(&mut self, text: &str)
        ensures
            same_header(*final(self), *old(self)),
            text_appended(old(self).parts@, final(self).parts@, text@),
    {
        match find_last_text(&self.parts) {
            Some(k) => {
                proof {
                    lemma_last_index_where(self.parts@, |p: MessagePart| is_text(p));
                }
                match &mut self.parts[k].part_type {
                    PartType::Text { text: existing, .. } => {
                        existing.append(text);
                    },
                    _ => {},
                }
            },
            None => {
                self.add_text(text);
            },
        }
    }

    /// Replaces all text parts with one text part holding `text`.
    pub fn set_text(&mut self, text: &str)
        ensures
            same_header(*final(self), *old(self)),
            final(self).parts@.len() == without_texts(old(self).parts@).len() + 1,
            final(self).parts@.drop_last() == without_texts(old(self).parts@),
            is_new_text_part(final(self).parts@.last(), text@),
    {
        let ghost orig = self.parts@;
        let mut rest: Vec<MessagePart> = Vec::new();
        std::mem::swap(&mut rest, &mut self.parts);
        assert(rest@.skip(0) =~= orig);
        assert(orig.take(0) =~= Seq::<MessagePart>::empty());
        while rest.len() > 0
            invariant
                same_header(*self, *old(self)),
                rest@.len() <= orig.len(),
                rest@ == orig.skip(orig.len() - rest@.len()),
                self.parts@ == without_texts(orig.take(orig.len() - rest@.len())),
            decreases rest@.len(),
        {
            let ghost n = orig.len() - rest@.len();
            let part = rest.remove(0);
            assert(orig.take(n + 1).drop_last() =~= orig.take(n));
            assert(rest@ =~= orig.skip(n + 1));
            if !part_is_text(&part) {
                self.parts.push(part);
            }
        }
        assert(orig.take(orig.len() as int) =~= orig);
        let part = new_text_part(text);
        self.parts.push(part);
        assert(self.parts@.drop_last() =~= without_texts(orig));
    }

    /// The reasoning parts' texts, joined.
    pub fn get_reasoning(&self) -> (r: String)
        ensures
            r@ == concat_reasonings(self.parts@),
    {
        let mut out = String::new();
        let mut i: usize = 0;
        while i < self.parts.len()
            invariant
                i <= self.parts@.len(),
                out@ == concat_reasonings(self.parts@.take(i as int)),
            decreases self.parts@.len() - i,
        {
            match &self.parts[i].part_type {
                PartType::Reasoning { text } => {
                    out.append(text.as_str());
                },
                _ => {},
            }
            assert(self.parts@.take(i + 1).drop_last() =~= self.parts@.take(i as int));
            i += 1;
        }
        assert(self.parts@.take(i as int) =~= self.parts@);
        out
    }

}

// ---------------------------------------------------------------------------
// Laws
// ---------------------------------------------------------------------------

proof fn lemma_concat_pushed(old: Seq<MessagePart>, new: Seq<MessagePart>, g: spec_fn(MessagePart) -> Seq<char>)
    requires
        one_pushed(old, new),
    ensures
        concat_by(new, g) == concat_by(old, g) + g(new.last()),
{
    assert(new.drop_last() =~= old);
}

proof fn lemma_concat_pointwise(a: Seq<MessagePart>, b: Seq<MessagePart>, g: spec_fn(MessagePart) -> Seq<char>)
    requires
        a.len() == b.len(),
        forall|j: int| 0 <= j < a.len() ==> g(#[trigger] a[j]) == g(b[j]),
    ensures
        concat_by(a, g) == concat_by(b, g),
    decreases a.len(),
{
    if a.len() > 0 {
        assert forall|j: int| 0 <= j < a.drop_last().len() implies g(#[trigger] a.drop_last()[j])
            == g(b.drop_last()[j]) by {
            assert(a.drop_last()[j] == a[j]);
            assert(b.drop_last()[j] == b[j]);
        }
        lemma_concat_pointwise(a.drop_last(), b.drop_last(), g);
    }
}

proof fn lemma_concat_extend_at(
    old: Seq<MessagePart>,
    new: Seq<MessagePart>,
    k: int,
    t: Seq<char>,
    g: spec_fn(MessagePart) -> Seq<char>,
)
    requires
        0 <= k < old.len(),
        new.len() == old.len(),
        forall|j: int| 0 <= j < old.len() && j != k ==> new[j] == old[j],
        g(new[k]) == g(old[k]) + t,
        forall|j: int| k < j < old.len() ==> g(#[trigger] old[j]) == Seq::<char>::empty(),
    ensures
        concat_by(new, g) == concat_by(old, g) + t,
    decreases old.len(),
{
    let last = old.len() - 1;
    if k == last {
        assert(new.drop_last() =~= old.drop_last());
        assert(concat_by(new, g) =~= concat_by(old, g) + t);
    } else {
        assert forall|j: int| 0 <= j < old.drop_last().len() && j != k implies new.drop_last()[j]
            == old.drop_last()[j] by {
            assert(new[j] == old[j]);
        }
        assert forall|j: int| k < j < old.drop_last().len() implies g(#[trigger] old.drop_last()[j])
            == Seq::<char>::empty() by {
            assert(old.drop_last()[j] == old[j]);
        }
        assert(new.drop_last()[k] == new[k]);
        assert(old.drop_last()[k] == old[k]);
        lemma_concat_extend_at(old.drop_last(), new.drop_last(), k, t, g);
        assert(new[last] == old[last]);
        assert(g(old[last]) == Seq::<char>::empty());
        assert(concat_by(new, g) =~= concat_by(old, g) + t);
    }
}

proof fn lemma_without_texts_concat(parts: Seq<MessagePart>)
    ensures
        concat_texts(without_texts(parts)) == Seq::<char>::empty(),
        concat_reasonings(without_texts(parts)) == concat_reasonings(parts),
    decreases parts.len(),
{
    if parts.len() > 0 {
        lemma_without_texts_concat(parts.drop_last());
        let w = without_texts(parts.drop_last());
        if !is_text(parts.last()) {
            assert(w.push(parts.last()).drop_last() =~= w);
            assert(concat_texts(w.push(parts.last())) =~= Seq::<char>::empty());
        }
        assert(concat_reasonings(without_texts(parts)) =~= concat_reasonings(parts));
    }
}

/// Appending text to a message extends its text (what `get_text` reads)
/// by exactly that text, leaves its reasoning as it was, adds a part only
/// when it had no text part, and leaves every part that is not text as it
/// was.
pub proof fn lemma_append_text_extends_text(before: Seq<MessagePart>, after: Seq<MessagePart>, t: Seq<char>)
    requires
        text_appended(before, after, t),
    ensures
        concat_texts(after) == concat_texts(before) + t,
        concat_reasonings(after) == concat_reasonings(before),
        after.len() == before.len() + if last_text_index(before) >= 0 { 0int } else { 1int },
        forall|j: int| 0 <= j < before.len() && !is_text(before[j]) ==> #[trigger] after[j] == before[j],
{
    if last_text_index(before) < 0 {
        assert forall|j: int| 0 <= j < before.len() && !is_text(before[j]) implies #[trigger] after[j] == before[j] by {
            assert(after.drop_last()[j] == after[j]);
        }
    } else {
        let k = last_text_index(before);
        lemma_last_index_where(before, |p: MessagePart| is_text(p));
    }
    let k = last_text_index(before);
    let gt = |p: MessagePart| part_text(p);
    let gr = |p: MessagePart| part_reasoning(p);
    if k >= 0 {
        lemma_last_index_where(before, |p: MessagePart| is_text(p));
        assert forall|j: int| k < j < before.len() implies gt(#[trigger] before[j]) == Seq::<char>::empty() by {
            assert(!is_text(before[j]));
        }
        lemma_concat_extend_at(before, after, k, t, gt);
        assert forall|j: int| 0 <= j < after.len() implies gr(#[trigger] after[j]) == gr(before[j]) by {
            if j != k {
                assert(after[j] == before[j]);
            }
        }
        lemma_concat_pointwise(after, before, gr);
    } else {
        lemma_concat_pushed(before, after, gt);
        lemma_concat_pushed(before, after, gr);
        assert(concat_reasonings(before) + Seq::<char>::empty() =~= concat_reasonings(before));
    }
}

/// Adding reasoning to a message extends its reasoning by exactly that
/// text, keeps its text, and adds a reasoning part only when it had none.
pub proof fn lemma_add_reasoning_extends_reasoning(old: Seq<MessagePart>, new: Seq<MessagePart>, t: Seq<char>)
    requires
        reasoning_appended(old, new, t),
    ensures
        concat_reasonings(new) == concat_reasonings(old) + t,
        concat_texts(new) == concat_texts(old),
        last_reasoning_index(old) >= 0 ==> new.len() == old.len(),
{
    let k = last_reasoning_index(old);
    let gt = |p: MessagePart| part_text(p);
    let gr = |p: MessagePart| part_reasoning(p);
    if k >= 0 {
        lemma_last_index_where(old, |p: MessagePart| is_reasoning(p));
        assert forall|j: int| k < j < old.len() implies gr(#[trigger] old[j]) == Seq::<char>::empty() by {
            assert(!is_reasoning(old[j]));
        }
        lemma_concat_extend_at(old, new, k, t, gr);
        assert forall|j: int| 0 <= j < new.len() implies gt(#[trigger] new[j]) == gt(old[j]) by {
            if j != k {
                assert(new[j] == old[j]);
            }
        }
        lemma_concat_pointwise(new, old, gt);
    } else {
        lemma_concat_pushed(old, new, gt);
        lemma_concat_pushed(old, new, gr);
        assert(concat_texts(old) + Seq::<char>::empty() =~= concat_texts(old));
    }
}

/// After `set_text`, the message's text is exactly the new text; its
/// reasoning is as it was.
pub proof fn lemma_set_text_then_get_text(old: Seq<MessagePart>, new: Seq<MessagePart>, t: Seq<char>)
    requires
        new.len() == without_texts(old).len() + 1,
        new.drop_last() == without_texts(old),
        is_new_text_part(new.last(), t),
    ensures
        concat_texts(new) == t,
        concat_reasonings(new) == concat_reasonings(old),
{
    lemma_without_texts_concat(old);
    assert(concat_texts(new) =~= concat_texts(new.drop_last()) + t);
    assert(concat_reasonings(new) =~= concat_reasonings(new.drop_last()) + Seq::<char>::empty());
}

/// Marking text parts synthetic changes neither text nor reasoning.
pub proof fn lemma_mark_synthetic_keeps_content(old: Seq<MessagePart>, new: Seq<MessagePart>)
    requires
        new.len() == old.len(),
        forall|j: int| 0 <= j < old.len() ==> marked_synthetic(#[trigger] old[j], new[j]),
    ensures
        concat_texts(new) == concat_texts(old),
        concat_reasonings(new) == concat_reasonings(old),
{
    let gt = |p: MessagePart| part_text(p);
    let gr = |p: MessagePart| part_reasoning(p);
    assert forall|j: int| 0 <= j < new.len() implies gt(#[trigger] new[j]) == gt(old[j]) by {
        assert(marked_synthetic(old[j], new[j]));
    }
    assert forall|j: int| 0 <= j < new.len() implies gr(#[trigger] new[j]) == gr(old[j]) by {
        assert(marked_synthetic(old[j], new[j]));
    }
    lemma_concat_pointwise(new, old, gt);
    lemma_concat_pointwise(new, old, gr);
}

} // verus!
