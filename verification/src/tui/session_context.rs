//! Session data kept by the terminal client: the sessions, their messages
//! in order with an index from message id to position, and the small
//! records around them.
use vstd::prelude::*;
use std::collections::HashMap;
use crate::tui::id_map::IdMap;
use crate::types::message::{new_uuid_v4, utc_now, Timestamp};

verus! {

/// A value of a session's or a message's metadata: a JSON string as its
/// text, any other JSON value as the JSON text that writes it.
#[derive(Clone, Debug)]
pub enum MetaValue {
    Text(String),
    Json(String),
}

/// The text of a metadata value, when it is a JSON string.
pub open spec fn meta_string(v: MetaValue) -> Option<Seq<char>> {
    match v {
        MetaValue::Text(t) => Some(t@),
        MetaValue::Json(_) => None,
    }
}

/// The text of a metadata value, when it is a JSON string.
pub fn meta_as_str(v: &MetaValue) -> (r: Option<&str>)
    ensures
        match r {
            Some(t) => meta_string(*v) == Some(t@),
            None => meta_string(*v) is None,
        },
{
    match v {
        MetaValue::Text(t) => Some(t.as_str()),
        MetaValue::Json(_) => None,
    }
}

#[derive(Clone, Debug)]
pub struct Session {
    pub id: String,
    pub title: String,
    pub created_at: Timestamp,
    pub updated_at: Timestamp,
    pub parent_id: Option<String>,
    pub share: Option<ShareInfo>,
    pub metadata: Option<HashMap<String, MetaValue>>,
}

#[derive(Clone, Debug)]
pub struct ShareInfo {
    pub url: String,
}

/// A message of a session. The cost, an `f64`, is carried as its bits
/// (`f64::to_bits`); nothing here computes with it.
#[derive(Clone, Debug)]
pub struct Message {
    pub id: String,
    pub role: MessageRole,
    pub content: String,
    pub created_at: Timestamp,
    pub agent: Option<String>,
    pub model: Option<String>,
    pub mode: Option<String>,
    pub finish: Option<String>,
    pub error: Option<String>,
    pub completed_at: Option<Timestamp>,
    pub cost_bits: u64,
    pub tokens: TokenUsage,
    pub metadata: Option<HashMap<String, MetaValue>>,
    pub parts: Vec<MessagePart>,
}

#[derive(Clone, Copy, Debug, PartialEq, Eq, Structural)]
pub enum MessageRole {
    User,
    Assistant,
    System,
    Tool,
}

#[derive(Clone, Copy, Debug, PartialEq, Eq, Structural)]
pub struct TokenUsage {
    pub input: u64,
    pub output: u64,
    pub reasoning: u64,
    pub cache_read: u64,
    pub cache_write: u64,
}

impl TokenUsage {
    pub fn new() -> (r: Self)
        ensures
            r.input == 0 && r.output == 0 && r.reasoning == 0 && r.cache_read == 0 && r.cache_write == 0,
    {
        TokenUsage { input: 0, output: 0, reasoning: 0, cache_read: 0, cache_write: 0 }
    }
}

#[derive(Clone, Debug)]
pub enum MessagePart {
    Text { text: String },
    Reasoning { text: String },
    File { path: String, mime: String },
    Image { url: String },
    ToolCall { id: String, name: String, arguments: String },
    ToolResult {
        id: String,
        result: String,
        is_error: bool,
        title: Option<String>,
        metadata: Option<HashMap<String, MetaValue>>,
    },
}

#[derive(Clone, Debug)]
pub enum SessionStatus {
    Idle,
    Running,
    Retrying { message: String, attempt: u32, next: i64 },
}

#[derive(Clone, Debug)]
pub struct DiffEntry {
    pub file: String,
    pub additions: u32,
    pub deletions: u32,
}

#[derive(Clone, Debug)]
pub struct RevertInfo {
    pub message_id: String,
    pub part_id: Option<String>,
    pub snapshot: Option<String>,
    pub diff: Option<String>,
}

#[derive(Clone, Debug)]
pub struct TodoItem {
    pub content: String,
    pub status: TodoStatus,
}

#[derive(Clone, Copy, Debug, PartialEq, Eq, Structural)]
pub enum TodoStatus {
    Pending,
    InProgress,
    Completed,
    Cancelled,
}

/// Whether a gap line goes between two messages: after any message, before
/// a user message or one whose role differs from the one before it.
pub fn should_insert_message_gap(prev_role: Option<&MessageRole>, current_role: &MessageRole) -> (r: bool)
    ensures
        r == match prev_role {
            None => false,
            Some(p) => *p != *current_role || *current_role == MessageRole::User,
        },
{
    match prev_role {
        None => false,
        Some(p) => *p != *current_role || *current_role == MessageRole::User,
    }
}

// ---------------------------------------------------------------------------
// The sessions and their messages
// ---------------------------------------------------------------------------

/// Everything the client knows of its sessions, each map keyed by session
/// id; `message_index` maps a session's message ids to their positions.
#[derive(Clone, Debug)]
pub struct SessionContext {
    pub sessions: IdMap<Session>,
    pub messages: IdMap<Vec<Message>>,
    pub message_index: IdMap<IdMap<usize>>,
    pub current_session_id: Option<String>,
    pub session_status: IdMap<SessionStatus>,
    pub session_diff: IdMap<Vec<DiffEntry>>,
    pub todos: IdMap<Vec<TodoItem>>,
    pub revert: IdMap<RevertInfo>,
}

pub open spec fn new_session_title() -> Seq<char> {
    seq!['N', 'e', 'w', ' ', 'S', 'e', 's', 's', 'i', 'o', 'n']
}

/// The messages of a session; none when it has no entry.
pub open spec fn messages_of(ctx: SessionContext, sid: Seq<char>) -> Seq<Message> {
    if ctx.messages@.contains_key(sid) {
        ctx.messages@[sid]@
    } else {
        Seq::empty()
    }
}

/// The message index of a session; empty when it has no entry.
pub open spec fn index_of(ctx: SessionContext, sid: Seq<char>) -> Map<Seq<char>, usize> {
    if ctx.message_index@.contains_key(sid) {
        ctx.message_index@[sid]@
    } else {
        Map::empty()
    }
}

/// Each message id mapped to its position; of two messages with one id,
/// the later one's.
pub open spec fn positions_of(msgs: Seq<Message>) -> Map<Seq<char>, usize>
    decreases msgs.len(),
{
    if msgs.len() == 0 {
        Map::empty()
    } else {
        positions_of(msgs.drop_last()).insert(msgs.last().id@, (msgs.len() - 1) as usize)
    }
}

/// A session's messages and index after an upsert: the message replaces the
/// one its id is indexed at, when that position exists; else it is
/// appended and indexed, after the index is rebuilt from the messages when
/// it pointed past them.
pub open spec fn upsert_in(msgs: Seq<Message>, idx: Map<Seq<char>, usize>, m: Message) -> (
    Seq<Message>,
    Map<Seq<char>, usize>,
) {
    let id = m.id@;
    if idx.contains_key(id) && idx[id] < msgs.len() {
        (msgs.update(idx[id] as int, m), idx)
    } else {
        let base = if idx.contains_key(id) { positions_of(msgs) } else { idx };
        (msgs.push(m), base.insert(id, msgs.len() as usize))
    }
}

/// Upserts of each message in turn.
pub open spec fn upsert_all(msgs: Seq<Message>, idx: Map<Seq<char>, usize>, incoming: Seq<Message>) -> (
    Seq<Message>,
    Map<Seq<char>, usize>,
)
    decreases incoming.len(),
{
    if incoming.len() == 0 {
        (msgs, idx)
    } else {
        let prev = upsert_all(msgs, idx, incoming.drop_last());
        upsert_in(prev.0, prev.1, incoming.last())
    }
}

/// The index points each id it holds at a message with that id, and holds
/// every message's id.
pub open spec fn index_consistent(msgs: Seq<Message>, idx: Map<Seq<char>, usize>) -> bool {
    &&& forall|id: Seq<char>| #[trigger] idx.contains_key(id) ==> idx[id] < msgs.len() && msgs[idx[id] as int].id@ == id
    &&& forall|i: int| 0 <= i < msgs.len() ==> idx.contains_key(#[trigger] msgs[i].id@)
}

/// The session maps other than those of messages are as they were.
pub open spec fn same_records(a: SessionContext, b: SessionContext) -> bool {
    &&& a.session_diff@ == b.session_diff@
    &&& a.todos@ == b.todos@
    &&& a.revert@ == b.revert@
}

fn positions(msgs: &Vec<Message>) -> (r: IdMap<usize>)
    ensures
        r@ == positions_of(msgs@),
{
    let mut r: IdMap<usize> = IdMap::new();
    let mut i: usize = 0;
    while i < msgs.len()
        invariant
            i <= msgs@.len(),
            r@ == positions_of(msgs@.take(i as int)),
        decreases msgs@.len() - i,
    {
        r.insert(msgs[i].id.clone(), i);
        assert(msgs@.take(i + 1).drop_last() =~= msgs@.take(i as int));
        i += 1;
    }
    assert(msgs@.take(i as int) =~= msgs@);
    r
}

impl SessionContext {
    /// No sessions.
    pub fn new() -> (r: Self)
        ensures
            r.sessions@ == Map::<Seq<char>, Session>::empty(),
            r.messages@ == Map::<Seq<char>, Vec<Message>>::empty(),
            r.message_index@ == Map::<Seq<char>, IdMap<usize>>::empty(),
            r.current_session_id is None,
            r.session_status@ == Map::<Seq<char>, SessionStatus>::empty(),
            r.session_diff@ == Map::<Seq<char>, Vec<DiffEntry>>::empty(),
            r.todos@ == Map::<Seq<char>, Vec<TodoItem>>::empty(),
            r.revert@ == Map::<Seq<char>, RevertInfo>::empty(),
    {
        SessionContext {
            sessions: IdMap::new(),
            messages: IdMap::new(),
            message_index: IdMap::new(),
            current_session_id: None,
            session_status: IdMap::new(),
            session_diff: IdMap::new(),
            todos: IdMap::new(),
            revert: IdMap::new(),
        }
    }

    /// The current session, when there is one and it is known.
    pub fn current_session(&self) -> (r: Option<&Session>)
        ensures
            match r {
                Some(s) => self.current_session_id matches Some(id) && self.sessions@.contains_key(id@)
                    && *s == self.sessions@[id@],
                None => self.current_session_id matches Some(id) ==> !self.sessions@.contains_key(id@),
            },
    {
        match &self.current_session_id {
            Some(id) => self.sessions.get(id.as_str()),
            None => None,
        }
    }

    /// The current session's messages in order; none without a current
    /// session.
    pub fn current_messages(&self) -> (r: Vec<&Message>)
        ensures
            ({
                let msgs = match self.current_session_id {
                    Some(id) => messages_of(*self, id@),
                    None => Seq::<Message>::empty(),
                };
                r@.len() == msgs.len() && forall|i: int| 0 <= i < msgs.len() ==> *(#[trigger] r@[i]) == msgs[i]
            }),
    {
        let mut r: Vec<&Message> = Vec::new();
        if let Some(id) = &self.current_session_id {
            if let Some(msgs) = self.messages.get(id.as_str()) {
                let mut i: usize = 0;
                while i < msgs.len()
                    invariant
                        i <= msgs@.len(),
                        r@.len() == i,
                        forall|j: int| 0 <= j < i ==> *(#[trigger] r@[j]) == msgs@[j],
                    decreases msgs@.len() - i,
                {
                    r.push(&msgs[i]);
                    i += 1;
                }
            }
        }
        r
    }

    /// Starts a session with a fresh id and makes it current.
    pub fn create_session(&mut self, title: Option<String>) -> (r: String)
        ensures
            r@.len() == 36,
            final(self).current_session_id matches Some(c) && c@ == r@,
            final(self).sessions@ == old(self).sessions@.insert(r@, final(self).sessions@[r@]),
            ({
                let s = final(self).sessions@[r@];
                &&& s.id@ == r@
                &&& s.title@ == match title {
                    Some(t) => t@,
                    None => new_session_title(),
                }
                &&& s.created_at == s.updated_at
                &&& s.parent_id is None
                &&& s.share is None
                &&& s.metadata is None
            }),
            final(self).messages@ == old(self).messages@.insert(r@, final(self).messages@[r@]),
            final(self).messages@[r@]@.len() == 0,
            final(self).message_index@ == old(self).message_index@.insert(r@, final(self).message_index@[r@]),
            final(self).message_index@[r@]@ == Map::<Seq<char>, usize>::empty(),
            final(self).session_status@ == old(self).session_status@.insert(r@, SessionStatus::Idle),
            same_records(*final(self), *old(self)),
    {
        let id = new_uuid_v4();
        let now = utc_now();
        proof {
            reveal_strlit("New Session");
        }
        let title = match title {
            Some(t) => t,
            None => String::from_str("New Session"),
        };
        let session = Session {
            id: id.clone(),
            title,
            created_at: now,
            updated_at: now,
            parent_id: None,
            share: None,
            metadata: None,
        };
        self.sessions.insert(id.clone(), session);
        self.messages.insert(id.clone(), Vec::new());
        self.message_index.insert(id.clone(), IdMap::new());
        self.session_status.insert(id.clone(), SessionStatus::Idle);
        self.current_session_id = Some(id.clone());
        id
    }

    /// Records a session, gives it empty messages, index and an idle status
    /// where it has none, and makes it current.
    pub fn upsert_session(&mut self, session: Session)
        ensures
            final(self).sessions@ == old(self).sessions@.insert(session.id@, session),
            final(self).current_session_id matches Some(c) && c@ == session.id@,
            old(self).messages@.contains_key(session.id@) ==> final(self).messages@ == old(self).messages@,
            !old(self).messages@.contains_key(session.id@) ==> final(self).messages@
                == old(self).messages@.insert(session.id@, final(self).messages@[session.id@])
                && final(self).messages@[session.id@]@.len() == 0,
            old(self).message_index@.contains_key(session.id@) ==> final(self).message_index@
                == old(self).message_index@,
            !old(self).message_index@.contains_key(session.id@) ==> final(self).message_index@
                == old(self).message_index@.insert(session.id@, final(self).message_index@[session.id@])
                && final(self).message_index@[session.id@]@ == Map::<Seq<char>, usize>::empty(),
            old(self).session_status@.contains_key(session.id@) ==> final(self).session_status@
                == old(self).session_status@,
            !old(self).session_status@.contains_key(session.id@) ==> final(self).session_status@
                == old(self).session_status@.insert(session.id@, SessionStatus::Idle),
            same_records(*final(self), *old(self)),
    {
        let id = session.id.clone();
        self.sessions.insert(id.clone(), session);
        if !self.messages.contains_key(id.as_str()) {
            self.messages.insert(id.clone(), Vec::new());
        }
        if !self.message_index.contains_key(id.as_str()) {
            self.message_index.insert(id.clone(), IdMap::new());
        }
        if !self.session_status.contains_key(id.as_str()) {
            self.session_status.insert(id.clone(), SessionStatus::Idle);
        }
        self.current_session_id = Some(id);
    }

    /// Replaces a session's messages and rebuilds its index from them.
    pub fn set_messages(&mut self, session_id: &str, messages: Vec<Message>)
        ensures
            final(self).messages@ == old(self).messages@.insert(session_id@, messages),
            final(self).message_index@ == old(self).message_index@.insert(
                session_id@,
                final(self).message_index@[session_id@],
            ),
            final(self).message_index@[session_id@]@ == positions_of(messages@),
            final(self).sessions@ == old(self).sessions@,
            final(self).current_session_id == old(self).current_session_id,
            final(self).session_status@ == old(self).session_status@,
            same_records(*final(self), *old(self)),
    {
        let index = positions(&messages);
        self.messages.insert(String::from_str(session_id), messages);
        self.message_index.insert(String::from_str(session_id), index);
    }

    /// Upserts a message into a session.
    pub fn add_message(&mut self, session_id: &str, message: Message)
        ensures
            final(self).messages@ == old(self).messages@.insert(session_id@, final(self).messages@[session_id@]),
            final(self).message_index@ == old(self).message_index@.insert(
                session_id@,
                final(self).message_index@[session_id@],
            ),
            (final(self).messages@[session_id@]@, final(self).message_index@[session_id@]@) == upsert_in(
                messages_of(*old(self), session_id@),
                index_of(*old(self), session_id@),
                message,
            ),
            final(self).sessions@ == old(self).sessions@,
            final(self).current_session_id == old(self).current_session_id,
            final(self).session_status@ == old(self).session_status@,
            same_records(*final(self), *old(self)),
    {
        self.upsert_message(session_id, message);
    }

    /// Upserts each incoming message in turn.
    pub fn upsert_messages_incremental(&mut self, session_id: &str, incoming: Vec<Message>)
        ensures
            incoming@.len() == 0 ==> final(self).messages@ == old(self).messages@
                && final(self).message_index@ == old(self).message_index@,
            incoming@.len() > 0 ==> final(self).messages@ == old(self).messages@.insert(
                session_id@,
                final(self).messages@[session_id@],
            ) && final(self).message_index@ == old(self).message_index@.insert(
                session_id@,
                final(self).message_index@[session_id@],
            ) && (final(self).messages@[session_id@]@, final(self).message_index@[session_id@]@)
                == upsert_all(
                messages_of(*old(self), session_id@),
                index_of(*old(self), session_id@),
                incoming@,
            ),
            final(self).sessions@ == old(self).sessions@,
            final(self).current_session_id == old(self).current_session_id,
            final(self).session_status@ == old(self).session_status@,
            same_records(*final(self), *old(self)),
    {
        let ghost all = incoming@;
        let ghost m0 = messages_of(*self, session_id@);
        let ghost i0 = index_of(*self, session_id@);
        let mut rest = incoming;
        assert(all.take(0) =~= Seq::<Message>::empty());
        assert(rest@ =~= all.skip(0));
        while rest.len() > 0
            invariant
                rest@.len() <= all.len(),
                rest@ == all.skip(all.len() - rest@.len()),
                (messages_of(*self, session_id@), index_of(*self, session_id@)) == upsert_all(
                    m0,
                    i0,
                    all.take(all.len() - rest@.len()),
                ),
                rest@.len() == all.len() ==> self.messages@ == old(self).messages@
                    && self.message_index@ == old(self).message_index@,
                rest@.len() < all.len() ==> self.messages@ == old(self).messages@.insert(
                    session_id@,
                    self.messages@[session_id@],
                ) && self.message_index@ == old(self).message_index@.insert(
                    session_id@,
                    self.message_index@[session_id@],
                ),
                m0 == messages_of(*old(self), session_id@),
                i0 == index_of(*old(self), session_id@),
                self.sessions@ == old(self).sessions@,
                self.current_session_id == old(self).current_session_id,
                self.session_status@ == old(self).session_status@,
                same_records(*self, *old(self)),
            decreases rest@.len(),
        {
            let ghost n = all.len() - rest@.len();
            let message = rest.remove(0);
            assert(all.take(n + 1).drop_last() =~= all.take(n));
            assert(all.take(n + 1).last() == message);
            assert(rest@ =~= all.skip(n + 1));
            self.upsert_message(session_id, message);
        }
        assert(all.take(all.len() as int) =~= all);
    }

    /// Puts a message into a session: in place of the message its id is
    /// indexed at, or appended.
    pub fn upsert_message(&mut self, session_id: &str, message: Message)
        ensures
            final(self).messages@ == old(self).messages@.insert(session_id@, final(self).messages@[session_id@]),
            final(self).message_index@ == old(self).message_index@.insert(
                session_id@,
                final(self).message_index@[session_id@],
            ),
            (final(self).messages@[session_id@]@, final(self).message_index@[session_id@]@) == upsert_in(
                messages_of(*old(self), session_id@),
                index_of(*old(self), session_id@),
                message,
            ),
            final(self).sessions@ == old(self).sessions@,
            final(self).current_session_id == old(self).current_session_id,
            final(self).session_status@ == old(self).session_status@,
            same_records(*final(self), *old(self)),
    {
        let ghost msgs0 = messages_of(*self, session_id@);
        let ghost idx0 = index_of(*self, session_id@);
        let mut msgs = match self.messages.replace(String::from_str(session_id), Vec::new()) {
            Some(v) => v,
            None => Vec::new(),
        };
        let mut index = match self.message_index.replace(String::from_str(session_id), IdMap::new()) {
            Some(m) => m,
            None => IdMap::new(),
        };
        assert(msgs@ == msgs0);
        assert(index@ == idx0);
        let existing: Option<usize> = match index.get(message.id.as_str()) {
            Some(p) => Some(*p),
            None => None,
        };
        let target: Option<usize> = match existing {
            Some(pos) => {
                if pos < msgs.len() {
                    Some(pos)
                } else {
                    index = positions(&msgs);
                    None
                }
            },
            None => None,
        };
        match target {
            Some(pos) => {
                msgs.set(pos, message);
            },
            None => {
                let id = message.id.clone();
                msgs.push(message);
                index.insert(id, msgs.len() - 1);
            },
        }
        self.messages.insert(String::from_str(session_id), msgs);
        self.message_index.insert(String::from_str(session_id), index);
    }

    /// Records a session's status.
    pub fn set_status(&mut self, session_id: &str, status: SessionStatus)
        ensures
            final(self).session_status@ == old(self).session_status@.insert(session_id@, status),
            final(self).sessions@ == old(self).sessions@,
            final(self).messages@ == old(self).messages@,
            final(self).message_index@ == old(self).message_index@,
            final(self).current_session_id == old(self).current_session_id,
            same_records(*final(self), *old(self)),
    {
        self.session_status.insert(String::from_str(session_id), status);
    }

    /// A session's status; idle when none is recorded.
    pub fn status(&self, session_id: &str) -> (r: &SessionStatus)
        ensures
            *r == if self.session_status@.contains_key(session_id@) {
                self.session_status@[session_id@]
            } else {
                SessionStatus::Idle
            },
    {
        match self.session_status.get(session_id) {
            Some(s) => s,
            None => &SessionStatus::Idle,
        }
    }
}

// ---------------------------------------------------------------------------
// Laws
// ---------------------------------------------------------------------------

/// The index that `set_messages` builds is consistent with the messages.
pub proof fn lemma_positions_consistent(msgs: Seq<Message>)
    requires
        msgs.len() <= usize::MAX,
    ensures
        index_consistent(msgs, positions_of(msgs)),
    decreases msgs.len(),
{
    if msgs.len() > 0 {
        let dl = msgs.drop_last();
        lemma_positions_consistent(dl);
        let p = positions_of(msgs);
        assert forall|id: Seq<char>| #[trigger] p.contains_key(id) implies p[id] < msgs.len()
            && msgs[p[id] as int].id@ == id by {
            if id != msgs.last().id@ {
                assert(positions_of(dl).contains_key(id));
                assert(msgs[positions_of(dl)[id] as int] == dl[positions_of(dl)[id] as int]);
            }
        }
        assert forall|i: int| 0 <= i < msgs.len() implies p.contains_key(#[trigger] msgs[i].id@) by {
            if i < msgs.len() - 1 {
                assert(msgs[i] == dl[i]);
            }
        }
    }
}

/// Upserting into a session whose index is consistent keeps it
/// consistent; the message is then found through the index; it replaced
/// the message of its id in place, or was appended when its id was new.
pub proof fn lemma_upsert_then_lookup(msgs: Seq<Message>, idx: Map<Seq<char>, usize>, m: Message)
    requires
        index_consistent(msgs, idx),
        msgs.len() < usize::MAX,
    ensures
        index_consistent(upsert_in(msgs, idx, m).0, upsert_in(msgs, idx, m).1),
        upsert_in(msgs, idx, m).1.contains_key(m.id@),
        upsert_in(msgs, idx, m).0[upsert_in(msgs, idx, m).1[m.id@] as int] == m,
        idx.contains_key(m.id@) ==> upsert_in(msgs, idx, m).0 == msgs.update(idx[m.id@] as int, m),
        !idx.contains_key(m.id@) ==> upsert_in(msgs, idx, m).0 == msgs.push(m),
{
    let (nm, ni) = upsert_in(msgs, idx, m);
    let id = m.id@;
    if idx.contains_key(id) {
        assert forall|k: Seq<char>| #[trigger] ni.contains_key(k) implies ni[k] < nm.len() && nm[ni[k] as int].id@
            == k by {
            if ni[k] != idx[id] {
                assert(nm[ni[k] as int] == msgs[ni[k] as int]);
            }
        }
        assert forall|i: int| 0 <= i < nm.len() implies ni.contains_key(#[trigger] nm[i].id@) by {
            if i != idx[id] {
                assert(nm[i] == msgs[i]);
            }
        }
    } else {
        assert forall|k: Seq<char>| #[trigger] ni.contains_key(k) implies ni[k] < nm.len() && nm[ni[k] as int].id@
            == k by {
            if k != id {
                assert(idx.contains_key(k));
                assert(nm[ni[k] as int] == msgs[ni[k] as int]);
            }
        }
        assert forall|i: int| 0 <= i < nm.len() implies ni.contains_key(#[trigger] nm[i].id@) by {
            if i < msgs.len() {
                assert(nm[i] == msgs[i]);
            }
        }
    }
}

/// A batch of upserts into a session with a consistent index keeps it
/// consistent, and every incoming message's id is then indexed.
pub proof fn lemma_upsert_all_consistent(msgs: Seq<Message>, idx: Map<Seq<char>, usize>, incoming: Seq<Message>)
    requires
        index_consistent(msgs, idx),
        msgs.len() + incoming.len() < usize::MAX,
    ensures
        index_consistent(upsert_all(msgs, idx, incoming).0, upsert_all(msgs, idx, incoming).1),
        upsert_all(msgs, idx, incoming).0.len() <= msgs.len() + incoming.len(),
        forall|k: int| 0 <= k < incoming.len() ==> upsert_all(msgs, idx, incoming).1.contains_key(
            #[trigger] incoming[k].id@,
        ),
    decreases incoming.len(),
{
    if incoming.len() > 0 {
        let dl = incoming.drop_last();
        lemma_upsert_all_consistent(msgs, idx, dl);
        let prev = upsert_all(msgs, idx, dl);
        lemma_upsert_then_lookup(prev.0, prev.1, incoming.last());
        let next = upsert_all(msgs, idx, incoming);
        assert forall|k: int| 0 <= k < incoming.len() implies next.1.contains_key(#[trigger] incoming[k].id@) by {
            if k < incoming.len() - 1 {
                assert(incoming[k] == dl[k]);
                assert(prev.1.contains_key(dl[k].id@));
                let j = prev.1[dl[k].id@];
                assert(prev.0[j as int].id@ == dl[k].id@);
                assert(next.0.len() >= prev.0.len());
                if !next.1.contains_key(incoming[k].id@) {
                    assert(next.0[j as int].id@ == incoming[k].id@ || j == prev.1[incoming.last().id@]);
                }
            }
        }
    }
}

} // verus!
