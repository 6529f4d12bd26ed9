//! Application-wide view state: display preferences, the stack of open
//! dialogs, the model selection, and the naming of themes.
use vstd::prelude::*;
use crate::jsonish::sanitize::{trim, trim_spec};
use crate::jsonish::sanitize::{last_match, lemma_last_match, rfind, rfind_spec};
use crate::tui::id_map::IdMap;
use crate::text::{
    chars_eq, chars_of, lines_view, parse_usize, parse_usize_spec, push_all, slice_chars,
    split_char, split_on_char, string_from_chars,
};

verus! {

// ---------------------------------------------------------------------------
// Statuses shown in the sidebar
// ---------------------------------------------------------------------------

#[derive(Clone, Debug)]
pub struct McpServerStatus {
    pub name: String,
    pub status: McpConnectionStatus,
    pub error: Option<String>,
}

#[derive(Clone, Copy, Debug, PartialEq, Eq, Structural)]
pub enum McpConnectionStatus {
    Connected,
    Disconnected,
    Failed,
    NeedsAuth,
    NeedsClientRegistration,
    Disabled,
}

#[derive(Clone, Debug)]
pub struct LspStatus {
    pub id: String,
    pub root: String,
    pub status: LspConnectionStatus,
}

#[derive(Clone, Copy, Debug, PartialEq, Eq, Structural)]
pub enum LspConnectionStatus {
    Connected,
    Error,
}

/// An active tool call, as the cancel dialog lists it.
#[derive(Clone, Debug)]
pub struct ToolCallInfo {
    pub id: String,
    pub tool_name: String,
}

// ---------------------------------------------------------------------------
// Preferences
// ---------------------------------------------------------------------------

#[derive(Clone, Copy, Debug, PartialEq, Eq, Structural)]
pub enum MessageDensity {
    Compact,
    Cozy,
}

/// The code of a char with ASCII capitals lowered.
pub open spec fn ascii_lower(c: char) -> u32 {
    if 'A' <= c <= 'Z' { ((c as u32) + 32) as u32 } else { c as u32 }
}

/// ASCII case-insensitive equality, as `str::eq_ignore_ascii_case`.
pub open spec fn eq_ignore_ascii_case_spec(a: Seq<char>, b: Seq<char>) -> bool {
    a.len() == b.len() && forall|i: int| 0 <= i < a.len() ==> ascii_lower(#[trigger] a[i]) == ascii_lower(b[i])
}

pub fn eq_ignore_ascii_case(a: &[char], b: &[char]) -> (r: bool)
    ensures
        r == eq_ignore_ascii_case_spec(a@, b@),
{
    if a.len() != b.len() {
        return false;
    }
    let mut i: usize = 0;
    while i < a.len()
        invariant
            a@.len() == b@.len(),
            0 <= i <= a@.len(),
            forall|j: int| 0 <= j < i ==> ascii_lower(#[trigger] a@[j]) == ascii_lower(b@[j]),
        decreases a.len() - i,
    {
        let x = a[i];
        let y = b[i];
        let lx: u32 = if 'A' <= x && x <= 'Z' { (x as u32) + 32 } else { x as u32 };
        let ly: u32 = if 'A' <= y && y <= 'Z' { (y as u32) + 32 } else { y as u32 };
        if lx != ly {
            return false;
        }
        i = i + 1;
    }
    true
}

impl MessageDensity {
    /// `cozy` in any letter case; anything else is compact.
    pub fn from_str_lossy(s: &str) -> (r: Self)
        ensures
            r == if eq_ignore_ascii_case_spec(s@, "cozy"@) {
                MessageDensity::Cozy
            } else {
                MessageDensity::Compact
            },
    {
        if eq_ignore_ascii_case(&chars_of(s), &chars_of("cozy")) {
            MessageDensity::Cozy
        } else {
            MessageDensity::Compact
        }
    }

    pub fn as_str(self) -> (r: &'static str)
        ensures
            r@ == match self {
                MessageDensity::Compact => "compact"@,
                MessageDensity::Cozy => "cozy"@,
            },
    {
        match self {
            MessageDensity::Compact => "compact",
            MessageDensity::Cozy => "cozy",
        }
    }

    pub fn toggled(self) -> (r: Self)
        ensures
            r == match self {
                MessageDensity::Compact => MessageDensity::Cozy,
                MessageDensity::Cozy => MessageDensity::Compact,
            },
    {
        match self {
            MessageDensity::Compact => MessageDensity::Cozy,
            MessageDensity::Cozy => MessageDensity::Compact,
        }
    }
}

/// A density's name reads back as the same density.
pub proof fn lemma_density_name_round_trip(d: MessageDensity)
    ensures
        eq_ignore_ascii_case_spec(
            match d {
                MessageDensity::Compact => "compact"@,
                MessageDensity::Cozy => "cozy"@,
            },
            "cozy"@,
        ) == (d == MessageDensity::Cozy),
{
    reveal_strlit("compact");
    reveal_strlit("cozy");
    if d == MessageDensity::Compact {
        assert(!eq_ignore_ascii_case_spec("compact"@, "cozy"@));
    } else {
        assert(eq_ignore_ascii_case_spec("cozy"@, "cozy"@));
    }
}

#[derive(Clone, Copy, Debug, PartialEq, Eq, Structural)]
pub struct UiPreferencesState {
    pub show_header: bool,
    pub show_scrollbar: bool,
    pub tips_hidden: bool,
    pub show_timestamps: bool,
    pub show_thinking: bool,
    pub show_tool_details: bool,
    pub message_density: MessageDensity,
    pub semantic_highlight: bool,
}

/// A display switch of the preferences.
#[derive(Clone, Copy, Debug, PartialEq, Eq, Structural)]
pub enum UiToggle {
    Header,
    Scrollbar,
    TipsHidden,
    Timestamps,
    Thinking,
    ToolDetails,
    MessageDensity,
    SemanticHighlight,
}

pub open spec fn toggled_prefs(p: UiPreferencesState, t: UiToggle) -> UiPreferencesState {
    match t {
        UiToggle::Header => UiPreferencesState { show_header: !p.show_header, ..p },
        UiToggle::Scrollbar => UiPreferencesState { show_scrollbar: !p.show_scrollbar, ..p },
        UiToggle::TipsHidden => UiPreferencesState { tips_hidden: !p.tips_hidden, ..p },
        UiToggle::Timestamps => UiPreferencesState { show_timestamps: !p.show_timestamps, ..p },
        UiToggle::Thinking => UiPreferencesState { show_thinking: !p.show_thinking, ..p },
        UiToggle::ToolDetails => UiPreferencesState { show_tool_details: !p.show_tool_details, ..p },
        UiToggle::MessageDensity => UiPreferencesState {
            message_density: match p.message_density {
                MessageDensity::Compact => MessageDensity::Cozy,
                MessageDensity::Cozy => MessageDensity::Compact,
            },
            ..p
        },
        UiToggle::SemanticHighlight => UiPreferencesState { semantic_highlight: !p.semantic_highlight, ..p },
    }
}

impl UiPreferencesState {
    /// Header and thinking and tool details shown, the rest off, compact.
    pub fn new() -> (r: Self)
        ensures
            r.show_header && !r.show_scrollbar && !r.tips_hidden && !r.show_timestamps,
            r.show_thinking && r.show_tool_details && !r.semantic_highlight,
            r.message_density == MessageDensity::Compact,
    {
        UiPreferencesState {
            show_header: true,
            show_scrollbar: false,
            tips_hidden: false,
            show_timestamps: false,
            show_thinking: true,
            show_tool_details: true,
            message_density: MessageDensity::Compact,
            semantic_highlight: false,
        }
    }

    /// Flips one switch and tells its new value as the text to persist:
    /// `true`/`false`, or the density's name.
    pub fn toggle(&mut self, t: UiToggle) -> (r: bool)
        ensures
            *final(self) == toggled_prefs(*old(self), t),
            r == match t {
                UiToggle::Header => final(self).show_header,
                UiToggle::Scrollbar => final(self).show_scrollbar,
                UiToggle::TipsHidden => final(self).tips_hidden,
                UiToggle::Timestamps => final(self).show_timestamps,
                UiToggle::Thinking => final(self).show_thinking,
                UiToggle::ToolDetails => final(self).show_tool_details,
                UiToggle::MessageDensity => final(self).message_density == MessageDensity::Cozy,
                UiToggle::SemanticHighlight => final(self).semantic_highlight,
            },
    {
        match t {
            UiToggle::Header => {
                self.show_header = !self.show_header;
                self.show_header
            },
            UiToggle::Scrollbar => {
                self.show_scrollbar = !self.show_scrollbar;
                self.show_scrollbar
            },
            UiToggle::TipsHidden => {
                self.tips_hidden = !self.tips_hidden;
                self.tips_hidden
            },
            UiToggle::Timestamps => {
                self.show_timestamps = !self.show_timestamps;
                self.show_timestamps
            },
            UiToggle::Thinking => {
                self.show_thinking = !self.show_thinking;
                self.show_thinking
            },
            UiToggle::ToolDetails => {
                self.show_tool_details = !self.show_tool_details;
                self.show_tool_details
            },
            UiToggle::MessageDensity => {
                self.message_density = self.message_density.toggled();
                self.message_density == MessageDensity::Cozy
            },
            UiToggle::SemanticHighlight => {
                self.semantic_highlight = !self.semantic_highlight;
                self.semantic_highlight
            },
        }
    }
}

/// Flipping a switch twice leaves the preferences as they were.
pub proof fn lemma_toggle_twice(p: UiPreferencesState, t: UiToggle)
    ensures
        toggled_prefs(toggled_prefs(p, t), t) == p,
{
}

#[derive(Clone, Debug)]
pub struct SelectionState {
    pub current_agent: String,
    pub current_scheduler_profile: Option<String>,
    pub current_model: Option<String>,
    pub current_provider: Option<String>,
    pub current_variant: Option<String>,
}

impl SelectionState {
    /// Picks a model, and its provider when known.
    pub fn set_model_selection(&mut self, model: String, provider: Option<String>)
        ensures
            final(self).current_model == Some(model),
            final(self).current_provider == provider,
            final(self).current_agent == old(self).current_agent,
            final(self).current_scheduler_profile == old(self).current_scheduler_profile,
            final(self).current_variant == old(self).current_variant,
    {
        self.current_model = Some(model);
        self.current_provider = provider;
    }

    /// Picks a model of a provider.
    pub fn set_model(&mut self, model: String, provider: String)
        ensures
            final(self).current_model == Some(model),
            final(self).current_provider == Some(provider),
            final(self).current_agent == old(self).current_agent,
            final(self).current_scheduler_profile == old(self).current_scheduler_profile,
            final(self).current_variant == old(self).current_variant,
    {
        self.set_model_selection(model, Some(provider));
    }

    /// Picks the model's variant.
    pub fn set_model_variant(&mut self, variant: Option<String>)
        ensures
            final(self).current_variant == variant,
            final(self).current_agent == old(self).current_agent,
            final(self).current_scheduler_profile == old(self).current_scheduler_profile,
            final(self).current_model == old(self).current_model,
            final(self).current_provider == old(self).current_provider,
    {
        self.current_variant = variant;
    }

    /// Picks an agent; an agent and a scheduler profile exclude each other,
    /// so the profile is dropped.
    pub fn set_agent(&mut self, agent: String)
        ensures
            final(self).current_agent == agent,
            final(self).current_scheduler_profile is None,
            final(self).current_model == old(self).current_model,
            final(self).current_provider == old(self).current_provider,
            final(self).current_variant == old(self).current_variant,
    {
        self.current_agent = agent;
        self.current_scheduler_profile = None;
    }

    /// Picks a scheduler profile, or none; picking one clears the agent.
    pub fn set_scheduler_profile(&mut self, profile: Option<String>)
        ensures
            final(self).current_scheduler_profile == profile,
            profile is Some ==> final(self).current_agent@ == Seq::<char>::empty(),
            profile is None ==> final(self).current_agent == old(self).current_agent,
            final(self).current_model == old(self).current_model,
            final(self).current_provider == old(self).current_provider,
            final(self).current_variant == old(self).current_variant,
    {
        let has_profile = profile.is_some();
        self.current_scheduler_profile = profile;
        if has_profile {
            self.current_agent = String::new();
        }
    }
}

// ---------------------------------------------------------------------------
// Finding a model among the providers'
// ---------------------------------------------------------------------------

/// The model to look for: the trimmed reference when it is not empty, else
/// the current model.
pub open spec fn model_target(model_ref: Option<Seq<char>>, current: Option<Seq<char>>) -> Option<Seq<char>> {
    match model_ref {
        Some(r) => if trim_spec(r).len() > 0 { Some(trim_spec(r)) } else { current },
        None => current,
    }
}

/// A model id names the target when it equals it, or when its part after
/// the last `/` does.
pub open spec fn model_id_matches(id: Seq<char>, target: Seq<char>) -> bool {
    id == target || match rsplit_once_spec(id, '/') {
        Some((_, suffix)) => suffix == target,
        None => false,
    }
}

/// Whether the model at `(p, m)` comes before the one at `(p2, m2)`,
/// providers in order and each provider's models in order.
pub open spec fn model_position_before(p: int, m: int, p2: int, m2: int) -> bool {
    p < p2 || (p == p2 && m < m2)
}

fn model_id_matches_exec(id: &str, target: &[char]) -> (r: bool)
    ensures
        r == model_id_matches(id@, target@),
{
    let chars = chars_of(id);
    if chars_eq(&chars, target) {
        return true;
    }
    match rsplit_once(&chars, '/') {
        Some((_, suffix)) => chars_eq(&suffix, target),
        None => false,
    }
}

/// Where the model that a reference (else the current model) names stands:
/// its provider's position and its own among that provider's models, the
/// first that matches over all providers in order. `provider_model_ids`
/// holds each provider's model ids.
pub fn resolve_model_position(
    provider_model_ids: &Vec<Vec<String>>,
    model_ref: Option<&str>,
    current_model: Option<&str>,
) -> (r: Option<(usize, usize)>)
    ensures
        match r {
            Some((p, m)) => {
                &&& model_target(
                    match model_ref {
                        Some(x) => Some(x@),
                        None => None,
                    },
                    match current_model {
                        Some(x) => Some(x@),
                        None => None,
                    },
                ) matches Some(t)
                &&& p < provider_model_ids@.len() && m < provider_model_ids@[p as int]@.len()
                &&& model_id_matches(provider_model_ids@[p as int]@[m as int]@, t)
                &&& forall|q: int, j: int|
                    0 <= q < provider_model_ids@.len() && 0 <= j < provider_model_ids@[q]@.len()
                        && model_position_before(q, j, p as int, m as int) ==> !model_id_matches(
                        #[trigger] provider_model_ids@[q]@[j]@,
                        t,
                    )
            },
            None => match model_target(
                match model_ref {
                    Some(x) => Some(x@),
                    None => None,
                },
                match current_model {
                    Some(x) => Some(x@),
                    None => None,
                },
            ) {
                Some(t) => forall|q: int, j: int|
                    0 <= q < provider_model_ids@.len() && 0 <= j < provider_model_ids@[q]@.len()
                        ==> !model_id_matches(#[trigger] provider_model_ids@[q]@[j]@, t),
                None => true,
            },
        },
{
    let target: Vec<char> = match model_ref {
        Some(x) => {
            let t = trim(&chars_of(x));
            if t.len() > 0 {
                t
            } else {
                match current_model {
                    Some(c) => chars_of(c),
                    None => {
                        return None;
                    },
                }
            }
        },
        None => match current_model {
            Some(c) => chars_of(c),
            None => {
                return None;
            },
        },
    };
    assert(model_target(
        match model_ref {
            Some(x) => Some(x@),
            None => None,
        },
        match current_model {
            Some(x) => Some(x@),
            None => None,
        },
    ) == Some(target@));
    let mut p: usize = 0;
    while p < provider_model_ids.len()
        invariant
            0 <= p <= provider_model_ids@.len(),
            model_target(
                match model_ref {
                    Some(x) => Some(x@),
                    None => None,
                },
                match current_model {
                    Some(x) => Some(x@),
                    None => None,
                },
            ) == Some(target@),
            forall|q: int, j: int|
                0 <= q < p && 0 <= j < provider_model_ids@[q]@.len() ==> !model_id_matches(
                    #[trigger] provider_model_ids@[q]@[j]@,
                    target@,
                ),
        decreases provider_model_ids.len() - p,
    {
        let models = &provider_model_ids[p];
        let mut m: usize = 0;
        while m < models.len()
            invariant
                0 <= p < provider_model_ids@.len(),
                *models == provider_model_ids@[p as int],
                model_target(
                match model_ref {
                    Some(x) => Some(x@),
                    None => None,
                },
                match current_model {
                    Some(x) => Some(x@),
                    None => None,
                },
            ) == Some(target@),
                0 <= m <= models@.len(),
                forall|q: int, j: int|
                    0 <= q < p && 0 <= j < provider_model_ids@[q]@.len() ==> !model_id_matches(
                        #[trigger] provider_model_ids@[q]@[j]@,
                        target@,
                    ),
                forall|j: int| 0 <= j < m ==> !model_id_matches(#[trigger] models@[j]@, target@),
            decreases models.len() - m,
        {
            if model_id_matches_exec(models[m].as_str(), &target) {
                assert(provider_model_ids@[p as int]@[m as int] == models@[m as int]);
                assert forall|q: int, j: int|
                    0 <= q < provider_model_ids@.len() && 0 <= j < provider_model_ids@[q]@.len()
                        && model_position_before(q, j, p as int, m as int) implies !model_id_matches(
                    #[trigger] provider_model_ids@[q]@[j]@,
                    target@,
                ) by {
                    if q == p {
                        assert(provider_model_ids@[q]@[j] == models@[j]);
                    }
                }
                return Some((p, m));
            }
            m = m + 1;
        }
        p = p + 1;
    }
    None
}

// ---------------------------------------------------------------------------
// Prompts queued per session
// ---------------------------------------------------------------------------

/// The count of prompts waiting in a session: 0 when it has no entry.
pub open spec fn queued_count(m: Map<Seq<char>, usize>, session_id: Seq<char>) -> usize {
    if m.contains_key(session_id) { m[session_id] } else { 0 }
}

/// The counts after recording `count` for a session: a count of 0 drops
/// the session's entry.
pub open spec fn queued_after(m: Map<Seq<char>, usize>, session_id: Seq<char>, count: usize) -> Map<
    Seq<char>,
    usize,
> {
    if count == 0 { m.remove(session_id) } else { m.insert(session_id, count) }
}

/// The prompts waiting to be sent, counted per session.
#[derive(Debug)]
pub struct QueuedPrompts {
    pub counts: IdMap<usize>,
}

impl QueuedPrompts {
    pub fn new() -> (r: Self)
        ensures
            r.counts@ == Map::<Seq<char>, usize>::empty(),
    {
        QueuedPrompts { counts: IdMap::new() }
    }

    /// Records how many prompts wait in a session.
    pub fn set_queued_prompts(&mut self, session_id: &str, count: usize)
        ensures
            final(self).counts@ == queued_after(old(self).counts@, session_id@, count),
    {
        if count == 0 {
            let _ = self.counts.remove(session_id);
        } else {
            self.counts.insert(String::from_str(session_id), count);
        }
    }

    /// How many prompts wait in a session.
    pub fn queued_prompts_for_session(&self, session_id: &str) -> (r: usize)
        ensures
            r == queued_count(self.counts@, session_id@),
    {
        match self.counts.get(session_id) {
            Some(n) => *n,
            None => 0,
        }
    }
}

/// After recording a count for a session, the session reads back that
/// count, and every other session reads back what it did before.
pub proof fn lemma_queued_set_then_get(
    m: Map<Seq<char>, usize>,
    session_id: Seq<char>,
    count: usize,
    other: Seq<char>,
)
    requires
        other != session_id,
    ensures
        queued_count(queued_after(m, session_id, count), session_id) == count,
        queued_count(queued_after(m, session_id, count), other) == queued_count(m, other),
{
}

#[derive(Clone, Debug)]
pub struct TuiMemoryListState {
    pub query: Option<String>,
}

#[derive(Clone, Debug)]
pub struct TuiMemoryDetailState {
    pub record_id: String,
}

#[derive(Clone, Debug)]
pub struct TuiMemoryPreviewState {
    pub query: Option<String>,
}

#[derive(Clone, Debug)]
pub struct TuiMemoryRuleHitsState {
    pub raw_query: Option<String>,
}

#[derive(Clone, Debug)]
pub struct TuiMemoryConsolidationState {
    pub raw_request: Option<String>,
}

// ---------------------------------------------------------------------------
// Open dialogs
// ---------------------------------------------------------------------------

#[derive(Clone, Copy, Debug, PartialEq, Eq, Structural)]
pub enum DialogSlot {
    Alert,
    Help,
    RecoveryAction,
    Status,
    SessionRename,
    SessionExport,
    PromptStash,
    SkillList,
    SlashPopup,
    CommandPalette,
    ModelSelect,
    AgentSelect,
    SessionList,
    ThemeList,
    Mcp,
    Timeline,
    Fork,
    Provider,
    Subagent,
    ToolCallCancel,
    Tag,
}

/// The order in which Escape closes open dialogs: every slot, once.
pub open spec fn close_priority() -> Seq<DialogSlot> {
    seq![
        DialogSlot::Alert,
        DialogSlot::Help,
        DialogSlot::RecoveryAction,
        DialogSlot::Status,
        DialogSlot::SessionRename,
        DialogSlot::SessionExport,
        DialogSlot::PromptStash,
        DialogSlot::SkillList,
        DialogSlot::SlashPopup,
        DialogSlot::CommandPalette,
        DialogSlot::ModelSelect,
        DialogSlot::AgentSelect,
        DialogSlot::SessionList,
        DialogSlot::ThemeList,
        DialogSlot::Mcp,
        DialogSlot::Timeline,
        DialogSlot::Fork,
        DialogSlot::Provider,
        DialogSlot::Subagent,
        DialogSlot::ToolCallCancel,
        DialogSlot::Tag,
    ]
}

/// The dialogs that take the scroll wheel, in order of precedence.
pub open spec fn scroll_priority() -> Seq<DialogSlot> {
    seq![
        DialogSlot::PromptStash,
        DialogSlot::SkillList,
        DialogSlot::SlashPopup,
        DialogSlot::CommandPalette,
        DialogSlot::ModelSelect,
        DialogSlot::AgentSelect,
        DialogSlot::SessionList,
        DialogSlot::ThemeList,
        DialogSlot::Mcp,
        DialogSlot::Timeline,
        DialogSlot::Fork,
        DialogSlot::Provider,
        DialogSlot::Subagent,
    ]
}

fn close_priority_vec() -> (r: Vec<DialogSlot>)
    ensures
        r@ == close_priority(),
{
    let r = vec![
        DialogSlot::Alert,
        DialogSlot::Help,
        DialogSlot::RecoveryAction,
        DialogSlot::Status,
        DialogSlot::SessionRename,
        DialogSlot::SessionExport,
        DialogSlot::PromptStash,
        DialogSlot::SkillList,
        DialogSlot::SlashPopup,
        DialogSlot::CommandPalette,
        DialogSlot::ModelSelect,
        DialogSlot::AgentSelect,
        DialogSlot::SessionList,
        DialogSlot::ThemeList,
        DialogSlot::Mcp,
        DialogSlot::Timeline,
        DialogSlot::Fork,
        DialogSlot::Provider,
        DialogSlot::Subagent,
        DialogSlot::ToolCallCancel,
        DialogSlot::Tag,
    ];
    assert(r@ =~= close_priority());
    r
}

fn scroll_priority_vec() -> (r: Vec<DialogSlot>)
    ensures
        r@ == scroll_priority(),
{
    let r = vec![
        DialogSlot::PromptStash,
        DialogSlot::SkillList,
        DialogSlot::SlashPopup,
        DialogSlot::CommandPalette,
        DialogSlot::ModelSelect,
        DialogSlot::AgentSelect,
        DialogSlot::SessionList,
        DialogSlot::ThemeList,
        DialogSlot::Mcp,
        DialogSlot::Timeline,
        DialogSlot::Fork,
        DialogSlot::Provider,
        DialogSlot::Subagent,
    ];
    assert(r@ =~= scroll_priority());
    r
}

/// The first slot of `prio` that is open.
pub open spec fn first_open(prio: Seq<DialogSlot>, open: Seq<DialogSlot>) -> Option<DialogSlot>
    decreases prio.len(),
{
    if prio.len() == 0 {
        None
    } else if open.contains(prio[0]) {
        Some(prio[0])
    } else {
        first_open(prio.skip(1), open)
    }
}

pub open spec fn no_duplicates(s: Seq<DialogSlot>) -> bool {
    forall|i: int, j: int| 0 <= i < j < s.len() ==> s[i] != s[j]
}

/// The dialogs open, in the order they were opened, each once.
#[derive(Clone, Debug)]
pub struct DialogLifecycleState {
    open_dialogs: Vec<DialogSlot>,
}

impl View for DialogLifecycleState {
    type V = Seq<DialogSlot>;

    closed spec fn view(&self) -> Seq<DialogSlot> {
        self.open_dialogs@
    }
}

fn position(v: &Vec<DialogSlot>, slot: DialogSlot) -> (r: Option<usize>)
    ensures
        match r {
            Some(i) => i < v@.len() && v@[i as int] == slot,
            None => !v@.contains(slot),
        },
{
    let mut i: usize = 0;
    while i < v.len()
        invariant
            0 <= i <= v@.len(),
            forall|j: int| 0 <= j < i ==> v@[j] != slot,
        decreases v.len() - i,
    {
        if v[i] == slot {
            return Some(i);
        }
        i = i + 1;
    }
    None
}

impl DialogLifecycleState {
    pub closed spec fn wf(&self) -> bool {
        no_duplicates(self.open_dialogs@)
    }

    pub fn new() -> (r: Self)
        ensures
            r.wf(),
            r@ == Seq::<DialogSlot>::empty(),
    {
        DialogLifecycleState { open_dialogs: Vec::new() }
    }

    /// Records a dialog opened (at the end) or closed (taken out).
    pub fn sync_dialog_open(&mut self, slot: DialogSlot, is_open: bool)
        requires
            old(self).wf(),
        ensures
            final(self).wf(),
            is_open && !old(self)@.contains(slot) ==> final(self)@ == old(self)@.push(slot),
            is_open && old(self)@.contains(slot) ==> final(self)@ == old(self)@,
            !is_open ==> final(self)@.to_set() == old(self)@.to_set().remove(slot),
            !is_open ==> !final(self)@.contains(slot),
            !is_open && !old(self)@.contains(slot) ==> final(self)@ == old(self)@,
    {
        let existing = position(&self.open_dialogs, slot);
        match existing {
            None => {
                if is_open {
                    let ghost before = self.open_dialogs@;
                    self.open_dialogs.push(slot);
                    proof {
                        assert forall|i: int, j: int| 0 <= i < j < self.open_dialogs@.len() implies self.open_dialogs@[i]
                            != self.open_dialogs@[j] by {
                            if j == before.len() {
                                assert(before[i] == self.open_dialogs@[i]);
                                assert(!before.contains(slot));
                            }
                        }
                    }
                }
            },
            Some(index) => {
                if !is_open {
                    let ghost before = self.open_dialogs@;
                    self.open_dialogs.remove(index);
                    proof {
                        let after = self.open_dialogs@;
                        assert(after =~= before.remove(index as int));
                        assert forall|i: int, j: int| 0 <= i < j < after.len() implies after[i] != after[j] by {
                            let bi = if i < index { i } else { i + 1 };
                            let bj = if j < index { j } else { j + 1 };
                            assert(after[i] == before[bi]);
                            assert(after[j] == before[bj]);
                        }
                        assert forall|x: DialogSlot| after.contains(x) <==> before.to_set().remove(slot).contains(x) by {
                            if after.contains(x) {
                                let w = choose|w: int| 0 <= w < after.len() && after[w] == x;
                                let bw = if w < index { w } else { w + 1 };
                                assert(before[bw] == x);
                                assert(bw != index);
                            }
                            if before.to_set().remove(slot).contains(x) {
                                let w = choose|w: int| 0 <= w < before.len() && before[w] == x;
                                assert(w != index);
                                if w < index {
                                    assert(after[w] == x);
                                } else {
                                    assert(after[w - 1] == x);
                                }
                            }
                        }
                        assert(after.to_set() =~= before.to_set().remove(slot));
                        assert(!after.contains(slot));
                    }
                }
            },
        }
        proof {
            if !is_open && !old(self)@.contains(slot) {
                assert(self.open_dialogs@.to_set() =~= old(self)@.to_set().remove(slot));
            }
        }
    }

    pub fn close_dialog(&mut self, slot: DialogSlot)
        requires
            old(self).wf(),
        ensures
            final(self).wf(),
            final(self)@.to_set() == old(self)@.to_set().remove(slot),
            !final(self)@.contains(slot),
    {
        self.sync_dialog_open(slot, false);
    }

    pub fn is_dialog_open(&self, slot: DialogSlot) -> (r: bool)
        ensures
            r == self@.contains(slot),
    {
        position(&self.open_dialogs, slot).is_some()
    }

    pub fn has_open_dialogs(&self) -> (r: bool)
        ensures
            r == (self@.len() > 0),
    {
        self.open_dialogs.len() > 0
    }

    fn first_open_of(&self, prio: &Vec<DialogSlot>) -> (r: Option<DialogSlot>)
        ensures
            r == first_open(prio@, self@),
    {
        let mut i: usize = 0;
        assert(prio@.skip(0) =~= prio@);
        while i < prio.len()
            invariant
                0 <= i <= prio@.len(),
                first_open(prio@, self@) == first_open(prio@.skip(i as int), self@),
            decreases prio.len() - i,
        {
            assert(prio@.skip(i as int).skip(1) =~= prio@.skip(i + 1));
            if self.is_dialog_open(prio[i]) {
                return Some(prio[i]);
            }
            i = i + 1;
        }
        None
    }

    /// The open dialog that Escape closes first.
    pub fn top_close_dialog(&self) -> (r: Option<DialogSlot>)
        ensures
            r == first_open(close_priority(), self@),
    {
        self.first_open_of(&close_priority_vec())
    }

    /// The open dialog that takes the scroll wheel.
    pub fn top_scroll_dialog(&self) -> (r: Option<DialogSlot>)
        ensures
            r == first_open(scroll_priority(), self@),
    {
        self.first_open_of(&scroll_priority_vec())
    }
}

/// Each dialog appears once in the order of closing, so any open dialog
/// makes Escape close something.
pub proof fn lemma_close_priority_complete(open: Seq<DialogSlot>)
    ensures
        forall|s: DialogSlot| #[trigger] close_priority().contains(s),
        open.len() > 0 ==> first_open(close_priority(), open) is Some,
{
    assert forall|s: DialogSlot| #[trigger] close_priority().contains(s) by {
        let i: int = match s {
            DialogSlot::Alert => 0,
            DialogSlot::Help => 1,
            DialogSlot::RecoveryAction => 2,
            DialogSlot::Status => 3,
            DialogSlot::SessionRename => 4,
            DialogSlot::SessionExport => 5,
            DialogSlot::PromptStash => 6,
            DialogSlot::SkillList => 7,
            DialogSlot::SlashPopup => 8,
            DialogSlot::CommandPalette => 9,
            DialogSlot::ModelSelect => 10,
            DialogSlot::AgentSelect => 11,
            DialogSlot::SessionList => 12,
            DialogSlot::ThemeList => 13,
            DialogSlot::Mcp => 14,
            DialogSlot::Timeline => 15,
            DialogSlot::Fork => 16,
            DialogSlot::Provider => 17,
            DialogSlot::Subagent => 18,
            DialogSlot::ToolCallCancel => 19,
            DialogSlot::Tag => 20,
        };
        assert(close_priority()[i] == s);
    }
    if open.len() > 0 {
        lemma_first_open_finds(close_priority(), open, open[0]);
    }
}

/// When some slot of `prio` is open, a first open one is found.
pub proof fn lemma_first_open_finds(prio: Seq<DialogSlot>, open: Seq<DialogSlot>, s: DialogSlot)
    requires
        prio.contains(s),
        open.contains(s),
    ensures
        first_open(prio, open) is Some,
    decreases prio.len(),
{
    if !open.contains(prio[0]) {
        let w = choose|w: int| 0 <= w < prio.len() && prio[w] == s;
        assert(w != 0);
        assert(prio.skip(1)[w - 1] == s);
        lemma_first_open_finds(prio.skip(1), open, s);
    }
}

// ---------------------------------------------------------------------------
// Theme names
// ---------------------------------------------------------------------------

/// `str::rsplit_once(c)`: the text before and after the last `c`.
pub open spec fn rsplit_once_spec(s: Seq<char>, c: char) -> Option<(Seq<char>, Seq<char>)> {
    match rfind_spec(s, seq![c]) {
        Some(i) => Some((s.take(i), s.skip(i + 1))),
        None => None,
    }
}

/// `base@variant` (or `base:variant`) with a non-empty base and a variant
/// of `dark` or `light`. The last `@` decides when there is one.
pub open spec fn split_theme_variant_spec(name: Seq<char>) -> Option<(Seq<char>, Seq<char>)> {
    let split = match rsplit_once_spec(name, '@') {
        Some(p) => Some(p),
        None => rsplit_once_spec(name, ':'),
    };
    match split {
        Some((base, variant)) => if base.len() == 0 || !(variant == "dark"@ || variant == "light"@) {
            None
        } else {
            Some((base, variant))
        },
        None => None,
    }
}

fn rsplit_once(s: &[char], c: char) -> (r: Option<(Vec<char>, Vec<char>)>)
    ensures
        match r {
            Some((a, b)) => rsplit_once_spec(s@, c) == Some((a@, b@)),
            None => rsplit_once_spec(s@, c) is None,
        },
{
    let mut pat: Vec<char> = Vec::new();
    pat.push(c);
    assert(pat@ =~= seq![c]);
    match rfind(s, &pat) {
        Some(i) => {
            proof { lemma_last_match(s@, pat@, s@.len() - pat@.len()); }
            let n = s.len();
            assert(i + 1 <= n);
            let a = slice_chars(s, 0, i);
            let b = slice_chars(s, i + 1, n);
            assert(a@ =~= s@.take(i as int));
            assert(b@ =~= s@.skip(i + 1));
            Some((a, b))
        },
        None => None,
    }
}

pub fn split_theme_variant(name: &str) -> (r: Option<(String, String)>)
    ensures
        match r {
            Some((a, b)) => split_theme_variant_spec(name@) == Some((a@, b@)),
            None => split_theme_variant_spec(name@) is None,
        },
{
    let n = chars_of(name);
    let split = match rsplit_once(&n, '@') {
        Some(p) => Some(p),
        None => rsplit_once(&n, ':'),
    };
    match split {
        Some((base, variant)) => {
            if base.len() == 0 || !(chars_eq(&variant, &chars_of("dark")) || chars_eq(&variant, &chars_of("light"))) {
                None
            } else {
                Some((string_from_chars(&base), string_from_chars(&variant)))
            }
        },
        None => None,
    }
}

/// The theme name in `base@variant` form: a named variant kept, `dark` or
/// `light` alone meaning the default theme, a bare name taken as dark, and
/// an empty name giving the default theme in the terminal's mode.
pub open spec fn normalize_theme_name_spec(name: Seq<char>, terminal_mode: Seq<char>) -> Seq<char> {
    let t = trim_spec(name);
    if t.len() == 0 {
        "opencode@"@ + terminal_mode
    } else {
        match split_theme_variant_spec(t) {
            Some((base, variant)) => base + "@"@ + variant,
            None => if eq_ignore_ascii_case_spec(t, "dark"@) {
                "opencode@dark"@
            } else if eq_ignore_ascii_case_spec(t, "light"@) {
                "opencode@light"@
            } else {
                t + "@dark"@
            },
        }
    }
}

/// Normalizes a theme name; `terminal_mode` is the terminal's own mode
/// (`dark` or `light`), used when the name is empty.
pub fn normalize_theme_name(name: &str, terminal_mode: &str) -> (r: String)
    ensures
        r@ == normalize_theme_name_spec(name@, terminal_mode@),
{
    let t = trim(&chars_of(name));
    if t.len() == 0 {
        let mut out = chars_of("opencode@");
        push_all(&mut out, &chars_of(terminal_mode));
        return string_from_chars(&out);
    }
    let ts = string_from_chars(&t);
    match split_theme_variant(ts.as_str()) {
        Some((base, variant)) => {
            let mut out = chars_of(base.as_str());
            push_all(&mut out, &chars_of("@"));
            push_all(&mut out, &chars_of(variant.as_str()));
            string_from_chars(&out)
        },
        None => {
            if eq_ignore_ascii_case(&t, &chars_of("dark")) {
                string_from_chars(&chars_of("opencode@dark"))
            } else if eq_ignore_ascii_case(&t, &chars_of("light")) {
                string_from_chars(&chars_of("opencode@light"))
            } else {
                let mut out = t;
                push_all(&mut out, &chars_of("@dark"));
                string_from_chars(&out)
            }
        },
    }
}

/// `str::parse::<u8>`.
pub open spec fn parse_u8_spec(s: Seq<char>) -> Option<u8> {
    match parse_usize_spec(s) {
        Some(v) => if v <= 255 { Some(v as u8) } else { None },
        None => None,
    }
}

/// The terminal's mode from its environment: the theme-mode variable when
/// it says `light` or `dark` (any letter case), else the background colour
/// code at the end of `COLORFGBG` (0 to 6 dark, above light), else dark.
pub open spec fn theme_mode_spec(mode_var: Option<Seq<char>>, colorfgbg: Option<Seq<char>>) -> Seq<char> {
    if mode_var matches Some(m) && eq_ignore_ascii_case_spec(m, "light"@) {
        "light"@
    } else if mode_var matches Some(m) && eq_ignore_ascii_case_spec(m, "dark"@) {
        "dark"@
    } else {
        match colorfgbg {
            Some(c) => match parse_u8_spec(split_char(c, ';').last()) {
                Some(code) => if code <= 6 { "dark"@ } else { "light"@ },
                None => "dark"@,
            },
            None => "dark"@,
        }
    }
}

pub proof fn lemma_split_char_nonempty(s: Seq<char>, c: char)
    ensures
        split_char(s, c).len() >= 1,
    decreases s.len(),
{
    let i = crate::text::find_char(s, c);
    if i < s.len() {
        lemma_split_char_nonempty(s.skip(i + 1int), c);
    }
}

/// Decides the terminal's mode from the values of the theme-mode variable
/// and of `COLORFGBG`, when they are set.
pub fn theme_mode_from_env(mode_var: Option<String>, colorfgbg: Option<String>) -> (r: &'static str)
    ensures
        r@ == theme_mode_spec(
            match mode_var { Some(m) => Some(m@), None => None },
            match colorfgbg { Some(c) => Some(c@), None => None },
        ),
{
    match &mode_var {
        Some(m) => {
            let mc = chars_of(m.as_str());
            if eq_ignore_ascii_case(&mc, &chars_of("light")) {
                return "light";
            }
            if eq_ignore_ascii_case(&mc, &chars_of("dark")) {
                return "dark";
            }
        },
        None => {},
    }
    match &colorfgbg {
        Some(c) => {
            let parts = split_on_char(&chars_of(c.as_str()), ';');
            proof { lemma_split_char_nonempty(c@, ';'); }
            let last = &parts[parts.len() - 1];
            assert(lines_view(parts@).last() == last@);
            match parse_usize(last) {
                Some(code) => {
                    if code <= 255 {
                        if code <= 6 { "dark" } else { "light" }
                    } else {
                        "dark"
                    }
                },
                None => "dark",
            }
        },
        None => "dark",
    }
}

// ---------------------------------------------------------------------------
// Titles of the display toggles in the command palette
// ---------------------------------------------------------------------------

/// What the display toggles of the palette read from the preferences.
#[derive(Clone, Copy, Debug)]
pub struct VisibilityLabels {
    pub show_thinking: bool,
    pub show_tool_details: bool,
    pub density: MessageDensity,
    pub semantic_highlight: bool,
    pub show_header: bool,
    pub show_scrollbar: bool,
    pub tips_hidden: bool,
}

/// The palette commands whose title follows a preference.
#[derive(Clone, Copy, Debug, PartialEq, Eq, Structural)]
pub enum PaletteToggle {
    ToggleHeader,
    ToggleScrollbar,
    ToggleTips,
    ToggleThinking,
    ToggleToolDetails,
    ToggleDensity,
    ToggleSemanticHighlight,
}

pub open spec fn visibility_title_spec(action: PaletteToggle, l: VisibilityLabels) -> Seq<char> {
    match action {
        PaletteToggle::ToggleHeader => if l.show_header { "Hide header"@ } else { "Show header"@ },
        PaletteToggle::ToggleScrollbar => if l.show_scrollbar { "Hide scrollbar"@ } else { "Show scrollbar"@ },
        PaletteToggle::ToggleTips => if l.tips_hidden { "Show tips"@ } else { "Hide tips"@ },
        PaletteToggle::ToggleThinking => if l.show_thinking { "Hide thinking"@ } else { "Show thinking"@ },
        PaletteToggle::ToggleToolDetails => if l.show_tool_details {
            "Hide tool details"@
        } else {
            "Show tool details"@
        },
        PaletteToggle::ToggleDensity => match l.density {
            MessageDensity::Compact => "Switch to cozy density"@,
            MessageDensity::Cozy => "Switch to compact density"@,
        },
        PaletteToggle::ToggleSemanticHighlight => if l.semantic_highlight {
            "Disable semantic highlight"@
        } else {
            "Enable semantic highlight"@
        },
    }
}

/// The title a toggle command shows: what pressing it would do now.
pub fn visibility_title(action: PaletteToggle, labels: &VisibilityLabels) -> (r: &'static str)
    ensures
        r@ == visibility_title_spec(action, *labels),
{
    match action {
        PaletteToggle::ToggleHeader => if labels.show_header { "Hide header" } else { "Show header" },
        PaletteToggle::ToggleScrollbar => if labels.show_scrollbar { "Hide scrollbar" } else { "Show scrollbar" },
        PaletteToggle::ToggleTips => if labels.tips_hidden { "Show tips" } else { "Hide tips" },
        PaletteToggle::ToggleThinking => if labels.show_thinking { "Hide thinking" } else { "Show thinking" },
        PaletteToggle::ToggleToolDetails => if labels.show_tool_details {
            "Hide tool details"
        } else {
            "Show tool details"
        },
        PaletteToggle::ToggleDensity => match labels.density {
            MessageDensity::Compact => "Switch to cozy density",
            MessageDensity::Cozy => "Switch to compact density",
        },
        PaletteToggle::ToggleSemanticHighlight => if labels.semantic_highlight {
            "Disable semantic highlight"
        } else {
            "Enable semantic highlight"
        },
    }
}

} // verus!
