//! The provider dialog: choosing a known provider and typing its key, or
//! walking through the four steps that add a custom one.
use vstd::prelude::*;
use crate::jsonish::sanitize::{trim, trim_spec};
use crate::tui::ordering::{is_permutation, key_lt, stable_order, stably_sorted};
use crate::text::{
    chars_of, compare_chars, lemma_seq_lt_transitive, lemma_seq_lt_trichotomy, seq_lt,
    string_from_chars, string_pop, string_push, to_lowercase, unicode_lowercase,
};

verus! {

#[derive(Clone, Debug)]
pub struct Provider {
    pub id: String,
    pub name: String,
    pub env_hint: String,
    pub base_url: Option<String>,
    pub protocol: Option<String>,
    pub model_count: usize,
    pub status: ProviderStatus,
}

#[derive(Clone, Copy, Debug, PartialEq, Eq, Structural)]
pub enum ProviderStatus {
    Connected,
    Disconnected,
    Error,
}

/// Result of an API key submission attempt.
#[derive(Clone, Debug)]
pub enum SubmitResult {
    Success,
    Failed(String),
}

/// The step of the custom-provider flow.
#[derive(Clone, Copy, Debug, PartialEq, Eq, Structural)]
pub enum CustomProviderStep {
    ProviderId,
    BaseUrl,
    Protocol,
    ApiKey,
}

/// What the custom-provider flow has gathered so far.
#[derive(Clone, Debug)]
pub struct CustomProviderState {
    pub provider_id: String,
    pub base_url: String,
    /// Selected protocol id (such as `openai` or `anthropic`).
    pub protocol: String,
    pub api_key: String,
    pub step: CustomProviderStep,
}

/// A key ready to submit: for a known provider, or a custom one.
#[derive(Clone, Debug)]
pub enum PendingSubmit {
    Known { provider_id: String, api_key: String },
    Custom { provider_id: String, base_url: String, protocol: String, api_key: String },
}

#[derive(Clone, Copy, Debug, PartialEq, Eq, Structural)]
pub enum ProviderConnectMode {
    Known,
    Custom,
}

/// A provider as the server describes one that can be connected.
#[derive(Clone, Debug)]
pub struct ProviderConnectDraft {
    pub provider_id: String,
    pub name: Option<String>,
    pub env: Vec<String>,
    pub base_url: Option<String>,
    pub protocol: Option<String>,
    pub model_count: usize,
    pub connected: bool,
}

/// A provider of the server's catalogue.
#[derive(Clone, Debug)]
pub struct KnownProviderEntry {
    pub id: String,
    pub name: String,
    pub env: Vec<String>,
    pub base_url: Option<String>,
    pub protocol: Option<String>,
    pub model_count: usize,
    pub connected: bool,
}

pub open spec fn status_of(connected: bool) -> ProviderStatus {
    if connected { ProviderStatus::Connected } else { ProviderStatus::Disconnected }
}

/// The first environment variable, or an empty hint.
pub open spec fn env_hint_of(env: Seq<String>) -> Seq<char> {
    if env.len() > 0 { env[0]@ } else { Seq::empty() }
}

fn first_or_empty(env: &Vec<String>) -> (r: String)
    ensures
        r@ == env_hint_of(env@),
{
    if env.len() > 0 {
        env[0].clone()
    } else {
        String::new()
    }
}

/// The dialog's entry for a provider the server can connect; its name
/// falls back to its id.
pub fn provider_from_connect_draft(draft: &ProviderConnectDraft) -> (r: Provider)
    ensures
        r.id@ == draft.provider_id@,
        r.name@ == match draft.name {
            Some(n) => n@,
            None => draft.provider_id@,
        },
        r.env_hint@ == env_hint_of(draft.env@),
        r.base_url == draft.base_url,
        r.protocol == draft.protocol,
        r.model_count == draft.model_count,
        r.status == status_of(draft.connected),
{
    Provider {
        id: draft.provider_id.clone(),
        name: match &draft.name {
            Some(n) => n.clone(),
            None => draft.provider_id.clone(),
        },
        env_hint: first_or_empty(&draft.env),
        base_url: draft.base_url.clone(),
        protocol: draft.protocol.clone(),
        model_count: draft.model_count,
        status: if draft.connected { ProviderStatus::Connected } else { ProviderStatus::Disconnected },
    }
}

/// The dialog's entry for a catalogue provider.
pub fn provider_from_draft_match(entry: KnownProviderEntry) -> (r: Provider)
    ensures
        r.id == entry.id,
        r.name == entry.name,
        r.env_hint@ == env_hint_of(entry.env@),
        r.base_url == entry.base_url,
        r.protocol == entry.protocol,
        r.model_count == entry.model_count,
        r.status == status_of(entry.connected),
{
    let env_hint = first_or_empty(&entry.env);
    Provider {
        env_hint,
        base_url: entry.base_url,
        protocol: entry.protocol,
        model_count: entry.model_count,
        status: if entry.connected { ProviderStatus::Connected } else { ProviderStatus::Disconnected },
        id: entry.id,
        name: entry.name,
    }
}

/// The step before, or `None` to leave the flow from its first step.
pub open spec fn step_back(s: CustomProviderStep) -> Option<CustomProviderStep> {
    match s {
        CustomProviderStep::ProviderId => None,
        CustomProviderStep::BaseUrl => Some(CustomProviderStep::ProviderId),
        CustomProviderStep::Protocol => Some(CustomProviderStep::BaseUrl),
        CustomProviderStep::ApiKey => Some(CustomProviderStep::Protocol),
    }
}

/// The step after; the key is the last.
pub open spec fn step_forward(s: CustomProviderStep) -> CustomProviderStep {
    match s {
        CustomProviderStep::ProviderId => CustomProviderStep::BaseUrl,
        CustomProviderStep::BaseUrl => CustomProviderStep::Protocol,
        CustomProviderStep::Protocol => CustomProviderStep::ApiKey,
        CustomProviderStep::ApiKey => CustomProviderStep::ApiKey,
    }
}

/// Stepping forward and back returns to the step one left, except from the
/// last step, which forward keeps.
pub proof fn lemma_step_forward_back(s: CustomProviderStep)
    requires
        s != CustomProviderStep::ApiKey,
    ensures
        step_back(step_forward(s)) == Some(s),
{
}

/// The protocol chosen at `index`, or `openai` past the list's end.
pub open spec fn protocol_at(options: Seq<String>, index: usize) -> Seq<char> {
    if index < options.len() { options[index as int]@ } else { "openai"@ }
}

/// The provider dialog's state.
#[derive(Clone, Debug)]
pub struct ProviderDialog {
    pub providers: Vec<Provider>,
    pub resolved_matches: Vec<Provider>,
    /// Ids of the protocols a custom provider may speak.
    pub protocol_options: Vec<String>,
    /// The highlighted row of the visible list.
    pub selected: Option<usize>,
    pub open: bool,
    pub selected_provider: Option<Provider>,
    pub api_key_input: String,
    pub input_mode: bool,
    /// Brief feedback after submitting a key.
    pub submit_result: Option<SubmitResult>,
    /// The custom-provider flow, while it runs.
    pub custom_state: Option<CustomProviderState>,
    /// Index into the protocol list during the protocol step.
    pub protocol_index: usize,
    pub connect_mode: ProviderConnectMode,
    pub search_query: String,
    pub resolve_error: Option<String>,
}

impl ProviderDialog {
    /// The list shown: the providers, or the search's matches while a
    /// search is typed.
    pub open spec fn visible_spec(&self) -> Seq<Provider> {
        if trim_spec(self.search_query@).len() == 0 { self.providers@ } else { self.resolved_matches@ }
    }

    pub fn new() -> (r: Self)
        ensures
            r.providers@.len() == 0 && r.resolved_matches@.len() == 0 && r.protocol_options@.len() == 0,
            r.selected is None && !r.open && r.selected_provider is None,
            r.api_key_input@.len() == 0 && !r.input_mode && r.submit_result is None,
            r.custom_state is None && r.protocol_index == 0,
            r.connect_mode == ProviderConnectMode::Known,
            r.search_query@.len() == 0 && r.resolve_error is None,
    {
        ProviderDialog {
            providers: Vec::new(),
            resolved_matches: Vec::new(),
            protocol_options: Vec::new(),
            selected: None,
            open: false,
            selected_provider: None,
            api_key_input: String::new(),
            input_mode: false,
            submit_result: None,
            custom_state: None,
            protocol_index: 0,
            connect_mode: ProviderConnectMode::Known,
            search_query: String::new(),
            resolve_error: None,
        }
    }

    pub(crate) fn search_is_blank(&self) -> (r: bool)
        ensures
            r == (trim_spec(self.search_query@).len() == 0),
    {
        trim(&chars_of(self.search_query.as_str())).len() == 0
    }

    fn visible_len(&self) -> (r: usize)
        ensures
            r == self.visible_spec().len(),
    {
        if self.search_is_blank() {
            self.providers.len()
        } else {
            self.resolved_matches.len()
        }
    }

    /// Drops the search results; the first provider is highlighted.
    pub fn clear_resolution(&mut self)
        ensures
            *final(self) == (ProviderDialog {
                resolved_matches: final(self).resolved_matches,
                resolve_error: None,
                selected: if old(self).providers@.len() == 0 { None } else { Some(0usize) },
                ..*old(self)
            }),
            final(self).resolved_matches@.len() == 0,
    {
        self.resolved_matches = Vec::new();
        self.resolve_error = None;
        if self.providers.len() == 0 {
            self.selected = None;
        } else {
            self.selected = Some(0);
        }
    }

    fn reset_flow(&mut self)
        ensures
            !final(self).input_mode && final(self).api_key_input@.len() == 0,
            final(self).selected_provider is None && final(self).custom_state is None,
            final(self).protocol_index == 0 && final(self).submit_result is None,
            final(self).connect_mode == ProviderConnectMode::Known,
            final(self).search_query@.len() == 0,
            final(self).resolved_matches@.len() == 0 && final(self).resolve_error is None,
            final(self).selected == if old(self).providers@.len() == 0 { None } else { Some(0usize) },
            final(self).providers == old(self).providers,
            final(self).protocol_options == old(self).protocol_options,
            final(self).open == old(self).open,
    {
        self.input_mode = false;
        self.api_key_input = String::new();
        self.selected_provider = None;
        self.custom_state = None;
        self.protocol_index = 0;
        self.submit_result = None;
        self.connect_mode = ProviderConnectMode::Known;
        self.search_query = String::new();
        self.clear_resolution();
    }

    /// Opens on the known providers, nothing typed, the first highlighted.
    pub fn open(&mut self)
        ensures
            final(self).open,
            !final(self).input_mode && final(self).api_key_input@.len() == 0,
            final(self).selected_provider is None && final(self).custom_state is None,
            final(self).protocol_index == 0 && final(self).submit_result is None,
            final(self).connect_mode == ProviderConnectMode::Known,
            final(self).search_query@.len() == 0,
            final(self).resolved_matches@.len() == 0 && final(self).resolve_error is None,
            final(self).selected == if old(self).providers@.len() == 0 { None } else { Some(0usize) },
            final(self).providers == old(self).providers,
    {
        self.open = true;
        self.reset_flow();
    }

    pub fn close(&mut self)
        ensures
            !final(self).open,
            !final(self).input_mode && final(self).api_key_input@.len() == 0,
            final(self).selected_provider is None && final(self).custom_state is None,
            final(self).protocol_index == 0 && final(self).submit_result is None,
            final(self).connect_mode == ProviderConnectMode::Known,
            final(self).search_query@.len() == 0,
            final(self).resolved_matches@.len() == 0 && final(self).resolve_error is None,
            final(self).providers == old(self).providers,
    {
        self.open = false;
        self.reset_flow();
    }

    pub fn is_open(&self) -> (r: bool)
        ensures
            r == self.open,
    {
        self.open
    }

    pub fn is_input_mode(&self) -> (r: bool)
        ensures
            r == self.input_mode,
    {
        self.input_mode
    }

    /// Check if currently at the final step (API key entry).
    pub fn is_final_step(&self) -> (r: bool)
        ensures
            r == (self.custom_state matches Some(s) && s.step == CustomProviderStep::ApiKey),
    {
        match &self.custom_state {
            Some(s) => s.step == CustomProviderStep::ApiKey,
            None => false,
        }
    }

    /// Check if currently at protocol selection step.
    pub fn is_protocol_step(&self) -> (r: bool)
        ensures
            r == (self.custom_state matches Some(s) && s.step == CustomProviderStep::Protocol),
    {
        match &self.custom_state {
            Some(s) => s.step == CustomProviderStep::Protocol,
            None => false,
        }
    }

    /// Typed text goes somewhere: the key field, or a text step of the
    /// custom flow.
    pub fn accepts_text_input(&self) -> (r: bool)
        ensures
            r == (self.input_mode || (self.custom_state matches Some(s) && s.step
                != CustomProviderStep::Protocol)),
    {
        self.input_mode || (self.custom_state.is_some() && !self.is_protocol_step())
    }
}

/// The text field that typing edits, by step (`None` at the protocol step).
pub open spec fn field_of_step(st: CustomProviderState) -> Option<Seq<char>> {
    match st.step {
        CustomProviderStep::ProviderId => Some(st.provider_id@),
        CustomProviderStep::BaseUrl => Some(st.base_url@),
        CustomProviderStep::Protocol => None,
        CustomProviderStep::ApiKey => Some(st.api_key@),
    }
}

/// The other fields of the flow are the same.
pub open spec fn same_but_step_field(a: CustomProviderState, b: CustomProviderState) -> bool {
    &&& a.step == b.step
    &&& a.protocol == b.protocol
    &&& (a.step != CustomProviderStep::ProviderId ==> a.provider_id == b.provider_id)
    &&& (a.step != CustomProviderStep::BaseUrl ==> a.base_url == b.base_url)
    &&& (a.step != CustomProviderStep::ApiKey ==> a.api_key == b.api_key)
}

pub open spec fn drop_last_char(s: Seq<char>) -> Seq<char> {
    if s.len() > 0 { s.drop_last() } else { s }
}

impl ProviderDialog {
    /// Keeps the highlight on the visible list: none when it is empty,
    /// else the current row (or the first), at most the last.
    fn sync_selection_to_visible(&mut self)
        ensures
            *final(self) == (ProviderDialog {
                selected: if old(self).visible_spec().len() == 0 {
                    None
                } else {
                    Some(min_index(old(self).selected, old(self).visible_spec().len()))
                },
                ..*old(self)
            }),
    {
        let n = self.visible_len();
        if n == 0 {
            self.selected = None;
            return;
        }
        let cur = match self.selected {
            Some(i) => i,
            None => 0,
        };
        self.selected = Some(if cur < n - 1 { cur } else { n - 1 });
    }

    pub fn set_providers(&mut self, providers: Vec<Provider>)
        ensures
            final(self).providers == providers,
            *final(self) == (ProviderDialog {
                providers,
                selected: {
                    let n = final(self).visible_spec().len();
                    if n == 0 {
                        None
                    } else {
                        match old(self).selected {
                            None => Some(0usize),
                            Some(i) => Some(if i < n - 1 { i } else { (n - 1) as usize }),
                        }
                    }
                },
                ..*old(self)
            }),
    {
        self.providers = providers;
        let n = self.visible_len();
        if n == 0 {
            self.selected = None;
        } else {
            match self.selected {
                None => {
                    self.selected = Some(0);
                },
                Some(i) => {
                    self.selected = Some(if i < n - 1 { i } else { n - 1 });
                },
            }
        }
    }

    pub fn move_up(&mut self)
        ensures
            *final(self) == (ProviderDialog {
                selected: if old(self).connect_mode == ProviderConnectMode::Known {
                    match old(self).selected {
                        Some(i) => Some(if i > 0 { (i - 1) as usize } else { 0usize }),
                        None => None,
                    }
                } else {
                    old(self).selected
                },
                ..*old(self)
            }),
    {
        if self.connect_mode != ProviderConnectMode::Known {
            return;
        }
        if let Some(i) = self.selected {
            self.selected = Some(i.saturating_sub(1));
        }
    }

    pub fn move_down(&mut self)
        ensures
            *final(self) == (ProviderDialog {
                selected: if old(self).connect_mode == ProviderConnectMode::Known {
                    match old(self).selected {
                        Some(i) => Some({
                            let max = if old(self).visible_spec().len() > 0 {
                                old(self).visible_spec().len() - 1
                            } else {
                                0
                            };
                            if i + 1 <= max { (i + 1) as usize } else { max as usize }
                        }),
                        None => None,
                    }
                } else {
                    old(self).selected
                },
                ..*old(self)
            }),
    {
        if self.connect_mode != ProviderConnectMode::Known {
            return;
        }
        if let Some(i) = self.selected {
            let n = self.visible_len();
            let max = if n > 0 { n - 1 } else { 0 };
            self.selected = Some(if i >= max { max } else { i + 1 });
        }
    }

    /// The highlighted provider of the visible list.
    pub fn selected_provider(&self) -> (r: Option<Provider>)
        ensures
            match self.selected {
                Some(i) => if i < self.visible_spec().len() {
                    r == Some(self.visible_spec()[i as int])
                } else {
                    r is None
                },
                None => r is None,
            },
    {
        match self.selected {
            Some(i) => {
                if self.search_is_blank() {
                    if i < self.providers.len() {
                        Some(copy_provider(&self.providers[i]))
                    } else {
                        None
                    }
                } else {
                    if i < self.resolved_matches.len() {
                        Some(copy_provider(&self.resolved_matches[i]))
                    } else {
                        None
                    }
                }
            },
            None => None,
        }
    }

    /// Starts typing the key of `provider`.
    pub fn enter_input_mode_for_provider(&mut self, provider: Provider)
        ensures
            *final(self) == (ProviderDialog {
                selected_provider: Some(provider),
                api_key_input: final(self).api_key_input,
                submit_result: None,
                input_mode: true,
                ..*old(self)
            }),
            final(self).api_key_input@.len() == 0,
    {
        self.selected_provider = Some(provider);
        self.api_key_input = String::new();
        self.submit_result = None;
        self.input_mode = true;
    }

    /// Enter: in custom mode the custom flow starts, else the highlighted
    /// provider's key is asked for.
    pub fn enter_input_mode(&mut self)
        ensures
            old(self).connect_mode == ProviderConnectMode::Custom ==> (final(self).custom_state matches Some(
                st,
            ) && st.step == CustomProviderStep::ProviderId && st.provider_id@.len() == 0),
            old(self).connect_mode == ProviderConnectMode::Known ==> match old(self).selected {
                Some(i) => if i < old(self).visible_spec().len() {
                    final(self).input_mode && (final(self).selected_provider matches Some(p) && p.id@
                        == old(self).visible_spec()[i as int].id@)
                } else {
                    *final(self) == *old(self)
                },
                None => *final(self) == *old(self),
            },
    {
        if self.connect_mode == ProviderConnectMode::Custom {
            self.start_custom_flow_with_prefill(String::new(), String::new(), String::new());
            return;
        }
        match self.selected_provider() {
            Some(p) => self.enter_input_mode_for_provider(p),
            None => {},
        }
    }

    /// Back from the key field to the list.
    pub fn exit_input_mode(&mut self)
        ensures
            *final(self) == (ProviderDialog {
                input_mode: false,
                api_key_input: final(self).api_key_input,
                submit_result: None,
                ..*old(self)
            }),
            final(self).api_key_input@.len() == 0,
    {
        self.input_mode = false;
        self.api_key_input = String::new();
        self.submit_result = None;
    }

    /// Leaves the custom flow for the list.
    pub fn exit_custom_flow(&mut self)
        ensures
            *final(self) == (ProviderDialog {
                custom_state: None,
                protocol_index: 0,
                submit_result: None,
                ..*old(self)
            }),
    {
        self.custom_state = None;
        self.protocol_index = 0;
        self.submit_result = None;
    }

    pub fn set_mode(&mut self, mode: ProviderConnectMode)
        ensures
            old(self).connect_mode == mode ==> *final(self) == *old(self),
            old(self).connect_mode != mode ==> final(self).connect_mode == mode
                && final(self).submit_result is None,
            old(self).connect_mode != mode && mode == ProviderConnectMode::Known ==> final(self).selected
                == if old(self).visible_spec().len() == 0 {
                None
            } else {
                Some(min_index(old(self).selected, old(self).visible_spec().len()))
            },
            old(self).connect_mode != mode && mode == ProviderConnectMode::Custom ==> final(self).selected
                == old(self).selected,
            final(self).custom_state == old(self).custom_state,
            final(self).providers == old(self).providers,
    {
        if self.connect_mode == mode {
            return;
        }
        self.connect_mode = mode;
        self.submit_result = None;
        if mode == ProviderConnectMode::Known {
            self.sync_selection_to_visible();
        }
    }

    pub fn toggle_mode_next(&mut self)
        ensures
            final(self).connect_mode == match old(self).connect_mode {
                ProviderConnectMode::Known => ProviderConnectMode::Custom,
                ProviderConnectMode::Custom => ProviderConnectMode::Known,
            },
            final(self).submit_result is None,
    {
        match self.connect_mode {
            ProviderConnectMode::Known => self.set_mode(ProviderConnectMode::Custom),
            ProviderConnectMode::Custom => self.set_mode(ProviderConnectMode::Known),
        }
    }

    pub fn toggle_mode_prev(&mut self)
        ensures
            final(self).connect_mode == match old(self).connect_mode {
                ProviderConnectMode::Known => ProviderConnectMode::Custom,
                ProviderConnectMode::Custom => ProviderConnectMode::Known,
            },
            final(self).submit_result is None,
    {
        self.toggle_mode_next();
    }

    /// Starts the custom flow with fields filled in; the protocol list
    /// highlights the given protocol, or its first entry.
    pub fn start_custom_flow_with_prefill(&mut self, provider_id: String, base_url: String, protocol: String)
        ensures
            final(self).custom_state matches Some(st) && st.provider_id == provider_id && st.base_url
                == base_url && st.protocol == protocol && st.api_key@.len() == 0 && st.step
                == CustomProviderStep::ProviderId,
            final(self).protocol_index >= final(self).protocol_options@.len() ==> final(self).protocol_index == 0,
            (exists|k: int| 0 <= k < old(self).protocol_options@.len() && old(self).protocol_options@[k]@ == protocol@)
                ==> final(self).protocol_options@[final(self).protocol_index as int]@ == protocol@,
            (forall|k: int| 0 <= k < old(self).protocol_options@.len() ==> old(self).protocol_options@[k]@ != protocol@)
                ==> final(self).protocol_index == 0,
            final(self).submit_result is None,
            final(self).protocol_options == old(self).protocol_options,
            final(self).providers == old(self).providers,
            final(self).connect_mode == old(self).connect_mode,
    {
        let protocol_index = match find_protocol(&self.protocol_options, &chars_of(protocol.as_str())) {
            Some(i) => i,
            None => 0,
        };
        self.custom_state = Some(CustomProviderState {
            provider_id,
            base_url,
            protocol,
            api_key: String::new(),
            step: CustomProviderStep::ProviderId,
        });
        self.protocol_index = protocol_index;
        self.submit_result = None;
    }

    /// One step back in the custom flow; from the first step the flow ends.
    pub fn back_custom_flow(&mut self)
        ensures
            match old(self).custom_state {
                None => *final(self) == *old(self),
                Some(st) => match step_back(st.step) {
                    None => *final(self) == (ProviderDialog {
                        custom_state: None,
                        protocol_index: 0,
                        submit_result: None,
                        ..*old(self)
                    }),
                    Some(prev) => *final(self) == (ProviderDialog {
                        custom_state: Some(CustomProviderState { step: prev, ..st }),
                        ..*old(self)
                    }),
                },
            },
    {
        match &mut self.custom_state {
            Some(st) => match st.step {
                CustomProviderStep::ProviderId => {
                    self.exit_custom_flow();
                },
                CustomProviderStep::BaseUrl => {
                    st.step = CustomProviderStep::ProviderId;
                },
                CustomProviderStep::Protocol => {
                    st.step = CustomProviderStep::BaseUrl;
                },
                CustomProviderStep::ApiKey => {
                    st.step = CustomProviderStep::Protocol;
                },
            },
            None => {},
        }
    }

    /// One step forward in the custom flow; leaving the protocol step
    /// records the highlighted protocol. True when the flow is then at its
    /// last step, the API key.
    pub fn advance_custom_flow(&mut self) -> (r: bool)
        ensures
            match old(self).custom_state {
                None => !r && *final(self) == *old(self),
                Some(st) => {
                    &&& final(self).custom_state matches Some(nst)
                    &&& r == (nst.step == CustomProviderStep::ApiKey)
                    &&& nst.step == step_forward(st.step)
                    &&& nst.provider_id == st.provider_id
                    &&& nst.base_url == st.base_url
                    &&& nst.api_key == st.api_key
                    &&& (st.step == CustomProviderStep::Protocol ==> nst.protocol@ == protocol_at(
                        old(self).protocol_options@,
                        old(self).protocol_index,
                    ))
                    &&& (st.step != CustomProviderStep::Protocol ==> nst.protocol == st.protocol)
                    &&& *final(self) == (ProviderDialog { custom_state: final(self).custom_state, ..*old(self) })
                },
            },
    {
        let chosen = if self.protocol_index < self.protocol_options.len() {
            self.protocol_options[self.protocol_index].clone()
        } else {
            string_from_chars(&chars_of("openai"))
        };
        match &mut self.custom_state {
            Some(st) => match st.step {
                CustomProviderStep::ProviderId => {
                    st.step = CustomProviderStep::BaseUrl;
                    false
                },
                CustomProviderStep::BaseUrl => {
                    st.step = CustomProviderStep::Protocol;
                    false
                },
                CustomProviderStep::Protocol => {
                    st.protocol = chosen;
                    st.step = CustomProviderStep::ApiKey;
                    true
                },
                CustomProviderStep::ApiKey => true,
            },
            None => false,
        }
    }

    pub fn protocol_index_dec(&mut self)
        ensures
            *final(self) == (ProviderDialog {
                protocol_index: if old(self).protocol_index > 0 { (old(self).protocol_index - 1) as usize } else { 0usize },
                ..*old(self)
            }),
    {
        self.protocol_index = self.protocol_index.saturating_sub(1);
    }

    pub fn protocol_index_inc(&mut self)
        ensures
            *final(self) == (ProviderDialog {
                protocol_index: {
                    let max = if old(self).protocol_options@.len() > 0 { old(self).protocol_options@.len() - 1 } else { 0 };
                    if old(self).protocol_index + 1 <= max { (old(self).protocol_index + 1) as usize } else { max as usize }
                },
                ..*old(self)
            }),
    {
        let n = self.protocol_options.len();
        let max = if n > 0 { n - 1 } else { 0 };
        self.protocol_index = if self.protocol_index >= max { max } else { self.protocol_index + 1 };
    }

    /// A typed char: into the custom flow's current field, else the key.
    pub fn push_char(&mut self, c: char)
        ensures
            final(self).submit_result is None,
            match old(self).custom_state {
                None => final(self).api_key_input@ == old(self).api_key_input@.push(c)
                    && final(self).custom_state is None,
                Some(st) => final(self).api_key_input == old(self).api_key_input && (final(self).custom_state matches Some(
                    nst,
                ) && same_but_step_field(st, nst) && match field_of_step(st) {
                    Some(f) => field_of_step(nst) == Some(f.push(c)),
                    None => field_of_step(nst) is None,
                }),
            },
            final(self).providers == old(self).providers,
            final(self).input_mode == old(self).input_mode,
    {
        match &mut self.custom_state {
            Some(st) => match st.step {
                CustomProviderStep::ProviderId => string_push(&mut st.provider_id, c),
                CustomProviderStep::BaseUrl => string_push(&mut st.base_url, c),
                CustomProviderStep::Protocol => {},
                CustomProviderStep::ApiKey => string_push(&mut st.api_key, c),
            },
            None => string_push(&mut self.api_key_input, c),
        }
        self.submit_result = None;
    }

    /// Backspace: the last char of the field being typed goes.
    pub fn pop_char(&mut self)
        ensures
            final(self).submit_result is None,
            match old(self).custom_state {
                None => final(self).api_key_input@ == drop_last_char(old(self).api_key_input@)
                    && final(self).custom_state is None,
                Some(st) => final(self).api_key_input == old(self).api_key_input && (final(self).custom_state matches Some(
                    nst,
                ) && same_but_step_field(st, nst) && match field_of_step(st) {
                    Some(f) => field_of_step(nst) == Some(drop_last_char(f)),
                    None => field_of_step(nst) is None,
                }),
            },
            final(self).providers == old(self).providers,
            final(self).input_mode == old(self).input_mode,
    {
        match &mut self.custom_state {
            Some(st) => match st.step {
                CustomProviderStep::ProviderId => {
                    string_pop(&mut st.provider_id);
                },
                CustomProviderStep::BaseUrl => {
                    string_pop(&mut st.base_url);
                },
                CustomProviderStep::Protocol => {},
                CustomProviderStep::ApiKey => {
                    string_pop(&mut st.api_key);
                },
            },
            None => {
                string_pop(&mut self.api_key_input);
            },
        }
        self.submit_result = None;
    }

    /// Pasted text replaces the field being typed.
    pub fn set_input(&mut self, text: String)
        ensures
            final(self).submit_result is None,
            match old(self).custom_state {
                None => final(self).api_key_input == text && final(self).custom_state is None,
                Some(st) => final(self).api_key_input == old(self).api_key_input && (final(self).custom_state matches Some(
                    nst,
                ) && same_but_step_field(st, nst) && match field_of_step(st) {
                    Some(_) => field_of_step(nst) == Some(text@),
                    None => field_of_step(nst) is None,
                }),
            },
    {
        match &mut self.custom_state {
            Some(st) => match st.step {
                CustomProviderStep::ProviderId => st.provider_id = text,
                CustomProviderStep::BaseUrl => st.base_url = text,
                CustomProviderStep::Protocol => {},
                CustomProviderStep::ApiKey => st.api_key = text,
            },
            None => self.api_key_input = text,
        }
        self.submit_result = None;
    }

    pub fn set_submit_result(&mut self, result: SubmitResult)
        ensures
            *final(self) == (ProviderDialog { submit_result: Some(result), ..*old(self) }),
    {
        self.submit_result = Some(result);
    }
}

fn find_protocol(options: &Vec<String>, p: &[char]) -> (r: Option<usize>)
    ensures
        match r {
            Some(i) => i < options@.len() && options@[i as int]@ == p@,
            None => forall|k: int| 0 <= k < options@.len() ==> options@[k]@ != p@,
        },
{
    let mut index: usize = 0;
    while index < options.len()
        invariant
            0 <= index <= options@.len(),
            forall|k: int| 0 <= k < index ==> options@[k]@ != p@,
        decreases options.len() - index,
    {
        if crate::text::chars_eq(&chars_of(options[index].as_str()), p) {
            return Some(index);
        }
        index = index + 1;
    }
    None
}

/// A field-by-field copy of a provider.
pub fn copy_provider(p: &Provider) -> (r: Provider)
    ensures
        r == *p,
{
    Provider {
        id: p.id.clone(),
        name: p.name.clone(),
        env_hint: p.env_hint.clone(),
        base_url: match &p.base_url {
            Some(u) => Some(u.clone()),
            None => None,
        },
        protocol: match &p.protocol {
            Some(u) => Some(u.clone()),
            None => None,
        },
        model_count: p.model_count,
        status: p.status,
    }
}

/// The current row kept within a list of `n > 0` rows.
pub open spec fn min_index(sel: Option<usize>, n: nat) -> usize {
    let cur = match sel {
        Some(i) => i,
        None => 0usize,
    };
    if cur < n - 1 { cur } else { (n - 1) as usize }
}

/// A key ready to submit, in mathematical terms.
pub enum PendingModel {
    Known { provider_id: Seq<char>, api_key: Seq<char> },
    Custom { provider_id: Seq<char>, base_url: Seq<char>, protocol: Seq<char>, api_key: Seq<char> },
}

pub open spec fn pending_view(p: PendingSubmit) -> PendingModel {
    match p {
        PendingSubmit::Known { provider_id, api_key } => PendingModel::Known {
            provider_id: provider_id@,
            api_key: api_key@,
        },
        PendingSubmit::Custom { provider_id, base_url, protocol, api_key } => PendingModel::Custom {
            provider_id: provider_id@,
            base_url: base_url@,
            protocol: protocol@,
            api_key: api_key@,
        },
    }
}

impl ProviderDialog {
    /// What Enter would submit: in the custom flow, at the key step with a
    /// key typed, the custom provider (its protocol, or the highlighted one
    /// when none was recorded); else, in key mode with a key typed, the
    /// chosen provider. Keys are trimmed.
    pub open spec fn pending_submit_spec(&self) -> Option<PendingModel> {
        match self.custom_state {
            Some(st) => if st.step == CustomProviderStep::ApiKey && trim_spec(st.api_key@).len() > 0 {
                Some(PendingModel::Custom {
                    provider_id: st.provider_id@,
                    base_url: st.base_url@,
                    protocol: if st.protocol@.len() == 0 {
                        protocol_at(self.protocol_options@, self.protocol_index)
                    } else {
                        st.protocol@
                    },
                    api_key: trim_spec(st.api_key@),
                })
            } else {
                None
            },
            None => if !self.input_mode || trim_spec(self.api_key_input@).len() == 0 {
                None
            } else {
                match self.selected_provider {
                    Some(p) => Some(PendingModel::Known { provider_id: p.id@, api_key: trim_spec(self.api_key_input@) }),
                    None => None,
                }
            },
        }
    }

    pub fn pending_submit(&self) -> (r: Option<PendingSubmit>)
        ensures
            match r {
                Some(p) => self.pending_submit_spec() == Some(pending_view(p)),
                None => self.pending_submit_spec() is None,
            },
    {
        match &self.custom_state {
            Some(st) => {
                let key = trim(&chars_of(st.api_key.as_str()));
                if st.step == CustomProviderStep::ApiKey && key.len() > 0 {
                    let protocol = if chars_of(st.protocol.as_str()).len() == 0 {
                        if self.protocol_index < self.protocol_options.len() {
                            self.protocol_options[self.protocol_index].clone()
                        } else {
                            string_from_chars(&chars_of("openai"))
                        }
                    } else {
                        st.protocol.clone()
                    };
                    return Some(PendingSubmit::Custom {
                        provider_id: st.provider_id.clone(),
                        base_url: st.base_url.clone(),
                        protocol,
                        api_key: string_from_chars(&key),
                    });
                }
                None
            },
            None => {
                let key = trim(&chars_of(self.api_key_input.as_str()));
                if !self.input_mode || key.len() == 0 {
                    return None;
                }
                match &self.selected_provider {
                    Some(p) => Some(PendingSubmit::Known { provider_id: p.id.clone(), api_key: string_from_chars(&key) }),
                    None => None,
                }
            },
        }
    }

    /// A char typed into the search: the first match is highlighted.
    pub fn push_search_char(&mut self, c: char)
        ensures
            final(self).search_query@ == old(self).search_query@.push(c),
            *final(self) == (ProviderDialog {
                search_query: final(self).search_query,
                selected: Some(0usize),
                submit_result: None,
                resolve_error: None,
                ..*old(self)
            }),
    {
        string_push(&mut self.search_query, c);
        self.selected = Some(0);
        self.submit_result = None;
        self.resolve_error = None;
    }

    /// Backspace in the search; a blank search drops the matches.
    pub fn pop_search_char(&mut self)
        ensures
            final(self).search_query@ == drop_last_char(old(self).search_query@),
            final(self).submit_result is None && final(self).resolve_error is None,
            trim_spec(final(self).search_query@).len() == 0 ==> final(self).resolved_matches@.len() == 0
                && final(self).selected == if old(self).providers@.len() == 0 { None } else { Some(0usize) },
            trim_spec(final(self).search_query@).len() > 0 ==> final(self).resolved_matches
                == old(self).resolved_matches && final(self).selected == Some(0usize),
            final(self).providers == old(self).providers,
    {
        string_pop(&mut self.search_query);
        if self.search_is_blank() {
            self.clear_resolution();
        } else {
            self.selected = Some(0);
        }
        self.submit_result = None;
        self.resolve_error = None;
    }

    pub fn clear_search(&mut self)
        ensures
            final(self).search_query@.len() == 0,
            final(self).resolved_matches@.len() == 0 && final(self).resolve_error is None,
            final(self).submit_result is None,
            final(self).selected == if old(self).providers@.len() == 0 { None } else { Some(0usize) },
            final(self).providers == old(self).providers,
    {
        self.search_query = String::new();
        self.clear_resolution();
        self.submit_result = None;
    }

    /// The server's matches for the search become the list.
    pub fn apply_resolve_response(&mut self, matches: Vec<KnownProviderEntry>)
        ensures
            final(self).resolved_matches@.len() == matches@.len(),
            forall|i: int| 0 <= i < matches@.len() ==> {
                let p = #[trigger] final(self).resolved_matches@[i];
                &&& p.id == matches@[i].id
                &&& p.name == matches@[i].name
                &&& p.status == status_of(matches@[i].connected)
                &&& p.model_count == matches@[i].model_count
            },
            final(self).resolve_error is None,
            final(self).selected == if final(self).visible_spec().len() == 0 { None } else { Some(0usize) },
            final(self).providers == old(self).providers,
            final(self).search_query == old(self).search_query,
    {
        let mut out: Vec<Provider> = Vec::new();
        let mut i: usize = 0;
        while i < matches.len()
            invariant
                0 <= i <= matches@.len(),
                out@.len() == i,
                forall|j: int| 0 <= j < i ==> {
                    let p = #[trigger] out@[j];
                    &&& p.id == matches@[j].id
                    &&& p.name == matches@[j].name
                    &&& p.status == status_of(matches@[j].connected)
                    &&& p.model_count == matches@[j].model_count
                },
            decreases matches.len() - i,
        {
            let e = &matches[i];
            let entry = KnownProviderEntry {
                id: e.id.clone(),
                name: e.name.clone(),
                env: clone_strings(&e.env),
                base_url: match &e.base_url {
                    Some(u) => Some(u.clone()),
                    None => None,
                },
                protocol: match &e.protocol {
                    Some(u) => Some(u.clone()),
                    None => None,
                },
                model_count: e.model_count,
                connected: e.connected,
            };
            out.push(provider_from_draft_match(entry));
            i = i + 1;
        }
        self.resolved_matches = out;
        self.resolve_error = None;
        if self.visible_len() == 0 {
            self.selected = None;
        } else {
            self.selected = Some(0);
        }
    }

    /// A failed search: no matches, the error shown, nothing highlighted.
    pub fn set_resolve_error(&mut self, error: String)
        ensures
            *final(self) == (ProviderDialog {
                resolved_matches: final(self).resolved_matches,
                resolve_error: Some(error),
                selected: None,
                ..*old(self)
            }),
            final(self).resolved_matches@.len() == 0,
    {
        self.resolved_matches = Vec::new();
        self.resolve_error = Some(error);
        self.selected = None;
    }
}

fn clone_strings(v: &Vec<String>) -> (r: Vec<String>)
    ensures
        r@ == v@,
{
    let mut out: Vec<String> = Vec::new();
    let mut i: usize = 0;
    while i < v.len()
        invariant
            0 <= i <= v@.len(),
            out@ == v@.take(i as int),
        decreases v.len() - i,
    {
        out.push(v[i].clone());
        i = i + 1;
        assert(out@ =~= v@.take(i as int));
    }
    assert(v@.take(i as int) =~= v@);
    out
}

/// Once the custom flow has reached the key step with a key typed, a
/// submission is pending, whatever else the dialog holds.
pub proof fn lemma_custom_key_submits(d: ProviderDialog)
    requires
        d.custom_state matches Some(st) && st.step == CustomProviderStep::ApiKey && trim_spec(st.api_key@).len() > 0,
    ensures
        d.pending_submit_spec() matches Some(PendingModel::Custom { .. }),
{
}

// ---------------------------------------------------------------------------
// The catalogue's order
// ---------------------------------------------------------------------------

/// The sort key of a provider: connected ones first, then by lowercase
/// name.
pub open spec fn provider_key(p: Provider) -> (bool, Seq<char>) {
    (p.status == ProviderStatus::Connected, unicode_lowercase(p.name@))
}

/// `providers` are the entries converted, in the order `perm`: connected
/// first, then by lowercase name, equal keys in the catalogue's order.
pub open spec fn catalogue_order(entries: Seq<KnownProviderEntry>, providers: Seq<Provider>, perm: Seq<usize>) -> bool {
    &&& is_permutation(perm, entries.len())
    &&& providers.len() == perm.len()
    &&& forall|k: int| 0 <= k < perm.len() ==> {
        let e = entries[#[trigger] perm[k] as int];
        let p = providers[k];
        &&& p.id == e.id
        &&& p.name == e.name
        &&& p.env_hint@ == env_hint_of(e.env@)
        &&& p.base_url == e.base_url
        &&& p.protocol == e.protocol
        &&& p.model_count == e.model_count
        &&& p.status == status_of(e.connected)
    }
    &&& forall|p: int, q: int| 0 <= p < q < perm.len() ==> !key_lt(provider_key(providers[q]), provider_key(providers[p]))
    &&& forall|p: int, q: int| 0 <= p < q < perm.len() && provider_key(providers[p]) == provider_key(providers[q])
        ==> perm[p] < perm[q]
}

impl ProviderDialog {
    /// Fills the list from the server's catalogue: connected providers
    /// first, then by lowercase name, in a stable order.
    pub fn populate_from_known(&mut self, entries: Vec<KnownProviderEntry>)
        ensures
            exists|perm: Seq<usize>| #[trigger] catalogue_order(entries@, final(self).providers@, perm),
            *final(self) == (ProviderDialog { providers: final(self).providers, ..*old(self) }),
    {
        let mut converted: Vec<Provider> = Vec::new();
        let mut keys: Vec<(bool, Vec<char>)> = Vec::new();
        let ghost ents = entries@;
        let mut i: usize = 0;
        while i < entries.len()
            invariant
                0 <= i <= entries@.len(),
                ents == entries@,
                converted@.len() == i && keys@.len() == i,
                forall|k: int| 0 <= k < i ==> {
                    let e = ents[k];
                    let p = #[trigger] converted@[k];
                    &&& p.id == e.id
                    &&& p.name == e.name
                    &&& p.env_hint@ == env_hint_of(e.env@)
                    &&& p.base_url == e.base_url
                    &&& p.protocol == e.protocol
                    &&& p.model_count == e.model_count
                    &&& p.status == status_of(e.connected)
                },
                forall|k: int| 0 <= k < i ==> (#[trigger] keys@[k]).0 == (converted@[k].status == ProviderStatus::Connected)
                    && keys@[k].1@ == unicode_lowercase(converted@[k].name@),
            decreases entries.len() - i,
        {
            let e = &entries[i];
            let p = Provider {
                id: e.id.clone(),
                name: e.name.clone(),
                env_hint: first_or_empty(&e.env),
                base_url: match &e.base_url {
                    Some(u) => Some(u.clone()),
                    None => None,
                },
                protocol: match &e.protocol {
                    Some(u) => Some(u.clone()),
                    None => None,
                },
                model_count: e.model_count,
                status: if e.connected { ProviderStatus::Connected } else { ProviderStatus::Disconnected },
            };
            let lower = to_lowercase(p.name.as_str());
            keys.push((p.status == ProviderStatus::Connected, chars_of(lower.as_str())));
            converted.push(p);
            i = i + 1;
        }
        let perm = stable_order(&keys);
        let ghost kv = keys@.map_values(|k: (bool, Vec<char>)| (k.0, k.1@));
        let mut sorted: Vec<Provider> = Vec::new();
        let mut k: usize = 0;
        while k < perm.len()
            invariant
                0 <= k <= perm@.len(),
                is_permutation(perm@, converted@.len()),
                sorted@.len() == k,
                forall|t: int| 0 <= t < k ==> #[trigger] sorted@[t] == converted@[perm@[t] as int],
            decreases perm.len() - k,
        {
            sorted.push(copy_provider(&converted[perm[k]]));
            k = k + 1;
        }
        proof {
            assert forall|t: int| 0 <= t < converted@.len() implies #[trigger] kv[t] == provider_key(converted@[t]) by {
                assert(kv[t] == (keys@[t].0, keys@[t].1@));
            }
            assert(catalogue_order(ents, sorted@, perm@));
        }
        self.providers = sorted;
        assert(catalogue_order(entries@, self.providers@, perm@));
    }
}

pub open spec fn id_in(id: Seq<char>, ids: Seq<String>) -> bool {
    exists|k: int| 0 <= k < ids.len() && #[trigger] ids[k]@ == id
}

fn contains_id(ids: &Vec<String>, id: &str) -> (r: bool)
    ensures
        r == id_in(id@, ids@),
{
    let target = chars_of(id);
    let mut k: usize = 0;
    while k < ids.len()
        invariant
            0 <= k <= ids@.len(),
            target@ == id@,
            forall|j: int| 0 <= j < k ==> #[trigger] ids@[j]@ != id@,
        decreases ids.len() - k,
    {
        if crate::text::chars_eq(&chars_of(ids[k].as_str()), &target) {
            return true;
        }
        k = k + 1;
    }
    false
}

/// A provider marked connected when its id is listed, else disconnected.
pub open spec fn marked_provider(p: Provider, connected: Seq<String>) -> Provider {
    Provider {
        status: if id_in(p.id@, connected) {
            ProviderStatus::Connected
        } else {
            ProviderStatus::Disconnected
        },
        ..p
    }
}

impl ProviderDialog {
    /// Shows every known provider, marking those whose id is listed in
    /// `connected` as connected and the others as disconnected.
    pub fn populate(&mut self, connected: &Vec<String>)
        ensures
            final(self).providers@.len() == old(self).providers@.len(),
            forall|k: int| 0 <= k < final(self).providers@.len() ==> #[trigger] final(self).providers@[k]
                == marked_provider(old(self).providers@[k], connected@),
            *final(self) == (ProviderDialog { providers: final(self).providers, ..*old(self) }),
    {
        let ghost old_ps = self.providers@;
        let mut marked: Vec<Provider> = Vec::new();
        let mut i: usize = 0;
        while i < self.providers.len()
            invariant
                0 <= i <= self.providers@.len(),
                self.providers@ == old_ps,
                marked@.len() == i,
                forall|k: int| 0 <= k < i ==> #[trigger] marked@[k] == marked_provider(old_ps[k], connected@),
            decreases self.providers.len() - i,
        {
            let mut p = copy_provider(&self.providers[i]);
            p.status = if contains_id(connected, self.providers[i].id.as_str()) {
                ProviderStatus::Connected
            } else {
                ProviderStatus::Disconnected
            };
            marked.push(p);
            i = i + 1;
        }
        self.providers = marked;
    }

    /// Takes the server's catalogue and protocol list; an index past the
    /// new list returns to its first protocol.
    pub fn populate_from_connect_schema(&mut self, providers: Vec<KnownProviderEntry>, protocols: Vec<String>)
        ensures
            exists|perm: Seq<usize>| #[trigger] catalogue_order(providers@, final(self).providers@, perm),
            final(self).protocol_options == protocols,
            final(self).protocol_index == if old(self).protocol_index >= protocols@.len() {
                0
            } else {
                old(self).protocol_index
            },
            final(self).resolved_matches@.len() == 0 && final(self).resolve_error is None,
            final(self).selected == if final(self).providers@.len() == 0 { None } else { Some(0usize) },
    {
        let ghost entries = providers@;
        self.populate_from_known(providers);
        let ghost perm = choose|perm: Seq<usize>| catalogue_order(entries, self.providers@, perm);
        let ghost sorted = self.providers@;
        self.protocol_options = protocols;
        if self.protocol_index >= self.protocol_options.len() {
            self.protocol_index = 0;
        }
        self.clear_resolution();
        assert(self.providers@ == sorted);
        assert(catalogue_order(entries, self.providers@, perm));
    }
}

} // verus!
