//! What the session view says of a session and of its assistant messages:
//! the header's subtitle, whether a reply is final or was interrupted, how
//! long it took, and what its footer names.
use vstd::prelude::*;
use std::collections::HashMap;
use crate::text::{blank, decimal, is_blank, joined, string_from_chars, u64_decimal};
use crate::tui::app_state::SelectionState;
use crate::tui::list_dialogs::{contains_sub, contains_sub_exec, lower_codes, lower_codes_exec};
use crate::tui::session_context::{meta_as_str, meta_string, Message, MessagePart, MessageRole, MetaValue};
use crate::types::message::{millis_fit, millis_of, Timestamp};

verus! {

// ---------------------------------------------------------------------------
// The header's subtitle
// ---------------------------------------------------------------------------

/// "provider/model" when both are chosen, the model alone without a
/// provider; nothing without a model.
pub open spec fn model_summary(provider: Option<Seq<char>>, model: Option<Seq<char>>) -> Option<Seq<char>> {
    match (provider, model) {
        (Some(p), Some(m)) => Some(p + seq!['/'] + m),
        (None, Some(m)) => Some(m),
        _ => None,
    }
}

pub open spec fn opt_view(o: Option<String>) -> Option<Seq<char>> {
    match o {
        Some(s) => Some(s@),
        None => None,
    }
}

/// The chosen model, as the header names it.
pub fn selection_model_summary(selection: &SelectionState) -> (r: Option<String>)
    ensures
        opt_view(r) == model_summary(opt_view(selection.current_provider), opt_view(selection.current_model)),
{
    match (&selection.current_provider, &selection.current_model) {
        (Some(provider), Some(model)) => {
            let mut out = provider.clone();
            out.append("/");
            out.append(model.as_str());
            proof {
                reveal_strlit("/");
                assert(out@ =~= provider@ + seq!['/'] + model@);
            }
            Some(out)
        },
        (None, Some(model)) => Some(model.clone()),
        _ => None,
    }
}

pub open spec fn subtitle_separator() -> Seq<char> {
    seq![' ', ' ', '\u{b7}', ' ', ' ']
}

pub open spec fn scheduler_prefix() -> Seq<char> {
    seq!['s', 'c', 'h', 'e', 'd', 'u', 'l', 'e', 'r', ' ']
}

/// What the header says under the title when the session's metadata names
/// nothing: the chosen agent, model and scheduler profile, those there are.
pub open spec fn selection_parts(selection: SelectionState) -> Seq<Seq<char>> {
    let agent: Seq<Seq<char>> = if selection.current_agent@.len() > 0 {
        seq![selection.current_agent@]
    } else {
        Seq::empty()
    };
    let model: Seq<Seq<char>> = match model_summary(
        opt_view(selection.current_provider),
        opt_view(selection.current_model),
    ) {
        Some(m) => seq![m],
        None => Seq::empty(),
    };
    let scheduler: Seq<Seq<char>> = match selection.current_scheduler_profile {
        Some(p) => seq![scheduler_prefix() + p@],
        None => Seq::empty(),
    };
    agent + model + scheduler
}

fn push_joined(out: &mut String, first: bool, part: &str)
    ensures
        final(out)@ == if first { old(out)@ + part@ } else { old(out)@ + subtitle_separator() + part@ },
{
    if !first {
        proof {
            reveal_strlit("  \u{b7}  ");
        }
        out.append("  \u{b7}  ");
    }
    out.append(part);
}

/// The header's subtitle: the parts that the session's metadata gives
/// (agent, model and scheduler, found by the sidebar's readers), or, when
/// it gives none, those of the current selection; joined with " · "
/// between double spaces; nothing when there are none.
pub fn build_session_header_subtitle(metadata_parts: Vec<String>, selection: &SelectionState) -> (r: Option<String>)
    ensures
        ({
            let parts = if metadata_parts@.len() > 0 {
                metadata_parts@.map_values(|s: String| s@)
            } else {
                selection_parts(*selection)
            };
            opt_view(r) == if parts.len() == 0 {
                None::<Seq<char>>
            } else {
                Some(joined(parts, subtitle_separator()))
            }
        }),
{
    let mut parts: Vec<String> = metadata_parts;
    let ghost given = parts@.map_values(|s: String| s@);
    if parts.len() == 0 {
        let ghost sel = selection_parts(*selection);
        let ghost agent: Seq<Seq<char>> = if selection.current_agent@.len() > 0 {
            seq![selection.current_agent@]
        } else {
            Seq::empty()
        };
        let ghost model: Seq<Seq<char>> = match model_summary(
            opt_view(selection.current_provider),
            opt_view(selection.current_model),
        ) {
            Some(m) => seq![m],
            None => Seq::empty(),
        };
        if !selection.current_agent.as_str().is_empty() {
            parts.push(selection.current_agent.clone());
        }
        assert(parts@.map_values(|s: String| s@) =~= agent);
        if let Some(model) = selection_model_summary(selection) {
            parts.push(model);
        }
        assert(parts@.map_values(|s: String| s@) =~= agent + model);
        if let Some(profile) = &selection.current_scheduler_profile {
            proof {
                reveal_strlit("scheduler ");
                assert("scheduler "@ =~= scheduler_prefix());
            }
            let mut s = String::from_str("scheduler ");
            s.append(profile.as_str());
            parts.push(s);
        }
        assert(parts@.map_values(|s: String| s@) =~= sel);
    } else {
        assert(parts@.map_values(|s: String| s@) =~= given);
    }
    let ghost views = parts@.map_values(|s: String| s@);
    if parts.len() == 0 {
        return None;
    }
    let mut out = String::new();
    let mut i: usize = 0;
    while i < parts.len()
        invariant
            0 <= i <= parts@.len(),
            parts@.len() > 0,
            views == parts@.map_values(|s: String| s@),
            i > 0 ==> out@ == joined(views.take(i as int), subtitle_separator()),
            i == 0 ==> out@ == Seq::<char>::empty(),
        decreases parts@.len() - i,
    {
        push_joined(&mut out, i == 0, parts[i].as_str());
        proof {
            let t = views.take(i + 1);
            assert(t.drop_last() =~= views.take(i as int));
            if i == 0 {
                assert(out@ =~= t[0]);
            } else {
                assert(out@ =~= joined(t, subtitle_separator()));
            }
        }
        i += 1;
    }
    assert(views.take(i as int) =~= views);
    Some(out)
}

// ---------------------------------------------------------------------------
// Assistant messages
// ---------------------------------------------------------------------------

/// A finish reason that ends a reply: any but "tool-calls" and "unknown".
pub open spec fn is_final_reason(f: Seq<char>) -> bool {
    f != seq!['t', 'o', 'o', 'l', '-', 'c', 'a', 'l', 'l', 's'] && f != seq!['u', 'n', 'k', 'n', 'o', 'w', 'n']
}

pub open spec fn is_final_spec(m: Message) -> bool {
    match m.finish {
        Some(f) => is_final_reason(f@),
        None => false,
    }
}

/// Whether an assistant message is done: it finished for a reason other
/// than tool calls or an unknown one.
pub fn is_assistant_final(message: &Message) -> (r: bool)
    ensures
        r == is_final_spec(*message),
{
    match &message.finish {
        Some(reason) => {
            proof {
                reveal_strlit("tool-calls");
                reveal_strlit("unknown");
            }
            let tool_calls = String::from_str("tool-calls");
            let unknown = String::from_str("unknown");
            let r = *reason != tool_calls && *reason != unknown;
            proof {
                assert(tool_calls@ =~= seq!['t', 'o', 'o', 'l', '-', 'c', 'a', 'l', 'l', 's']);
                assert(unknown@ =~= seq!['u', 'n', 'k', 'n', 'o', 'w', 'n']);
            }
            r
        },
        None => false,
    }
}

pub open spec fn abort_word() -> Seq<char> {
    seq!['a', 'b', 'o', 'r', 't']
}

pub open spec fn codes(s: Seq<char>) -> Seq<u32> {
    s.map_values(|c: char| c as u32)
}

/// An error text that tells of an abort, in any ASCII case.
pub open spec fn tells_of_abort(e: Seq<char>) -> bool {
    let lower = lower_codes(e);
    ||| contains_sub(lower, codes("messageabortederror"@))
    ||| contains_sub(lower, codes("abortederror"@))
    ||| contains_sub(lower, codes(abort_word()))
}

pub open spec fn is_interrupted_spec(m: Message) -> bool {
    ||| (m.finish matches Some(f) && f@ == abort_word())
    ||| (m.error matches Some(e) && tells_of_abort(e@))
}

fn lowered_literal(s: &str) -> (r: Vec<u32>)
    requires
        forall|i: int| 0 <= i < s@.len() ==> !('A' <= #[trigger] s@[i] <= 'Z'),
    ensures
        r@ == codes(s@),
{
    let r = lower_codes_exec(s);
    assert(r@ =~= codes(s@));
    r
}

/// Whether an assistant message was cut short: it finished with "abort",
/// or its error tells of an abort.
pub fn is_assistant_interrupted(message: &Message) -> (r: bool)
    ensures
        r == is_interrupted_spec(*message),
{
    proof {
        reveal_strlit("abort");
        reveal_strlit("messageabortederror");
        reveal_strlit("abortederror");
    }
    if let Some(finish) = &message.finish {
        let abort = String::from_str("abort");
        assert(abort@ =~= abort_word());
        if *finish == abort {
            return true;
        }
    }
    match &message.error {
        Some(err) => {
            let lower = lower_codes_exec(err.as_str());
            let a = lowered_literal("messageabortederror");
            let b = lowered_literal("abortederror");
            let c = lowered_literal("abort");
            assert("abort"@ =~= abort_word());
            contains_sub_exec(&lower, &a) || contains_sub_exec(&lower, &b) || contains_sub_exec(&lower, &c)
        },
        None => false,
    }
}

/// Calls `HashMap::get` with a `&str` key on a map keyed by `String`; std
/// documents it as giving the value under the key that equals it, if any.
/// Keys are equal when their texts are, so one text finds one value.
#[verifier::external_body]
pub(crate) fn metadata_get<'a>(metadata: &'a HashMap<String, MetaValue>, key: &str) -> (r: Option<&'a MetaValue>)
    ensures
        match r {
            Some(v) => (exists|s: String| s@ == key@ && metadata@.contains_key(s))
                && forall|s: String| s@ == key@ && metadata@.contains_key(s) ==> metadata@[s] == *v,
            None => forall|s: String| s@ == key@ ==> !metadata@.contains_key(s),
        },
{
    metadata.get(key)
}

/// The text under `key` in a message's metadata, when it is a JSON string.
pub open spec fn metadata_text_spec(m: Message, key: Seq<char>) -> Option<Seq<char>> {
    match m.metadata {
        Some(md) => if exists|s: String| s@ == key && md@.contains_key(s) {
            meta_string(md@[choose|s: String| s@ == key && md@.contains_key(s)])
        } else {
            None
        },
        None => None,
    }
}

/// The text under `key` in the message's metadata, when it is a string.
pub fn assistant_metadata_text<'a>(message: &'a Message, key: &str) -> (r: Option<&'a str>)
    ensures
        match r {
            Some(s) => metadata_text_spec(*message, key@) == Some(s@),
            None => metadata_text_spec(*message, key@) is None,
        },
{
    match &message.metadata {
        Some(metadata) => match metadata_get(metadata, key) {
            Some(value) => meta_as_str(value),
            None => None,
        },
        None => None,
    }
}

/// The index of the last user message before `idx`; -1 when there is none.
pub open spec fn last_user_before(messages: Seq<Message>, idx: int) -> int
    decreases idx,
{
    if idx <= 0 {
        -1
    } else if messages[idx - 1].role == MessageRole::User {
        idx - 1
    } else {
        last_user_before(messages, idx - 1)
    }
}

/// How long a final reply took: from the last user message before it to
/// its completion, in milliseconds; none when either end is missing or the
/// span is not positive.
pub open spec fn elapsed_ms_spec(messages: Seq<Message>, idx: int, message: Message, is_final: bool) -> Option<u64> {
    let u = last_user_before(messages, idx);
    if !is_final || u < 0 {
        None
    } else {
        match message.completed_at {
            None => None,
            Some(done) => {
                let start = millis_of(messages[u].created_at);
                let end = millis_of(done);
                if end <= start {
                    None
                } else {
                    Some((end - start) as u64)
                }
            },
        }
    }
}

/// The instants that the elapsed time reads fit chrono's milliseconds.
pub open spec fn times_fit(messages: Seq<Message>, idx: int, message: Message) -> bool {
    &&& forall|i: int| 0 <= i < idx ==> millis_fit(#[trigger] messages[i].created_at)
    &&& message.completed_at matches Some(t) ==> millis_fit(t)
}

fn find_last_user(messages: &[Message], idx: usize) -> (r: Option<usize>)
    requires
        idx <= messages@.len(),
    ensures
        match r {
            Some(u) => u < idx && u as int == last_user_before(messages@, idx as int),
            None => last_user_before(messages@, idx as int) == -1,
        },
{
    let mut i = idx;
    while i > 0
        invariant
            i <= idx <= messages@.len(),
            last_user_before(messages@, idx as int) == last_user_before(messages@, i as int),
        decreases i,
    {
        if messages[i - 1].role == MessageRole::User {
            return Some(i - 1);
        }
        i -= 1;
    }
    None
}

/// How long a final assistant reply took, in milliseconds.
pub fn assistant_elapsed_ms(messages: &[Message], idx: usize, message: &Message, is_final: bool) -> (r: Option<u64>)
    requires
        idx <= messages@.len(),
        times_fit(messages@, idx as int, *message),
    ensures
        r == elapsed_ms_spec(messages@, idx as int, *message, is_final),
{
    if !is_final {
        return None;
    }
    let user_start = match find_last_user(messages, idx) {
        Some(u) => messages[u].created_at.timestamp_millis(),
        None => {
            return None;
        },
    };
    let end = match message.completed_at {
        Some(done) => done.timestamp_millis(),
        None => {
            return None;
        },
    };
    if end <= user_start {
        return None;
    }
    let elapsed: i128 = (end as i128) - (user_start as i128);
    Some(elapsed as u64)
}

/// What an assistant message's footer says, its colours aside: the mode
/// that answered, the model, how long the reply took, and whether it was
/// cut short.
#[derive(Clone, Debug, PartialEq, Eq)]
pub struct AssistantFooterFields {
    pub mode: String,
    pub model: Option<String>,
    pub elapsed_ms: Option<u64>,
    pub interrupted: bool,
}

pub open spec fn assistant_word() -> Seq<char> {
    seq!['a', 's', 's', 'i', 's', 't', 'a', 'n', 't']
}

pub open spec fn scheduler_profile_key() -> Seq<char> {
    seq!['s', 'c', 'h', 'e', 'd', 'u', 'l', 'e', 'r', '_', 'p', 'r', 'o', 'f', 'i', 'l', 'e']
}

pub open spec fn opt_str_view(o: Option<&str>) -> Option<Seq<char>> {
    match o {
        Some(s) => Some(s@),
        None => None,
    }
}

/// A text that is there and not blank.
pub open spec fn present(o: Option<Seq<char>>) -> Option<Seq<char>> {
    match o {
        Some(t) => if blank(t) { None } else { Some(t) },
        None => None,
    }
}

/// The footer's mode: the message's mode when not blank, else the
/// scheduler profile of its metadata, else its agent when not blank, else
/// "assistant".
pub open spec fn footer_mode(m: Message) -> Seq<char> {
    match present(opt_view(m.mode)) {
        Some(t) => t,
        None => match metadata_text_spec(m, scheduler_profile_key()) {
            Some(t) => t,
            None => match present(opt_view(m.agent)) {
                Some(t) => t,
                None => assistant_word(),
            },
        },
    }
}

/// The footer's model: the message's model, or the fallback when it names
/// none; left out when blank.
pub open spec fn footer_model(m: Message, fallback: Option<Seq<char>>) -> Option<Seq<char>> {
    match opt_view(m.model) {
        Some(t) => present(Some(t)),
        None => present(fallback),
    }
}

/// Whether an assistant message gets a footer: the last assistant
/// message, a final one, or an interrupted one does.
pub open spec fn has_footer(m: Message, idx: int, last_assistant_idx: Option<usize>) -> bool {
    &&& m.role == MessageRole::Assistant
    &&& (last_assistant_idx == Some(idx as usize) || is_final_spec(m) || is_interrupted_spec(m))
}

fn as_str_opt(o: &Option<String>) -> (r: Option<&str>)
    ensures
        opt_str_view(r) == opt_view(*o),
{
    match o {
        Some(s) => Some(s.as_str()),
        None => None,
    }
}

fn present_str(o: Option<&str>) -> (r: Option<&str>)
    ensures
        match r {
            Some(t) => o matches Some(u) && t@ == u@ && !blank(u@),
            None => o matches Some(u) ==> blank(u@),
        },
{
    match o {
        Some(t) => if is_blank(t) { None } else { Some(t) },
        None => None,
    }
}

/// The footer of an assistant message at `idx`, its colours aside: none for
/// other messages and for an assistant message that is neither the last,
/// final nor interrupted.
pub fn assistant_footer_fields(
    messages: &[Message],
    idx: usize,
    last_assistant_idx: Option<usize>,
    message: &Message,
    fallback_model: Option<&str>,
) -> (r: Option<AssistantFooterFields>)
    requires
        idx <= messages@.len(),
        times_fit(messages@, idx as int, *message),
    ensures
        !has_footer(*message, idx as int, last_assistant_idx) ==> r is None,
        has_footer(*message, idx as int, last_assistant_idx) ==> (r matches Some(f)
            && f.mode@ == footer_mode(*message)
            && opt_view(f.model) == footer_model(*message, opt_str_view(fallback_model))
            && f.elapsed_ms == elapsed_ms_spec(messages@, idx as int, *message, is_final_spec(*message))
            && f.interrupted == is_interrupted_spec(*message)),
{
    if message.role != MessageRole::Assistant {
        return None;
    }
    let is_last_assistant = match last_assistant_idx {
        Some(i) => i == idx,
        None => false,
    };
    let is_interrupted = is_assistant_interrupted(message);
    let is_final = is_assistant_final(message);
    if !is_last_assistant && !is_final && !is_interrupted {
        return None;
    }
    proof {
        reveal_strlit("scheduler_profile");
        reveal_strlit("assistant");
        assert("scheduler_profile"@ =~= scheduler_profile_key());
        assert("assistant"@ =~= assistant_word());
    }
    let mode_str: &str = match present_str(as_str_opt(&message.mode)) {
        Some(t) => t,
        None => match assistant_metadata_text(message, "scheduler_profile") {
            Some(t) => t,
            None => match present_str(as_str_opt(&message.agent)) {
                Some(t) => t,
                None => "assistant",
            },
        },
    };
    let model = match as_str_opt(&message.model) {
        Some(t) => present_str(Some(t)),
        None => present_str(fallback_model),
    };
    let model_string = match model {
        Some(t) => Some(String::from_str(t)),
        None => None,
    };
    Some(AssistantFooterFields {
        mode: String::from_str(mode_str),
        model: model_string,
        elapsed_ms: assistant_elapsed_ms(messages, idx, message, is_final),
        interrupted: is_interrupted,
    })
}

// ---------------------------------------------------------------------------
// Reasoning folded open
// ---------------------------------------------------------------------------

/// The id of a message's reasoning part: the message id, a colon and the
/// part's index.
pub open spec fn reasoning_part_id(message_id: Seq<char>, index: nat) -> Seq<char> {
    message_id + seq![':'] + decimal(index)
}

/// The ids of the message's first `k` parts that are reasoning parts folded
/// open, in order.
pub open spec fn expanded_reasoning_upto(msg: Message, expanded: Set<Seq<char>>, k: int) -> Seq<Seq<char>>
    decreases k,
{
    if k <= 0 {
        Seq::empty()
    } else {
        let rest = expanded_reasoning_upto(msg, expanded, k - 1);
        let id = reasoning_part_id(msg.id@, (k - 1) as nat);
        if msg.parts@[k - 1] is Reasoning && expanded.contains(id) {
            rest.push(id)
        } else {
            rest
        }
    }
}

fn contains_string(v: &[String], s: &String) -> (r: bool)
    ensures
        r == v@.map_values(|x: String| x@).contains(s@),
{
    let mut i: usize = 0;
    while i < v.len()
        invariant
            i <= v@.len(),
            forall|j: int| 0 <= j < i ==> v@[j]@ != s@,
        decreases v@.len() - i,
    {
        if v[i] == *s {
            assert(v@.map_values(|x: String| x@)[i as int] == s@);
            return true;
        }
        i += 1;
    }
    assert(!v@.map_values(|x: String| x@).contains(s@)) by {
        let views = v@.map_values(|x: String| x@);
        if views.contains(s@) {
            let j = choose|j: int| 0 <= j < views.len() && views[j] == s@;
            assert(v@[j]@ == s@);
        }
    }
    false
}

/// The ids of the message's reasoning parts that are folded open, in part
/// order.
pub fn collect_message_expanded_reasoning(msg: &Message, expanded: &[String]) -> (r: Vec<String>)
    ensures
        r@.map_values(|s: String| s@) == expanded_reasoning_upto(
            *msg,
            expanded@.map_values(|s: String| s@).to_set(),
            msg.parts@.len() as int,
        ),
{
    let ghost set = expanded@.map_values(|s: String| s@).to_set();
    let mut out: Vec<String> = Vec::new();
    let mut i: usize = 0;
    while i < msg.parts.len()
        invariant
            i <= msg.parts@.len(),
            set == expanded@.map_values(|s: String| s@).to_set(),
            out@.map_values(|s: String| s@) == expanded_reasoning_upto(*msg, set, i as int),
        decreases msg.parts@.len() - i,
    {
        if let MessagePart::Reasoning { .. } = &msg.parts[i] {
            let digits = u64_decimal(i as u64);
            let mut id = msg.id.clone();
            id.append(":");
            let digit_str = string_from_chars(digits.as_slice());
            id.append(digit_str.as_str());
            proof {
                reveal_strlit(":");
                assert(id@ =~= reasoning_part_id(msg.id@, i as nat));
            }
            if contains_string(expanded, &id) {
                out.push(id);
            }
        }
        proof {
            assert(out@.map_values(|s: String| s@) =~= expanded_reasoning_upto(*msg, set, i + 1));
        }
        i += 1;
    }
    out
}

} // verus!
