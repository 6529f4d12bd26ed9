//! What the session screen's header and footer show, read once per frame:
//! the titles, the run status, the token usage, and the counts of the
//! connected language and tool servers.
use vstd::prelude::*;
use crate::text::{chars_of, decimal, joined, push_all, string_from_chars, u64_decimal};
use crate::tui::app_state::{
    LspConnectionStatus, LspStatus, McpConnectionStatus, McpServerStatus, SelectionState,
};
use crate::tui::session_context::{
    new_session_title, Message, MessageRole, SessionContext, SessionStatus, TokenUsage,
};
use crate::tui::session_render::{format_number, group_thousands};
use crate::tui::session_summary::{build_session_header_subtitle, opt_view, selection_parts, subtitle_separator};
use crate::types::message::utc_now;

verus! {

#[derive(Clone, Debug)]
pub struct SessionHeaderSnapshot {
    pub parent_title: Option<String>,
    pub title: String,
    pub subtitle: Option<String>,
    pub usage: Option<String>,
    pub status_label: Option<String>,
    pub status_running: bool,
    pub status_retrying: bool,
}

#[derive(Clone, Debug)]
pub struct SessionFooterSnapshot {
    pub directory: String,
    pub permission_count: usize,
    pub connected_lsp: usize,
    pub connected_mcp: usize,
    pub has_mcp_failures: bool,
    pub has_mcp_registration_needed: bool,
    pub show_connect_hint: bool,
}

// ---------------------------------------------------------------------------
// The header
// ---------------------------------------------------------------------------

/// The badge of a run status: `RUNNING`, `RETRY {attempt}`, or none.
pub open spec fn status_label_of(s: SessionStatus) -> Option<Seq<char>> {
    match s {
        SessionStatus::Running => Some("RUNNING"@),
        SessionStatus::Retrying { attempt, .. } => Some("RETRY "@ + decimal(attempt as nat)),
        SessionStatus::Idle => None,
    }
}

/// The badge of a run status, and whether it runs and whether it retries.
pub fn session_status_badge(status: &SessionStatus) -> (r: (Option<String>, bool, bool))
    ensures
        opt_view(r.0) == status_label_of(*status),
        r.1 == !(status is Idle),
        r.2 == (status is Retrying),
{
    match status {
        SessionStatus::Running => (Some(string_from_chars(&chars_of("RUNNING"))), true, false),
        SessionStatus::Retrying { attempt, .. } => {
            let mut t = chars_of("RETRY ");
            push_all(&mut t, &u64_decimal(*attempt as u64));
            (Some(string_from_chars(&t)), true, true)
        },
        SessionStatus::Idle => (None, false, false),
    }
}

/// The run status recorded for a session; idle when there is none.
pub open spec fn status_in(ctx: SessionContext, sid: Seq<char>) -> SessionStatus {
    if ctx.session_status@.contains_key(sid) {
        ctx.session_status@[sid]
    } else {
        SessionStatus::Idle
    }
}

/// A session's title; `New Session` when it is not known.
pub open spec fn title_in(ctx: SessionContext, sid: Seq<char>) -> Seq<char> {
    if ctx.sessions@.contains_key(sid) {
        ctx.sessions@[sid].title@
    } else {
        new_session_title()
    }
}

/// The title of a session's parent, when both are known.
pub open spec fn parent_title_in(ctx: SessionContext, sid: Seq<char>) -> Option<Seq<char>> {
    if ctx.sessions@.contains_key(sid) {
        match ctx.sessions@[sid].parent_id {
            Some(p) => if ctx.sessions@.contains_key(p@) {
                Some(ctx.sessions@[p@].title@)
            } else {
                None
            },
            None => None,
        }
    } else {
        None
    }
}

/// The header of a session: its title and its parent's, the subtitle that
/// the session's metadata parts (else the current selection) make, the
/// usage line as given, and the run status's badge.
pub fn session_header_snapshot(
    ctx: &SessionContext,
    session_id: &str,
    metadata_parts: Vec<String>,
    selection: &SelectionState,
    usage: Option<String>,
) -> (r: SessionHeaderSnapshot)
    ensures
        r.title@ == title_in(*ctx, session_id@),
        opt_view(r.parent_title) == parent_title_in(*ctx, session_id@),
        ({
            let parts = if metadata_parts@.len() > 0 {
                metadata_parts@.map_values(|s: String| s@)
            } else {
                selection_parts(*selection)
            };
            opt_view(r.subtitle) == if parts.len() == 0 {
                None::<Seq<char>>
            } else {
                Some(joined(parts, subtitle_separator()))
            }
        }),
        r.usage == usage,
        opt_view(r.status_label) == status_label_of(status_in(*ctx, session_id@)),
        r.status_running == !(status_in(*ctx, session_id@) is Idle),
        r.status_retrying == (status_in(*ctx, session_id@) is Retrying),
{
    let (title, parent_title) = match ctx.sessions.get(session_id) {
        Some(session) => {
            let parent = match &session.parent_id {
                Some(p) => match ctx.sessions.get(p.as_str()) {
                    Some(ps) => Some(ps.title.clone()),
                    None => None,
                },
                None => None,
            };
            (session.title.clone(), parent)
        },
        None => (string_from_chars(&chars_of("New Session")), None),
    };
    proof {
        reveal_strlit("New Session");
    }
    let subtitle = build_session_header_subtitle(metadata_parts, selection);
    let (status_label, status_running, status_retrying) = session_status_badge(ctx.status(session_id));
    SessionHeaderSnapshot { parent_title, title, subtitle, usage, status_label, status_running, status_retrying }
}

// ---------------------------------------------------------------------------
// The usage line
// ---------------------------------------------------------------------------

/// The last assistant message that produced output.
pub open spec fn last_output_message(msgs: Seq<Message>) -> Option<int>
    decreases msgs.len(),
{
    if msgs.len() == 0 {
        None
    } else if msgs.last().role == MessageRole::Assistant && msgs.last().tokens.output > 0 {
        Some(msgs.len() - 1)
    } else {
        last_output_message(msgs.drop_last())
    }
}

/// The position of the last assistant message that produced output; the
/// usage line speaks of it.
pub fn last_assistant_with_output(messages: &Vec<Message>) -> (r: Option<usize>)
    ensures
        match r {
            Some(k) => k < messages@.len() && last_output_message(messages@) == Some(k as int),
            None => last_output_message(messages@) is None,
        },
{
    let mut i = messages.len();
    assert(messages@.take(i as int) =~= messages@);
    while i > 0
        invariant
            0 <= i <= messages@.len(),
            last_output_message(messages@) == last_output_message(messages@.take(i as int)),
        decreases i,
    {
        let m = &messages[i - 1];
        assert(messages@.take(i as int).last() == messages@[i - 1]);
        if m.role == MessageRole::Assistant && m.tokens.output > 0 {
            return Some(i - 1);
        }
        assert(messages@.take(i as int).drop_last() =~= messages@.take(i - 1));
        i = i - 1;
    }
    None
}

pub open spec fn token_sum(t: TokenUsage) -> int {
    t.input + t.output + t.reasoning + t.cache_read + t.cache_write
}

/// All the tokens a message counted: input, output, reasoning and both
/// cache kinds.
pub fn message_token_total(t: &TokenUsage) -> (r: u64)
    requires
        token_sum(*t) <= u64::MAX,
    ensures
        r == token_sum(*t),
{
    t.input + t.output + t.reasoning + t.cache_read + t.cache_write
}

/// The parts of the usage line: tokens (out of the model's context window
/// and the share of it, when the window is known and not zero), the cost,
/// and the prices when they are known.
pub open spec fn usage_parts(
    total_tokens: u64,
    window: Option<(u64, u64)>,
    cost_text: Seq<char>,
    price_text: Option<Seq<char>>,
) -> Seq<Seq<char>> {
    let context = group_thousands(decimal(total_tokens as nat)) + match window {
        Some((w, pct)) => if w > 0 {
            "/"@ + group_thousands(decimal(w as nat)) + " "@ + decimal(pct as nat) + "%"@
        } else {
            Seq::empty()
        },
        None => Seq::empty(),
    };
    seq![context, cost_text] + match price_text {
        Some(p) => seq![p],
        None => Seq::empty(),
    }
}

/// The usage line: none when no token was counted, else its parts joined.
/// `window` is the model's context window with the percentage of it that
/// the tokens take, `cost_text` the session's cost and `price_text` the
/// model's prices, as the caller wrote them.
pub fn usage_text(
    total_tokens: u64,
    window: Option<(u64, u64)>,
    cost_text: &str,
    price_text: Option<String>,
) -> (r: Option<String>)
    ensures
        total_tokens == 0 ==> r is None,
        total_tokens > 0 ==> opt_view(r) == Some(
            joined(usage_parts(total_tokens, window, cost_text@, opt_view(price_text)), subtitle_separator()),
        ),
{
    if total_tokens == 0 {
        return None;
    }
    let mut out = chars_of(format_number(total_tokens).as_str());
    match window {
        Some((w, pct)) => {
            if w > 0 {
                push_all(&mut out, &chars_of("/"));
                push_all(&mut out, &chars_of(format_number(w).as_str()));
                push_all(&mut out, &chars_of(" "));
                push_all(&mut out, &u64_decimal(pct));
                push_all(&mut out, &chars_of("%"));
            }
        },
        None => {},
    }
    let ghost parts = usage_parts(total_tokens, window, cost_text@, opt_view(price_text));
    assert(out@ == parts[0]);
    let sep = chars_of("  \u{b7}  ");
    proof {
        reveal_strlit("  \u{b7}  ");
    }
    assert(sep@ == subtitle_separator());
    push_all(&mut out, &sep);
    push_all(&mut out, &chars_of(cost_text));
    assert(joined(parts.take(2), subtitle_separator()) == parts[0] + subtitle_separator() + parts[1]) by {
        let two = parts.take(2);
        assert(two.drop_last() =~= seq![parts[0]]);
        assert(joined(seq![parts[0]], subtitle_separator()) == parts[0]);
        assert(two.last() == parts[1]);
    }
    match &price_text {
        Some(p) => {
            push_all(&mut out, &sep);
            push_all(&mut out, &chars_of(p.as_str()));
            assert(parts.drop_last() =~= parts.take(2));
        },
        None => {
            assert(parts =~= parts.take(2));
        },
    }
    Some(string_from_chars(&out))
}

// ---------------------------------------------------------------------------
// The footer
// ---------------------------------------------------------------------------

pub open spec fn count_lsp(s: Seq<LspStatus>) -> nat
    decreases s.len(),
{
    if s.len() == 0 {
        0
    } else {
        count_lsp(s.drop_last()) + if s.last().status == LspConnectionStatus::Connected { 1nat } else { 0nat }
    }
}

pub open spec fn count_mcp(s: Seq<McpServerStatus>, status: McpConnectionStatus) -> nat
    decreases s.len(),
{
    if s.len() == 0 {
        0
    } else {
        count_mcp(s.drop_last(), status) + if s.last().status == status { 1nat } else { 0nat }
    }
}

/// The language servers that are connected.
pub fn connected_lsp_count(servers: &Vec<LspStatus>) -> (r: usize)
    ensures
        r == count_lsp(servers@),
{
    let mut n: usize = 0;
    let mut i: usize = 0;
    while i < servers.len()
        invariant
            0 <= i <= servers@.len(),
            n == count_lsp(servers@.take(i as int)),
            n <= i,
        decreases servers.len() - i,
    {
        assert(servers@.take(i + 1).drop_last() =~= servers@.take(i as int));
        if servers[i].status == LspConnectionStatus::Connected {
            n = n + 1;
        }
        i = i + 1;
    }
    assert(servers@.take(i as int) =~= servers@);
    n
}

/// The tool servers in the given state.
pub fn mcp_count(servers: &Vec<McpServerStatus>, status: McpConnectionStatus) -> (r: usize)
    ensures
        r == count_mcp(servers@, status),
{
    let mut n: usize = 0;
    let mut i: usize = 0;
    while i < servers.len()
        invariant
            0 <= i <= servers@.len(),
            n == count_mcp(servers@.take(i as int), status),
            n <= i,
        decreases servers.len() - i,
    {
        assert(servers@.take(i + 1).drop_last() =~= servers@.take(i as int));
        if servers[i].status == status {
            n = n + 1;
        }
        i = i + 1;
    }
    assert(servers@.take(i as int) =~= servers@);
    n
}

/// The hint to connect a provider shows, when none is connected, in the
/// last third of every fifteen seconds.
pub open spec fn connect_hint_shown(has_connected_provider: bool, now_secs: i64) -> bool {
    !has_connected_provider && (now_secs as int) % 15 >= 10
}

/// `now_secs.rem_euclid(15) >= 10`, without a provider.
pub fn connect_hint_at(has_connected_provider: bool, now_secs: i64) -> (r: bool)
    ensures
        r == connect_hint_shown(has_connected_provider, now_secs),
{
    if has_connected_provider {
        return false;
    }
    let phase: u64 = if now_secs >= 0 {
        (now_secs as u64) % 15
    } else {
        let a: u64 = (-(now_secs + 1)) as u64;
        assert((now_secs as int) % 15 == 14 - (a as int) % 15) by (nonlinear_arith)
            requires
                a as int == -(now_secs as int) - 1,
                now_secs < 0,
        {
            let q = (a as int) / 15;
            let r = (a as int) % 15;
            assert(a as int == 15 * q + r);
            assert(now_secs as int == 15 * (-q - 1) + (14 - r));
        }
        14 - a % 15
    };
    phase >= 10
}

/// The footer: the working directory and the pending permissions as
/// given, the connected language and tool servers, whether a tool server
/// failed or needs client registration, and the connect hint at `now_secs`.
pub fn session_footer_snapshot(
    directory: String,
    permission_count: usize,
    lsp: &Vec<LspStatus>,
    mcp: &Vec<McpServerStatus>,
    has_connected_provider: bool,
    now_secs: i64,
) -> (r: SessionFooterSnapshot)
    ensures
        r.directory == directory,
        r.permission_count == permission_count,
        r.connected_lsp == count_lsp(lsp@),
        r.connected_mcp == count_mcp(mcp@, McpConnectionStatus::Connected),
        r.has_mcp_failures == (count_mcp(mcp@, McpConnectionStatus::Failed) > 0),
        r.has_mcp_registration_needed == (count_mcp(mcp@, McpConnectionStatus::NeedsClientRegistration) > 0),
        r.show_connect_hint == connect_hint_shown(has_connected_provider, now_secs),
{
    SessionFooterSnapshot {
        directory,
        permission_count,
        connected_lsp: connected_lsp_count(lsp),
        connected_mcp: mcp_count(mcp, McpConnectionStatus::Connected),
        has_mcp_failures: mcp_count(mcp, McpConnectionStatus::Failed) > 0,
        has_mcp_registration_needed: mcp_count(mcp, McpConnectionStatus::NeedsClientRegistration) > 0,
        show_connect_hint: connect_hint_at(has_connected_provider, now_secs),
    }
}

/// The footer at the current time. Everything but the connect hint is as
/// `session_footer_snapshot` gives it; the hint depends on the clock, and
/// is never shown while a provider is connected.
pub fn capture_session_footer(
    directory: String,
    permission_count: usize,
    lsp: &Vec<LspStatus>,
    mcp: &Vec<McpServerStatus>,
    has_connected_provider: bool,
) -> (r: SessionFooterSnapshot)
    ensures
        r.directory == directory,
        r.permission_count == permission_count,
        r.connected_lsp == count_lsp(lsp@),
        r.connected_mcp == count_mcp(mcp@, McpConnectionStatus::Connected),
        r.has_mcp_failures == (count_mcp(mcp@, McpConnectionStatus::Failed) > 0),
        r.has_mcp_registration_needed == (count_mcp(mcp@, McpConnectionStatus::NeedsClientRegistration) > 0),
        r.show_connect_hint ==> !has_connected_provider,
{
    let now = utc_now();
    session_footer_snapshot(directory, permission_count, lsp, mcp, has_connected_provider, now.secs)
}

} // verus!
