//! What the provider dialog's list screen shows: the mode tabs, the
//! search line, the list (or why there is none) scrolled to keep the
//! highlighted row in view, and the footer.
use vstd::prelude::*;
use crate::jsonish::sanitize::trim_spec;
use crate::text::{chars_of, decimal, push_all, string_from_chars, u64_decimal};
use crate::tui::provider::{
    CustomProviderStep, Provider, ProviderConnectMode, ProviderDialog, ProviderStatus, SubmitResult,
};
use crate::tui::skill_hub_view::{
    line_view, lines_view as styled_lines, push_blank, push_styled, styled, PreviewLine, PreviewSpan,
    PreviewStyle,
};
use crate::jsonish::normalize::utf8_len_of;
use crate::text::{chars_in_bytes, is_byte_boundary, lemma_utf8_take_increasing, slice_chars, utf8_len};

verus! {

/// A row of the provider list.
#[derive(Clone, Debug)]
pub struct ProviderRow {
    pub status: ProviderStatus,
    /// The status icon: filled when connected, hollow when not, a cross on
    /// error.
    pub icon: String,
    pub name: String,
    /// ` · ` and the provider's id, drawn muted after the name.
    pub detail: String,
    pub selected: bool,
}

/// How a line of the custom-setup text is drawn.
#[derive(Clone, Copy, Debug, PartialEq, Eq, Structural)]
pub enum ProviderLineTone {
    Heading,
    Plain,
    Success,
    Error,
}

/// The middle of the list screen.
#[derive(Clone, Debug)]
pub enum ProviderListBody {
    /// A muted message in place of the list.
    Notice(String),
    /// The rows in view, the first visible row's position, and whether a
    /// scrollbar is drawn.
    Rows { scroll: usize, rows: Vec<ProviderRow>, scrollbar: bool },
    /// What the custom mode explains, line by line.
    Custom(Vec<(String, ProviderLineTone)>),
}

/// The list screen of the provider dialog.
#[derive(Clone, Debug)]
pub struct ProviderListView {
    /// Whether the `Known` tab is the active one (else `Custom` is).
    pub known_active: bool,
    pub subtitle: String,
    pub search_line: String,
    pub body: ProviderListBody,
    pub footer: Vec<String>,
}

pub open spec fn status_icon(s: ProviderStatus) -> Seq<char> {
    match s {
        ProviderStatus::Connected => "\u{25cf}"@,
        ProviderStatus::Disconnected => "\u{25ef}"@,
        ProviderStatus::Error => "\u{2717}"@,
    }
}

pub open spec fn subtitle_text(mode: ProviderConnectMode) -> Seq<char> {
    match mode {
        ProviderConnectMode::Known => "Search a known provider. Enter connects quickly; A opens advanced editing."@,
        ProviderConnectMode::Custom => "Create a custom provider with provider id, base URL, protocol and API key."@,
    }
}

/// The first row in view: far enough down that the highlighted row is the
/// last one shown, once it would fall below the viewport.
pub open spec fn list_scroll(selected: usize, viewport: usize) -> int {
    if selected >= viewport { selected - (viewport - 1) } else { 0 }
}

/// A row drawn from a provider.
pub open spec fn row_matches(r: ProviderRow, p: Provider, selected: bool) -> bool {
    &&& r.status == p.status
    &&& r.icon@ == status_icon(p.status)
    &&& r.name@ == p.name@
    &&& r.detail@ == " \u{b7} "@ + p.id@
    &&& r.selected == selected
}

/// Why the known list is empty: a failed search, no provider at all, or
/// no match for the search.
pub open spec fn empty_list_notice(d: ProviderDialog) -> Seq<char> {
    if d.providers@.len() == 0 {
        "No known providers available. Switch to Custom to enter an endpoint manually."@
    } else {
        match d.resolve_error {
            Some(e) => "Resolve failed: "@ + e@,
            None => if trim_spec(d.search_query@).len() == 0 {
                "No known providers available."@
            } else {
                "No known match. Press Enter to use the current search text as a custom provider id."@
            },
        }
    }
}

/// The highlighted row, the first when none is.
pub open spec fn selected_or_first(d: ProviderDialog) -> usize {
    match d.selected {
        Some(s) => s,
        None => 0,
    }
}

/// The body of the list screen with `viewport` rows of room.
pub open spec fn body_matches(b: ProviderListBody, d: ProviderDialog, viewport: usize) -> bool {
    match d.connect_mode {
        ProviderConnectMode::Known => {
            let visible = d.visible_spec();
            if d.providers@.len() == 0 || visible.len() == 0 {
                b matches ProviderListBody::Notice(m) && m@ == empty_list_notice(d)
            } else if viewport == 0 {
                b matches ProviderListBody::Rows { scroll, rows, scrollbar } && scroll == 0 && rows@.len() == 0
                    && !scrollbar
            } else {
                let sel = selected_or_first(d);
                let scroll = list_scroll(sel, viewport);
                let end = if scroll + viewport <= visible.len() { scroll + viewport } else { visible.len() as int };
                b matches ProviderListBody::Rows { scroll: s, rows, scrollbar } && s == scroll
                    && scrollbar == (visible.len() > viewport) && rows@.len() == if scroll < end {
                    end - scroll
                } else {
                    0
                } && forall|k: int|
                    0 <= k < rows@.len() ==> row_matches(
                        #[trigger] rows@[k],
                        visible[scroll + k],
                        scroll + k == sel,
                    )
            }
        },
        ProviderConnectMode::Custom => b matches ProviderListBody::Custom(lines) && lines_view(lines@)
            == custom_intro(d.submit_result),
    }
}

pub open spec fn lines_view(v: Seq<(String, ProviderLineTone)>) -> Seq<(Seq<char>, ProviderLineTone)> {
    v.map_values(|l: (String, ProviderLineTone)| (l.0@, l.1))
}

/// The custom mode's explanation, and the last submission's outcome.
pub open spec fn custom_intro(result: Option<SubmitResult>) -> Seq<(Seq<char>, ProviderLineTone)> {
    seq![
        ("Custom provider setup"@, ProviderLineTone::Heading),
        (Seq::empty(), ProviderLineTone::Plain),
        ("You will be prompted for:"@, ProviderLineTone::Plain),
        ("  1. Provider ID"@, ProviderLineTone::Plain),
        ("  2. Base URL"@, ProviderLineTone::Plain),
        ("  3. Protocol"@, ProviderLineTone::Plain),
        ("  4. API Key"@, ProviderLineTone::Plain),
    ] + match result {
        Some(SubmitResult::Success) => seq![
            (Seq::empty(), ProviderLineTone::Plain),
            ("\u{2713} Connected successfully!"@, ProviderLineTone::Success),
        ],
        Some(SubmitResult::Failed(msg)) => seq![
            (Seq::empty(), ProviderLineTone::Plain),
            ("\u{2717} "@ + msg@, ProviderLineTone::Error),
        ],
        None => Seq::empty(),
    }
}

/// The footer: counts and keys in the known mode, the custom mode's keys
/// otherwise.
pub open spec fn footer_text(d: ProviderDialog) -> Seq<Seq<char>> {
    match d.connect_mode {
        ProviderConnectMode::Known => {
            let total = decimal(d.providers@.len());
            let visible = decimal(d.visible_spec().len());
            let sel = match d.selected {
                Some(s) => decimal((s + 1) as nat),
                None => decimal(0),
            };
            seq![
                if trim_spec(d.search_query@).len() == 0 {
                    total + " known providers \u{b7} "@ + sel + "/"@ + visible + " selected"@
                } else {
                    visible + " matches \u{b7} "@ + sel + "/"@ + visible + " selected \u{b7} "@ + total + " total known"@
                },
                "Type to search  \u{2190}/\u{2192} or Tab switch mode  \u{2191}\u{2193} select  Enter quick connect/custom fallback  A advanced  Esc clear/close"@,
            ]
        },
        ProviderConnectMode::Custom => seq![
            "Manual provider setup"@,
            "\u{2190}/\u{2192} or Tab switch mode  Enter start custom setup  Esc close"@,
        ],
    }
}

fn make_row(p: &Provider, selected: bool) -> (r: ProviderRow)
    ensures
        row_matches(r, *p, selected),
{
    let icon = match p.status {
        ProviderStatus::Connected => "\u{25cf}",
        ProviderStatus::Disconnected => "\u{25ef}",
        ProviderStatus::Error => "\u{2717}",
    };
    let mut detail = chars_of(" \u{b7} ");
    push_all(&mut detail, &chars_of(p.id.as_str()));
    ProviderRow {
        status: p.status,
        icon: string_from_chars(&chars_of(icon)),
        name: p.name.clone(),
        detail: string_from_chars(&detail),
        selected,
    }
}

fn count_text(n: usize) -> (r: Vec<char>)
    ensures
        r@ == decimal(n as nat),
{
    u64_decimal(n as u64)
}

impl ProviderDialog {
    fn list_body(&self, viewport_rows: usize) -> (r: ProviderListBody)
        ensures
            body_matches(r, *self, viewport_rows),
    {
        match self.connect_mode {
            ProviderConnectMode::Known => {
                let blank = self.search_is_blank();
                let visible: &Vec<Provider> = if blank { &self.providers } else { &self.resolved_matches };
                assert(visible@ == self.visible_spec());
                if self.providers.len() == 0 || visible.len() == 0 {
                    let msg = if self.providers.len() == 0 {
                        chars_of("No known providers available. Switch to Custom to enter an endpoint manually.")
                    } else {
                        match &self.resolve_error {
                            Some(e) => {
                                let mut m = chars_of("Resolve failed: ");
                                push_all(&mut m, &chars_of(e.as_str()));
                                m
                            },
                            None => if blank {
                                chars_of("No known providers available.")
                            } else {
                                chars_of(
                                    "No known match. Press Enter to use the current search text as a custom provider id.",
                                )
                            },
                        }
                    };
                    return ProviderListBody::Notice(string_from_chars(&msg));
                }
                if viewport_rows == 0 {
                    return ProviderListBody::Rows { scroll: 0, rows: Vec::new(), scrollbar: false };
                }
                let sel = match self.selected {
                    Some(s) => s,
                    None => 0,
                };
                let scroll = if sel >= viewport_rows { sel - (viewport_rows - 1) } else { 0 };
                let n = visible.len();
                let end = if scroll <= n && viewport_rows <= n - scroll { scroll + viewport_rows } else { n };
                let mut rows: Vec<ProviderRow> = Vec::new();
                let mut i = scroll;
                while i < end
                    invariant
                        scroll <= i <= end || (end < scroll && i == scroll),
                        end <= n,
                        n == visible@.len(),
                        rows@.len() == i - scroll,
                        forall|k: int|
                            0 <= k < rows@.len() ==> row_matches(
                                #[trigger] rows@[k],
                                visible@[scroll + k],
                                scroll + k == sel,
                            ),
                    decreases end - i,
                {
                    rows.push(make_row(&visible[i], i == sel));
                    i = i + 1;
                }
                ProviderListBody::Rows { scroll, rows, scrollbar: n > viewport_rows }
            },
            ProviderConnectMode::Custom => {
                let mut lines: Vec<(String, ProviderLineTone)> = Vec::new();
                lines.push((string_from_chars(&chars_of("Custom provider setup")), ProviderLineTone::Heading));
                lines.push((String::new(), ProviderLineTone::Plain));
                lines.push((string_from_chars(&chars_of("You will be prompted for:")), ProviderLineTone::Plain));
                lines.push((string_from_chars(&chars_of("  1. Provider ID")), ProviderLineTone::Plain));
                lines.push((string_from_chars(&chars_of("  2. Base URL")), ProviderLineTone::Plain));
                lines.push((string_from_chars(&chars_of("  3. Protocol")), ProviderLineTone::Plain));
                lines.push((string_from_chars(&chars_of("  4. API Key")), ProviderLineTone::Plain));
                match &self.submit_result {
                    Some(SubmitResult::Success) => {
                        lines.push((String::new(), ProviderLineTone::Plain));
                        lines.push(
                            (string_from_chars(&chars_of("\u{2713} Connected successfully!")), ProviderLineTone::Success),
                        );
                    },
                    Some(SubmitResult::Failed(msg)) => {
                        lines.push((String::new(), ProviderLineTone::Plain));
                        let mut t = chars_of("\u{2717} ");
                        push_all(&mut t, &chars_of(msg.as_str()));
                        lines.push((string_from_chars(&t), ProviderLineTone::Error));
                    },
                    None => {},
                }
                assert(lines_view(lines@) =~= custom_intro(self.submit_result));
                ProviderListBody::Custom(lines)
            },
        }
    }

    fn list_footer(&self) -> (r: Vec<String>)
        requires
            self.selected matches Some(s) ==> s < usize::MAX,
        ensures
            r@.map_values(|s: String| s@) == footer_text(*self),
    {
        let mut out: Vec<String> = Vec::new();
        match self.connect_mode {
            ProviderConnectMode::Known => {
                let total = count_text(self.providers.len());
                let blank = self.search_is_blank();
                let vis = if blank { self.providers.len() } else { self.resolved_matches.len() };
                let visible = count_text(vis);
                let sel = match self.selected {
                    Some(s) => count_text(s + 1),
                    None => count_text(0),
                };
                let mut t: Vec<char>;
                if blank {
                    t = total;
                    push_all(&mut t, &chars_of(" known providers \u{b7} "));
                    push_all(&mut t, &sel);
                    push_all(&mut t, &chars_of("/"));
                    push_all(&mut t, &visible);
                    push_all(&mut t, &chars_of(" selected"));
                } else {
                    t = visible.clone();
                    push_all(&mut t, &chars_of(" matches \u{b7} "));
                    push_all(&mut t, &sel);
                    push_all(&mut t, &chars_of("/"));
                    push_all(&mut t, &visible);
                    push_all(&mut t, &chars_of(" selected \u{b7} "));
                    push_all(&mut t, &total);
                    push_all(&mut t, &chars_of(" total known"));
                }
                out.push(string_from_chars(&t));
                out.push(
                    string_from_chars(
                        &chars_of(
                            "Type to search  \u{2190}/\u{2192} or Tab switch mode  \u{2191}\u{2193} select  Enter quick connect/custom fallback  A advanced  Esc clear/close",
                        ),
                    ),
                );
            },
            ProviderConnectMode::Custom => {
                out.push(string_from_chars(&chars_of("Manual provider setup")));
                out.push(
                    string_from_chars(&chars_of("\u{2190}/\u{2192} or Tab switch mode  Enter start custom setup  Esc close")),
                );
            },
        }
        assert(out@.map_values(|s: String| s@) =~= footer_text(*self));
        out
    }

    /// What the list screen shows with room for `viewport_rows` rows of
    /// providers.
    pub fn list_view(&self, viewport_rows: usize) -> (r: ProviderListView)
        requires
            self.selected matches Some(s) ==> s < usize::MAX,
        ensures
            r.known_active == (self.connect_mode == ProviderConnectMode::Known),
            r.subtitle@ == subtitle_text(self.connect_mode),
            r.search_line@ == "Search: "@ + self.search_query@,
            body_matches(r.body, *self, viewport_rows),
            r.footer@.map_values(|s: String| s@) == footer_text(*self),
    {
        let subtitle = match self.connect_mode {
            ProviderConnectMode::Known => "Search a known provider. Enter connects quickly; A opens advanced editing.",
            ProviderConnectMode::Custom => "Create a custom provider with provider id, base URL, protocol and API key.",
        };
        let mut search = chars_of("Search: ");
        push_all(&mut search, &chars_of(self.search_query.as_str()));
        ProviderListView {
            known_active: self.connect_mode == ProviderConnectMode::Known,
            subtitle: string_from_chars(&chars_of(subtitle)),
            search_line: string_from_chars(&search),
            body: self.list_body(viewport_rows),
            footer: self.list_footer(),
        }
    }
}

// ---------------------------------------------------------------------------
// The custom-provider steps
// ---------------------------------------------------------------------------

/// The chars that make up the first `b` bytes, when a char ends there.
pub open spec fn boundary_chars(s: Seq<char>, b: int) -> int {
    choose|c: int| 0 <= c <= s.len() && #[trigger] utf8_len(s.take(c)) == b
}

proof fn lemma_boundary_chars(s: Seq<char>, b: int, c: int)
    requires
        0 <= c <= s.len(),
        utf8_len(s.take(c)) == b,
    ensures
        boundary_chars(s, b) == c,
{
    let d = boundary_chars(s, b);
    assert(0 <= d <= s.len() && utf8_len(s.take(d)) == b);
    if d < c {
        lemma_utf8_take_increasing(s, d, c);
    } else if c < d {
        lemma_utf8_take_increasing(s, c, d);
    }
}

pub open spec fn stars(n: nat) -> Seq<char> {
    Seq::new(n, |i: int| '*')
}

/// An API key past its first four bytes shown as stars, one per byte.
pub open spec fn masked_key(k: Seq<char>) -> Seq<char> {
    if utf8_len(k) > 4 {
        k.take(boundary_chars(k, 4)) + stars((utf8_len(k) - 4) as nat)
    } else {
        k
    }
}

/// A message longer than 48 bytes cut to its first 45 and `...`.
pub open spec fn truncated_message(m: Seq<char>) -> Seq<char> {
    if utf8_len(m) > 48 {
        m.take(boundary_chars(m, 45)) + "..."@
    } else {
        m
    }
}

pub open spec fn step_label(step: CustomProviderStep) -> Seq<char> {
    match step {
        CustomProviderStep::ProviderId => "Provider ID"@,
        CustomProviderStep::BaseUrl => "Base URL"@,
        CustomProviderStep::Protocol => "Protocol"@,
        CustomProviderStep::ApiKey => "API Key"@,
    }
}

pub open spec fn step_number(step: CustomProviderStep) -> nat {
    match step {
        CustomProviderStep::ProviderId => 1,
        CustomProviderStep::BaseUrl => 2,
        CustomProviderStep::Protocol => 3,
        CustomProviderStep::ApiKey => 4,
    }
}

/// The input line: what was typed after `> ` and a block cursor.
pub open spec fn input_line(text: Seq<char>) -> Seq<(Seq<char>, PreviewStyle)> {
    styled("> "@ + text + "\u{2588}"@, PreviewStyle::Primary)
}

/// A protocol of the list, marked and highlighted when it is chosen.
pub open spec fn protocol_line(name: String, chosen: bool) -> Seq<(Seq<char>, PreviewStyle)> {
    if chosen {
        styled("\u{203a} "@ + name@, PreviewStyle::Highlighted)
    } else {
        styled("  "@ + name@, PreviewStyle::Muted)
    }
}

pub open spec fn protocol_lines(names: Seq<String>, index: usize) -> Seq<Seq<(Seq<char>, PreviewStyle)>> {
    Seq::new(names.len(), |i: int| protocol_line(names[i], i == index))
}

/// The keys line: Up/Down, Enter and Esc on the protocol step; Enter and
/// Esc otherwise, Enter connecting on the last step.
pub open spec fn hint_line(step: CustomProviderStep) -> Seq<(Seq<char>, PreviewStyle)> {
    match step {
        CustomProviderStep::Protocol => seq![
            ("\u{2191}\u{2193}"@, PreviewStyle::Text),
            (" select  "@, PreviewStyle::Muted),
            ("Enter"@, PreviewStyle::Text),
            (" next  "@, PreviewStyle::Muted),
            ("Esc"@, PreviewStyle::Text),
            (" back"@, PreviewStyle::Muted),
        ],
        _ => seq![
            ("Enter"@, PreviewStyle::Text),
            (if step == CustomProviderStep::ApiKey { " connect  "@ } else { " next  "@ }, PreviewStyle::Muted),
            ("Esc"@, PreviewStyle::Text),
            (" back"@, PreviewStyle::Muted),
        ],
    }
}

/// The custom-provider screen: the step, its field (the protocols listed
/// by name on the protocol step, the key masked), the last submission's
/// outcome and the keys. Nothing when no custom flow runs.
pub open spec fn custom_input_spec(d: ProviderDialog, names: Seq<String>) -> Option<Seq<Seq<(Seq<char>, PreviewStyle)>>> {
    match d.custom_state {
        None => None,
        Some(st) => Some(
            seq![
                styled("Add Custom Provider (Step "@ + decimal(step_number(st.step)) + "/4)"@, PreviewStyle::Heading),
                Seq::empty(),
                styled(step_label(st.step) + ":"@, PreviewStyle::Text),
            ] + match st.step {
                CustomProviderStep::ProviderId => seq![input_line(st.provider_id@)],
                CustomProviderStep::BaseUrl => seq![input_line(st.base_url@)],
                CustomProviderStep::Protocol => seq![Seq::empty()] + protocol_lines(names, d.protocol_index),
                CustomProviderStep::ApiKey => seq![input_line(masked_key(st.api_key@))],
            } + seq![Seq::empty()] + match d.submit_result {
                Some(SubmitResult::Success) => seq![
                    styled("\u{2713} Connected successfully!"@, PreviewStyle::Success),
                    Seq::empty(),
                ],
                Some(SubmitResult::Failed(m)) => seq![
                    styled("\u{2717} "@ + truncated_message(m@), PreviewStyle::Error),
                    Seq::empty(),
                ],
                None => Seq::empty(),
            } + seq![hint_line(st.step)],
        ),
    }
}

fn masked_key_exec(key: &str) -> (r: Vec<char>)
    requires
        utf8_len(key@) > 4 ==> is_byte_boundary(key@, 4),
    ensures
        r@ == masked_key(key@),
{
    let k = chars_of(key);
    let n = utf8_len_of(&k);
    if n > 4 {
        match chars_in_bytes(&k, 4) {
            Some(c) => {
                proof {
                    lemma_boundary_chars(k@, 4, c as int);
                }
                let mut out = slice_chars(&k, 0, c);
                assert(out@ =~= k@.take(c as int));
                let ghost head = out@;
                let mut i: u128 = 0;
                while i < n - 4
                    invariant
                        n > 4,
                        i <= n - 4,
                        out@ == head + stars(i as nat),
                    decreases n - 4 - i,
                {
                    out.push('*');
                    assert(out@ =~= head + stars((i + 1) as nat));
                    i = i + 1;
                }
                out
            },
            None => k,
        }
    } else {
        k
    }
}

fn truncated_exec(m: &str) -> (r: Vec<char>)
    requires
        utf8_len(m@) > 48 ==> is_byte_boundary(m@, 45),
    ensures
        r@ == truncated_message(m@),
{
    let k = chars_of(m);
    if utf8_len_of(&k) > 48 {
        match chars_in_bytes(&k, 45) {
            Some(c) => {
                proof {
                    lemma_boundary_chars(k@, 45, c as int);
                }
                let mut out = slice_chars(&k, 0, c);
                assert(out@ =~= k@.take(c as int));
                push_all(&mut out, &chars_of("..."));
                out
            },
            None => k,
        }
    } else {
        k
    }
}

fn push_spans(out: &mut Vec<PreviewLine>, spans: Vec<PreviewSpan>)
    ensures
        styled_lines(final(out)@) == styled_lines(old(out)@).push(
            spans@.map_values(|s: PreviewSpan| crate::tui::skill_hub_view::span_view(s)),
        ),
{
    let line = PreviewLine { spans };
    out.push(line);
    assert(styled_lines(out@) =~= styled_lines(old(out)@).push(line_view(line)));
}

fn span(text: &str, style: PreviewStyle) -> (r: PreviewSpan)
    ensures
        crate::tui::skill_hub_view::span_view(r) == (text@, style),
{
    PreviewSpan { text: string_from_chars(&chars_of(text)), style }
}

fn push_input(out: &mut Vec<PreviewLine>, text: &[char])
    ensures
        styled_lines(final(out)@) == styled_lines(old(out)@).push(input_line(text@)),
{
    let mut t = chars_of("> ");
    push_all(&mut t, text);
    push_all(&mut t, &chars_of("\u{2588}"));
    push_styled(out, &t, PreviewStyle::Primary);
}

fn push_hint(out: &mut Vec<PreviewLine>, step: CustomProviderStep)
    ensures
        styled_lines(final(out)@) == styled_lines(old(out)@).push(hint_line(step)),
{
    let mut spans: Vec<PreviewSpan> = Vec::new();
    match step {
        CustomProviderStep::Protocol => {
            spans.push(span("\u{2191}\u{2193}", PreviewStyle::Text));
            spans.push(span(" select  ", PreviewStyle::Muted));
            spans.push(span("Enter", PreviewStyle::Text));
            spans.push(span(" next  ", PreviewStyle::Muted));
            spans.push(span("Esc", PreviewStyle::Text));
            spans.push(span(" back", PreviewStyle::Muted));
        },
        _ => {
            spans.push(span("Enter", PreviewStyle::Text));
            spans.push(
                span(if step == CustomProviderStep::ApiKey { " connect  " } else { " next  " }, PreviewStyle::Muted),
            );
            spans.push(span("Esc", PreviewStyle::Text));
            spans.push(span(" back", PreviewStyle::Muted));
        },
    }
    assert(spans@.map_values(|s: PreviewSpan| crate::tui::skill_hub_view::span_view(s)) =~= hint_line(step));
    push_spans(out, spans);
}

impl ProviderDialog {
    /// What the custom-provider screen shows; `protocol_names` are the
    /// display names of `protocol_options`, in the same order. Nothing
    /// when no custom flow runs.
    pub fn custom_input_view(&self, protocol_names: &Vec<String>) -> (r: Option<Vec<PreviewLine>>)
        requires
            match self.custom_state {
                Some(st) => (st.step == CustomProviderStep::ApiKey && utf8_len(st.api_key@) > 4) ==> is_byte_boundary(
                    st.api_key@,
                    4,
                ),
                None => true,
            },
            self.custom_state is Some ==> match self.submit_result {
                Some(SubmitResult::Failed(m)) => utf8_len(m@) > 48 ==> is_byte_boundary(m@, 45),
                _ => true,
            },
        ensures
            match r {
                Some(v) => custom_input_spec(*self, protocol_names@) == Some(styled_lines(v@)),
                None => custom_input_spec(*self, protocol_names@) is None,
            },
    {
        let st = match &self.custom_state {
            Some(st) => st,
            None => return None,
        };
        let (label, num) = match st.step {
            CustomProviderStep::ProviderId => ("Provider ID", 1u64),
            CustomProviderStep::BaseUrl => ("Base URL", 2u64),
            CustomProviderStep::Protocol => ("Protocol", 3u64),
            CustomProviderStep::ApiKey => ("API Key", 4u64),
        };
        let mut out: Vec<PreviewLine> = Vec::new();
        let mut t = chars_of("Add Custom Provider (Step ");
        push_all(&mut t, &u64_decimal(num));
        push_all(&mut t, &chars_of("/4)"));
        push_styled(&mut out, &t, PreviewStyle::Heading);
        push_blank(&mut out);
        let mut l = chars_of(label);
        push_all(&mut l, &chars_of(":"));
        push_styled(&mut out, &l, PreviewStyle::Text);
        let ghost head = styled_lines(out@);
        match st.step {
            CustomProviderStep::ProviderId => push_input(&mut out, &chars_of(st.provider_id.as_str())),
            CustomProviderStep::BaseUrl => push_input(&mut out, &chars_of(st.base_url.as_str())),
            CustomProviderStep::Protocol => {
                push_blank(&mut out);
                let ghost base = styled_lines(out@);
                let mut i: usize = 0;
                while i < protocol_names.len()
                    invariant
                        0 <= i <= protocol_names@.len(),
                        styled_lines(out@) == base + protocol_lines(protocol_names@, self.protocol_index).take(i as int),
                    decreases protocol_names.len() - i,
                {
                    let chosen = i == self.protocol_index;
                    let mut x = if chosen { chars_of("\u{203a} ") } else { chars_of("  ") };
                    push_all(&mut x, &chars_of(protocol_names[i].as_str()));
                    push_styled(&mut out, &x, if chosen { PreviewStyle::Highlighted } else { PreviewStyle::Muted });
                    assert(protocol_lines(protocol_names@, self.protocol_index).take(i + 1) =~= protocol_lines(
                        protocol_names@,
                        self.protocol_index,
                    ).take(i as int).push(protocol_line(protocol_names@[i as int], chosen)));
                    i = i + 1;
                }
                assert(protocol_lines(protocol_names@, self.protocol_index).take(protocol_names@.len() as int)
                    =~= protocol_lines(protocol_names@, self.protocol_index));
            },
            CustomProviderStep::ApiKey => push_input(&mut out, &masked_key_exec(st.api_key.as_str())),
        }
        let ghost mid = styled_lines(out@);
        push_blank(&mut out);
        match &self.submit_result {
            Some(SubmitResult::Success) => {
                push_styled(&mut out, &chars_of("\u{2713} Connected successfully!"), PreviewStyle::Success);
                push_blank(&mut out);
            },
            Some(SubmitResult::Failed(m)) => {
                let mut e = chars_of("\u{2717} ");
                push_all(&mut e, &truncated_exec(m.as_str()));
                push_styled(&mut out, &e, PreviewStyle::Error);
                push_blank(&mut out);
            },
            None => {},
        }
        push_hint(&mut out, st.step);
        proof {
            reveal_strlit("Provider ID");
            reveal_strlit("Base URL");
            reveal_strlit("Protocol");
            reveal_strlit("API Key");
        }
        assert(styled_lines(out@) =~= custom_input_spec(*self, protocol_names@)->0);
        Some(out)
    }
}

// ---------------------------------------------------------------------------
// The key screen of a known provider
// ---------------------------------------------------------------------------

pub open spec fn opt_text(o: Option<String>) -> Seq<char> {
    match o {
        Some(t) => t@,
        None => Seq::empty(),
    }
}

/// A `label: value` line, the label muted.
pub open spec fn field_line(label: Seq<char>, value: Seq<char>, style: PreviewStyle) -> Seq<(Seq<char>, PreviewStyle)> {
    seq![(label, PreviewStyle::Muted), (value, style)]
}

/// The outcome of the last submission and a blank line; nothing before
/// any.
pub open spec fn submit_lines(result: Option<SubmitResult>) -> Seq<Seq<(Seq<char>, PreviewStyle)>> {
    match result {
        Some(SubmitResult::Success) => seq![
            styled("\u{2713} Connected successfully!"@, PreviewStyle::Success),
            Seq::empty(),
        ],
        Some(SubmitResult::Failed(m)) => seq![
            styled("\u{2717} "@ + truncated_message(m@), PreviewStyle::Error),
            Seq::empty(),
        ],
        None => Seq::empty(),
    }
}

/// The key screen of a known provider: its name, env variable, base URL
/// and protocol (empty when unknown), the masked key being typed, the last
/// submission's outcome and the keys.
pub open spec fn known_input_spec(d: ProviderDialog) -> Seq<Seq<(Seq<char>, PreviewStyle)>> {
    let (name, env, base, protocol) = match d.selected_provider {
        Some(p) => (p.name@, p.env_hint@, opt_text(p.base_url), opt_text(p.protocol)),
        None => (Seq::empty(), Seq::empty(), Seq::empty(), Seq::empty()),
    };
    seq![
        styled(name, PreviewStyle::Heading),
        Seq::empty(),
        field_line("Env: "@, env, PreviewStyle::Warning),
        field_line("Base URL: "@, base, PreviewStyle::Text),
        field_line("Protocol: "@, protocol, PreviewStyle::Text),
        Seq::empty(),
        styled("Enter API Key:"@, PreviewStyle::Text),
        input_line(masked_key(d.api_key_input@)),
        Seq::empty(),
    ] + submit_lines(d.submit_result) + seq![
        seq![
            ("Enter"@, PreviewStyle::Text),
            (" connect  "@, PreviewStyle::Muted),
            ("Esc"@, PreviewStyle::Text),
            (" back"@, PreviewStyle::Muted),
        ],
    ]
}

fn push_field(out: &mut Vec<PreviewLine>, label: &str, value: &[char], style: PreviewStyle)
    ensures
        styled_lines(final(out)@) == styled_lines(old(out)@).push(field_line(label@, value@, style)),
{
    let mut spans: Vec<PreviewSpan> = Vec::new();
    spans.push(span(label, PreviewStyle::Muted));
    spans.push(PreviewSpan { text: string_from_chars(value), style });
    assert(spans@.map_values(|s: PreviewSpan| crate::tui::skill_hub_view::span_view(s)) =~= field_line(
        label@,
        value@,
        style,
    ));
    push_spans(out, spans);
}

fn opt_chars(o: &Option<String>) -> (r: Vec<char>)
    ensures
        r@ == opt_text(*o),
{
    match o {
        Some(t) => chars_of(t.as_str()),
        None => Vec::new(),
    }
}

impl ProviderDialog {
    /// What the key screen of a known provider shows.
    pub fn input_view(&self) -> (r: Vec<PreviewLine>)
        requires
            utf8_len(self.api_key_input@) > 4 ==> is_byte_boundary(self.api_key_input@, 4),
            match self.submit_result {
                Some(SubmitResult::Failed(m)) => utf8_len(m@) > 48 ==> is_byte_boundary(m@, 45),
                _ => true,
            },
        ensures
            styled_lines(r@) == known_input_spec(*self),
    {
        let (name, env, base, protocol) = match &self.selected_provider {
            Some(p) => (
                chars_of(p.name.as_str()),
                chars_of(p.env_hint.as_str()),
                opt_chars(&p.base_url),
                opt_chars(&p.protocol),
            ),
            None => (Vec::new(), Vec::new(), Vec::new(), Vec::new()),
        };
        let mut out: Vec<PreviewLine> = Vec::new();
        push_styled(&mut out, &name, PreviewStyle::Heading);
        push_blank(&mut out);
        push_field(&mut out, "Env: ", &env, PreviewStyle::Warning);
        push_field(&mut out, "Base URL: ", &base, PreviewStyle::Text);
        push_field(&mut out, "Protocol: ", &protocol, PreviewStyle::Text);
        push_blank(&mut out);
        push_styled(&mut out, &chars_of("Enter API Key:"), PreviewStyle::Text);
        push_input(&mut out, &masked_key_exec(self.api_key_input.as_str()));
        push_blank(&mut out);
        let ghost head = styled_lines(out@);
        match &self.submit_result {
            Some(SubmitResult::Success) => {
                push_styled(&mut out, &chars_of("\u{2713} Connected successfully!"), PreviewStyle::Success);
                push_blank(&mut out);
            },
            Some(SubmitResult::Failed(m)) => {
                let mut e = chars_of("\u{2717} ");
                push_all(&mut e, &truncated_exec(m.as_str()));
                push_styled(&mut out, &e, PreviewStyle::Error);
                push_blank(&mut out);
            },
            None => {},
        }
        assert(styled_lines(out@) =~= head + submit_lines(self.submit_result));
        let mut spans: Vec<PreviewSpan> = Vec::new();
        spans.push(span("Enter", PreviewStyle::Text));
        spans.push(span(" connect  ", PreviewStyle::Muted));
        spans.push(span("Esc", PreviewStyle::Text));
        spans.push(span(" back", PreviewStyle::Muted));
        assert(spans@.map_values(|s: PreviewSpan| crate::tui::skill_hub_view::span_view(s)) =~= seq![
            ("Enter"@, PreviewStyle::Text),
            (" connect  "@, PreviewStyle::Muted),
            ("Esc"@, PreviewStyle::Text),
            (" back"@, PreviewStyle::Muted),
        ]);
        push_spans(&mut out, spans);
        assert(styled_lines(out@) =~= known_input_spec(*self));
        out
    }
}

} // verus!
