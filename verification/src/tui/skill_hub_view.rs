//! What the skill list says of the hub beside the catalogue: the preview
//! pane's summary of sources, plans, distributions and guard runs, and the
//! governance timeline under it, line by line with the style of each span.
use vstd::prelude::*;
use crate::text::{chars_of, decimal, i64_decimal, push_all, signed_decimal, string_from_chars, u64_decimal};
use crate::tui::app_state::{eq_ignore_ascii_case, eq_ignore_ascii_case_spec};
use crate::tui::skill_editor::{
    bytes_text, duration_ms_text, duration_seconds_text, format_bytes, format_duration_ms,
    format_duration_seconds, status_text, timeline_status_label, timeline_timestamp_label,
    timestamp_text,
};
use crate::tui::skill_governance::{focused_spec, lemma_focused_in_range};
use crate::text::chars_eq;
use crate::tui::skill_list::{
    find_named, first_named, opt_view, remote_target, SkillBrowsePane, SkillListDialog,
};
use crate::tui::skill_list::selected_position;
use crate::types::skill::{
    ManagedSkillRecord, SkillGovernanceTimelineEntry, SkillGovernanceTimelineStatus, SkillGuardViolation,
    SkillArtifactCacheEntry, SkillArtifactCacheStatus, SkillDistributionRecord, SkillGuardStatus,
    SkillManagedLifecycleRecord, SkillManagedLifecycleState, SkillRemoteInstallAction,
    SkillSourceIndexEntry, SkillSourceIndexSnapshot, SkillSourceRef, SkillSyncAction,
};

verus! {

/// How a span is drawn: the theme's colour, and bold for headings and
/// titles.
#[derive(Clone, Copy, Debug, PartialEq, Eq, Structural)]
pub enum PreviewStyle {
    Heading,
    Text,
    Highlighted,
    Primary,
    Muted,
    Title,
    Success,
    Warning,
    Error,
}

#[derive(Clone, Debug)]
pub struct PreviewSpan {
    pub text: String,
    pub style: PreviewStyle,
}

/// A line of the pane; a blank line has no span.
#[derive(Clone, Debug)]
pub struct PreviewLine {
    pub spans: Vec<PreviewSpan>,
}

pub open spec fn span_view(s: PreviewSpan) -> (Seq<char>, PreviewStyle) {
    (s.text@, s.style)
}

pub open spec fn line_view(l: PreviewLine) -> Seq<(Seq<char>, PreviewStyle)> {
    l.spans@.map_values(|s: PreviewSpan| span_view(s))
}

pub open spec fn lines_view(v: Seq<PreviewLine>) -> Seq<Seq<(Seq<char>, PreviewStyle)>> {
    v.map_values(|l: PreviewLine| line_view(l))
}

/// A line of one span.
pub open spec fn styled(text: Seq<char>, style: PreviewStyle) -> Seq<(Seq<char>, PreviewStyle)> {
    seq![(text, style)]
}

pub(crate) fn push_styled(out: &mut Vec<PreviewLine>, text: &[char], style: PreviewStyle)
    ensures
        lines_view(final(out)@) == lines_view(old(out)@).push(styled(text@, style)),
{
    let mut spans: Vec<PreviewSpan> = Vec::new();
    spans.push(PreviewSpan { text: string_from_chars(text), style });
    let line = PreviewLine { spans };
    assert(line_view(line) =~= styled(text@, style));
    out.push(line);
    assert(lines_view(out@) =~= lines_view(old(out)@).push(styled(text@, style)));
}

pub(crate) fn push_blank(out: &mut Vec<PreviewLine>)
    ensures
        lines_view(final(out)@) == lines_view(old(out)@).push(Seq::empty()),
{
    let line = PreviewLine { spans: Vec::new() };
    assert(line_view(line) =~= Seq::<(Seq<char>, PreviewStyle)>::empty());
    out.push(line);
    assert(lines_view(out@) =~= lines_view(old(out)@).push(Seq::empty()));
}

fn count_text(n: usize) -> (r: Vec<char>)
    ensures
        r@ == decimal(n as nat),
{
    u64_decimal(n as u64)
}

// ---------------------------------------------------------------------------
// Names of the records' states, as they are printed
// ---------------------------------------------------------------------------

pub open spec fn sync_action_name(a: SkillSyncAction) -> Seq<char> {
    match a {
        SkillSyncAction::Install => "Install"@,
        SkillSyncAction::Update => "Update"@,
        SkillSyncAction::SkipLocalModification => "SkipLocalModification"@,
        SkillSyncAction::SkipDeletedLocally => "SkipDeletedLocally"@,
        SkillSyncAction::RemoveManaged => "RemoveManaged"@,
        SkillSyncAction::Noop => "Noop"@,
    }
}

fn sync_action_text(a: &SkillSyncAction) -> (r: &'static str)
    ensures
        r@ == sync_action_name(*a),
{
    match a {
        SkillSyncAction::Install => "Install",
        SkillSyncAction::Update => "Update",
        SkillSyncAction::SkipLocalModification => "SkipLocalModification",
        SkillSyncAction::SkipDeletedLocally => "SkipDeletedLocally",
        SkillSyncAction::RemoveManaged => "RemoveManaged",
        SkillSyncAction::Noop => "Noop",
    }
}

pub open spec fn remote_action_name(a: SkillRemoteInstallAction) -> Seq<char> {
    match a {
        SkillRemoteInstallAction::Install => "Install"@,
        SkillRemoteInstallAction::Update => "Update"@,
    }
}

fn remote_action_text(a: &SkillRemoteInstallAction) -> (r: &'static str)
    ensures
        r@ == remote_action_name(*a),
{
    match a {
        SkillRemoteInstallAction::Install => "Install",
        SkillRemoteInstallAction::Update => "Update",
    }
}

pub open spec fn lifecycle_state_name(s: SkillManagedLifecycleState) -> Seq<char> {
    match s {
        SkillManagedLifecycleState::Indexed => "Indexed"@,
        SkillManagedLifecycleState::Resolved => "Resolved"@,
        SkillManagedLifecycleState::Fetched => "Fetched"@,
        SkillManagedLifecycleState::PlannedInstall => "PlannedInstall"@,
        SkillManagedLifecycleState::Installed => "Installed"@,
        SkillManagedLifecycleState::UpdateAvailable => "UpdateAvailable"@,
        SkillManagedLifecycleState::Diverged => "Diverged"@,
        SkillManagedLifecycleState::Detached => "Detached"@,
        SkillManagedLifecycleState::RemovePending => "RemovePending"@,
        SkillManagedLifecycleState::Removed => "Removed"@,
        SkillManagedLifecycleState::ResolutionFailed => "ResolutionFailed"@,
        SkillManagedLifecycleState::FetchFailed => "FetchFailed"@,
        SkillManagedLifecycleState::ApplyFailed => "ApplyFailed"@,
    }
}

fn lifecycle_state_text(s: &SkillManagedLifecycleState) -> (r: &'static str)
    ensures
        r@ == lifecycle_state_name(*s),
{
    match s {
        SkillManagedLifecycleState::Indexed => "Indexed",
        SkillManagedLifecycleState::Resolved => "Resolved",
        SkillManagedLifecycleState::Fetched => "Fetched",
        SkillManagedLifecycleState::PlannedInstall => "PlannedInstall",
        SkillManagedLifecycleState::Installed => "Installed",
        SkillManagedLifecycleState::UpdateAvailable => "UpdateAvailable",
        SkillManagedLifecycleState::Diverged => "Diverged",
        SkillManagedLifecycleState::Detached => "Detached",
        SkillManagedLifecycleState::RemovePending => "RemovePending",
        SkillManagedLifecycleState::Removed => "Removed",
        SkillManagedLifecycleState::ResolutionFailed => "ResolutionFailed",
        SkillManagedLifecycleState::FetchFailed => "FetchFailed",
        SkillManagedLifecycleState::ApplyFailed => "ApplyFailed",
    }
}

pub open spec fn cache_status_name(s: SkillArtifactCacheStatus) -> Seq<char> {
    match s {
        SkillArtifactCacheStatus::Fetched => "Fetched"@,
        SkillArtifactCacheStatus::Extracted => "Extracted"@,
        SkillArtifactCacheStatus::Failed => "Failed"@,
        SkillArtifactCacheStatus::Evicted => "Evicted"@,
    }
}

fn cache_status_text(s: &SkillArtifactCacheStatus) -> (r: &'static str)
    ensures
        r@ == cache_status_name(*s),
{
    match s {
        SkillArtifactCacheStatus::Fetched => "Fetched",
        SkillArtifactCacheStatus::Extracted => "Extracted",
        SkillArtifactCacheStatus::Failed => "Failed",
        SkillArtifactCacheStatus::Evicted => "Evicted",
    }
}

pub open spec fn guard_status_name(s: SkillGuardStatus) -> Seq<char> {
    match s {
        SkillGuardStatus::Passed => "Passed"@,
        SkillGuardStatus::Warn => "Warn"@,
        SkillGuardStatus::Blocked => "Blocked"@,
    }
}

fn guard_status_text(s: &SkillGuardStatus) -> (r: &'static str)
    ensures
        r@ == guard_status_name(*s),
{
    match s {
        SkillGuardStatus::Passed => "Passed",
        SkillGuardStatus::Warn => "Warn",
        SkillGuardStatus::Blocked => "Blocked",
    }
}

// ---------------------------------------------------------------------------
// Small pieces of text
// ---------------------------------------------------------------------------

/// An optional text, or `--`.
pub open spec fn or_dash(o: Option<String>) -> Seq<char> {
    match o {
        Some(s) => s@,
        None => "--"@,
    }
}

fn or_dash_text(o: &Option<String>) -> (r: Vec<char>)
    ensures
        r@ == or_dash(*o),
{
    match o {
        Some(s) => chars_of(s.as_str()),
        None => chars_of("--"),
    }
}

/// An optional text when it is there and not empty.
pub open spec fn filled(o: Option<String>) -> Option<Seq<char>> {
    match o {
        Some(s) => if s@.len() > 0 { Some(s@) } else { None },
        None => None,
    }
}

fn filled_text(o: &Option<String>) -> (r: Option<Vec<char>>)
    ensures
        match r {
            Some(v) => filled(*o) == Some(v@),
            None => filled(*o) is None,
        },
{
    match o {
        Some(s) => {
            let v = chars_of(s.as_str());
            if v.len() > 0 { Some(v) } else { None }
        },
        None => None,
    }
}

// ---------------------------------------------------------------------------
// The preview pane, section by section
// ---------------------------------------------------------------------------

pub open spec fn pane_label(p: SkillBrowsePane) -> Seq<char> {
    match p {
        SkillBrowsePane::Preview => "preview"@,
        SkillBrowsePane::Timeline => "timeline"@,
    }
}

/// A source by its id and its revision, or its locator when it has none.
pub open spec fn source_label(s: SkillSourceRef) -> Seq<char> {
    s.source_id@ + " · "@ + match s.revision {
        Some(r) => r@,
        None => s.locator@,
    }
}

/// The source in focus.
pub open spec fn focused_source(d: SkillListDialog) -> Option<SkillSourceRef> {
    if d.selected_hub_source < d.source_indices@.len() {
        Some(d.source_indices@[d.selected_hub_source as int].source)
    } else {
        None
    }
}

/// The counts of the hub's records, and the source in focus.
pub open spec fn header_lines(d: SkillListDialog) -> Seq<Seq<(Seq<char>, PreviewStyle)>> {
    seq![
        styled(
            "Hub: managed "@ + decimal(d.managed_skills@.len()) + " · indexed "@ + decimal(
                d.source_indices@.len(),
            ) + " · distributions "@ + decimal(d.distributions@.len()) + " · artifacts "@
                + decimal(d.artifact_cache@.len()) + " · lifecycle "@ + decimal(
                d.lifecycle_records@.len(),
            ) + " · view "@ + pane_label(d.browse_pane),
            PreviewStyle::Heading,
        ),
        styled(
            "Selected source: "@ + match focused_source(d) {
                Some(s) => source_label(s),
                None => "none"@,
            },
            PreviewStyle::Muted,
        ),
    ]
}

/// The hub's limits, when they are known.
pub open spec fn policy_lines(d: SkillListDialog) -> Seq<Seq<(Seq<char>, PreviewStyle)>> {
    match d.hub_policy {
        Some(p) => seq![
            styled(
                "Policy: retention "@ + duration_seconds_text(p.artifact_cache_retention_seconds)
                    + " · timeout "@ + duration_ms_text(p.fetch_timeout_ms) + " · download "@
                    + bytes_text(p.max_download_bytes) + " · extract "@ + bytes_text(
                    p.max_extract_bytes,
                ),
                PreviewStyle::Muted,
            ),
        ],
        None => Seq::empty(),
    }
}

/// The latest sync plan and its first action.
pub open spec fn plan_lines(d: SkillListDialog) -> Seq<Seq<(Seq<char>, PreviewStyle)>> {
    match d.hub_plan {
        Some(plan) => seq![
            styled(
                "Latest sync plan: "@ + decimal(plan.entries@.len()) + " entries for "@
                    + plan.source_id@,
                PreviewStyle::Muted,
            ),
        ] + if plan.entries@.len() > 0 {
            seq![
                styled(
                    "First action: "@ + plan.entries@[0].skill_name@ + " -> "@ + sync_action_name(
                        plan.entries@[0].action,
                    ),
                    PreviewStyle::Muted,
                ),
            ]
        } else {
            Seq::empty()
        },
        None => Seq::empty(),
    }
}

/// The latest guard run and its first report.
pub open spec fn guard_lines(d: SkillListDialog) -> Seq<Seq<(Seq<char>, PreviewStyle)>> {
    match d.guard_target_label {
        Some(label) => seq![
            styled(
                "Latest guard run: "@ + decimal(d.guard_reports@.len()) + " report(s) for "@
                    + label@,
                PreviewStyle::Muted,
            ),
        ] + if d.guard_reports@.len() > 0 {
            seq![
                styled(
                    "First guard status: "@ + d.guard_reports@[0].skill_name@ + " -> "@
                        + guard_status_name(d.guard_reports@[0].status) + " ("@ + decimal(
                        d.guard_reports@[0].violations@.len(),
                    ) + " violations)"@,
                    PreviewStyle::Muted,
                ),
            ]
        } else {
            Seq::empty()
        },
        None => Seq::empty(),
    }
}

fn push_header(d: &SkillListDialog, out: &mut Vec<PreviewLine>)
    ensures
        lines_view(final(out)@) == lines_view(old(out)@) + header_lines(*d),
{
    let mut t = chars_of("Hub: managed ");
    push_all(&mut t, &count_text(d.managed_skills.len()));
    push_all(&mut t, &chars_of(" · indexed "));
    push_all(&mut t, &count_text(d.source_indices.len()));
    push_all(&mut t, &chars_of(" · distributions "));
    push_all(&mut t, &count_text(d.distributions.len()));
    push_all(&mut t, &chars_of(" · artifacts "));
    push_all(&mut t, &count_text(d.artifact_cache.len()));
    push_all(&mut t, &chars_of(" · lifecycle "));
    push_all(&mut t, &count_text(d.lifecycle_records.len()));
    push_all(&mut t, &chars_of(" · view "));
    let pane = match d.browse_pane {
        SkillBrowsePane::Preview => "preview",
        SkillBrowsePane::Timeline => "timeline",
    };
    push_all(&mut t, &chars_of(pane));
    push_styled(out, &t, PreviewStyle::Heading);
    assert(t@ == header_lines(*d)[0][0].0);

    let mut s = chars_of("Selected source: ");
    match d.selected_hub_source() {
        Some(src) => {
            push_all(&mut s, &chars_of(src.source_id.as_str()));
            push_all(&mut s, &chars_of(" · "));
            match &src.revision {
                Some(r) => push_all(&mut s, &chars_of(r.as_str())),
                None => push_all(&mut s, &chars_of(src.locator.as_str())),
            }
        },
        None => push_all(&mut s, &chars_of("none")),
    }
    assert(s@ == header_lines(*d)[1][0].0);
    push_styled(out, &s, PreviewStyle::Muted);
    assert(lines_view(out@) =~= lines_view(old(out)@) + header_lines(*d));
}

fn push_policy(d: &SkillListDialog, out: &mut Vec<PreviewLine>)
    ensures
        lines_view(final(out)@) == lines_view(old(out)@) + policy_lines(*d),
{
    match &d.hub_policy {
        Some(p) => {
            let mut t = chars_of("Policy: retention ");
            push_all(&mut t, &chars_of(format_duration_seconds(p.artifact_cache_retention_seconds).as_str()));
            push_all(&mut t, &chars_of(" · timeout "));
            push_all(&mut t, &chars_of(format_duration_ms(p.fetch_timeout_ms).as_str()));
            push_all(&mut t, &chars_of(" · download "));
            push_all(&mut t, &chars_of(format_bytes(p.max_download_bytes).as_str()));
            push_all(&mut t, &chars_of(" · extract "));
            push_all(&mut t, &chars_of(format_bytes(p.max_extract_bytes).as_str()));
            push_styled(out, &t, PreviewStyle::Muted);
        },
        None => {},
    }
    assert(lines_view(out@) =~= lines_view(old(out)@) + policy_lines(*d));
}

fn push_plan(d: &SkillListDialog, out: &mut Vec<PreviewLine>)
    ensures
        lines_view(final(out)@) == lines_view(old(out)@) + plan_lines(*d),
{
    match &d.hub_plan {
        Some(plan) => {
            let mut t = chars_of("Latest sync plan: ");
            push_all(&mut t, &count_text(plan.entries.len()));
            push_all(&mut t, &chars_of(" entries for "));
            push_all(&mut t, &chars_of(plan.source_id.as_str()));
            push_styled(out, &t, PreviewStyle::Muted);
            if plan.entries.len() > 0 {
                let e = &plan.entries[0];
                let mut f = chars_of("First action: ");
                push_all(&mut f, &chars_of(e.skill_name.as_str()));
                push_all(&mut f, &chars_of(" -> "));
                push_all(&mut f, &chars_of(sync_action_text(&e.action)));
                push_styled(out, &f, PreviewStyle::Muted);
            }
        },
        None => {},
    }
    assert(lines_view(out@) =~= lines_view(old(out)@) + plan_lines(*d));
}

fn push_guard(d: &SkillListDialog, out: &mut Vec<PreviewLine>)
    ensures
        lines_view(final(out)@) == lines_view(old(out)@) + guard_lines(*d),
{
    match &d.guard_target_label {
        Some(label) => {
            let mut t = chars_of("Latest guard run: ");
            push_all(&mut t, &count_text(d.guard_reports.len()));
            push_all(&mut t, &chars_of(" report(s) for "));
            push_all(&mut t, &chars_of(label.as_str()));
            push_styled(out, &t, PreviewStyle::Muted);
            if d.guard_reports.len() > 0 {
                let rep = &d.guard_reports[0];
                let mut f = chars_of("First guard status: ");
                push_all(&mut f, &chars_of(rep.skill_name.as_str()));
                push_all(&mut f, &chars_of(" -> "));
                push_all(&mut f, &chars_of(guard_status_text(&rep.status)));
                push_all(&mut f, &chars_of(" ("));
                push_all(&mut f, &count_text(rep.violations.len()));
                push_all(&mut f, &chars_of(" violations)"));
                push_styled(out, &f, PreviewStyle::Muted);
            }
        },
        None => {},
    }
    assert(lines_view(out@) =~= lines_view(old(out)@) + guard_lines(*d));
}

// ---------------------------------------------------------------------------
// The remote target: what the hub knows of the skill a remote install aims at
// ---------------------------------------------------------------------------

/// The position of the last item that satisfies `p`.
pub open spec fn last_where<T>(s: Seq<T>, p: spec_fn(T) -> bool) -> Option<int>
    decreases s.len(),
{
    if s.len() == 0 {
        None
    } else if p(s.last()) {
        Some(s.len() - 1)
    } else {
        last_where(s.drop_last(), p)
    }
}

/// When nothing from `i` on satisfies `p`, the last that does lies before.
pub proof fn lemma_last_where_prefix<T>(s: Seq<T>, p: spec_fn(T) -> bool, i: int)
    requires
        0 <= i <= s.len(),
        forall|j: int| i <= j < s.len() ==> !p(#[trigger] s[j]),
    ensures
        last_where(s, p) == last_where(s.take(i), p),
    decreases s.len(),
{
    if i == s.len() {
        assert(s.take(i) =~= s);
    } else {
        assert(!p(s[s.len() - 1]));
        lemma_last_where_prefix(s.drop_last(), p, i);
        assert(s.drop_last().take(i) =~= s.take(i));
    }
}

/// A distribution of the skill, ignoring ASCII case, from the source.
pub open spec fn distribution_matches(source_id: Seq<char>, name: Seq<char>) -> spec_fn(
    SkillDistributionRecord,
) -> bool {
    |r: SkillDistributionRecord|
        r.source.source_id@ == source_id && eq_ignore_ascii_case_spec(r.skill_name@, name)
}

/// A cache entry of the artifact.
pub open spec fn cache_matches(artifact_id: Seq<char>) -> spec_fn(SkillArtifactCacheEntry) -> bool {
    |c: SkillArtifactCacheEntry| c.artifact.artifact_id@ == artifact_id
}

/// A lifecycle record of the skill, ignoring ASCII case, from the source.
pub open spec fn lifecycle_matches(source_id: Seq<char>, name: Seq<char>) -> spec_fn(
    SkillManagedLifecycleRecord,
) -> bool {
    |r: SkillManagedLifecycleRecord|
        r.source_id@ == source_id && eq_ignore_ascii_case_spec(r.skill_name@, name)
}

fn last_distribution(records: &Vec<SkillDistributionRecord>, source_id: &[char], name: &[char]) -> (r:
    Option<usize>)
    ensures
        match r {
            Some(k) => k < records@.len() && last_where(records@, distribution_matches(source_id@, name@)) == Some(k as int),
            None => last_where(records@, distribution_matches(source_id@, name@)) is None,
        },
{
    let ghost p = distribution_matches(source_id@, name@);
    let mut i = records.len();
    while i > 0
        invariant
            0 <= i <= records@.len(),
            p == distribution_matches(source_id@, name@),
            forall|j: int| i <= j < records@.len() ==> !p(#[trigger] records@[j]),
        decreases i,
    {
        let rec = &records[i - 1];
        if chars_eq(&chars_of(rec.source.source_id.as_str()), source_id) && eq_ignore_ascii_case(
            &chars_of(rec.skill_name.as_str()),
            name,
        ) {
            proof {
                lemma_last_where_prefix(records@, p, i as int);
                assert(records@.take(i as int).last() == records@[i - 1]);
            }
            return Some(i - 1);
        }
        i = i - 1;
    }
    proof {
        lemma_last_where_prefix(records@, p, 0);
    }
    None
}

fn last_cache_entry(entries: &Vec<SkillArtifactCacheEntry>, artifact_id: &[char]) -> (r: Option<usize>)
    ensures
        match r {
            Some(k) => k < entries@.len() && last_where(entries@, cache_matches(artifact_id@)) == Some(k as int),
            None => last_where(entries@, cache_matches(artifact_id@)) is None,
        },
{
    let ghost p = cache_matches(artifact_id@);
    let mut i = entries.len();
    while i > 0
        invariant
            0 <= i <= entries@.len(),
            p == cache_matches(artifact_id@),
            forall|j: int| i <= j < entries@.len() ==> !p(#[trigger] entries@[j]),
        decreases i,
    {
        if chars_eq(&chars_of(entries[i - 1].artifact.artifact_id.as_str()), artifact_id) {
            proof {
                lemma_last_where_prefix(entries@, p, i as int);
                assert(entries@.take(i as int).last() == entries@[i - 1]);
            }
            return Some(i - 1);
        }
        i = i - 1;
    }
    proof {
        lemma_last_where_prefix(entries@, p, 0);
    }
    None
}

fn last_lifecycle(records: &Vec<SkillManagedLifecycleRecord>, source_id: &[char], name: &[char]) -> (r:
    Option<usize>)
    ensures
        match r {
            Some(k) => k < records@.len() && last_where(records@, lifecycle_matches(source_id@, name@)) == Some(k as int),
            None => last_where(records@, lifecycle_matches(source_id@, name@)) is None,
        },
{
    let ghost p = lifecycle_matches(source_id@, name@);
    let mut i = records.len();
    while i > 0
        invariant
            0 <= i <= records@.len(),
            p == lifecycle_matches(source_id@, name@),
            forall|j: int| i <= j < records@.len() ==> !p(#[trigger] records@[j]),
        decreases i,
    {
        let rec = &records[i - 1];
        if chars_eq(&chars_of(rec.source_id.as_str()), source_id) && eq_ignore_ascii_case(
            &chars_of(rec.skill_name.as_str()),
            name,
        ) {
            proof {
                lemma_last_where_prefix(records@, p, i as int);
                assert(records@.take(i as int).last() == records@[i - 1]);
            }
            return Some(i - 1);
        }
        i = i - 1;
    }
    proof {
        lemma_last_where_prefix(records@, p, 0);
    }
    None
}

/// The latest remote plan, when it is for the target.
pub open spec fn remote_plan_lines(d: SkillListDialog, name: Seq<char>) -> Seq<Seq<(Seq<char>, PreviewStyle)>> {
    match d.remote_install_plan {
        Some(p) => if eq_ignore_ascii_case_spec(p.entry.skill_name@, name) {
            seq![
                styled(
                    "Latest remote plan: "@ + remote_action_name(p.entry.action) + " via "@
                        + p.source_id@,
                    PreviewStyle::Muted,
                ),
            ]
        } else {
            Seq::empty()
        },
        None => Seq::empty(),
    }
}

/// An index entry's category, revision and description, those it has.
pub open spec fn entry_summary(e: SkillSourceIndexEntry) -> Seq<char> {
    let head = match filled(e.category) {
        Some(c) => c,
        None => "uncategorized"@,
    };
    let revision = match filled(e.revision) {
        Some(r) => " · "@ + r,
        None => Seq::empty(),
    };
    let description = match filled(e.description) {
        Some(x) => " · "@ + x,
        None => Seq::empty(),
    };
    head + revision + description
}

/// The source's index entry for the target.
pub open spec fn index_entry_lines(src: SkillSourceIndexSnapshot, name: Seq<char>) -> Seq<
    Seq<(Seq<char>, PreviewStyle)>,
> {
    match first_named(src.entries@, name) {
        Some(j) => seq![styled("Remote index: "@ + entry_summary(src.entries@[j]), PreviewStyle::Muted)],
        None => Seq::empty(),
    }
}

/// The artifact's latest cache entry, and its error.
pub open spec fn cache_lines(d: SkillListDialog, artifact_id: Seq<char>) -> Seq<Seq<(Seq<char>, PreviewStyle)>> {
    match last_where(d.artifact_cache@, cache_matches(artifact_id)) {
        Some(k) => seq![
            styled(
                "Artifact cache: "@ + cache_status_name(d.artifact_cache@[k].status) + " @ "@
                    + signed_decimal(d.artifact_cache@[k].cached_at as int),
                PreviewStyle::Muted,
            ),
        ] + match filled(d.artifact_cache@[k].error) {
            Some(e) => seq![styled("Artifact error: "@ + e, PreviewStyle::Error)],
            None => Seq::empty(),
        },
        None => Seq::empty(),
    }
}

/// The target's latest distribution from the source, and its artifact.
pub open spec fn distribution_lines(d: SkillListDialog, source_id: Seq<char>, name: Seq<char>) -> Seq<
    Seq<(Seq<char>, PreviewStyle)>,
> {
    match last_where(d.distributions@, distribution_matches(source_id, name)) {
        Some(k) => seq![
            styled(
                "Distribution: "@ + d.distributions@[k].distribution_id@ + " · version "@ + or_dash(
                    d.distributions@[k].release.version,
                ) + " · revision "@ + or_dash(d.distributions@[k].release.revision) + " · "@
                    + lifecycle_state_name(d.distributions@[k].lifecycle),
                PreviewStyle::Muted,
            ),
        ] + cache_lines(d, d.distributions@[k].resolution.artifact.artifact_id@),
        None => Seq::empty(),
    }
}

/// The target's latest lifecycle record from the source, and its error.
pub open spec fn lifecycle_lines(d: SkillListDialog, source_id: Seq<char>, name: Seq<char>) -> Seq<
    Seq<(Seq<char>, PreviewStyle)>,
> {
    match last_where(d.lifecycle_records@, lifecycle_matches(source_id, name)) {
        Some(k) => seq![
            styled(
                "Lifecycle: "@ + lifecycle_state_name(d.lifecycle_records@[k].state) + " @ "@
                    + signed_decimal(d.lifecycle_records@[k].updated_at as int),
                PreviewStyle::Muted,
            ),
        ] + match filled(d.lifecycle_records@[k].error) {
            Some(e) => seq![styled("Lifecycle error: "@ + e, PreviewStyle::Error)],
            None => Seq::empty(),
        },
        None => Seq::empty(),
    }
}

/// An index entry in the list, marked and highlighted when it is the target.
pub open spec fn indexed_entry_line(e: SkillSourceIndexEntry, name: Seq<char>) -> Seq<(Seq<char>, PreviewStyle)> {
    let target = eq_ignore_ascii_case_spec(e.skill_name@, name);
    styled(
        (if target { ">"@ } else { "-"@ }) + " "@ + e.skill_name@ + " ("@ + match e.revision {
            Some(r) => r@,
            None => "unversioned"@,
        } + ")"@,
        if target { PreviewStyle::Primary } else { PreviewStyle::Muted },
    )
}

/// At most the first `n` items.
pub open spec fn first_n<T>(s: Seq<T>, n: nat) -> Seq<T> {
    if s.len() <= n { s } else { s.take(n as int) }
}

/// The source's first six entries under a heading, when it has any.
pub open spec fn indexed_lines(src: SkillSourceIndexSnapshot, name: Seq<char>) -> Seq<Seq<(Seq<char>, PreviewStyle)>> {
    let shown = first_n(src.entries@, 6);
    if shown.len() == 0 {
        Seq::empty()
    } else {
        seq![styled("Indexed remote entries:"@, PreviewStyle::Heading)] + shown.map_values(
            |e: SkillSourceIndexEntry| indexed_entry_line(e, name),
        )
    }
}

/// What the source in focus says of the target.
pub open spec fn source_detail_lines(d: SkillListDialog, src: SkillSourceIndexSnapshot, name: Seq<char>) -> Seq<
    Seq<(Seq<char>, PreviewStyle)>,
> {
    index_entry_lines(src, name) + distribution_lines(d, src.source.source_id@, name) + lifecycle_lines(
        d,
        src.source.source_id@,
        name,
    ) + indexed_lines(src, name)
}

/// The target, and what the hub knows of it.
pub open spec fn target_lines(d: SkillListDialog, name: Seq<char>) -> Seq<Seq<(Seq<char>, PreviewStyle)>> {
    seq![styled("Remote target: "@ + name, PreviewStyle::Muted)] + remote_plan_lines(d, name)
        + if d.selected_hub_source < d.source_indices@.len() {
        source_detail_lines(d, d.source_indices@[d.selected_hub_source as int], name)
    } else {
        Seq::empty()
    }
}

/// The remote target, when there is one, and what the hub knows of it.
pub open spec fn remote_lines(d: SkillListDialog) -> Seq<Seq<(Seq<char>, PreviewStyle)>> {
    match remote_target(d) {
        Some(name) => target_lines(d, name),
        None => Seq::empty(),
    }
}

fn push_remote_plan(d: &SkillListDialog, name: &[char], out: &mut Vec<PreviewLine>)
    ensures
        lines_view(final(out)@) == lines_view(old(out)@) + remote_plan_lines(*d, name@),
{
    match &d.remote_install_plan {
        Some(p) => {
            if eq_ignore_ascii_case(&chars_of(p.entry.skill_name.as_str()), name) {
                let mut t = chars_of("Latest remote plan: ");
                push_all(&mut t, &chars_of(remote_action_text(&p.entry.action)));
                push_all(&mut t, &chars_of(" via "));
                push_all(&mut t, &chars_of(p.source_id.as_str()));
                push_styled(out, &t, PreviewStyle::Muted);
            }
        },
        None => {},
    }
    assert(lines_view(out@) =~= lines_view(old(out)@) + remote_plan_lines(*d, name@));
}

fn entry_summary_text(e: &SkillSourceIndexEntry) -> (r: Vec<char>)
    ensures
        r@ == entry_summary(*e),
{
    let mut t = match filled_text(&e.category) {
        Some(c) => c,
        None => chars_of("uncategorized"),
    };
    match filled_text(&e.revision) {
        Some(r) => {
            push_all(&mut t, &chars_of(" · "));
            push_all(&mut t, &r);
        },
        None => {},
    }
    match filled_text(&e.description) {
        Some(x) => {
            push_all(&mut t, &chars_of(" · "));
            push_all(&mut t, &x);
        },
        None => {},
    }
    t
}

fn push_index_entry(src: &SkillSourceIndexSnapshot, name: &[char], out: &mut Vec<PreviewLine>)
    ensures
        lines_view(final(out)@) == lines_view(old(out)@) + index_entry_lines(*src, name@),
{
    match find_named(&src.entries, name) {
        Some(j) => {
            let mut t = chars_of("Remote index: ");
            push_all(&mut t, &entry_summary_text(&src.entries[j]));
            push_styled(out, &t, PreviewStyle::Muted);
        },
        None => {},
    }
    assert(lines_view(out@) =~= lines_view(old(out)@) + index_entry_lines(*src, name@));
}

fn push_cache(d: &SkillListDialog, artifact_id: &[char], out: &mut Vec<PreviewLine>)
    ensures
        lines_view(final(out)@) == lines_view(old(out)@) + cache_lines(*d, artifact_id@),
{
    match last_cache_entry(&d.artifact_cache, artifact_id) {
        Some(k) => {
            let c = &d.artifact_cache[k];
            let mut t = chars_of("Artifact cache: ");
            push_all(&mut t, &chars_of(cache_status_text(&c.status)));
            push_all(&mut t, &chars_of(" @ "));
            push_all(&mut t, &i64_decimal(c.cached_at));
            push_styled(out, &t, PreviewStyle::Muted);
            match filled_text(&c.error) {
                Some(e) => {
                    let mut x = chars_of("Artifact error: ");
                    push_all(&mut x, &e);
                    push_styled(out, &x, PreviewStyle::Error);
                },
                None => {},
            }
        },
        None => {},
    }
    assert(lines_view(out@) =~= lines_view(old(out)@) + cache_lines(*d, artifact_id@));
}

fn push_distribution(d: &SkillListDialog, source_id: &[char], name: &[char], out: &mut Vec<PreviewLine>)
    ensures
        lines_view(final(out)@) == lines_view(old(out)@) + distribution_lines(*d, source_id@, name@),
{
    match last_distribution(&d.distributions, source_id, name) {
        Some(k) => {
            let r = &d.distributions[k];
            let mut t = chars_of("Distribution: ");
            push_all(&mut t, &chars_of(r.distribution_id.as_str()));
            push_all(&mut t, &chars_of(" · version "));
            push_all(&mut t, &or_dash_text(&r.release.version));
            push_all(&mut t, &chars_of(" · revision "));
            push_all(&mut t, &or_dash_text(&r.release.revision));
            push_all(&mut t, &chars_of(" · "));
            push_all(&mut t, &chars_of(lifecycle_state_text(&r.lifecycle)));
            push_styled(out, &t, PreviewStyle::Muted);
            let ghost mid = lines_view(out@);
            push_cache(d, &chars_of(r.resolution.artifact.artifact_id.as_str()), out);
            assert(lines_view(out@) == mid + cache_lines(*d, r.resolution.artifact.artifact_id@));
        },
        None => {},
    }
    assert(lines_view(out@) =~= lines_view(old(out)@) + distribution_lines(*d, source_id@, name@));
}

fn push_lifecycle(d: &SkillListDialog, source_id: &[char], name: &[char], out: &mut Vec<PreviewLine>)
    ensures
        lines_view(final(out)@) == lines_view(old(out)@) + lifecycle_lines(*d, source_id@, name@),
{
    match last_lifecycle(&d.lifecycle_records, source_id, name) {
        Some(k) => {
            let rec = &d.lifecycle_records[k];
            let mut t = chars_of("Lifecycle: ");
            push_all(&mut t, &chars_of(lifecycle_state_text(&rec.state)));
            push_all(&mut t, &chars_of(" @ "));
            push_all(&mut t, &i64_decimal(rec.updated_at));
            push_styled(out, &t, PreviewStyle::Muted);
            match filled_text(&rec.error) {
                Some(e) => {
                    let mut x = chars_of("Lifecycle error: ");
                    push_all(&mut x, &e);
                    push_styled(out, &x, PreviewStyle::Error);
                },
                None => {},
            }
        },
        None => {},
    }
    assert(lines_view(out@) =~= lines_view(old(out)@) + lifecycle_lines(*d, source_id@, name@));
}

fn push_indexed(src: &SkillSourceIndexSnapshot, name: &[char], out: &mut Vec<PreviewLine>)
    ensures
        lines_view(final(out)@) == lines_view(old(out)@) + indexed_lines(*src, name@),
{
    let count = if src.entries.len() < 6 { src.entries.len() } else { 6 };
    let ghost shown = first_n(src.entries@, 6);
    assert(shown.len() == count);
    if count == 0 {
        assert(lines_view(out@) =~= lines_view(old(out)@) + indexed_lines(*src, name@));
        return;
    }
    push_styled(out, &chars_of("Indexed remote entries:"), PreviewStyle::Heading);
    let ghost base = lines_view(out@);
    let mut i: usize = 0;
    while i < count
        invariant
            0 <= i <= count,
            count == shown.len(),
            shown == first_n(src.entries@, 6),
            count <= src.entries@.len(),
            lines_view(out@) == base + shown.take(i as int).map_values(
                |e: SkillSourceIndexEntry| indexed_entry_line(e, name@),
            ),
        decreases count - i,
    {
        let e = &src.entries[i];
        assert(shown[i as int] == *e);
        let target = eq_ignore_ascii_case(&chars_of(e.skill_name.as_str()), name);
        let mut t = if target { chars_of(">") } else { chars_of("-") };
        push_all(&mut t, &chars_of(" "));
        push_all(&mut t, &chars_of(e.skill_name.as_str()));
        push_all(&mut t, &chars_of(" ("));
        match &e.revision {
            Some(r) => push_all(&mut t, &chars_of(r.as_str())),
            None => push_all(&mut t, &chars_of("unversioned")),
        }
        push_all(&mut t, &chars_of(")"));
        let style = if target { PreviewStyle::Primary } else { PreviewStyle::Muted };
        push_styled(out, &t, style);
        proof {
            assert(styled(t@, style) == indexed_entry_line(*e, name@));
            assert(shown.take(i + 1).map_values(|e: SkillSourceIndexEntry| indexed_entry_line(e, name@))
                =~= shown.take(i as int).map_values(|e: SkillSourceIndexEntry| indexed_entry_line(e, name@)).push(
                indexed_entry_line(*e, name@),
            ));
        }
        i = i + 1;
    }
    assert(shown.take(count as int) =~= shown);
    assert(lines_view(out@) =~= lines_view(old(out)@) + indexed_lines(*src, name@));
}

fn push_target(d: &SkillListDialog, name: &[char], out: &mut Vec<PreviewLine>)
    ensures
        lines_view(final(out)@) == lines_view(old(out)@) + target_lines(*d, name@),
{
    let mut t = chars_of("Remote target: ");
    push_all(&mut t, name);
    push_styled(out, &t, PreviewStyle::Muted);
    push_remote_plan(d, name, out);
    let ghost after_plan = lines_view(out@);
    match d.selected_hub_source_snapshot() {
        Some(src) => {
            let sid = chars_of(src.source.source_id.as_str());
            push_index_entry(src, name, out);
            push_distribution(d, &sid, name, out);
            push_lifecycle(d, &sid, name, out);
            push_indexed(src, name, out);
            assert(lines_view(out@) =~= after_plan + source_detail_lines(*d, *src, name@));
        },
        None => {},
    }
    assert(lines_view(out@) =~= lines_view(old(out)@) + target_lines(*d, name@));
}

fn push_remote(d: &SkillListDialog, out: &mut Vec<PreviewLine>)
    ensures
        lines_view(final(out)@) == lines_view(old(out)@) + remote_lines(*d),
{
    match d.resolve_remote_install_skill_name() {
        Some(n) => push_target(d, &chars_of(n.as_str()), out),
        None => {},
    }
    assert(lines_view(out@) =~= lines_view(old(out)@) + remote_lines(*d));
}

// ---------------------------------------------------------------------------
// The whole preview pane
// ---------------------------------------------------------------------------

/// The preview pane: counts and source, policy, sync plan, remote target,
/// guard run, and a blank line.
pub open spec fn hub_preview_spec(d: SkillListDialog) -> Seq<Seq<(Seq<char>, PreviewStyle)>> {
    header_lines(d) + policy_lines(d) + plan_lines(d) + remote_lines(d) + guard_lines(d) + seq![
        Seq::empty(),
    ]
}

// ---------------------------------------------------------------------------
// The governance timeline
// ---------------------------------------------------------------------------

pub open spec fn status_style(status: SkillGovernanceTimelineStatus) -> PreviewStyle {
    match status {
        SkillGovernanceTimelineStatus::Info => PreviewStyle::Primary,
        SkillGovernanceTimelineStatus::Success => PreviewStyle::Success,
        SkillGovernanceTimelineStatus::Warn => PreviewStyle::Warning,
        SkillGovernanceTimelineStatus::Error => PreviewStyle::Error,
    }
}

fn status_style_of(status: &SkillGovernanceTimelineStatus) -> (r: PreviewStyle)
    ensures
        r == status_style(*status),
{
    match status {
        SkillGovernanceTimelineStatus::Info => PreviewStyle::Primary,
        SkillGovernanceTimelineStatus::Success => PreviewStyle::Success,
        SkillGovernanceTimelineStatus::Warn => PreviewStyle::Warning,
        SkillGovernanceTimelineStatus::Error => PreviewStyle::Error,
    }
}

/// A managed copy's state on disk.
pub open spec fn record_state(rec: ManagedSkillRecord) -> Seq<char> {
    if rec.deleted_locally {
        "deleted locally"@
    } else if rec.locally_modified {
        "locally modified"@
    } else {
        "clean"@
    }
}

pub open spec fn violation_line(v: SkillGuardViolation) -> Seq<(Seq<char>, PreviewStyle)> {
    styled("  - "@ + v.rule_id@ + ": "@ + v.message@, PreviewStyle::Warning)
}

/// Under an entry: its guard report's first two violations, else the
/// managed copy's revision and state.
pub open spec fn entry_detail_lines(e: SkillGovernanceTimelineEntry) -> Seq<Seq<(Seq<char>, PreviewStyle)>> {
    match e.guard_report {
        Some(rep) => first_n(rep.violations@, 2).map_values(|v: SkillGuardViolation| violation_line(v)),
        None => match e.managed_record {
            Some(rec) => seq![
                styled(
                    "  - revision "@ + or_dash(rec.installed_revision) + " · "@ + record_state(rec),
                    PreviewStyle::Muted,
                ),
            ],
            None => Seq::empty(),
        },
    }
}

/// An entry: status and title, time and names, summary, details, and a
/// blank line.
pub open spec fn entry_block(e: SkillGovernanceTimelineEntry) -> Seq<Seq<(Seq<char>, PreviewStyle)>> {
    seq![
        seq![("["@ + status_text(e.status) + "] "@, status_style(e.status)), (e.title@, PreviewStyle::Title)],
        styled(
            timestamp_text(e.created_at) + " · "@ + or_dash(e.skill_name) + " · "@ + or_dash(e.source_id),
            PreviewStyle::Muted,
        ),
        styled(e.summary@, PreviewStyle::Muted),
    ] + entry_detail_lines(e) + seq![Seq::empty()]
}

/// The blocks of entries, one after another.
pub open spec fn entry_blocks(entries: Seq<SkillGovernanceTimelineEntry>) -> Seq<Seq<(Seq<char>, PreviewStyle)>>
    decreases entries.len(),
{
    if entries.len() == 0 {
        Seq::empty()
    } else {
        entry_blocks(entries.drop_last()) + entry_block(entries.last())
    }
}

/// The positions of the timeline entries about the focus.
pub open spec fn focused_positions(d: SkillListDialog) -> Seq<usize> {
    focused_spec(
        d.governance_timeline@,
        match selected_position(d) {
            Some(k) => Some(d.skills@[k].name@),
            None => None,
        },
        if d.selected_hub_source < d.source_indices@.len() {
            Some(d.source_indices@[d.selected_hub_source as int].source.source_id@)
        } else {
            None
        },
    )
}

/// What the timeline is about.
pub open spec fn focus_label(d: SkillListDialog) -> Seq<char> {
    match selected_position(d) {
        Some(k) => "skill `"@ + d.skills@[k].name@ + "`"@,
        None => if d.selected_hub_source < d.source_indices@.len() {
            "source `"@ + d.source_indices@[d.selected_hub_source as int].source.source_id@ + "`"@
        } else {
            "all governance entries"@
        },
    }
}

/// The timeline pane: the preview, the focus, and the first ten entries
/// about it, or a note that there are none.
pub open spec fn timeline_spec(d: SkillListDialog) -> Seq<Seq<(Seq<char>, PreviewStyle)>> {
    let positions = focused_positions(d);
    hub_preview_spec(d) + seq![styled("Timeline focus: "@ + focus_label(d), PreviewStyle::Muted)] + if positions.len()
        == 0 {
        seq![styled("No governance timeline entries for the current selection."@, PreviewStyle::Muted)]
    } else {
        entry_blocks(first_n(positions, 10).map_values(|i: usize| d.governance_timeline@[i as int]))
    }
}

fn push_entry_block(e: &SkillGovernanceTimelineEntry, out: &mut Vec<PreviewLine>)
    ensures
        lines_view(final(out)@) == lines_view(old(out)@) + entry_block(*e),
{
    let mut head = chars_of("[");
    push_all(&mut head, &chars_of(timeline_status_label(&e.status)));
    push_all(&mut head, &chars_of("] "));
    let mut spans: Vec<PreviewSpan> = Vec::new();
    spans.push(PreviewSpan { text: string_from_chars(&head), style: status_style_of(&e.status) });
    spans.push(PreviewSpan { text: e.title.clone(), style: PreviewStyle::Title });
    let line = PreviewLine { spans };
    assert(line_view(line) =~= seq![
        ("["@ + status_text(e.status) + "] "@, status_style(e.status)),
        (e.title@, PreviewStyle::Title),
    ]);
    out.push(line);

    let mut t = chars_of(timeline_timestamp_label(e.created_at).as_str());
    push_all(&mut t, &chars_of(" · "));
    push_all(&mut t, &or_dash_text(&e.skill_name));
    push_all(&mut t, &chars_of(" · "));
    push_all(&mut t, &or_dash_text(&e.source_id));
    push_styled(out, &t, PreviewStyle::Muted);
    push_styled(out, &chars_of(e.summary.as_str()), PreviewStyle::Muted);
    let ghost before_detail = lines_view(out@);
    match &e.guard_report {
        Some(rep) => {
            let count = if rep.violations.len() < 2 { rep.violations.len() } else { 2 };
            let ghost shown = first_n(rep.violations@, 2);
            let mut i: usize = 0;
            while i < count
                invariant
                    0 <= i <= count,
                    count == shown.len(),
                    shown == first_n(rep.violations@, 2),
                    count <= rep.violations@.len(),
                    lines_view(out@) == before_detail + shown.take(i as int).map_values(
                        |v: SkillGuardViolation| violation_line(v),
                    ),
                decreases count - i,
            {
                let v = &rep.violations[i];
                assert(shown[i as int] == *v);
                let mut x = chars_of("  - ");
                push_all(&mut x, &chars_of(v.rule_id.as_str()));
                push_all(&mut x, &chars_of(": "));
                push_all(&mut x, &chars_of(v.message.as_str()));
                push_styled(out, &x, PreviewStyle::Warning);
                assert(shown.take(i + 1).map_values(|v: SkillGuardViolation| violation_line(v))
                    =~= shown.take(i as int).map_values(|v: SkillGuardViolation| violation_line(v)).push(
                    violation_line(*v),
                ));
                i = i + 1;
            }
            assert(shown.take(count as int) =~= shown);
        },
        None => match &e.managed_record {
            Some(rec) => {
                let mut x = chars_of("  - revision ");
                push_all(&mut x, &or_dash_text(&rec.installed_revision));
                push_all(&mut x, &chars_of(" · "));
                let state = if rec.deleted_locally {
                    "deleted locally"
                } else if rec.locally_modified {
                    "locally modified"
                } else {
                    "clean"
                };
                push_all(&mut x, &chars_of(state));
                push_styled(out, &x, PreviewStyle::Muted);
            },
            None => {},
        },
    }
    assert(lines_view(out@) == before_detail + entry_detail_lines(*e));
    push_blank(out);
    assert(lines_view(out@) =~= lines_view(old(out)@) + entry_block(*e));
}

impl SkillListDialog {
    /// The preview pane's lines about the hub.
    pub fn hub_preview_lines(&self) -> (r: Vec<PreviewLine>)
        ensures
            lines_view(r@) == hub_preview_spec(*self),
    {
        let mut out: Vec<PreviewLine> = Vec::new();
        push_header(self, &mut out);
        push_policy(self, &mut out);
        push_plan(self, &mut out);
        push_remote(self, &mut out);
        push_guard(self, &mut out);
        push_blank(&mut out);
        assert(lines_view(out@) =~= hub_preview_spec(*self));
        out
    }

    /// The timeline pane's lines: the preview, then the entries in focus.
    pub fn timeline_lines(&self) -> (r: Vec<PreviewLine>)
        ensures
            lines_view(r@) == timeline_spec(*self),
    {
        let mut out = self.hub_preview_lines();
        let mut t = chars_of("Timeline focus: ");
        push_all(&mut t, &chars_of(self.timeline_focus_label().as_str()));
        push_styled(&mut out, &t, PreviewStyle::Muted);
        let positions = self.focused_timeline_entries();
        let ghost base = lines_view(out@);
        if positions.len() == 0 {
            push_styled(
                &mut out,
                &chars_of("No governance timeline entries for the current selection."),
                PreviewStyle::Muted,
            );
            assert(lines_view(out@) =~= timeline_spec(*self));
            return out;
        }
        let timeline_len = self.governance_timeline.len();
        proof {
            assert(self.governance_timeline@.len() == timeline_len);
            lemma_focused_in_range(
                self.governance_timeline@,
                match selected_position(*self) {
                    Some(k) => Some(self.skills@[k].name@),
                    None => None,
                },
                if self.selected_hub_source < self.source_indices@.len() {
                    Some(self.source_indices@[self.selected_hub_source as int].source.source_id@)
                } else {
                    None
                },
            );
        }
        let count = if positions.len() < 10 { positions.len() } else { 10 };
        let ghost shown = first_n(positions@, 10).map_values(|i: usize| self.governance_timeline@[i as int]);
        let mut i: usize = 0;
        while i < count
            invariant
                0 <= i <= count,
                count == shown.len(),
                count <= positions@.len(),
                positions@ == focused_positions(*self),
                shown == first_n(positions@, 10).map_values(|i: usize| self.governance_timeline@[i as int]),
                forall|k: int| 0 <= k < positions@.len() ==> #[trigger] positions@[k] < self.governance_timeline@.len(),
                lines_view(out@) == base + entry_blocks(shown.take(i as int)),
            decreases count - i,
        {
            let e = &self.governance_timeline[positions[i]];
            assert(shown[i as int] == *e);
            push_entry_block(e, &mut out);
            assert(shown.take(i + 1).drop_last() =~= shown.take(i as int));
            i = i + 1;
        }
        assert(shown.take(count as int) =~= shown);
        assert(lines_view(out@) =~= timeline_spec(*self));
        out
    }
}

} // verus!
