//! The skill editor of the skill list dialog: its fields and sections, the
//! parsing of the methodology lists, and the labels of the governance view.
use vstd::prelude::*;
use crate::types::skill::{
    ManagedSkillRecord, SkillGovernanceTimelineStatus, SkillGuardReport, SkillGuardStatus,
};
use crate::jsonish::sanitize::{trim, trim_spec};
use crate::tui::text_editor::{synced, TextEditorModel, TextEditorState};
use crate::text::{
    chars_of, decimal, joined, lines_of, lines_view, push_all, split_char, split_lines,
    split_on_char, string_from_chars, u64_decimal,
};

verus! {

// ---------------------------------------------------------------------------
// Editor mode, sections and fields
// ---------------------------------------------------------------------------

#[derive(Clone, Copy, Debug, PartialEq, Eq, Structural)]
pub enum SkillManageEditorMode {
    Methodology,
    Raw,
}

impl SkillManageEditorMode {
    pub fn toggle(&mut self)
        ensures
            *final(self) == match *old(self) {
                SkillManageEditorMode::Methodology => SkillManageEditorMode::Raw,
                SkillManageEditorMode::Raw => SkillManageEditorMode::Methodology,
            },
    {
        *self = match *self {
            SkillManageEditorMode::Methodology => SkillManageEditorMode::Raw,
            SkillManageEditorMode::Raw => SkillManageEditorMode::Methodology,
        };
    }

    pub fn label(self) -> (r: &'static str)
        ensures
            r@ == match self {
                SkillManageEditorMode::Methodology => "methodology"@,
                SkillManageEditorMode::Raw => "raw markdown"@,
            },
    {
        match self {
            SkillManageEditorMode::Methodology => "methodology",
            SkillManageEditorMode::Raw => "raw markdown",
        }
    }
}

#[derive(Clone, Copy, Debug, PartialEq, Eq, Structural)]
pub enum SkillMethodologySection {
    WhenToUse,
    WhenNotToUse,
    Prerequisites,
    CoreSteps,
    SuccessCriteria,
    Validation,
    Pitfalls,
    References,
}

/// Position of a section in the editor's order.
pub open spec fn section_index(s: SkillMethodologySection) -> int {
    match s {
        SkillMethodologySection::WhenToUse => 0,
        SkillMethodologySection::WhenNotToUse => 1,
        SkillMethodologySection::Prerequisites => 2,
        SkillMethodologySection::CoreSteps => 3,
        SkillMethodologySection::SuccessCriteria => 4,
        SkillMethodologySection::Validation => 5,
        SkillMethodologySection::Pitfalls => 6,
        SkillMethodologySection::References => 7,
    }
}

pub open spec fn section_at(i: int) -> SkillMethodologySection {
    if i == 0 {
        SkillMethodologySection::WhenToUse
    } else if i == 1 {
        SkillMethodologySection::WhenNotToUse
    } else if i == 2 {
        SkillMethodologySection::Prerequisites
    } else if i == 3 {
        SkillMethodologySection::CoreSteps
    } else if i == 4 {
        SkillMethodologySection::SuccessCriteria
    } else if i == 5 {
        SkillMethodologySection::Validation
    } else if i == 6 {
        SkillMethodologySection::Pitfalls
    } else {
        SkillMethodologySection::References
    }
}

pub open spec fn section_title_spec(s: SkillMethodologySection) -> Seq<char> {
    match s {
        SkillMethodologySection::WhenToUse => "When To Use"@,
        SkillMethodologySection::WhenNotToUse => "When Not To Use"@,
        SkillMethodologySection::Prerequisites => "Prerequisites"@,
        SkillMethodologySection::CoreSteps => "Core Steps"@,
        SkillMethodologySection::SuccessCriteria => "Success Criteria"@,
        SkillMethodologySection::Validation => "Validation"@,
        SkillMethodologySection::Pitfalls => "Boundaries / Pitfalls"@,
        SkillMethodologySection::References => "References"@,
    }
}

impl SkillMethodologySection {
    pub fn title(self) -> (r: &'static str)
        ensures
            r@ == section_title_spec(self),
    {
        match self {
            SkillMethodologySection::WhenToUse => "When To Use",
            SkillMethodologySection::WhenNotToUse => "When Not To Use",
            SkillMethodologySection::Prerequisites => "Prerequisites",
            SkillMethodologySection::CoreSteps => "Core Steps",
            SkillMethodologySection::SuccessCriteria => "Success Criteria",
            SkillMethodologySection::Validation => "Validation",
            SkillMethodologySection::Pitfalls => "Boundaries / Pitfalls",
            SkillMethodologySection::References => "References",
        }
    }

    pub fn hint(self) -> (r: &'static str)
        ensures
            r@ == match self {
                SkillMethodologySection::WhenToUse => "One trigger per line."@,
                SkillMethodologySection::WhenNotToUse => "One boundary per line."@,
                SkillMethodologySection::Prerequisites => "One requirement per line."@,
                SkillMethodologySection::CoreSteps => "One step per line: Title | Action | Outcome(optional)"@,
                SkillMethodologySection::SuccessCriteria => "One checklist item per line."@,
                SkillMethodologySection::Validation => "One validation check per line."@,
                SkillMethodologySection::Pitfalls => "One pitfall per line."@,
                SkillMethodologySection::References => "One reference per line: path | label"@,
            },
    {
        match self {
            SkillMethodologySection::WhenToUse => "One trigger per line.",
            SkillMethodologySection::WhenNotToUse => "One boundary per line.",
            SkillMethodologySection::Prerequisites => "One requirement per line.",
            SkillMethodologySection::CoreSteps => "One step per line: Title | Action | Outcome(optional)",
            SkillMethodologySection::SuccessCriteria => "One checklist item per line.",
            SkillMethodologySection::Validation => "One validation check per line.",
            SkillMethodologySection::Pitfalls => "One pitfall per line.",
            SkillMethodologySection::References => "One reference per line: path | label",
        }
    }

    /// The next section, the last wrapping to the first.
    pub fn next(self) -> (r: Self)
        ensures
            r == section_at((section_index(self) + 1) % 8),
    {
        match self {
            SkillMethodologySection::WhenToUse => SkillMethodologySection::WhenNotToUse,
            SkillMethodologySection::WhenNotToUse => SkillMethodologySection::Prerequisites,
            SkillMethodologySection::Prerequisites => SkillMethodologySection::CoreSteps,
            SkillMethodologySection::CoreSteps => SkillMethodologySection::SuccessCriteria,
            SkillMethodologySection::SuccessCriteria => SkillMethodologySection::Validation,
            SkillMethodologySection::Validation => SkillMethodologySection::Pitfalls,
            SkillMethodologySection::Pitfalls => SkillMethodologySection::References,
            SkillMethodologySection::References => SkillMethodologySection::WhenToUse,
        }
    }

    /// The previous section, the first wrapping to the last.
    pub fn previous(self) -> (r: Self)
        ensures
            r == section_at((section_index(self) + 7) % 8),
    {
        match self {
            SkillMethodologySection::WhenToUse => SkillMethodologySection::References,
            SkillMethodologySection::WhenNotToUse => SkillMethodologySection::WhenToUse,
            SkillMethodologySection::Prerequisites => SkillMethodologySection::WhenNotToUse,
            SkillMethodologySection::CoreSteps => SkillMethodologySection::Prerequisites,
            SkillMethodologySection::SuccessCriteria => SkillMethodologySection::CoreSteps,
            SkillMethodologySection::Validation => SkillMethodologySection::SuccessCriteria,
            SkillMethodologySection::Pitfalls => SkillMethodologySection::Validation,
            SkillMethodologySection::References => SkillMethodologySection::Pitfalls,
        }
    }
}

/// Stepping to the next section and back to the previous one returns to
/// where one started, and the other way round.
pub proof fn lemma_section_next_previous(s: SkillMethodologySection)
    ensures
        section_at((section_index(section_at((section_index(s) + 1) % 8)) + 7) % 8) == s,
        section_at((section_index(section_at((section_index(s) + 7) % 8)) + 1) % 8) == s,
{
}

/// Eight steps forward visit every section once and come back.
pub proof fn lemma_section_cycle(s: SkillMethodologySection)
    ensures
        forall|i: int| 0 <= i < 8 ==> #[trigger] section_index(section_at(i)) == i,
        section_at(section_index(s)) == s,
{
}

#[derive(Clone, Copy, Debug, PartialEq, Eq, Structural)]
pub enum SkillCreateField {
    Name,
    Description,
    Category,
    EditorMode,
    MethodologySection,
    MethodologyEditor,
    Body,
}

pub open spec fn create_next(f: SkillCreateField, mode: SkillManageEditorMode) -> SkillCreateField {
    match f {
        SkillCreateField::Name => SkillCreateField::Description,
        SkillCreateField::Description => SkillCreateField::Category,
        SkillCreateField::Category => SkillCreateField::EditorMode,
        SkillCreateField::EditorMode => match mode {
            SkillManageEditorMode::Methodology => SkillCreateField::MethodologySection,
            SkillManageEditorMode::Raw => SkillCreateField::Body,
        },
        SkillCreateField::MethodologySection => SkillCreateField::MethodologyEditor,
        SkillCreateField::MethodologyEditor => SkillCreateField::Name,
        SkillCreateField::Body => SkillCreateField::Name,
    }
}

pub open spec fn create_previous(f: SkillCreateField, mode: SkillManageEditorMode) -> SkillCreateField {
    match f {
        SkillCreateField::Name => match mode {
            SkillManageEditorMode::Methodology => SkillCreateField::MethodologyEditor,
            SkillManageEditorMode::Raw => SkillCreateField::Body,
        },
        SkillCreateField::Description => SkillCreateField::Name,
        SkillCreateField::Category => SkillCreateField::Description,
        SkillCreateField::EditorMode => SkillCreateField::Category,
        SkillCreateField::MethodologySection => SkillCreateField::EditorMode,
        SkillCreateField::MethodologyEditor => SkillCreateField::MethodologySection,
        SkillCreateField::Body => SkillCreateField::EditorMode,
    }
}

/// The fields that Tab visits in a mode.
pub open spec fn create_field_shown(f: SkillCreateField, mode: SkillManageEditorMode) -> bool {
    match f {
        SkillCreateField::MethodologySection | SkillCreateField::MethodologyEditor => mode
            == SkillManageEditorMode::Methodology,
        SkillCreateField::Body => mode == SkillManageEditorMode::Raw,
        _ => true,
    }
}

impl SkillCreateField {
    pub fn next(self, mode: SkillManageEditorMode) -> (r: Self)
        ensures
            r == create_next(self, mode),
    {
        match self {
            SkillCreateField::Name => SkillCreateField::Description,
            SkillCreateField::Description => SkillCreateField::Category,
            SkillCreateField::Category => SkillCreateField::EditorMode,
            SkillCreateField::EditorMode => match mode {
                SkillManageEditorMode::Methodology => SkillCreateField::MethodologySection,
                SkillManageEditorMode::Raw => SkillCreateField::Body,
            },
            SkillCreateField::MethodologySection => SkillCreateField::MethodologyEditor,
            SkillCreateField::MethodologyEditor => SkillCreateField::Name,
            SkillCreateField::Body => SkillCreateField::Name,
        }
    }

    pub fn previous(self, mode: SkillManageEditorMode) -> (r: Self)
        ensures
            r == create_previous(self, mode),
    {
        match self {
            SkillCreateField::Name => match mode {
                SkillManageEditorMode::Methodology => SkillCreateField::MethodologyEditor,
                SkillManageEditorMode::Raw => SkillCreateField::Body,
            },
            SkillCreateField::Description => SkillCreateField::Name,
            SkillCreateField::Category => SkillCreateField::Description,
            SkillCreateField::EditorMode => SkillCreateField::Category,
            SkillCreateField::MethodologySection => SkillCreateField::EditorMode,
            SkillCreateField::MethodologyEditor => SkillCreateField::MethodologySection,
            SkillCreateField::Body => SkillCreateField::EditorMode,
        }
    }
}

/// On the fields a mode shows, Tab and Shift-Tab undo each other, and Tab
/// never leaves them.
pub proof fn lemma_create_field_tab_round_trip(f: SkillCreateField, mode: SkillManageEditorMode)
    requires
        create_field_shown(f, mode),
    ensures
        create_field_shown(create_next(f, mode), mode),
        create_field_shown(create_previous(f, mode), mode),
        create_previous(create_next(f, mode), mode) == f,
        create_next(create_previous(f, mode), mode) == f,
{
}

#[derive(Clone, Copy, Debug, PartialEq, Eq, Structural)]
pub enum SkillEditField {
    Description,
    EditorMode,
    MethodologySection,
    MethodologyEditor,
    RawSource,
}

pub open spec fn edit_next(f: SkillEditField, mode: SkillManageEditorMode) -> SkillEditField {
    match f {
        SkillEditField::Description => SkillEditField::EditorMode,
        SkillEditField::EditorMode => match mode {
            SkillManageEditorMode::Methodology => SkillEditField::MethodologySection,
            SkillManageEditorMode::Raw => SkillEditField::RawSource,
        },
        SkillEditField::MethodologySection => SkillEditField::MethodologyEditor,
        SkillEditField::MethodologyEditor => SkillEditField::Description,
        SkillEditField::RawSource => SkillEditField::Description,
    }
}

pub open spec fn edit_previous(f: SkillEditField, mode: SkillManageEditorMode) -> SkillEditField {
    match f {
        SkillEditField::Description => match mode {
            SkillManageEditorMode::Methodology => SkillEditField::MethodologyEditor,
            SkillManageEditorMode::Raw => SkillEditField::RawSource,
        },
        SkillEditField::EditorMode => SkillEditField::Description,
        SkillEditField::MethodologySection => SkillEditField::EditorMode,
        SkillEditField::MethodologyEditor => SkillEditField::MethodologySection,
        SkillEditField::RawSource => SkillEditField::EditorMode,
    }
}

pub open spec fn edit_field_shown(f: SkillEditField, mode: SkillManageEditorMode) -> bool {
    match f {
        SkillEditField::MethodologySection | SkillEditField::MethodologyEditor => mode
            == SkillManageEditorMode::Methodology,
        SkillEditField::RawSource => mode == SkillManageEditorMode::Raw,
        _ => true,
    }
}

impl SkillEditField {
    pub fn next(self, mode: SkillManageEditorMode) -> (r: Self)
        ensures
            r == edit_next(self, mode),
    {
        match self {
            SkillEditField::Description => SkillEditField::EditorMode,
            SkillEditField::EditorMode => match mode {
                SkillManageEditorMode::Methodology => SkillEditField::MethodologySection,
                SkillManageEditorMode::Raw => SkillEditField::RawSource,
            },
            SkillEditField::MethodologySection => SkillEditField::MethodologyEditor,
            SkillEditField::MethodologyEditor => SkillEditField::Description,
            SkillEditField::RawSource => SkillEditField::Description,
        }
    }

    pub fn previous(self, mode: SkillManageEditorMode) -> (r: Self)
        ensures
            r == edit_previous(self, mode),
    {
        match self {
            SkillEditField::Description => match mode {
                SkillManageEditorMode::Methodology => SkillEditField::MethodologyEditor,
                SkillManageEditorMode::Raw => SkillEditField::RawSource,
            },
            SkillEditField::EditorMode => SkillEditField::Description,
            SkillEditField::MethodologySection => SkillEditField::EditorMode,
            SkillEditField::MethodologyEditor => SkillEditField::MethodologySection,
            SkillEditField::RawSource => SkillEditField::EditorMode,
        }
    }
}

/// On the fields a mode shows, Tab and Shift-Tab undo each other.
pub proof fn lemma_edit_field_tab_round_trip(f: SkillEditField, mode: SkillManageEditorMode)
    requires
        edit_field_shown(f, mode),
    ensures
        edit_field_shown(edit_next(f, mode), mode),
        edit_field_shown(edit_previous(f, mode), mode),
        edit_previous(edit_next(f, mode), mode) == f,
        edit_next(edit_previous(f, mode), mode) == f,
{
}

// ---------------------------------------------------------------------------
// Labels of the governance view
// ---------------------------------------------------------------------------

/// `{n}{unit}`.
pub open spec fn with_unit(n: nat, unit: Seq<char>) -> Seq<char> {
    decimal(n) + unit
}

fn number_with_unit(n: u64, unit: &str) -> (r: String)
    ensures
        r@ == with_unit(n as nat, unit@),
{
    let mut out = u64_decimal(n);
    push_all(&mut out, &chars_of(unit));
    string_from_chars(&out)
}

/// A duration in seconds, in the largest of days, hours, minutes and
/// seconds that divides it.
pub open spec fn duration_seconds_text(value: u64) -> Seq<char> {
    if value % 86_400 == 0 {
        with_unit((value / 86_400) as nat, "d"@)
    } else if value % 3_600 == 0 {
        with_unit((value / 3_600) as nat, "h"@)
    } else if value % 60 == 0 {
        with_unit((value / 60) as nat, "m"@)
    } else {
        with_unit(value as nat, "s"@)
    }
}

pub fn format_duration_seconds(value: u64) -> (r: String)
    ensures
        r@ == duration_seconds_text(value),
{
    if value % 86_400 == 0 {
        number_with_unit(value / 86_400, "d")
    } else if value % 3_600 == 0 {
        number_with_unit(value / 3_600, "h")
    } else if value % 60 == 0 {
        number_with_unit(value / 60, "m")
    } else {
        number_with_unit(value, "s")
    }
}

/// A duration in milliseconds: whole seconds as `s`, else `ms`.
pub open spec fn duration_ms_text(value: u64) -> Seq<char> {
    if value % 1000 == 0 {
        with_unit((value / 1000) as nat, "s"@)
    } else {
        with_unit(value as nat, "ms"@)
    }
}

pub fn format_duration_ms(value: u64) -> (r: String)
    ensures
        r@ == duration_ms_text(value),
{
    if value % 1000 == 0 {
        number_with_unit(value / 1000, "s")
    } else {
        number_with_unit(value, "ms")
    }
}

/// A size in bytes: whole MiB, else whole KiB, else bytes.
pub open spec fn bytes_text(value: u64) -> Seq<char> {
    if value >= 1_048_576 && value % 1_048_576 == 0 {
        with_unit((value / 1_048_576) as nat, " MiB"@)
    } else if value >= 1024 && value % 1024 == 0 {
        with_unit((value / 1024) as nat, " KiB"@)
    } else {
        with_unit(value as nat, " B"@)
    }
}

pub fn format_bytes(value: u64) -> (r: String)
    ensures
        r@ == bytes_text(value),
{
    if value >= 1_048_576 && value % 1_048_576 == 0 {
        number_with_unit(value / 1_048_576, " MiB")
    } else if value >= 1024 && value % 1024 == 0 {
        number_with_unit(value / 1024, " KiB")
    } else {
        number_with_unit(value, " B")
    }
}

/// `timestamp {t}`, or `timestamp --` when there is none.
pub open spec fn timestamp_text(timestamp: i64) -> Seq<char> {
    if timestamp <= 0 {
        "timestamp --"@
    } else {
        "timestamp "@ + decimal(timestamp as nat)
    }
}

pub fn timeline_timestamp_label(timestamp: i64) -> (r: String)
    ensures
        r@ == timestamp_text(timestamp),
{
    if timestamp <= 0 {
        string_from_chars(&chars_of("timestamp --"))
    } else {
        let mut out = chars_of("timestamp ");
        push_all(&mut out, &u64_decimal(timestamp as u64));
        string_from_chars(&out)
    }
}

pub open spec fn status_text(status: SkillGovernanceTimelineStatus) -> Seq<char> {
    match status {
        SkillGovernanceTimelineStatus::Info => "info"@,
        SkillGovernanceTimelineStatus::Success => "ok"@,
        SkillGovernanceTimelineStatus::Warn => "warn"@,
        SkillGovernanceTimelineStatus::Error => "error"@,
    }
}

pub fn timeline_status_label(status: &SkillGovernanceTimelineStatus) -> (r: &'static str)
    ensures
        r@ == status_text(*status),
{
    match status {
        SkillGovernanceTimelineStatus::Info => "info",
        SkillGovernanceTimelineStatus::Success => "ok",
        SkillGovernanceTimelineStatus::Warn => "warn",
        SkillGovernanceTimelineStatus::Error => "error",
    }
}

pub fn timeline_guard_status_label(report: &SkillGuardReport) -> (r: &'static str)
    ensures
        r@ == match report.status {
            SkillGuardStatus::Passed => "passed"@,
            SkillGuardStatus::Warn => "warn"@,
            SkillGuardStatus::Blocked => "blocked"@,
        },
{
    match report.status {
        SkillGuardStatus::Passed => "passed",
        SkillGuardStatus::Warn => "warn",
        SkillGuardStatus::Blocked => "blocked",
    }
}

/// The emphasis of a skill's governance line; the theme gives it a colour.
#[derive(Clone, Copy, Debug, PartialEq, Eq, Structural)]
pub enum GovernanceTone {
    Error,
    Warning,
    Muted,
}

/// Blocked by the guard: error. A guard warning, or a managed copy changed
/// or deleted locally: warning. Otherwise muted.
pub fn governance_line_tone(
    managed_record: Option<&ManagedSkillRecord>,
    latest_guard: Option<&SkillGuardReport>,
) -> (r: GovernanceTone)
    ensures
        r == if latest_guard matches Some(g) && g.status == SkillGuardStatus::Blocked {
            GovernanceTone::Error
        } else if (latest_guard matches Some(g) && g.status == SkillGuardStatus::Warn) || (
        managed_record matches Some(m) && (m.locally_modified || m.deleted_locally)) {
            GovernanceTone::Warning
        } else {
            GovernanceTone::Muted
        },
{
    let blocked = match latest_guard {
        Some(g) => match g.status {
            SkillGuardStatus::Blocked => true,
            _ => false,
        },
        None => false,
    };
    if blocked {
        return GovernanceTone::Error;
    }
    let warned = match latest_guard {
        Some(g) => match g.status {
            SkillGuardStatus::Warn => true,
            _ => false,
        },
        None => false,
    };
    let changed = match managed_record {
        Some(m) => m.locally_modified || m.deleted_locally,
        None => false,
    };
    if warned || changed {
        GovernanceTone::Warning
    } else {
        GovernanceTone::Muted
    }
}

// ---------------------------------------------------------------------------
// Methodology lists
// ---------------------------------------------------------------------------

pub open spec fn strings_view(v: Seq<String>) -> Seq<Seq<char>> {
    v.map_values(|s: String| s@)
}

/// The lines, trimmed, without the empty ones.
pub open spec fn non_empty_trimmed(lines: Seq<Seq<char>>) -> Seq<Seq<char>>
    decreases lines.len(),
{
    if lines.len() == 0 {
        Seq::empty()
    } else {
        let rest = non_empty_trimmed(lines.drop_last());
        let t = trim_spec(lines.last());
        if t.len() > 0 { rest.push(t) } else { rest }
    }
}

fn non_empty_lines_chars(input: &[char]) -> (r: Vec<Vec<char>>)
    ensures
        lines_view(r@) == non_empty_trimmed(lines_of(input@)),
{
    let lines = split_lines(input);
    let ghost ls = lines_of(input@);
    let mut out: Vec<Vec<char>> = Vec::new();
    let mut i: usize = 0;
    while i < lines.len()
        invariant
            0 <= i <= lines@.len(),
            lines_view(lines@) == ls,
            lines_view(out@) == non_empty_trimmed(ls.take(i as int)),
        decreases lines.len() - i,
    {
        proof {
            assert(ls.take(i + 1).drop_last() =~= ls.take(i as int));
            assert(ls.take(i + 1).last() == lines@[i as int]@);
        }
        let t = trim(&lines[i]);
        if t.len() > 0 {
            let ghost before = out@;
            out.push(t);
            assert(lines_view(out@) =~= lines_view(before).push(t@));
        }
        i = i + 1;
    }
    assert(ls.take(i as int) =~= ls);
    out
}

/// The non-empty lines of the input, trimmed.
pub fn split_non_empty_lines(input: &str) -> (r: Vec<String>)
    ensures
        strings_view(r@) == non_empty_trimmed(lines_of(input@)),
{
    let lines = non_empty_lines_chars(&chars_of(input));
    let mut out: Vec<String> = Vec::new();
    let mut i: usize = 0;
    while i < lines.len()
        invariant
            0 <= i <= lines@.len(),
            strings_view(out@) == lines_view(lines@).take(i as int),
        decreases lines.len() - i,
    {
        let ghost before = out@;
        let line = string_from_chars(&lines[i]);
        out.push(line);
        assert(strings_view(out@) =~= strings_view(before).push(line@));
        assert(lines_view(lines@)[i as int] == lines@[i as int]@);
        assert(lines_view(lines@).take(i + 1) =~= lines_view(lines@).take(i as int).push(lines@[i as int]@));
        i = i + 1;
    }
    assert(lines_view(lines@).take(i as int) =~= lines_view(lines@));
    out
}

/// The fields of a `a | b | c` line, each trimmed.
pub open spec fn bar_fields(line: Seq<char>) -> Seq<Seq<char>> {
    split_char(line, '|').map_values(|p: Seq<char>| trim_spec(p))
}

fn bar_fields_exec(line: &[char]) -> (r: Vec<Vec<char>>)
    ensures
        lines_view(r@) == bar_fields(line@),
{
    let parts = split_on_char(line, '|');
    let mut out: Vec<Vec<char>> = Vec::new();
    let mut i: usize = 0;
    while i < parts.len()
        invariant
            0 <= i <= parts@.len(),
            lines_view(parts@) == split_char(line@, '|'),
            lines_view(out@) == bar_fields(line@).take(i as int),
        decreases parts.len() - i,
    {
        let t = trim(&parts[i]);
        let ghost before = out@;
        out.push(t);
        assert(lines_view(parts@)[i as int] == parts@[i as int]@);
        assert(bar_fields(line@)[i as int] == trim_spec(split_char(line@, '|')[i as int]));
        assert(lines_view(out@) =~= lines_view(before).push(t@));
        assert(bar_fields(line@).take(i + 1) =~= bar_fields(line@).take(i as int).push(t@));
        i = i + 1;
    }
    assert(bar_fields(line@).take(i as int) =~= bar_fields(line@));
    out
}

/// One step of a skill's method.
#[derive(Clone, Debug, PartialEq, Eq)]
pub struct SkillMethodologyStep {
    pub title: String,
    pub action: String,
    pub outcome: Option<String>,
}

/// A document that a skill points to.
#[derive(Clone, Debug, PartialEq, Eq)]
pub struct SkillMethodologyReference {
    pub label: String,
    pub path: String,
}

pub struct StepModel {
    pub title: Seq<char>,
    pub action: Seq<char>,
    pub outcome: Option<Seq<char>>,
}

pub open spec fn step_view(s: SkillMethodologyStep) -> StepModel {
    StepModel {
        title: s.title@,
        action: s.action@,
        outcome: match s.outcome {
            Some(o) => Some(o@),
            None => None,
        },
    }
}

pub open spec fn steps_view(v: Seq<SkillMethodologyStep>) -> Seq<StepModel> {
    v.map_values(|s: SkillMethodologyStep| step_view(s))
}

/// `{what} line {n} must {rule}`.
pub open spec fn line_error(what: Seq<char>, n: nat, rule: Seq<char>) -> Seq<char> {
    what + " line "@ + decimal(n) + " must "@ + rule
}

/// The step that line `n` (from one) describes, or why it does not.
pub open spec fn step_spec(line: Seq<char>, n: nat) -> Result<StepModel, Seq<char>> {
    let f = bar_fields(line);
    if f.len() < 2 {
        Err(line_error("core step"@, n, "use `Title | Action | Outcome(optional)`"@))
    } else if f[0].len() == 0 || f[1].len() == 0 {
        Err(line_error("core step"@, n, "include both title and action"@))
    } else {
        Ok(StepModel {
            title: f[0],
            action: f[1],
            outcome: if f.len() > 2 && f[2].len() > 0 { Some(f[2]) } else { None },
        })
    }
}

/// The steps of the lines, or the error of the first bad line.
pub open spec fn steps_spec(lines: Seq<Seq<char>>) -> Result<Seq<StepModel>, Seq<char>>
    decreases lines.len(),
{
    if lines.len() == 0 {
        Ok(Seq::empty())
    } else {
        match steps_spec(lines.drop_last()) {
            Err(e) => Err(e),
            Ok(steps) => match step_spec(lines.last(), lines.len()) {
                Err(e) => Err(e),
                Ok(st) => Ok(steps.push(st)),
            },
        }
    }
}

/// Once a line fails, the lines after it change nothing.
pub proof fn lemma_steps_error_sticks(lines: Seq<Seq<char>>, i: int)
    requires
        0 <= i <= lines.len(),
        steps_spec(lines.take(i)) is Err,
    ensures
        steps_spec(lines) == steps_spec(lines.take(i)),
    decreases lines.len() - i,
{
    if i < lines.len() {
        assert(lines.take(i + 1).drop_last() =~= lines.take(i));
        lemma_steps_error_sticks(lines, i + 1);
    }
    assert(lines.take(lines.len() as int) =~= lines);
}

fn line_error_exec(what: &str, n: usize, rule: &str) -> (r: String)
    ensures
        r@ == line_error(what@, n as nat, rule@),
{
    let mut out = chars_of(what);
    push_all(&mut out, &chars_of(" line "));
    push_all(&mut out, &u64_decimal(n as u64));
    push_all(&mut out, &chars_of(" must "));
    push_all(&mut out, &chars_of(rule));
    string_from_chars(&out)
}

/// Parses the core-steps field: one `Title | Action | Outcome` per
/// non-empty line, the outcome optional.
pub fn parse_methodology_steps_input(input: &str) -> (r: Result<Vec<SkillMethodologyStep>, String>)
    ensures
        match r {
            Ok(v) => steps_spec(non_empty_trimmed(lines_of(input@))) == Ok::<Seq<StepModel>, Seq<char>>(steps_view(v@)),
            Err(e) => steps_spec(non_empty_trimmed(lines_of(input@))) == Err::<Seq<StepModel>, Seq<char>>(e@),
        },
{
    let lines = non_empty_lines_chars(&chars_of(input));
    let ghost ls = non_empty_trimmed(lines_of(input@));
    let mut steps: Vec<SkillMethodologyStep> = Vec::new();
    let mut i: usize = 0;
    assert(ls.take(0) =~= Seq::<Seq<char>>::empty());
    assert(steps_view(steps@) =~= Seq::<StepModel>::empty());
    while i < lines.len()
        invariant
            0 <= i <= lines@.len(),
            lines_view(lines@) == ls,
            ls == non_empty_trimmed(lines_of(input@)),
            steps_spec(ls.take(i as int)) == Ok::<Seq<StepModel>, Seq<char>>(steps_view(steps@)),
        decreases lines.len() - i,
    {
        proof {
            assert(ls.take(i + 1).drop_last() =~= ls.take(i as int));
            assert(ls.take(i + 1).last() == lines@[i as int]@);
        }
        let f = bar_fields_exec(&lines[i]);
        if f.len() < 2 {
            let e = line_error_exec("core step", i + 1, "use `Title | Action | Outcome(optional)`");
            proof { lemma_steps_error_sticks(ls, i + 1); }
            return Err(e);
        }
        if f[0].len() == 0 || f[1].len() == 0 {
            let e = line_error_exec("core step", i + 1, "include both title and action");
            proof { lemma_steps_error_sticks(ls, i + 1); }
            return Err(e);
        }
        let outcome = if f.len() > 2 && f[2].len() > 0 {
            Some(string_from_chars(&f[2]))
        } else {
            None
        };
        let step = SkillMethodologyStep {
            title: string_from_chars(&f[0]),
            action: string_from_chars(&f[1]),
            outcome,
        };
        let ghost before = steps@;
        steps.push(step);
        proof {
            assert(steps_view(steps@) =~= steps_view(before).push(step_view(step)));
        }
        i = i + 1;
    }
    assert(ls.take(i as int) =~= ls);
    Ok(steps)
}

pub struct ReferenceModel {
    pub label: Seq<char>,
    pub path: Seq<char>,
}

pub open spec fn references_view(v: Seq<SkillMethodologyReference>) -> Seq<ReferenceModel> {
    v.map_values(|r: SkillMethodologyReference| ReferenceModel { label: r.label@, path: r.path@ })
}

pub open spec fn reference_spec(line: Seq<char>, n: nat) -> Result<ReferenceModel, Seq<char>> {
    let f = bar_fields(line);
    if f.len() < 2 {
        Err(line_error("reference"@, n, "use `path | label`"@))
    } else if f[0].len() == 0 || f[1].len() == 0 {
        Err(line_error("reference"@, n, "include both path and label"@))
    } else {
        Ok(ReferenceModel { label: f[1], path: f[0] })
    }
}

pub open spec fn references_spec(lines: Seq<Seq<char>>) -> Result<Seq<ReferenceModel>, Seq<char>>
    decreases lines.len(),
{
    if lines.len() == 0 {
        Ok(Seq::empty())
    } else {
        match references_spec(lines.drop_last()) {
            Err(e) => Err(e),
            Ok(refs) => match reference_spec(lines.last(), lines.len()) {
                Err(e) => Err(e),
                Ok(r) => Ok(refs.push(r)),
            },
        }
    }
}

pub proof fn lemma_references_error_sticks(lines: Seq<Seq<char>>, i: int)
    requires
        0 <= i <= lines.len(),
        references_spec(lines.take(i)) is Err,
    ensures
        references_spec(lines) == references_spec(lines.take(i)),
    decreases lines.len() - i,
{
    if i < lines.len() {
        assert(lines.take(i + 1).drop_last() =~= lines.take(i));
        lemma_references_error_sticks(lines, i + 1);
    }
    assert(lines.take(lines.len() as int) =~= lines);
}

/// Parses the references field: one `path | label` per non-empty line.
pub fn parse_methodology_references_input(input: &str) -> (r: Result<Vec<SkillMethodologyReference>, String>)
    ensures
        match r {
            Ok(v) => references_spec(non_empty_trimmed(lines_of(input@))) == Ok::<Seq<ReferenceModel>, Seq<char>>(references_view(v@)),
            Err(e) => references_spec(non_empty_trimmed(lines_of(input@))) == Err::<Seq<ReferenceModel>, Seq<char>>(e@),
        },
{
    let lines = non_empty_lines_chars(&chars_of(input));
    let ghost ls = non_empty_trimmed(lines_of(input@));
    let mut refs: Vec<SkillMethodologyReference> = Vec::new();
    let mut i: usize = 0;
    assert(ls.take(0) =~= Seq::<Seq<char>>::empty());
    assert(references_view(refs@) =~= Seq::<ReferenceModel>::empty());
    while i < lines.len()
        invariant
            0 <= i <= lines@.len(),
            lines_view(lines@) == ls,
            ls == non_empty_trimmed(lines_of(input@)),
            references_spec(ls.take(i as int)) == Ok::<Seq<ReferenceModel>, Seq<char>>(references_view(refs@)),
        decreases lines.len() - i,
    {
        proof {
            assert(ls.take(i + 1).drop_last() =~= ls.take(i as int));
            assert(ls.take(i + 1).last() == lines@[i as int]@);
        }
        let f = bar_fields_exec(&lines[i]);
        if f.len() < 2 {
            let e = line_error_exec("reference", i + 1, "use `path | label`");
            proof { lemma_references_error_sticks(ls, i + 1); }
            return Err(e);
        }
        if f[0].len() == 0 || f[1].len() == 0 {
            let e = line_error_exec("reference", i + 1, "include both path and label");
            proof { lemma_references_error_sticks(ls, i + 1); }
            return Err(e);
        }
        let reference = SkillMethodologyReference {
            label: string_from_chars(&f[1]),
            path: string_from_chars(&f[0]),
        };
        let ghost before = refs@;
        refs.push(reference);
        proof {
            assert(references_view(refs@) =~= references_view(before).push(
                ReferenceModel { label: reference.label@, path: reference.path@ },
            ));
        }
        i = i + 1;
    }
    assert(ls.take(i as int) =~= ls);
    Ok(refs)
}

// ---------------------------------------------------------------------------
// The methodology draft
// ---------------------------------------------------------------------------

/// A skill's method being written: one text field per section, and the
/// section in focus.
#[derive(Clone, Debug)]
pub struct SkillMethodologyDraft {
    pub selected_section: SkillMethodologySection,
    pub when_to_use: TextEditorState,
    pub when_not_to_use: TextEditorState,
    pub prerequisites: TextEditorState,
    pub core_steps: TextEditorState,
    pub success_criteria: TextEditorState,
    pub validation: TextEditorState,
    pub pitfalls: TextEditorState,
    pub references: TextEditorState,
}

/// The field of a section.
pub open spec fn editor_of(d: SkillMethodologyDraft, s: SkillMethodologySection) -> TextEditorState {
    match s {
        SkillMethodologySection::WhenToUse => d.when_to_use,
        SkillMethodologySection::WhenNotToUse => d.when_not_to_use,
        SkillMethodologySection::Prerequisites => d.prerequisites,
        SkillMethodologySection::CoreSteps => d.core_steps,
        SkillMethodologySection::SuccessCriteria => d.success_criteria,
        SkillMethodologySection::Validation => d.validation,
        SkillMethodologySection::Pitfalls => d.pitfalls,
        SkillMethodologySection::References => d.references,
    }
}

/// The draft with the field of a section replaced.
pub open spec fn with_editor(
    d: SkillMethodologyDraft,
    s: SkillMethodologySection,
    e: TextEditorState,
) -> SkillMethodologyDraft {
    match s {
        SkillMethodologySection::WhenToUse => SkillMethodologyDraft { when_to_use: e, ..d },
        SkillMethodologySection::WhenNotToUse => SkillMethodologyDraft { when_not_to_use: e, ..d },
        SkillMethodologySection::Prerequisites => SkillMethodologyDraft { prerequisites: e, ..d },
        SkillMethodologySection::CoreSteps => SkillMethodologyDraft { core_steps: e, ..d },
        SkillMethodologySection::SuccessCriteria => SkillMethodologyDraft { success_criteria: e, ..d },
        SkillMethodologySection::Validation => SkillMethodologyDraft { validation: e, ..d },
        SkillMethodologySection::Pitfalls => SkillMethodologyDraft { pitfalls: e, ..d },
        SkillMethodologySection::References => SkillMethodologyDraft { references: e, ..d },
    }
}

impl SkillMethodologyDraft {
    pub open spec fn wf(&self) -> bool {
        &&& self.when_to_use.wf()
        &&& self.when_not_to_use.wf()
        &&& self.prerequisites.wf()
        &&& self.core_steps.wf()
        &&& self.success_criteria.wf()
        &&& self.validation.wf()
        &&& self.pitfalls.wf()
        &&& self.references.wf()
    }

    /// Empty fields, the first section in focus.
    pub fn new() -> (r: Self)
        ensures
            r.wf(),
            r.selected_section == SkillMethodologySection::WhenToUse,
            forall|s: SkillMethodologySection|
                (#[trigger] editor_of(r, s))@ == (TextEditorModel { text: Seq::empty(), cursor: 0, scroll: 0 }),
    {
        SkillMethodologyDraft {
            selected_section: SkillMethodologySection::WhenToUse,
            when_to_use: TextEditorState::new(),
            when_not_to_use: TextEditorState::new(),
            prerequisites: TextEditorState::new(),
            core_steps: TextEditorState::new(),
            success_criteria: TextEditorState::new(),
            validation: TextEditorState::new(),
            pitfalls: TextEditorState::new(),
            references: TextEditorState::new(),
        }
    }

    /// The field of the section in focus.
    pub fn selected_editor(&self) -> (r: &TextEditorState)
        ensures
            *r == editor_of(*self, self.selected_section),
    {
        match self.selected_section {
            SkillMethodologySection::WhenToUse => &self.when_to_use,
            SkillMethodologySection::WhenNotToUse => &self.when_not_to_use,
            SkillMethodologySection::Prerequisites => &self.prerequisites,
            SkillMethodologySection::CoreSteps => &self.core_steps,
            SkillMethodologySection::SuccessCriteria => &self.success_criteria,
            SkillMethodologySection::Validation => &self.validation,
            SkillMethodologySection::Pitfalls => &self.pitfalls,
            SkillMethodologySection::References => &self.references,
        }
    }

    /// The field of the section in focus, for editing.
    pub fn selected_editor_mut(&mut self) -> (r: &mut TextEditorState)
        ensures
            *r == editor_of(*old(self), old(self).selected_section),
            *final(self) == with_editor(*old(self), old(self).selected_section, *final(r)),
    {
        match self.selected_section {
            SkillMethodologySection::WhenToUse => &mut self.when_to_use,
            SkillMethodologySection::WhenNotToUse => &mut self.when_not_to_use,
            SkillMethodologySection::Prerequisites => &mut self.prerequisites,
            SkillMethodologySection::CoreSteps => &mut self.core_steps,
            SkillMethodologySection::SuccessCriteria => &mut self.success_criteria,
            SkillMethodologySection::Validation => &mut self.validation,
            SkillMethodologySection::Pitfalls => &mut self.pitfalls,
            SkillMethodologySection::References => &mut self.references,
        }
    }

    /// `{title} ({n})`, `n` the section's non-empty lines.
    pub fn section_summary(&self, section: SkillMethodologySection) -> (r: String)
        ensures
            r@ == section_title_spec(section) + " ("@ + decimal(
                non_empty_trimmed(lines_of(editor_of(*self, section)@.text)).len(),
            ) + ")"@,
    {
        let editor = match section {
            SkillMethodologySection::WhenToUse => &self.when_to_use,
            SkillMethodologySection::WhenNotToUse => &self.when_not_to_use,
            SkillMethodologySection::Prerequisites => &self.prerequisites,
            SkillMethodologySection::CoreSteps => &self.core_steps,
            SkillMethodologySection::SuccessCriteria => &self.success_criteria,
            SkillMethodologySection::Validation => &self.validation,
            SkillMethodologySection::Pitfalls => &self.pitfalls,
            SkillMethodologySection::References => &self.references,
        };
        let text = editor.text();
        let count = split_non_empty_lines(text.as_str()).len();
        let mut out = chars_of(section.title());
        push_all(&mut out, &chars_of(" ("));
        push_all(&mut out, &u64_decimal(count as u64));
        push_all(&mut out, &chars_of(")"));
        string_from_chars(&out)
    }
}

// ---------------------------------------------------------------------------
// The methodology template
// ---------------------------------------------------------------------------

/// A skill's method, section by section, as the server takes and gives it.
#[derive(Clone, Debug, PartialEq, Eq)]
pub struct SkillMethodologyTemplate {
    pub when_to_use: Vec<String>,
    pub when_not_to_use: Vec<String>,
    pub prerequisites: Vec<String>,
    pub core_steps: Vec<SkillMethodologyStep>,
    pub success_criteria: Vec<String>,
    pub validation: Vec<String>,
    pub pitfalls: Vec<String>,
    pub references: Vec<SkillMethodologyReference>,
}

pub open spec fn newline() -> Seq<char> {
    seq!['\n']
}

pub open spec fn bar_separator() -> Seq<char> {
    seq![' ', '|', ' ']
}

/// A step as a line of the core-steps field: `title | action`, then
/// ` | outcome` when it has a non-empty outcome.
pub open spec fn step_line(s: StepModel) -> Seq<char> {
    let head = s.title + bar_separator() + s.action;
    match s.outcome {
        Some(o) => if o.len() > 0 { head + bar_separator() + o } else { head },
        None => head,
    }
}

/// A reference as a line of the references field: `path | label`.
pub open spec fn reference_line(r: ReferenceModel) -> Seq<char> {
    r.path + bar_separator() + r.label
}

/// The text of a section's field for a template: its items, one a line.
pub open spec fn template_text(t: SkillMethodologyTemplate, s: SkillMethodologySection) -> Seq<char> {
    match s {
        SkillMethodologySection::WhenToUse => joined(strings_view(t.when_to_use@), newline()),
        SkillMethodologySection::WhenNotToUse => joined(strings_view(t.when_not_to_use@), newline()),
        SkillMethodologySection::Prerequisites => joined(strings_view(t.prerequisites@), newline()),
        SkillMethodologySection::CoreSteps => joined(
            steps_view(t.core_steps@).map_values(|m: StepModel| step_line(m)),
            newline(),
        ),
        SkillMethodologySection::SuccessCriteria => joined(strings_view(t.success_criteria@), newline()),
        SkillMethodologySection::Validation => joined(strings_view(t.validation@), newline()),
        SkillMethodologySection::Pitfalls => joined(strings_view(t.pitfalls@), newline()),
        SkillMethodologySection::References => joined(
            references_view(t.references@).map_values(|m: ReferenceModel| reference_line(m)),
            newline(),
        ),
    }
}

/// The lines joined with newlines.
fn join_lines(v: &Vec<String>) -> (r: String)
    ensures
        r@ == joined(strings_view(v@), newline()),
{
    let ghost views = strings_view(v@);
    let mut out = String::new();
    let mut i: usize = 0;
    while i < v.len()
        invariant
            0 <= i <= v@.len(),
            views == strings_view(v@),
            out@ == joined(views.take(i as int), newline()),
        decreases v@.len() - i,
    {
        if i > 0 {
            proof {
                reveal_strlit("\n");
            }
            out.append("\n");
        }
        out.append(v[i].as_str());
        proof {
            let t = views.take(i + 1);
            assert(t.drop_last() =~= views.take(i as int));
            if i == 0 {
                assert(out@ =~= t[0]);
            } else {
                assert("\n"@ =~= newline());
                assert(out@ =~= joined(t, newline()));
            }
        }
        i += 1;
    }
    assert(views.take(i as int) =~= views);
    out
}

fn step_lines(steps: &Vec<SkillMethodologyStep>) -> (r: Vec<String>)
    ensures
        strings_view(r@) == steps_view(steps@).map_values(|m: StepModel| step_line(m)),
{
    let mut out: Vec<String> = Vec::new();
    let mut i: usize = 0;
    proof {
        reveal_strlit(" | ");
        assert(" | "@ =~= bar_separator());
    }
    while i < steps.len()
        invariant
            0 <= i <= steps@.len(),
            " | "@ == bar_separator(),
            strings_view(out@) == steps_view(steps@).map_values(|m: StepModel| step_line(m)).take(i as int),
        decreases steps@.len() - i,
    {
        let step = &steps[i];
        let mut line = step.title.clone();
        line.append(" | ");
        line.append(step.action.as_str());
        if let Some(outcome) = &step.outcome {
            if !outcome.as_str().is_empty() {
                line.append(" | ");
                line.append(outcome.as_str());
            }
        }
        assert(line@ =~= step_line(step_view(*step)));
        assert(steps_view(steps@)[i as int] == step_view(steps@[i as int]));
        let ghost before = out@;
        let ghost lv = line@;
        out.push(line);
        proof {
            assert(strings_view(out@) =~= strings_view(before).push(lv));
            assert(strings_view(out@) =~= steps_view(steps@).map_values(|m: StepModel| step_line(m)).take(i + 1));
        }
        i += 1;
    }
    assert(steps_view(steps@).map_values(|m: StepModel| step_line(m)).take(i as int)
        =~= steps_view(steps@).map_values(|m: StepModel| step_line(m)));
    out
}

fn reference_lines(refs: &Vec<SkillMethodologyReference>) -> (r: Vec<String>)
    ensures
        strings_view(r@) == references_view(refs@).map_values(|m: ReferenceModel| reference_line(m)),
{
    let mut out: Vec<String> = Vec::new();
    let mut i: usize = 0;
    proof {
        reveal_strlit(" | ");
        assert(" | "@ =~= bar_separator());
    }
    while i < refs.len()
        invariant
            0 <= i <= refs@.len(),
            " | "@ == bar_separator(),
            strings_view(out@) == references_view(refs@).map_values(|m: ReferenceModel| reference_line(m)).take(
                i as int,
            ),
        decreases refs@.len() - i,
    {
        let mut line = refs[i].path.clone();
        line.append(" | ");
        line.append(refs[i].label.as_str());
        assert(references_view(refs@)[i as int] == (ReferenceModel { label: refs@[i as int].label@, path: refs@[i as int].path@ }));
        assert(line@ =~= reference_line(references_view(refs@)[i as int]));
        let ghost before = out@;
        let ghost lv = line@;
        out.push(line);
        proof {
            assert(strings_view(out@) =~= strings_view(before).push(lv));
            assert(strings_view(out@) =~= references_view(refs@).map_values(|m: ReferenceModel| reference_line(m)).take(
                i + 1,
            ));
        }
        i += 1;
    }
    assert(references_view(refs@).map_values(|m: ReferenceModel| reference_line(m)).take(i as int)
        =~= references_view(refs@).map_values(|m: ReferenceModel| reference_line(m)));
    out
}

/// The template that a draft's fields give, or the first error of its
/// core steps, then of its references.
pub open spec fn to_template_ok(d: SkillMethodologyDraft, t: SkillMethodologyTemplate) -> bool {
    &&& strings_view(t.when_to_use@) == non_empty_trimmed(lines_of(d.when_to_use@.text))
    &&& strings_view(t.when_not_to_use@) == non_empty_trimmed(lines_of(d.when_not_to_use@.text))
    &&& strings_view(t.prerequisites@) == non_empty_trimmed(lines_of(d.prerequisites@.text))
    &&& steps_spec(non_empty_trimmed(lines_of(d.core_steps@.text))) == Ok::<Seq<StepModel>, Seq<char>>(
        steps_view(t.core_steps@),
    )
    &&& strings_view(t.success_criteria@) == non_empty_trimmed(lines_of(d.success_criteria@.text))
    &&& strings_view(t.validation@) == non_empty_trimmed(lines_of(d.validation@.text))
    &&& strings_view(t.pitfalls@) == non_empty_trimmed(lines_of(d.pitfalls@.text))
    &&& references_spec(non_empty_trimmed(lines_of(d.references@.text))) == Ok::<
        Seq<ReferenceModel>,
        Seq<char>,
    >(references_view(t.references@))
}

/// The error that turning a draft into a template gives, if any.
pub open spec fn to_template_error(d: SkillMethodologyDraft) -> Option<Seq<char>> {
    match steps_spec(non_empty_trimmed(lines_of(d.core_steps@.text))) {
        Err(e) => Some(e),
        Ok(_) => match references_spec(non_empty_trimmed(lines_of(d.references@.text))) {
            Err(e) => Some(e),
            Ok(_) => None,
        },
    }
}

impl SkillMethodologyDraft {
    /// A draft showing a template, one item a line, the first section in
    /// focus.
    pub fn from_template(template: &SkillMethodologyTemplate) -> (r: Self)
        ensures
            r.wf(),
            r.selected_section == SkillMethodologySection::WhenToUse,
            forall|s: SkillMethodologySection|
                (#[trigger] editor_of(r, s))@ == synced(template_text(*template, s), template_text(*template, s).len() as int),
    {
        SkillMethodologyDraft {
            selected_section: SkillMethodologySection::WhenToUse,
            when_to_use: TextEditorState::with_text(join_lines(&template.when_to_use)),
            when_not_to_use: TextEditorState::with_text(join_lines(&template.when_not_to_use)),
            prerequisites: TextEditorState::with_text(join_lines(&template.prerequisites)),
            core_steps: TextEditorState::with_text(join_lines(&step_lines(&template.core_steps))),
            success_criteria: TextEditorState::with_text(join_lines(&template.success_criteria)),
            validation: TextEditorState::with_text(join_lines(&template.validation)),
            pitfalls: TextEditorState::with_text(join_lines(&template.pitfalls)),
            references: TextEditorState::with_text(join_lines(&reference_lines(&template.references))),
        }
    }

    /// The template the fields give: the non-empty lines of each section,
    /// the steps and references parsed.
    pub fn to_template(&self) -> (r: Result<SkillMethodologyTemplate, String>)
        ensures
            match r {
                Ok(t) => to_template_error(*self) is None && to_template_ok(*self, t),
                Err(e) => to_template_error(*self) == Some(e@),
            },
    {
        let when_to_use = split_non_empty_lines(self.when_to_use.text().as_str());
        let when_not_to_use = split_non_empty_lines(self.when_not_to_use.text().as_str());
        let prerequisites = split_non_empty_lines(self.prerequisites.text().as_str());
        let core_steps = match parse_methodology_steps_input(self.core_steps.text().as_str()) {
            Ok(v) => v,
            Err(e) => {
                return Err(e);
            },
        };
        let success_criteria = split_non_empty_lines(self.success_criteria.text().as_str());
        let validation = split_non_empty_lines(self.validation.text().as_str());
        let pitfalls = split_non_empty_lines(self.pitfalls.text().as_str());
        let references = match parse_methodology_references_input(self.references.text().as_str()) {
            Ok(v) => v,
            Err(e) => {
                return Err(e);
            },
        };
        Ok(SkillMethodologyTemplate {
            when_to_use,
            when_not_to_use,
            prerequisites,
            core_steps,
            success_criteria,
            validation,
            pitfalls,
            references,
        })
    }
}

impl Default for SkillMethodologyDraft {
    /// Empty fields, the first section in focus.
    fn default() -> (r: Self)
        ensures
            r.wf(),
            r.selected_section == SkillMethodologySection::WhenToUse,
            forall|s: SkillMethodologySection| (#[trigger] editor_of(r, s))@.text.len() == 0,
    {
        Self::new()
    }
}

} // verus!
