//! The skill list dialog: browsing the catalogue with a filter, the hub's
//! records beside it, and the drafts of creating, editing and deleting a
//! skill.
use vstd::prelude::*;
use crate::text::{chars_of, string_from_chars};
use crate::tui::app_state::{eq_ignore_ascii_case, eq_ignore_ascii_case_spec};
use crate::tui::skill_governance::{focused_spec, focused_timeline_entries, timeline_focus_label};
use crate::tui::ordering::{
    is_permutation, permuted, reorder, stable_order, stable_order_descending, stably_descending,
    stably_sorted,
};
use crate::jsonish::sanitize::{trim, trim_spec};
use crate::tui::skill_editor::SkillMethodologyStep;
use crate::tui::list_dialogs::{contains_sub, contains_sub_exec, lower_codes, lower_codes_exec};
use crate::tui::skill_editor::{
    create_next, create_previous, edit_next, edit_previous, editor_of, section_at, section_index,
    template_text, to_template_error, to_template_ok, with_editor, SkillCreateField, SkillEditField,
    SkillManageEditorMode, SkillMethodologyDraft, SkillMethodologySection, SkillMethodologyTemplate,
};
use crate::tui::text_editor::{apply_op, synced, EditorOp, TextEditorState};
use crate::types::skill::{
    ManagedSkillRecord, SkillArtifactCacheEntry, SkillAuditEvent, SkillDistributionRecord,
    SkillGovernanceTimelineEntry, SkillGuardReport, SkillHubPolicy, SkillManagedLifecycleRecord,
    SkillRemoteInstallPlan, SkillSourceIndexSnapshot, SkillSourceRef, SkillSyncPlan,
};

verus! {

// ---------------------------------------------------------------------------
// What the server says of skills
// ---------------------------------------------------------------------------

/// A skill of the catalogue, with what the list reads of it.
#[derive(Clone, Debug)]
pub struct SkillCatalogEntry {
    pub name: String,
    pub description: String,
    pub category: Option<String>,
    pub location: String,
    pub supporting_files: Vec<String>,
    pub writable: bool,
}

/// What a skill's document says of it.
#[derive(Clone, Debug)]
pub struct SkillMeta {
    pub name: String,
    pub description: String,
    pub category: Option<String>,
    pub location: String,
    pub supporting_files: Vec<String>,
}

#[derive(Clone, Debug)]
pub struct SkillDetail {
    pub meta: SkillMeta,
}

/// A skill loaded in full: its metadata, its source, and whether the
/// workspace may change it.
#[derive(Clone, Debug)]
pub struct SkillDetailResponse {
    pub skill: SkillDetail,
    pub source: String,
    pub writable: bool,
}

/// What creating a skill sends.
#[derive(Clone, Debug)]
pub enum SkillCreatePayload {
    Raw { name: String, description: String, category: Option<String>, body: String },
    Methodology {
        name: String,
        description: String,
        category: Option<String>,
        methodology: SkillMethodologyTemplate,
    },
}

/// What editing a skill sends.
#[derive(Clone, Debug)]
pub enum SkillEditPayload {
    Raw { name: String, content: String },
    Methodology { name: String, description: String, methodology: SkillMethodologyTemplate },
}

// ---------------------------------------------------------------------------
// Drafts
// ---------------------------------------------------------------------------

/// A skill being created.
#[derive(Clone, Debug)]
pub struct SkillCreateDraft {
    pub active_field: SkillCreateField,
    pub editor_mode: SkillManageEditorMode,
    pub name: String,
    pub description: String,
    pub category: String,
    pub body: TextEditorState,
    pub methodology: SkillMethodologyDraft,
}

/// A skill being edited.
#[derive(Clone, Debug)]
pub struct SkillEditDraft {
    pub name: String,
    pub description: String,
    pub category: Option<String>,
    pub active_field: SkillEditField,
    pub editor_mode: SkillManageEditorMode,
    pub source: TextEditorState,
    pub methodology: SkillMethodologyDraft,
    pub methodology_loaded: bool,
}

impl SkillCreateDraft {
    pub open spec fn wf(&self) -> bool {
        self.body.wf() && self.methodology.wf()
    }
}

impl SkillEditDraft {
    pub open spec fn wf(&self) -> bool {
        self.source.wf() && self.methodology.wf()
    }
}

impl Default for SkillCreateDraft {
    /// Empty fields, the name in focus, the method editor chosen.
    fn default() -> (r: Self)
        ensures
            r.wf(),
            r.active_field == SkillCreateField::Name,
            r.editor_mode == SkillManageEditorMode::Methodology,
            r.name@.len() == 0 && r.description@.len() == 0 && r.category@.len() == 0,
            r.body@.text.len() == 0,
            r.methodology.selected_section == SkillMethodologySection::WhenToUse,
            forall|s: SkillMethodologySection| (#[trigger] editor_of(r.methodology, s))@.text.len() == 0,
    {
        SkillCreateDraft {
            active_field: SkillCreateField::Name,
            editor_mode: SkillManageEditorMode::Methodology,
            name: String::new(),
            description: String::new(),
            category: String::new(),
            body: TextEditorState::new(),
            methodology: SkillMethodologyDraft::new(),
        }
    }
}

/// What the dialog is doing.
#[derive(Clone, Debug)]
pub enum SkillListMode {
    Browse,
    Create(SkillCreateDraft),
    Edit(SkillEditDraft),
    ConfirmDelete { name: String },
}

/// Which pane shows beside the list.
#[derive(Clone, Copy, Debug, PartialEq, Eq, Structural)]
pub enum SkillBrowsePane {
    Preview,
    Timeline,
}

pub open spec fn mode_wf(m: SkillListMode) -> bool {
    match m {
        SkillListMode::Create(d) => d.wf(),
        SkillListMode::Edit(d) => d.wf(),
        _ => true,
    }
}

// ---------------------------------------------------------------------------
// The dialog
// ---------------------------------------------------------------------------

/// The skill list dialog.
pub struct SkillListDialog {
    pub skills: Vec<SkillCatalogEntry>,
    pub managed_skills: Vec<ManagedSkillRecord>,
    pub source_indices: Vec<SkillSourceIndexSnapshot>,
    pub audit_events: Vec<SkillAuditEvent>,
    pub governance_timeline: Vec<SkillGovernanceTimelineEntry>,
    pub hub_plan: Option<SkillSyncPlan>,
    pub remote_install_plan: Option<SkillRemoteInstallPlan>,
    pub distributions: Vec<SkillDistributionRecord>,
    pub artifact_cache: Vec<SkillArtifactCacheEntry>,
    pub hub_policy: Option<SkillHubPolicy>,
    pub lifecycle_records: Vec<SkillManagedLifecycleRecord>,
    pub guard_reports: Vec<SkillGuardReport>,
    pub guard_target_label: Option<String>,
    pub selected_hub_source: usize,
    pub filtered: Vec<usize>,
    pub query: String,
    pub detail: Option<SkillDetailResponse>,
    pub detail_error: Option<String>,
    pub detail_scroll: u16,
    pub selected: Option<usize>,
    pub mode: SkillListMode,
    pub browse_pane: SkillBrowsePane,
    pub open: bool,
}

/// Whether a skill's name, description or category holds the query,
/// ignoring ASCII case.
pub open spec fn skill_matches(s: SkillCatalogEntry, query: Seq<char>) -> bool {
    let q = lower_codes(query);
    ||| contains_sub(lower_codes(s.name@), q)
    ||| contains_sub(lower_codes(s.description@), q)
    ||| contains_sub(
        lower_codes(
            match s.category {
                Some(c) => c@,
                None => Seq::<char>::empty(),
            },
        ),
        q,
    )
}

/// The positions of the skills that match the query, in order.
pub open spec fn matching_skills(skills: Seq<SkillCatalogEntry>, query: Seq<char>) -> Seq<usize>
    decreases skills.len(),
{
    if skills.len() == 0 {
        Seq::empty()
    } else {
        let pre = matching_skills(skills.drop_last(), query);
        if skill_matches(skills.last(), query) {
            pre.push((skills.len() - 1) as usize)
        } else {
            pre
        }
    }
}

impl SkillListDialog {
    pub open spec fn wf(&self) -> bool {
        mode_wf(self.mode)
    }

    /// The dialog after filtering: the matches, the first highlighted, the
    /// preview at its top.
    pub open spec fn filtered_from(self, old: SkillListDialog) -> bool {
        let f = matching_skills(old.skills@, old.query@);
        &&& self.filtered@ == f
        &&& self.selected == if f.len() == 0 { None } else { Some(0usize) }
        &&& self.detail_scroll == 0
        &&& self == (SkillListDialog {
            filtered: self.filtered,
            selected: self.selected,
            detail_scroll: 0,
            ..old
        })
    }

    /// A closed dialog in browse mode with nothing loaded.
    pub fn new() -> (r: Self)
        ensures
            r.wf(),
            r.skills@.len() == 0 && r.filtered@.len() == 0 && r.query@.len() == 0,
            r.selected == Some(0usize),
            r.mode is Browse && r.browse_pane == SkillBrowsePane::Preview && !r.open,
            r.detail is None && r.detail_error is None && r.detail_scroll == 0,
            r.selected_hub_source == 0,
    {
        SkillListDialog {
            skills: Vec::new(),
            managed_skills: Vec::new(),
            source_indices: Vec::new(),
            audit_events: Vec::new(),
            governance_timeline: Vec::new(),
            hub_plan: None,
            remote_install_plan: None,
            distributions: Vec::new(),
            artifact_cache: Vec::new(),
            hub_policy: None,
            lifecycle_records: Vec::new(),
            guard_reports: Vec::new(),
            guard_target_label: None,
            selected_hub_source: 0,
            filtered: Vec::new(),
            query: String::new(),
            detail: None,
            detail_error: None,
            detail_scroll: 0,
            selected: Some(0),
            mode: SkillListMode::Browse,
            browse_pane: SkillBrowsePane::Preview,
            open: false,
        }
    }

    fn filter(&mut self)
        ensures
            final(self).filtered_from(*old(self)),
    {
        let q = lower_codes_exec(self.query.as_str());
        let mut out: Vec<usize> = Vec::new();
        let mut i: usize = 0;
        while i < self.skills.len()
            invariant
                0 <= i <= self.skills@.len(),
                q@ == lower_codes(self.query@),
                *self == *old(self),
                out@ == matching_skills(self.skills@.take(i as int), self.query@),
            decreases self.skills@.len() - i,
        {
            proof {
                assert(self.skills@.take(i + 1).drop_last() =~= self.skills@.take(i as int));
            }
            let skill = &self.skills[i];
            let empty = String::new();
            let category = match &skill.category {
                Some(c) => c,
                None => &empty,
            };
            let hit = contains_sub_exec(&lower_codes_exec(skill.name.as_str()), &q)
                || contains_sub_exec(&lower_codes_exec(skill.description.as_str()), &q)
                || contains_sub_exec(&lower_codes_exec(category.as_str()), &q);
            if hit {
                out.push(i);
            }
            i = i + 1;
        }
        assert(self.skills@.take(i as int) =~= self.skills@);
        self.selected = if out.len() == 0 { None } else { Some(0) };
        self.filtered = out;
        self.detail_scroll = 0;
    }

    /// Shows the dialog in browse mode with an empty filter.
    pub fn open(&mut self)
        ensures
            final(self).wf(),
            final(self).open,
            final(self).mode is Browse,
            final(self).browse_pane == SkillBrowsePane::Preview,
            final(self).query@.len() == 0,
            final(self).filtered_from(
                SkillListDialog {
                    open: true,
                    mode: SkillListMode::Browse,
                    browse_pane: SkillBrowsePane::Preview,
                    query: final(self).query,
                    detail_scroll: 0,
                    ..*old(self)
                },
            ),
    {
        self.open = true;
        self.mode = SkillListMode::Browse;
        self.browse_pane = SkillBrowsePane::Preview;
        self.query = String::new();
        self.detail_scroll = 0;
        self.filter();
    }

    /// Hides the dialog and leaves any draft.
    pub fn close(&mut self)
        ensures
            *final(self) == (SkillListDialog { open: false, mode: SkillListMode::Browse, ..*old(self) }),
    {
        self.open = false;
        self.mode = SkillListMode::Browse;
    }

    pub fn is_open(&self) -> (r: bool)
        ensures
            r == self.open,
    {
        self.open
    }

    pub fn is_browse_mode(&self) -> (r: bool)
        ensures
            r == self.mode is Browse,
    {
        match self.mode {
            SkillListMode::Browse => true,
            _ => false,
        }
    }

    pub fn is_create_mode(&self) -> (r: bool)
        ensures
            r == self.mode is Create,
    {
        match self.mode {
            SkillListMode::Create(_) => true,
            _ => false,
        }
    }

    pub fn is_edit_mode(&self) -> (r: bool)
        ensures
            r == self.mode is Edit,
    {
        match self.mode {
            SkillListMode::Edit(_) => true,
            _ => false,
        }
    }

    pub fn is_delete_confirm_mode(&self) -> (r: bool)
        ensures
            r == self.mode is ConfirmDelete,
    {
        match self.mode {
            SkillListMode::ConfirmDelete { .. } => true,
            _ => false,
        }
    }

    /// Types a char into the filter.
    pub fn handle_input(&mut self, c: char)
        ensures
            final(self).query@ == old(self).query@.push(c),
            final(self).filtered_from(SkillListDialog { query: final(self).query, ..*old(self) }),
    {
        let mut q = String::new();
        std::mem::swap(&mut q, &mut self.query);
        crate::text::string_push(&mut q, c);
        self.query = q;
        self.filter();
    }

    /// Takes the filter's last char away.
    pub fn handle_backspace(&mut self)
        ensures
            final(self).query@ == if old(self).query@.len() > 0 {
                old(self).query@.drop_last()
            } else {
                old(self).query@
            },
            final(self).filtered_from(SkillListDialog { query: final(self).query, ..*old(self) }),
    {
        let mut q = String::new();
        std::mem::swap(&mut q, &mut self.query);
        let _ = crate::text::string_pop(&mut q);
        self.query = q;
        self.filter();
    }

    /// Highlights the match above, when there is one.
    pub fn move_up(&mut self)
        ensures
            *final(self) == match old(self).selected {
                Some(s) => if s > 0 {
                    SkillListDialog { selected: Some((s - 1) as usize), detail_scroll: 0, ..*old(self) }
                } else {
                    *old(self)
                },
                None => *old(self),
            },
    {
        if let Some(s) = self.selected {
            if s > 0 {
                self.selected = Some(s - 1);
                self.detail_scroll = 0;
            }
        }
    }

    /// Highlights the match below, when there is one.
    pub fn move_down(&mut self)
        ensures
            *final(self) == match old(self).selected {
                Some(s) => if s + 1 < old(self).filtered@.len() {
                    SkillListDialog { selected: Some((s + 1) as usize), detail_scroll: 0, ..*old(self) }
                } else {
                    *old(self)
                },
                None => *old(self),
            },
    {
        if let Some(s) = self.selected {
            let last = if self.filtered.len() > 0 { self.filtered.len() - 1 } else { 0 };
            if s < last {
                self.selected = Some(s + 1);
                self.detail_scroll = 0;
            }
        }
    }

    /// Scrolls the preview up a line.
    pub fn preview_scroll_up(&mut self)
        ensures
            *final(self) == (SkillListDialog {
                detail_scroll: if old(self).detail_scroll > 0 { (old(self).detail_scroll - 1) as u16 } else { 0 },
                ..*old(self)
            }),
    {
        if self.detail_scroll > 0 {
            self.detail_scroll = self.detail_scroll - 1;
        }
    }

    /// Scrolls the preview down a line.
    pub fn preview_scroll_down(&mut self)
        ensures
            *final(self) == (SkillListDialog {
                detail_scroll: if old(self).detail_scroll < u16::MAX { (old(self).detail_scroll + 1) as u16 } else { u16::MAX },
                ..*old(self)
            }),
    {
        self.detail_scroll = self.detail_scroll.saturating_add(1);
    }

    /// Switches between the preview and the timeline.
    pub fn toggle_browse_pane(&mut self)
        ensures
            *final(self) == (SkillListDialog {
                browse_pane: match old(self).browse_pane {
                    SkillBrowsePane::Preview => SkillBrowsePane::Timeline,
                    SkillBrowsePane::Timeline => SkillBrowsePane::Preview,
                },
                detail_scroll: 0,
                ..*old(self)
            }),
    {
        self.browse_pane = match self.browse_pane {
            SkillBrowsePane::Preview => SkillBrowsePane::Timeline,
            SkillBrowsePane::Timeline => SkillBrowsePane::Preview,
        };
        self.detail_scroll = 0;
    }
}

pub open spec fn opt_view(o: Option<String>) -> Option<Seq<char>> {
    match o {
        Some(s) => Some(s@),
        None => None,
    }
}

/// The position in the catalogue of the highlighted match.
pub open spec fn selected_position(d: SkillListDialog) -> Option<int> {
    match d.selected {
        Some(s) => if s < d.filtered@.len() && d.filtered@[s as int] < d.skills@.len() {
            Some(d.filtered@[s as int] as int)
        } else {
            None
        },
        None => None,
    }
}

fn clone_opt(o: &Option<String>) -> (r: Option<String>)
    ensures
        r == *o,
{
    match o {
        Some(s) => Some(s.clone()),
        None => None,
    }
}

fn trimmed(s: &String) -> (r: String)
    ensures
        r@ == trim_spec(s@),
{
    string_from_chars(trim(chars_of(s.as_str()).as_slice()).as_slice())
}

/// The category a create payload carries: the trimmed field, none when
/// blank.
pub open spec fn category_of(field: Seq<char>) -> Option<Seq<char>> {
    if trim_spec(field).len() == 0 { None } else { Some(trim_spec(field)) }
}

/// The edit draft that `begin_edit` opens for a loaded skill.
pub open spec fn edit_draft_from(mode: SkillListMode, d: SkillDetailResponse, extracted: Option<SkillMethodologyTemplate>) -> bool {
    match mode {
        SkillListMode::Edit(e) => {
            &&& e.name == d.skill.meta.name
            &&& e.description == d.skill.meta.description
            &&& e.category == d.skill.meta.category
            &&& e.active_field == SkillEditField::Description
            &&& e.editor_mode == (if extracted is Some {
                SkillManageEditorMode::Methodology
            } else {
                SkillManageEditorMode::Raw
            })
            &&& e.source@ == synced(d.source@, d.source@.len() as int)
            &&& e.methodology_loaded == extracted is Some
            &&& e.methodology.selected_section == SkillMethodologySection::WhenToUse
            &&& match extracted {
                Some(t) => forall|s: SkillMethodologySection|
                    (#[trigger] editor_of(e.methodology, s))@ == synced(template_text(t, s), template_text(t, s).len() as int),
                None => forall|s: SkillMethodologySection| (#[trigger] editor_of(e.methodology, s))@.text.len() == 0,
            }
        },
        _ => false,
    }
}

impl SkillListDialog {
    /// The name of the highlighted skill.
    pub fn selected_skill(&self) -> (r: Option<&str>)
        ensures
            match selected_position(*self) {
                Some(k) => r matches Some(n) && n@ == self.skills@[k].name@,
                None => r is None,
            },
    {
        match self.selected_entry() {
            Some(e) => Some(e.name.as_str()),
            None => None,
        }
    }

    /// The highlighted skill.
    pub fn selected_entry(&self) -> (r: Option<&SkillCatalogEntry>)
        ensures
            match selected_position(*self) {
                Some(k) => r matches Some(e) && *e == self.skills@[k],
                None => r is None,
            },
    {
        match self.selected {
            Some(s) => {
                if s < self.filtered.len() && self.filtered[s] < self.skills.len() {
                    Some(&self.skills[self.filtered[s]])
                } else {
                    None
                }
            },
            None => None,
        }
    }

    /// Shows a skill loaded in full.
    pub fn set_skill_detail(&mut self, detail: SkillDetailResponse)
        ensures
            *final(self) == (SkillListDialog { detail: Some(detail), detail_error: None, detail_scroll: 0, ..*old(self) }),
    {
        self.detail = Some(detail);
        self.detail_error = None;
        self.detail_scroll = 0;
    }

    /// Shows why a skill could not be loaded.
    pub fn set_skill_detail_error(&mut self, message: String)
        ensures
            *final(self) == (SkillListDialog { detail: None, detail_error: Some(message), detail_scroll: 0, ..*old(self) }),
    {
        self.detail = None;
        self.detail_error = Some(message);
        self.detail_scroll = 0;
    }

    /// Forgets the loaded skill and any error.
    pub fn clear_detail(&mut self)
        ensures
            *final(self) == (SkillListDialog { detail: None, detail_error: None, detail_scroll: 0, ..*old(self) }),
    {
        self.detail = None;
        self.detail_error = None;
        self.detail_scroll = 0;
    }

    /// Starts a new skill from an empty draft.
    pub fn begin_create(&mut self)
        ensures
            final(self).wf(),
            final(self).mode matches SkillListMode::Create(d) && d.active_field == SkillCreateField::Name
                && d.editor_mode == SkillManageEditorMode::Methodology && d.name@.len() == 0
                && d.description@.len() == 0 && d.category@.len() == 0 && d.body@.text.len() == 0
                && d.methodology.selected_section == SkillMethodologySection::WhenToUse
                && forall|s: SkillMethodologySection| (#[trigger] editor_of(d.methodology, s))@.text.len() == 0,
            *final(self) == (SkillListDialog { mode: final(self).mode, ..*old(self) }),
    {
        self.mode = SkillListMode::Create(SkillCreateDraft::default());
    }

    /// Starts editing the loaded skill: its method, when `extracted` (the
    /// template read out of its source) is there, else its raw source.
    /// Refuses when no skill is loaded or it is read-only.
    pub fn begin_edit(&mut self, extracted: Option<SkillMethodologyTemplate>) -> (r: Result<(), String>)
        requires
            old(self).wf(),
        ensures
            final(self).wf(),
            match old(self).detail {
                None => (r matches Err(e) && e@ == "Load a skill before editing it."@) && *final(self) == *old(self),
                Some(d) => if !d.writable {
                    (r matches Err(e) && e@
                        == "This skill is read-only in the current workspace. Only workspace-local skills can be edited."@)
                        && *final(self) == *old(self)
                } else {
                    &&& r is Ok
                    &&& *final(self) == (SkillListDialog { mode: final(self).mode, ..*old(self) })
                    &&& edit_draft_from(final(self).mode, d, extracted)
                },
            },
    {
        let detail = match &self.detail {
            Some(d) => d,
            None => {
                proof {
                    reveal_strlit("Load a skill before editing it.");
                }
                return Err(String::from_str("Load a skill before editing it."));
            },
        };
        if !detail.writable {
            proof {
                reveal_strlit("This skill is read-only in the current workspace. Only workspace-local skills can be edited.");
            }
            return Err(
                String::from_str(
                    "This skill is read-only in the current workspace. Only workspace-local skills can be edited.",
                ),
            );
        }
        let loaded = extracted.is_some();
        let methodology = match &extracted {
            Some(t) => SkillMethodologyDraft::from_template(t),
            None => SkillMethodologyDraft::new(),
        };
        let draft = SkillEditDraft {
            name: detail.skill.meta.name.clone(),
            description: detail.skill.meta.description.clone(),
            category: clone_opt(&detail.skill.meta.category),
            active_field: SkillEditField::Description,
            editor_mode: if loaded { SkillManageEditorMode::Methodology } else { SkillManageEditorMode::Raw },
            source: TextEditorState::with_text(detail.source.clone()),
            methodology,
            methodology_loaded: loaded,
        };
        self.mode = SkillListMode::Edit(draft);
        Ok(())
    }

    /// Asks to confirm deleting the highlighted skill. Refuses when none is
    /// highlighted or it is read-only.
    pub fn begin_delete(&mut self) -> (r: Result<(), String>)
        ensures
            match selected_position(*old(self)) {
                None => (r matches Err(e) && e@ == "Select a skill before deleting it."@) && *final(self) == *old(self),
                Some(k) => if !old(self).skills@[k].writable {
                    (r matches Err(e) && e@
                        == "This skill is read-only in the current workspace. Only workspace-local skills can be deleted."@)
                        && *final(self) == *old(self)
                } else {
                    r is Ok && *final(self) == (SkillListDialog {
                        mode: SkillListMode::ConfirmDelete { name: old(self).skills@[k].name },
                        ..*old(self)
                    })
                },
            },
    {
        let entry = match self.selected_entry() {
            Some(e) => e,
            None => {
                proof {
                    reveal_strlit("Select a skill before deleting it.");
                }
                return Err(String::from_str("Select a skill before deleting it."));
            },
        };
        if !entry.writable {
            proof {
                reveal_strlit("This skill is read-only in the current workspace. Only workspace-local skills can be deleted.");
            }
            return Err(
                String::from_str(
                    "This skill is read-only in the current workspace. Only workspace-local skills can be deleted.",
                ),
            );
        }
        let name = entry.name.clone();
        self.mode = SkillListMode::ConfirmDelete { name };
        Ok(())
    }

    /// Leaves any draft for browsing.
    pub fn cancel_manage_mode(&mut self)
        ensures
            *final(self) == (SkillListDialog { mode: SkillListMode::Browse, ..*old(self) }),
    {
        self.mode = SkillListMode::Browse;
    }

    /// What creating the drafted skill sends: the trimmed name and
    /// description, the trimmed category when not blank, and the raw body
    /// or the method's template (or why the method does not parse). None
    /// outside create mode.
    pub fn create_payload(&self) -> (r: Option<Result<SkillCreatePayload, String>>)
        ensures
            !(self.mode is Create) ==> r is None,
            self.mode matches SkillListMode::Create(d) ==> match d.editor_mode {
                SkillManageEditorMode::Raw => r matches Some(Ok(SkillCreatePayload::Raw { name, description, category, body }))
                    && name@ == trim_spec(d.name@) && description@ == trim_spec(d.description@)
                    && opt_view(category) == category_of(d.category@) && body@ == d.body@.text,
                SkillManageEditorMode::Methodology => match to_template_error(d.methodology) {
                    Some(e) => r matches Some(Err(x)) && x@ == e,
                    None => r matches Some(Ok(SkillCreatePayload::Methodology { name, description, category, methodology }))
                        && name@ == trim_spec(d.name@) && description@ == trim_spec(d.description@)
                        && opt_view(category) == category_of(d.category@) && to_template_ok(d.methodology, methodology),
                },
            },
    {
        let draft = match &self.mode {
            SkillListMode::Create(d) => d,
            _ => {
                return None;
            },
        };
        let name = trimmed(&draft.name);
        let description = trimmed(&draft.description);
        let category_trimmed = trimmed(&draft.category);
        let category = if category_trimmed.as_str().is_empty() { None } else { Some(category_trimmed) };
        Some(
            match draft.editor_mode {
                SkillManageEditorMode::Raw => Ok(
                    SkillCreatePayload::Raw { name, description, category, body: draft.body.text() },
                ),
                SkillManageEditorMode::Methodology => match draft.methodology.to_template() {
                    Ok(methodology) => Ok(SkillCreatePayload::Methodology { name, description, category, methodology }),
                    Err(e) => Err(e),
                },
            },
        )
    }

    /// What editing the drafted skill sends: its name with the raw source,
    /// or with the trimmed description and the method's template (or why
    /// the method does not parse). None outside edit mode.
    pub fn edit_payload(&self) -> (r: Option<Result<SkillEditPayload, String>>)
        ensures
            !(self.mode is Edit) ==> r is None,
            self.mode matches SkillListMode::Edit(d) ==> match d.editor_mode {
                SkillManageEditorMode::Raw => r matches Some(Ok(SkillEditPayload::Raw { name, content }))
                    && name == d.name && content@ == d.source@.text,
                SkillManageEditorMode::Methodology => match to_template_error(d.methodology) {
                    Some(e) => r matches Some(Err(x)) && x@ == e,
                    None => r matches Some(Ok(SkillEditPayload::Methodology { name, description, methodology }))
                        && name == d.name && description@ == trim_spec(d.description@)
                        && to_template_ok(d.methodology, methodology),
                },
            },
    {
        let draft = match &self.mode {
            SkillListMode::Edit(d) => d,
            _ => {
                return None;
            },
        };
        Some(
            match draft.editor_mode {
                SkillManageEditorMode::Raw => Ok(
                    SkillEditPayload::Raw { name: draft.name.clone(), content: draft.source.text() },
                ),
                SkillManageEditorMode::Methodology => match draft.methodology.to_template() {
                    Ok(methodology) => Ok(
                        SkillEditPayload::Methodology {
                            name: draft.name.clone(),
                            description: trimmed(&draft.description),
                            methodology,
                        },
                    ),
                    Err(e) => Err(e),
                },
            },
        )
    }

    /// The name of the skill awaiting deletion; none in other modes.
    pub fn delete_payload(&self) -> (r: Option<String>)
        ensures
            match self.mode {
                SkillListMode::ConfirmDelete { name } => r == Some(name),
                _ => r is None,
            },
    {
        match &self.mode {
            SkillListMode::ConfirmDelete { name } => Some(name.clone()),
            _ => None,
        }
    }
}

// ---------------------------------------------------------------------------
// Keys in the drafts
// ---------------------------------------------------------------------------

/// A key that the create and edit drafts answer.
pub enum ManageKey {
    Char(char),
    Backspace,
    Delete,
    Left,
    Right,
    Home,
    End,
    Enter,
    Tab(bool),
    PageUp,
    PageDown,
    Up,
    Down,
}

/// The edit a key makes in a text field it reaches, if any.
pub open spec fn editor_op(key: ManageKey) -> Option<EditorOp> {
    match key {
        ManageKey::Char(c) => Some(EditorOp::Insert(c)),
        ManageKey::Backspace => Some(EditorOp::Backspace),
        ManageKey::Delete => Some(EditorOp::Delete),
        ManageKey::Left => Some(EditorOp::Left),
        ManageKey::Right => Some(EditorOp::Right),
        ManageKey::Home => Some(EditorOp::Home),
        ManageKey::End => Some(EditorOp::End),
        ManageKey::Enter => Some(EditorOp::Newline),
        ManageKey::PageUp => Some(EditorOp::ScrollUp),
        ManageKey::PageDown => Some(EditorOp::ScrollDown),
        _ => None,
    }
}

/// A text field after a key that reaches it.
pub open spec fn editor_after(e: TextEditorState, key: ManageKey, e2: TextEditorState) -> bool {
    match editor_op(key) {
        Some(op) => e2.wf() && e2@ == apply_op(e@, op),
        None => e2 == e,
    }
}

/// The method draft after a key in its editor: the section in focus takes
/// the edit.
pub open spec fn methodology_after(m: SkillMethodologyDraft, key: ManageKey, m2: SkillMethodologyDraft) -> bool {
    match editor_op(key) {
        Some(op) => {
            &&& m2.wf()
            &&& m2 == with_editor(m, m.selected_section, editor_of(m2, m.selected_section))
            &&& editor_of(m2, m.selected_section)@ == apply_op(editor_of(m, m.selected_section)@, op)
        },
        None => m2 == m,
    }
}

/// A one-line field after a key: chars are typed at its end and backspace
/// takes the last away; other keys leave it.
pub open spec fn line_after(s: Seq<char>, key: ManageKey) -> Seq<char> {
    match key {
        ManageKey::Char(c) => s.push(c),
        ManageKey::Backspace => if s.len() > 0 { s.drop_last() } else { s },
        _ => s,
    }
}

pub open spec fn toggled(m: SkillManageEditorMode) -> SkillManageEditorMode {
    match m {
        SkillManageEditorMode::Methodology => SkillManageEditorMode::Raw,
        SkillManageEditorMode::Raw => SkillManageEditorMode::Methodology,
    }
}

/// The method draft with another section in focus.
pub open spec fn with_section(m: SkillMethodologyDraft, s: SkillMethodologySection) -> SkillMethodologyDraft {
    SkillMethodologyDraft { selected_section: s, ..m }
}

/// A create draft after a key.
pub open spec fn create_after(d: SkillCreateDraft, key: ManageKey, d2: SkillCreateDraft) -> bool {
    match key {
        ManageKey::Tab(reverse) => d2 == SkillCreateDraft {
            active_field: if reverse {
                create_previous(d.active_field, d.editor_mode)
            } else {
                create_next(d.active_field, d.editor_mode)
            },
            ..d
        },
        _ => match d.active_field {
            SkillCreateField::Name => if key is Enter {
                d2 == SkillCreateDraft { active_field: SkillCreateField::Description, ..d }
            } else {
                d2 == SkillCreateDraft { name: d2.name, ..d } && d2.name@ == line_after(d.name@, key)
            },
            SkillCreateField::Description => if key is Enter {
                d2 == SkillCreateDraft { active_field: SkillCreateField::Category, ..d }
            } else {
                d2 == SkillCreateDraft { description: d2.description, ..d } && d2.description@ == line_after(
                    d.description@,
                    key,
                )
            },
            SkillCreateField::Category => if key is Enter {
                d2 == SkillCreateDraft { active_field: SkillCreateField::EditorMode, ..d }
            } else {
                d2 == SkillCreateDraft { category: d2.category, ..d } && d2.category@ == line_after(d.category@, key)
            },
            SkillCreateField::EditorMode => match key {
                ManageKey::Left | ManageKey::Right => d2 == SkillCreateDraft { editor_mode: toggled(d.editor_mode), ..d },
                ManageKey::Enter => d2 == SkillCreateDraft {
                    editor_mode: toggled(d.editor_mode),
                    active_field: if toggled(d.editor_mode) == SkillManageEditorMode::Methodology {
                        SkillCreateField::MethodologySection
                    } else {
                        SkillCreateField::Body
                    },
                    ..d
                },
                _ => d2 == d,
            },
            SkillCreateField::MethodologySection => match key {
                ManageKey::Enter => d2 == SkillCreateDraft { active_field: SkillCreateField::MethodologyEditor, ..d },
                ManageKey::Up => d2 == SkillCreateDraft {
                    methodology: with_section(
                        d.methodology,
                        section_at((section_index(d.methodology.selected_section) + 7) % 8),
                    ),
                    ..d
                },
                ManageKey::Down => d2 == SkillCreateDraft {
                    methodology: with_section(
                        d.methodology,
                        section_at((section_index(d.methodology.selected_section) + 1) % 8),
                    ),
                    ..d
                },
                _ => d2 == d,
            },
            SkillCreateField::MethodologyEditor => d2 == SkillCreateDraft { methodology: d2.methodology, ..d }
                && methodology_after(d.methodology, key, d2.methodology),
            SkillCreateField::Body => d2 == SkillCreateDraft { body: d2.body, ..d } && editor_after(d.body, key, d2.body),
        },
    }
}

/// An edit draft after a key.
pub open spec fn edit_after(d: SkillEditDraft, key: ManageKey, d2: SkillEditDraft) -> bool {
    match key {
        ManageKey::Tab(reverse) => d2 == SkillEditDraft {
            active_field: if reverse {
                edit_previous(d.active_field, d.editor_mode)
            } else {
                edit_next(d.active_field, d.editor_mode)
            },
            ..d
        },
        _ => match d.active_field {
            SkillEditField::Description => if key is Enter {
                d2 == SkillEditDraft { active_field: SkillEditField::EditorMode, ..d }
            } else {
                d2 == SkillEditDraft { description: d2.description, ..d } && d2.description@ == line_after(
                    d.description@,
                    key,
                )
            },
            SkillEditField::EditorMode => match key {
                ManageKey::Left | ManageKey::Right => d2 == SkillEditDraft { editor_mode: toggled(d.editor_mode), ..d },
                ManageKey::Enter => d2 == SkillEditDraft {
                    editor_mode: toggled(d.editor_mode),
                    active_field: if toggled(d.editor_mode) == SkillManageEditorMode::Methodology {
                        SkillEditField::MethodologySection
                    } else {
                        SkillEditField::RawSource
                    },
                    ..d
                },
                _ => d2 == d,
            },
            SkillEditField::MethodologySection => match key {
                ManageKey::Enter => d2 == SkillEditDraft { active_field: SkillEditField::MethodologyEditor, ..d },
                ManageKey::Up => d2 == SkillEditDraft {
                    methodology: with_section(
                        d.methodology,
                        section_at((section_index(d.methodology.selected_section) + 7) % 8),
                    ),
                    ..d
                },
                ManageKey::Down => d2 == SkillEditDraft {
                    methodology: with_section(
                        d.methodology,
                        section_at((section_index(d.methodology.selected_section) + 1) % 8),
                    ),
                    ..d
                },
                _ => d2 == d,
            },
            SkillEditField::MethodologyEditor => d2 == SkillEditDraft { methodology: d2.methodology, ..d }
                && methodology_after(d.methodology, key, d2.methodology),
            SkillEditField::RawSource => d2 == SkillEditDraft { source: d2.source, ..d } && editor_after(
                d.source,
                key,
                d2.source,
            ),
        },
    }
}

/// The dialog after a key in manage mode: the draft takes it; browsing
/// and the delete prompt ignore it.
pub open spec fn manage_step(d: SkillListDialog, key: ManageKey, d2: SkillListDialog) -> bool {
    &&& d2 == SkillListDialog { mode: d2.mode, ..d }
    &&& match d.mode {
        SkillListMode::Create(c) => d2.mode matches SkillListMode::Create(c2) && create_after(c, key, c2),
        SkillListMode::Edit(e) => d2.mode matches SkillListMode::Edit(e2) && edit_after(e, key, e2),
        _ => d2.mode == d.mode,
    }
}

impl SkillListDialog {
    /// Types a char into the draft's field in focus.
    pub fn handle_manage_char(&mut self, c: char)
        requires
            old(self).wf(),
        ensures
            final(self).wf(),
            manage_step(*old(self), ManageKey::Char(c), *final(self)),
    {
        match &mut self.mode {
            SkillListMode::Create(draft) => match draft.active_field {
                SkillCreateField::Name => crate::text::string_push(&mut draft.name, c),
                SkillCreateField::Description => crate::text::string_push(&mut draft.description, c),
                SkillCreateField::Category => crate::text::string_push(&mut draft.category, c),
                SkillCreateField::EditorMode | SkillCreateField::MethodologySection => {},
                SkillCreateField::MethodologyEditor => draft.methodology.selected_editor_mut().insert_char(c),
                SkillCreateField::Body => draft.body.insert_char(c),
            },
            SkillListMode::Edit(draft) => match draft.active_field {
                SkillEditField::Description => crate::text::string_push(&mut draft.description, c),
                SkillEditField::EditorMode | SkillEditField::MethodologySection => {},
                SkillEditField::MethodologyEditor => draft.methodology.selected_editor_mut().insert_char(c),
                SkillEditField::RawSource => draft.source.insert_char(c),
            },
            _ => {},
        }
    }

    /// Takes the char before the cursor, or the last char of a one-line field, away.
    pub fn handle_manage_backspace(&mut self)
        requires
            old(self).wf(),
        ensures
            final(self).wf(),
            manage_step(*old(self), ManageKey::Backspace, *final(self)),
    {
        proof {
            match &self.mode {
                SkillListMode::Create(d) => {
                    d.body.lemma_cursor_within();
                    editor_of(d.methodology, d.methodology.selected_section).lemma_cursor_within();
                },
                SkillListMode::Edit(d) => {
                    d.source.lemma_cursor_within();
                    editor_of(d.methodology, d.methodology.selected_section).lemma_cursor_within();
                },
                _ => {},
            }
        }
        match &mut self.mode {
            SkillListMode::Create(draft) => match draft.active_field {
                SkillCreateField::Name => {
                    let _ = crate::text::string_pop(&mut draft.name);
                },
                SkillCreateField::Description => {
                    let _ = crate::text::string_pop(&mut draft.description);
                },
                SkillCreateField::Category => {
                    let _ = crate::text::string_pop(&mut draft.category);
                },
                SkillCreateField::EditorMode | SkillCreateField::MethodologySection => {},
                SkillCreateField::MethodologyEditor => draft.methodology.selected_editor_mut().backspace(),
                SkillCreateField::Body => draft.body.backspace(),
            },
            SkillListMode::Edit(draft) => match draft.active_field {
                SkillEditField::Description => {
                    let _ = crate::text::string_pop(&mut draft.description);
                },
                SkillEditField::EditorMode | SkillEditField::MethodologySection => {},
                SkillEditField::MethodologyEditor => draft.methodology.selected_editor_mut().backspace(),
                SkillEditField::RawSource => draft.source.backspace(),
            },
            _ => {},
        }
    }

    /// Takes the char after the cursor away, in a text field.
    pub fn handle_manage_delete(&mut self)
        requires
            old(self).wf(),
        ensures
            final(self).wf(),
            manage_step(*old(self), ManageKey::Delete, *final(self)),
    {
        proof {
            match &self.mode {
                SkillListMode::Create(d) => {
                    d.body.lemma_cursor_within();
                    editor_of(d.methodology, d.methodology.selected_section).lemma_cursor_within();
                },
                SkillListMode::Edit(d) => {
                    d.source.lemma_cursor_within();
                    editor_of(d.methodology, d.methodology.selected_section).lemma_cursor_within();
                },
                _ => {},
            }
        }
        match &mut self.mode {
            SkillListMode::Create(draft) => match draft.active_field {
                SkillCreateField::MethodologyEditor => draft.methodology.selected_editor_mut().delete(),
                SkillCreateField::Body => draft.body.delete(),
                _ => {},
            },
            SkillListMode::Edit(draft) => match draft.active_field {
                SkillEditField::MethodologyEditor => draft.methodology.selected_editor_mut().delete(),
                SkillEditField::RawSource => draft.source.delete(),
                _ => {},
            },
            _ => {},
        }
    }

    /// Moves the cursor left, or switches the editor mode.
    pub fn handle_manage_left(&mut self)
        requires
            old(self).wf(),
        ensures
            final(self).wf(),
            manage_step(*old(self), ManageKey::Left, *final(self)),
    {
        proof {
            match &self.mode {
                SkillListMode::Create(d) => {
                    d.body.lemma_cursor_within();
                    editor_of(d.methodology, d.methodology.selected_section).lemma_cursor_within();
                },
                SkillListMode::Edit(d) => {
                    d.source.lemma_cursor_within();
                    editor_of(d.methodology, d.methodology.selected_section).lemma_cursor_within();
                },
                _ => {},
            }
        }
        match &mut self.mode {
            SkillListMode::Create(draft) => match draft.active_field {
                SkillCreateField::EditorMode => draft.editor_mode.toggle(),
                SkillCreateField::MethodologyEditor => draft.methodology.selected_editor_mut().move_left(),
                SkillCreateField::Body => draft.body.move_left(),
                _ => {},
            },
            SkillListMode::Edit(draft) => match draft.active_field {
                SkillEditField::EditorMode => draft.editor_mode.toggle(),
                SkillEditField::MethodologyEditor => draft.methodology.selected_editor_mut().move_left(),
                SkillEditField::RawSource => draft.source.move_left(),
                _ => {},
            },
            _ => {},
        }
    }

    /// Moves the cursor right, or switches the editor mode.
    pub fn handle_manage_right(&mut self)
        requires
            old(self).wf(),
        ensures
            final(self).wf(),
            manage_step(*old(self), ManageKey::Right, *final(self)),
    {
        proof {
            match &self.mode {
                SkillListMode::Create(d) => {
                    d.body.lemma_cursor_within();
                    editor_of(d.methodology, d.methodology.selected_section).lemma_cursor_within();
                },
                SkillListMode::Edit(d) => {
                    d.source.lemma_cursor_within();
                    editor_of(d.methodology, d.methodology.selected_section).lemma_cursor_within();
                },
                _ => {},
            }
        }
        match &mut self.mode {
            SkillListMode::Create(draft) => match draft.active_field {
                SkillCreateField::EditorMode => draft.editor_mode.toggle(),
                SkillCreateField::MethodologyEditor => draft.methodology.selected_editor_mut().move_right(),
                SkillCreateField::Body => draft.body.move_right(),
                _ => {},
            },
            SkillListMode::Edit(draft) => match draft.active_field {
                SkillEditField::EditorMode => draft.editor_mode.toggle(),
                SkillEditField::MethodologyEditor => draft.methodology.selected_editor_mut().move_right(),
                SkillEditField::RawSource => draft.source.move_right(),
                _ => {},
            },
            _ => {},
        }
    }

    /// Moves the cursor to the start of its line, in a text field.
    pub fn handle_manage_home(&mut self)
        requires
            old(self).wf(),
        ensures
            final(self).wf(),
            manage_step(*old(self), ManageKey::Home, *final(self)),
    {
        match &mut self.mode {
            SkillListMode::Create(draft) => match draft.active_field {
                SkillCreateField::MethodologyEditor => draft.methodology.selected_editor_mut().move_home(),
                SkillCreateField::Body => draft.body.move_home(),
                _ => {},
            },
            SkillListMode::Edit(draft) => match draft.active_field {
                SkillEditField::MethodologyEditor => draft.methodology.selected_editor_mut().move_home(),
                SkillEditField::RawSource => draft.source.move_home(),
                _ => {},
            },
            _ => {},
        }
    }

    /// Moves the cursor to the end of its line, in a text field.
    pub fn handle_manage_end(&mut self)
        requires
            old(self).wf(),
        ensures
            final(self).wf(),
            manage_step(*old(self), ManageKey::End, *final(self)),
    {
        match &mut self.mode {
            SkillListMode::Create(draft) => match draft.active_field {
                SkillCreateField::MethodologyEditor => draft.methodology.selected_editor_mut().move_end(),
                SkillCreateField::Body => draft.body.move_end(),
                _ => {},
            },
            SkillListMode::Edit(draft) => match draft.active_field {
                SkillEditField::MethodologyEditor => draft.methodology.selected_editor_mut().move_end(),
                SkillEditField::RawSource => draft.source.move_end(),
                _ => {},
            },
            _ => {},
        }
    }

    /// Steps to the next field, switches the editor mode and steps into its editor, or breaks the line in a text field.
    pub fn handle_manage_enter(&mut self)
        requires
            old(self).wf(),
        ensures
            final(self).wf(),
            manage_step(*old(self), ManageKey::Enter, *final(self)),
    {
        match &mut self.mode {
            SkillListMode::Create(draft) => match draft.active_field {
                SkillCreateField::Name => draft.active_field = SkillCreateField::Description,
                SkillCreateField::Description => draft.active_field = SkillCreateField::Category,
                SkillCreateField::Category => draft.active_field = SkillCreateField::EditorMode,
                SkillCreateField::EditorMode => {
                    draft.editor_mode.toggle();
                    draft.active_field = match draft.editor_mode {
                        SkillManageEditorMode::Methodology => SkillCreateField::MethodologySection,
                        SkillManageEditorMode::Raw => SkillCreateField::Body,
                    };
                },
                SkillCreateField::MethodologySection => draft.active_field = SkillCreateField::MethodologyEditor,
                SkillCreateField::MethodologyEditor => draft.methodology.selected_editor_mut().insert_newline(),
                SkillCreateField::Body => draft.body.insert_newline(),
            },
            SkillListMode::Edit(draft) => match draft.active_field {
                SkillEditField::Description => draft.active_field = SkillEditField::EditorMode,
                SkillEditField::EditorMode => {
                    draft.editor_mode.toggle();
                    draft.active_field = match draft.editor_mode {
                        SkillManageEditorMode::Methodology => SkillEditField::MethodologySection,
                        SkillManageEditorMode::Raw => SkillEditField::RawSource,
                    };
                },
                SkillEditField::MethodologySection => draft.active_field = SkillEditField::MethodologyEditor,
                SkillEditField::MethodologyEditor => draft.methodology.selected_editor_mut().insert_newline(),
                SkillEditField::RawSource => draft.source.insert_newline(),
            },
            _ => {},
        }
    }

    /// Scrolls a text field up a line.
    pub fn handle_manage_page_up(&mut self)
        requires
            old(self).wf(),
        ensures
            final(self).wf(),
            manage_step(*old(self), ManageKey::PageUp, *final(self)),
    {
        match &mut self.mode {
            SkillListMode::Create(draft) => match draft.active_field {
                SkillCreateField::MethodologyEditor => draft.methodology.selected_editor_mut().scroll_up(),
                SkillCreateField::Body => draft.body.scroll_up(),
                _ => {},
            },
            SkillListMode::Edit(draft) => match draft.active_field {
                SkillEditField::MethodologyEditor => draft.methodology.selected_editor_mut().scroll_up(),
                SkillEditField::RawSource => draft.source.scroll_up(),
                _ => {},
            },
            _ => {},
        }
    }

    /// Scrolls a text field down a line.
    pub fn handle_manage_page_down(&mut self)
        requires
            old(self).wf(),
        ensures
            final(self).wf(),
            manage_step(*old(self), ManageKey::PageDown, *final(self)),
    {
        match &mut self.mode {
            SkillListMode::Create(draft) => match draft.active_field {
                SkillCreateField::MethodologyEditor => draft.methodology.selected_editor_mut().scroll_down(),
                SkillCreateField::Body => draft.body.scroll_down(),
                _ => {},
            },
            SkillListMode::Edit(draft) => match draft.active_field {
                SkillEditField::MethodologyEditor => draft.methodology.selected_editor_mut().scroll_down(),
                SkillEditField::RawSource => draft.source.scroll_down(),
                _ => {},
            },
            _ => {},
        }
    }

    /// Focuses the previous section, in the section list.
    pub fn handle_manage_up(&mut self)
        requires
            old(self).wf(),
        ensures
            final(self).wf(),
            manage_step(*old(self), ManageKey::Up, *final(self)),
    {
        match &mut self.mode {
            SkillListMode::Create(draft) => match draft.active_field {
                SkillCreateField::MethodologySection => {
                    draft.methodology.selected_section = draft.methodology.selected_section.previous();
                },
                _ => {},
            },
            SkillListMode::Edit(draft) => match draft.active_field {
                SkillEditField::MethodologySection => {
                    draft.methodology.selected_section = draft.methodology.selected_section.previous();
                },
                _ => {},
            },
            _ => {},
        }
    }

    /// Focuses the next section, in the section list.
    pub fn handle_manage_down(&mut self)
        requires
            old(self).wf(),
        ensures
            final(self).wf(),
            manage_step(*old(self), ManageKey::Down, *final(self)),
    {
        match &mut self.mode {
            SkillListMode::Create(draft) => match draft.active_field {
                SkillCreateField::MethodologySection => {
                    draft.methodology.selected_section = draft.methodology.selected_section.next();
                },
                _ => {},
            },
            SkillListMode::Edit(draft) => match draft.active_field {
                SkillEditField::MethodologySection => {
                    draft.methodology.selected_section = draft.methodology.selected_section.next();
                },
                _ => {},
            },
            _ => {},
        }
    }

    /// Moves the focus to the next field, or the previous one.
    pub fn handle_manage_tab(&mut self, reverse: bool)
        requires
            old(self).wf(),
        ensures
            final(self).wf(),
            manage_step(*old(self), ManageKey::Tab(reverse), *final(self)),
    {
        match &mut self.mode {
            SkillListMode::Create(draft) => {
                draft.active_field = if reverse {
                    draft.active_field.previous(draft.editor_mode)
                } else {
                    draft.active_field.next(draft.editor_mode)
                };
            },
            SkillListMode::Edit(draft) => {
                draft.active_field = if reverse {
                    draft.active_field.previous(draft.editor_mode)
                } else {
                    draft.active_field.next(draft.editor_mode)
                };
            },
            _ => {},
        }
    }
}

// ---------------------------------------------------------------------------
// The hub's sources
// ---------------------------------------------------------------------------

/// The first entry of a source named like `name`, ignoring ASCII case.
pub open spec fn first_named(entries: Seq<crate::types::skill::SkillSourceIndexEntry>, name: Seq<char>) -> Option<int>
    decreases entries.len(),
{
    if entries.len() == 0 {
        None
    } else {
        match first_named(entries.drop_last(), name) {
            Some(k) => Some(k),
            None => if eq_ignore_ascii_case_spec(entries.last().skill_name@, name) {
                Some(entries.len() - 1)
            } else {
                None
            },
        }
    }
}

/// Whether an entry's name or description holds the query, ignoring ASCII
/// case.
pub open spec fn entry_mentions(e: crate::types::skill::SkillSourceIndexEntry, query: Seq<char>) -> bool {
    let q = lower_codes(query);
    ||| contains_sub(lower_codes(e.skill_name@), q)
    ||| contains_sub(
        lower_codes(
            match e.description {
                Some(d) => d@,
                None => Seq::<char>::empty(),
            },
        ),
        q,
    )
}

/// The first entry that mentions the query.
pub open spec fn first_mentioning(entries: Seq<crate::types::skill::SkillSourceIndexEntry>, query: Seq<char>) -> Option<int>
    decreases entries.len(),
{
    if entries.len() == 0 {
        None
    } else {
        match first_mentioning(entries.drop_last(), query) {
            Some(k) => Some(k),
            None => if entry_mentions(entries.last(), query) { Some(entries.len() - 1) } else { None },
        }
    }
}

/// Which skill a remote install aims at, in the source in focus: the
/// highlighted skill when the source lists it, else the one the trimmed
/// filter names, else the first it mentions, else the source's first.
pub open spec fn remote_target(d: SkillListDialog) -> Option<Seq<char>> {
    if d.selected_hub_source >= d.source_indices@.len() {
        None
    } else {
        let entries = d.source_indices@[d.selected_hub_source as int].entries@;
        let by_selection = match selected_position(d) {
            Some(k) => first_named(entries, d.skills@[k].name@),
            None => None,
        };
        let q = trim_spec(d.query@);
        match by_selection {
            Some(j) => Some(entries[j].skill_name@),
            None => if q.len() > 0 && first_named(entries, q) is Some {
                Some(entries[first_named(entries, q)->0].skill_name@)
            } else if q.len() > 0 && first_mentioning(entries, q) is Some {
                Some(entries[first_mentioning(entries, q)->0].skill_name@)
            } else if entries.len() > 0 {
                Some(entries[0].skill_name@)
            } else {
                None
            },
        }
    }
}

pub(crate) fn find_named(entries: &Vec<crate::types::skill::SkillSourceIndexEntry>, name: &[char]) -> (r: Option<usize>)
    ensures
        match r {
            Some(k) => first_named(entries@, name@) == Some(k as int) && k < entries@.len(),
            None => first_named(entries@, name@) is None,
        },
{
    let mut k: usize = 0;
    while k < entries.len()
        invariant
            0 <= k <= entries@.len(),
            first_named(entries@.take(k as int), name@) is None,
        decreases entries@.len() - k,
    {
        proof {
            assert(entries@.take(k + 1).drop_last() =~= entries@.take(k as int));
        }
        if eq_ignore_ascii_case(chars_of(entries[k].skill_name.as_str()).as_slice(), name) {
            proof {
                lemma_first_prefix(entries@, name@, k as int);
            }
            return Some(k);
        }
        k += 1;
    }
    assert(entries@.take(k as int) =~= entries@);
    None
}

proof fn lemma_first_prefix(entries: Seq<crate::types::skill::SkillSourceIndexEntry>, name: Seq<char>, k: int)
    requires
        0 <= k < entries.len(),
        first_named(entries.take(k), name) is None,
        eq_ignore_ascii_case_spec(entries[k].skill_name@, name),
    ensures
        first_named(entries, name) == Some(k),
    decreases entries.len(),
{
    if entries.len() - 1 > k {
        assert(entries.drop_last().take(k) =~= entries.take(k));
        assert(entries.drop_last()[k] == entries[k]);
        lemma_first_prefix(entries.drop_last(), name, k);
    } else {
        assert(entries.drop_last() =~= entries.take(k));
    }
}

proof fn lemma_mention_prefix(entries: Seq<crate::types::skill::SkillSourceIndexEntry>, q: Seq<char>, k: int)
    requires
        0 <= k < entries.len(),
        first_mentioning(entries.take(k), q) is None,
        entry_mentions(entries[k], q),
    ensures
        first_mentioning(entries, q) == Some(k),
    decreases entries.len(),
{
    if entries.len() - 1 > k {
        assert(entries.drop_last().take(k) =~= entries.take(k));
        assert(entries.drop_last()[k] == entries[k]);
        lemma_mention_prefix(entries.drop_last(), q, k);
    } else {
        assert(entries.drop_last() =~= entries.take(k));
    }
}

fn find_mentioning(entries: &Vec<crate::types::skill::SkillSourceIndexEntry>, query: &[char]) -> (r: Option<usize>)
    ensures
        match r {
            Some(k) => first_mentioning(entries@, query@) == Some(k as int) && k < entries@.len(),
            None => first_mentioning(entries@, query@) is None,
        },
{
    let q = lower_codes_exec(string_from_chars(query).as_str());
    let mut k: usize = 0;
    while k < entries.len()
        invariant
            0 <= k <= entries@.len(),
            q@ == lower_codes(query@),
            first_mentioning(entries@.take(k as int), query@) is None,
        decreases entries@.len() - k,
    {
        proof {
            assert(entries@.take(k + 1).drop_last() =~= entries@.take(k as int));
        }
        let e = &entries[k];
        let empty = String::new();
        let description = match &e.description {
            Some(d) => d,
            None => &empty,
        };
        let hit = contains_sub_exec(&lower_codes_exec(e.skill_name.as_str()), &q)
            || contains_sub_exec(&lower_codes_exec(description.as_str()), &q);
        if hit {
            proof {
                lemma_mention_prefix(entries@, query@, k as int);
            }
            return Some(k);
        }
        k += 1;
    }
    assert(entries@.take(k as int) =~= entries@);
    None
}

impl SkillListDialog {
    /// Keeps the hub's latest sync plan.
    pub fn set_hub_plan(&mut self, plan: SkillSyncPlan)
        ensures
            *final(self) == (SkillListDialog { hub_plan: Some(plan), ..*old(self) }),
    {
        self.hub_plan = Some(plan);
    }

    /// Keeps the latest remote install plan.
    pub fn set_remote_install_plan(&mut self, plan: SkillRemoteInstallPlan)
        ensures
            *final(self) == (SkillListDialog { remote_install_plan: Some(plan), ..*old(self) }),
    {
        self.remote_install_plan = Some(plan);
    }

    /// The source in focus.
    pub fn selected_hub_source(&self) -> (r: Option<&SkillSourceRef>)
        ensures
            match r {
                Some(src) => self.selected_hub_source < self.source_indices@.len()
                    && *src == self.source_indices@[self.selected_hub_source as int].source,
                None => self.selected_hub_source >= self.source_indices@.len(),
            },
    {
        match self.selected_hub_source_snapshot() {
            Some(snapshot) => Some(&snapshot.source),
            None => None,
        }
    }

    /// The index of the source in focus.
    pub fn selected_hub_source_snapshot(&self) -> (r: Option<&SkillSourceIndexSnapshot>)
        ensures
            match r {
                Some(snap) => self.selected_hub_source < self.source_indices@.len()
                    && *snap == self.source_indices@[self.selected_hub_source as int],
                None => self.selected_hub_source >= self.source_indices@.len(),
            },
    {
        if self.selected_hub_source < self.source_indices.len() {
            Some(&self.source_indices[self.selected_hub_source])
        } else {
            None
        }
    }

    /// Focuses the next source, the last wrapping to the first.
    pub fn cycle_hub_source(&mut self)
        ensures
            *final(self) == (SkillListDialog {
                selected_hub_source: if old(self).source_indices@.len() == 0 {
                    0
                } else {
                    ((old(self).selected_hub_source + 1) % old(self).source_indices@.len() as int) as usize
                },
                ..*old(self)
            }),
    {
        if self.source_indices.len() == 0 {
            self.selected_hub_source = 0;
            return;
        }
        self.selected_hub_source = ((self.selected_hub_source as u128 + 1) % (self.source_indices.len() as u128)) as usize;
    }

    /// What the timeline is about: the highlighted skill, else the source
    /// in focus, else everything.
    pub fn timeline_focus_label(&self) -> (r: String)
        ensures
            r@ == match selected_position(*self) {
                Some(k) => "skill `"@ + self.skills@[k].name@ + "`"@,
                None => if self.selected_hub_source < self.source_indices@.len() {
                    "source `"@ + self.source_indices@[self.selected_hub_source as int].source.source_id@ + "`"@
                } else {
                    "all governance entries"@
                },
            },
    {
        let source_id = match self.selected_hub_source() {
            Some(src) => Some(src.source_id.as_str()),
            None => None,
        };
        timeline_focus_label(self.selected_skill(), source_id)
    }

    /// The positions of the timeline entries about the focus.
    pub fn focused_timeline_entries(&self) -> (r: Vec<usize>)
        ensures
            r@ == focused_spec(
                self.governance_timeline@,
                match selected_position(*self) {
                    Some(k) => Some(self.skills@[k].name@),
                    None => None,
                },
                if self.selected_hub_source < self.source_indices@.len() {
                    Some(self.source_indices@[self.selected_hub_source as int].source.source_id@)
                } else {
                    None
                },
            ),
    {
        let source_id = match self.selected_hub_source() {
            Some(src) => Some(src.source_id.as_str()),
            None => None,
        };
        focused_timeline_entries(&self.governance_timeline, self.selected_skill(), source_id)
    }

    /// The skill a remote install aims at.
    pub fn resolve_remote_install_skill_name(&self) -> (r: Option<String>)
        ensures
            opt_view(r) == remote_target(*self),
    {
        let source = match self.selected_hub_source_snapshot() {
            Some(s) => s,
            None => {
                return None;
            },
        };
        if let Some(selected) = self.selected_skill() {
            if let Some(k) = find_named(&source.entries, chars_of(selected).as_slice()) {
                return Some(source.entries[k].skill_name.clone());
            }
        }
        let query = trim(chars_of(self.query.as_str()).as_slice());
        if query.len() > 0 {
            if let Some(k) = find_named(&source.entries, query.as_slice()) {
                return Some(source.entries[k].skill_name.clone());
            }
            if let Some(k) = find_mentioning(&source.entries, query.as_slice()) {
                return Some(source.entries[k].skill_name.clone());
            }
        }
        if source.entries.len() > 0 {
            Some(source.entries[0].skill_name.clone())
        } else {
            None
        }
    }
}

// ---------------------------------------------------------------------------
// Ordered records
// ---------------------------------------------------------------------------

/// Text keys, none marked to go first.
pub open spec fn unmarked(keys: Seq<Seq<char>>) -> Seq<(bool, Seq<char>)> {
    keys.map_values(|k: Seq<char>| (false, k))
}

/// `r` is `v` stably sorted by the text keys.
pub open spec fn sorted_by_text<T>(v: Seq<T>, keys: Seq<Seq<char>>, r: Seq<T>) -> bool {
    exists|perm: Seq<usize>| is_permutation(perm, v.len()) && #[trigger] stably_sorted(unmarked(keys), perm) && r == permuted(v, perm)
}

/// `r` is `v` stably sorted by the integer keys, greatest first.
pub open spec fn sorted_descending<T>(v: Seq<T>, keys: Seq<i64>, r: Seq<T>) -> bool {
    exists|perm: Seq<usize>| is_permutation(perm, v.len()) && #[trigger] stably_descending(keys, perm) && r == permuted(v, perm)
}

fn sort_by_text<T>(v: Vec<T>, keys: &Vec<Vec<char>>) -> (r: Vec<T>)
    requires
        keys@.len() == v@.len(),
    ensures
        sorted_by_text(v@, keys@.map_values(|k: Vec<char>| k@), r@),
{
    let mut marked: Vec<(bool, Vec<char>)> = Vec::new();
    let mut i: usize = 0;
    while i < keys.len()
        invariant
            0 <= i <= keys@.len(),
            marked@.map_values(|k: (bool, Vec<char>)| (k.0, k.1@)) == unmarked(keys@.map_values(|k: Vec<char>| k@)).take(
                i as int,
            ),
        decreases keys@.len() - i,
    {
        let copy = crate::text::slice_chars(keys[i].as_slice(), 0, keys[i].len());
        assert(copy@ =~= keys@[i as int]@);
        let ghost before = marked@;
        marked.push((false, copy));
        assert(marked@.map_values(|k: (bool, Vec<char>)| (k.0, k.1@)) =~= before.map_values(|k: (bool, Vec<char>)| (k.0, k.1@)).push((false, keys@[i as int]@)));
        proof {
            assert(marked@.map_values(|k: (bool, Vec<char>)| (k.0, k.1@)) =~= unmarked(keys@.map_values(|k: Vec<char>| k@)).take(
                i + 1,
            ));
        }
        i += 1;
    }
    proof {
        assert(unmarked(keys@.map_values(|k: Vec<char>| k@)).take(i as int) =~= unmarked(keys@.map_values(|k: Vec<char>| k@)));
    }
    let perm = stable_order(&marked);
    let ghost vv = v@;
    let r = reorder(v, &perm);
    proof {
        assert(is_permutation(perm@, vv.len()) && stably_sorted(unmarked(keys@.map_values(|k: Vec<char>| k@)), perm@)
            && r@ == permuted(vv, perm@));
    }
    r
}

fn sort_descending<T>(v: Vec<T>, keys: &Vec<i64>) -> (r: Vec<T>)
    requires
        keys@.len() == v@.len(),
    ensures
        sorted_descending(v@, keys@, r@),
{
    let perm = stable_order_descending(keys);
    let ghost vv = v@;
    let r = reorder(v, &perm);
    proof {
        assert(is_permutation(perm@, vv.len()) && stably_descending(keys@, perm@) && r@ == permuted(vv, perm@));
    }
    r
}

pub open spec fn managed_keys_spec(v: Seq<ManagedSkillRecord>) -> Seq<Seq<char>> {
    v.map_values(|r: ManagedSkillRecord| r.skill_name@)
}

fn managed_keys(v: &Vec<ManagedSkillRecord>) -> (r: Vec<Vec<char>>)
    ensures
        r@.len() == v@.len(),
        r@.map_values(|k: Vec<char>| k@) == managed_keys_spec(v@),
{
    let mut out: Vec<Vec<char>> = Vec::new();
    let mut i: usize = 0;
    while i < v.len()
        invariant
            0 <= i <= v@.len(),
            out@.map_values(|k: Vec<char>| k@) == managed_keys_spec(v@).take(i as int),
        decreases v@.len() - i,
    {
        let ghost before = out@;
        let key = chars_of(v[i].skill_name.as_str());
        out.push(key);
        proof {
            assert(out@.map_values(|k: Vec<char>| k@) =~= before.map_values(|k: Vec<char>| k@).push(v@[i as int].skill_name@));
            assert(out@.map_values(|k: Vec<char>| k@) =~= managed_keys_spec(v@).take(i + 1));
        }
        i += 1;
    }
    assert(managed_keys_spec(v@).take(i as int) =~= managed_keys_spec(v@));
    out
}

pub open spec fn source_keys_spec(v: Seq<SkillSourceIndexSnapshot>) -> Seq<Seq<char>> {
    v.map_values(|r: SkillSourceIndexSnapshot| r.source.source_id@)
}

fn source_keys(v: &Vec<SkillSourceIndexSnapshot>) -> (r: Vec<Vec<char>>)
    ensures
        r@.len() == v@.len(),
        r@.map_values(|k: Vec<char>| k@) == source_keys_spec(v@),
{
    let mut out: Vec<Vec<char>> = Vec::new();
    let mut i: usize = 0;
    while i < v.len()
        invariant
            0 <= i <= v@.len(),
            out@.map_values(|k: Vec<char>| k@) == source_keys_spec(v@).take(i as int),
        decreases v@.len() - i,
    {
        let ghost before = out@;
        let key = chars_of(v[i].source.source_id.as_str());
        out.push(key);
        proof {
            assert(out@.map_values(|k: Vec<char>| k@) =~= before.map_values(|k: Vec<char>| k@).push(v@[i as int].source.source_id@));
            assert(out@.map_values(|k: Vec<char>| k@) =~= source_keys_spec(v@).take(i + 1));
        }
        i += 1;
    }
    assert(source_keys_spec(v@).take(i as int) =~= source_keys_spec(v@));
    out
}

pub open spec fn distribution_keys_spec(v: Seq<SkillDistributionRecord>) -> Seq<Seq<char>> {
    v.map_values(|r: SkillDistributionRecord| r.distribution_id@)
}

fn distribution_keys(v: &Vec<SkillDistributionRecord>) -> (r: Vec<Vec<char>>)
    ensures
        r@.len() == v@.len(),
        r@.map_values(|k: Vec<char>| k@) == distribution_keys_spec(v@),
{
    let mut out: Vec<Vec<char>> = Vec::new();
    let mut i: usize = 0;
    while i < v.len()
        invariant
            0 <= i <= v@.len(),
            out@.map_values(|k: Vec<char>| k@) == distribution_keys_spec(v@).take(i as int),
        decreases v@.len() - i,
    {
        let ghost before = out@;
        let key = chars_of(v[i].distribution_id.as_str());
        out.push(key);
        proof {
            assert(out@.map_values(|k: Vec<char>| k@) =~= before.map_values(|k: Vec<char>| k@).push(v@[i as int].distribution_id@));
            assert(out@.map_values(|k: Vec<char>| k@) =~= distribution_keys_spec(v@).take(i + 1));
        }
        i += 1;
    }
    assert(distribution_keys_spec(v@).take(i as int) =~= distribution_keys_spec(v@));
    out
}

pub open spec fn artifact_keys_spec(v: Seq<SkillArtifactCacheEntry>) -> Seq<Seq<char>> {
    v.map_values(|r: SkillArtifactCacheEntry| r.artifact.artifact_id@)
}

fn artifact_keys(v: &Vec<SkillArtifactCacheEntry>) -> (r: Vec<Vec<char>>)
    ensures
        r@.len() == v@.len(),
        r@.map_values(|k: Vec<char>| k@) == artifact_keys_spec(v@),
{
    let mut out: Vec<Vec<char>> = Vec::new();
    let mut i: usize = 0;
    while i < v.len()
        invariant
            0 <= i <= v@.len(),
            out@.map_values(|k: Vec<char>| k@) == artifact_keys_spec(v@).take(i as int),
        decreases v@.len() - i,
    {
        let ghost before = out@;
        let key = chars_of(v[i].artifact.artifact_id.as_str());
        out.push(key);
        proof {
            assert(out@.map_values(|k: Vec<char>| k@) =~= before.map_values(|k: Vec<char>| k@).push(v@[i as int].artifact.artifact_id@));
            assert(out@.map_values(|k: Vec<char>| k@) =~= artifact_keys_spec(v@).take(i + 1));
        }
        i += 1;
    }
    assert(artifact_keys_spec(v@).take(i as int) =~= artifact_keys_spec(v@));
    out
}

pub open spec fn lifecycle_keys_spec(v: Seq<SkillManagedLifecycleRecord>) -> Seq<Seq<char>> {
    v.map_values(|r: SkillManagedLifecycleRecord| r.distribution_id@)
}

fn lifecycle_keys(v: &Vec<SkillManagedLifecycleRecord>) -> (r: Vec<Vec<char>>)
    ensures
        r@.len() == v@.len(),
        r@.map_values(|k: Vec<char>| k@) == lifecycle_keys_spec(v@),
{
    let mut out: Vec<Vec<char>> = Vec::new();
    let mut i: usize = 0;
    while i < v.len()
        invariant
            0 <= i <= v@.len(),
            out@.map_values(|k: Vec<char>| k@) == lifecycle_keys_spec(v@).take(i as int),
        decreases v@.len() - i,
    {
        let ghost before = out@;
        let key = chars_of(v[i].distribution_id.as_str());
        out.push(key);
        proof {
            assert(out@.map_values(|k: Vec<char>| k@) =~= before.map_values(|k: Vec<char>| k@).push(v@[i as int].distribution_id@));
            assert(out@.map_values(|k: Vec<char>| k@) =~= lifecycle_keys_spec(v@).take(i + 1));
        }
        i += 1;
    }
    assert(lifecycle_keys_spec(v@).take(i as int) =~= lifecycle_keys_spec(v@));
    out
}

pub open spec fn guard_keys_spec(v: Seq<SkillGuardReport>) -> Seq<Seq<char>> {
    v.map_values(|r: SkillGuardReport| r.skill_name@)
}

fn guard_keys(v: &Vec<SkillGuardReport>) -> (r: Vec<Vec<char>>)
    ensures
        r@.len() == v@.len(),
        r@.map_values(|k: Vec<char>| k@) == guard_keys_spec(v@),
{
    let mut out: Vec<Vec<char>> = Vec::new();
    let mut i: usize = 0;
    while i < v.len()
        invariant
            0 <= i <= v@.len(),
            out@.map_values(|k: Vec<char>| k@) == guard_keys_spec(v@).take(i as int),
        decreases v@.len() - i,
    {
        let ghost before = out@;
        let key = chars_of(v[i].skill_name.as_str());
        out.push(key);
        proof {
            assert(out@.map_values(|k: Vec<char>| k@) =~= before.map_values(|k: Vec<char>| k@).push(v@[i as int].skill_name@));
            assert(out@.map_values(|k: Vec<char>| k@) =~= guard_keys_spec(v@).take(i + 1));
        }
        i += 1;
    }
    assert(guard_keys_spec(v@).take(i as int) =~= guard_keys_spec(v@));
    out
}

pub open spec fn audit_times(v: Seq<SkillAuditEvent>) -> Seq<i64> {
    v.map_values(|e: SkillAuditEvent| e.created_at)
}

pub open spec fn timeline_times(v: Seq<SkillGovernanceTimelineEntry>) -> Seq<i64> {
    v.map_values(|e: SkillGovernanceTimelineEntry| e.created_at)
}

fn audit_time_keys(v: &Vec<SkillAuditEvent>) -> (r: Vec<i64>)
    ensures
        r@ == audit_times(v@),
{
    let mut out: Vec<i64> = Vec::new();
    let mut i: usize = 0;
    while i < v.len()
        invariant
            0 <= i <= v@.len(),
            out@ == audit_times(v@).take(i as int),
        decreases v@.len() - i,
    {
        out.push(v[i].created_at);
        assert(out@ =~= audit_times(v@).take(i + 1));
        i += 1;
    }
    assert(audit_times(v@).take(i as int) =~= audit_times(v@));
    out
}

fn timeline_time_keys(v: &Vec<SkillGovernanceTimelineEntry>) -> (r: Vec<i64>)
    ensures
        r@ == timeline_times(v@),
{
    let mut out: Vec<i64> = Vec::new();
    let mut i: usize = 0;
    while i < v.len()
        invariant
            0 <= i <= v@.len(),
            out@ == timeline_times(v@).take(i as int),
        decreases v@.len() - i,
    {
        out.push(v[i].created_at);
        assert(out@ =~= timeline_times(v@).take(i + 1));
        i += 1;
    }
    assert(timeline_times(v@).take(i as int) =~= timeline_times(v@));
    out
}

impl SkillListDialog {
    /// Takes the hub's managed skills (by name), source indices (by source
    /// id) and audit events (newest first); the source in focus falls back
    /// to the first when it no longer exists.
    pub fn set_hub_state(
        &mut self,
        managed_skills: Vec<ManagedSkillRecord>,
        source_indices: Vec<SkillSourceIndexSnapshot>,
        audit_events: Vec<SkillAuditEvent>,
    )
        ensures
            sorted_by_text(managed_skills@, managed_keys_spec(managed_skills@), final(self).managed_skills@),
            sorted_by_text(source_indices@, source_keys_spec(source_indices@), final(self).source_indices@),
            sorted_descending(audit_events@, audit_times(audit_events@), final(self).audit_events@),
            final(self).selected_hub_source == if old(self).selected_hub_source >= source_indices@.len() {
                0
            } else {
                old(self).selected_hub_source
            },
            *final(self) == (SkillListDialog {
                managed_skills: final(self).managed_skills,
                source_indices: final(self).source_indices,
                audit_events: final(self).audit_events,
                selected_hub_source: final(self).selected_hub_source,
                ..*old(self)
            }),
    {
        let mk = managed_keys(&managed_skills);
        let sk = source_keys(&source_indices);
        let ak = audit_time_keys(&audit_events);
        self.managed_skills = sort_by_text(managed_skills, &mk);
        self.source_indices = sort_by_text(source_indices, &sk);
        self.audit_events = sort_descending(audit_events, &ak);
        if self.selected_hub_source >= self.source_indices.len() {
            self.selected_hub_source = 0;
        }
    }

    /// Takes the hub's distributions (by id), artifact cache (by artifact
    /// id), policy and lifecycle records (by distribution id).
    pub fn set_remote_hub_state(
        &mut self,
        distributions: Vec<SkillDistributionRecord>,
        artifact_cache: Vec<SkillArtifactCacheEntry>,
        hub_policy: SkillHubPolicy,
        lifecycle_records: Vec<SkillManagedLifecycleRecord>,
    )
        ensures
            sorted_by_text(distributions@, distribution_keys_spec(distributions@), final(self).distributions@),
            sorted_by_text(artifact_cache@, artifact_keys_spec(artifact_cache@), final(self).artifact_cache@),
            sorted_by_text(lifecycle_records@, lifecycle_keys_spec(lifecycle_records@), final(self).lifecycle_records@),
            *final(self) == (SkillListDialog {
                distributions: final(self).distributions,
                artifact_cache: final(self).artifact_cache,
                hub_policy: Some(hub_policy),
                lifecycle_records: final(self).lifecycle_records,
                ..*old(self)
            }),
    {
        let dk = distribution_keys(&distributions);
        let ak = artifact_keys(&artifact_cache);
        let lk = lifecycle_keys(&lifecycle_records);
        self.distributions = sort_by_text(distributions, &dk);
        self.artifact_cache = sort_by_text(artifact_cache, &ak);
        self.hub_policy = Some(hub_policy);
        self.lifecycle_records = sort_by_text(lifecycle_records, &lk);
    }

    /// Takes the governance timeline, newest first.
    pub fn set_governance_timeline(&mut self, entries: Vec<SkillGovernanceTimelineEntry>)
        ensures
            sorted_descending(entries@, timeline_times(entries@), final(self).governance_timeline@),
            *final(self) == (SkillListDialog { governance_timeline: final(self).governance_timeline, ..*old(self) }),
    {
        let keys = timeline_time_keys(&entries);
        self.governance_timeline = sort_descending(entries, &keys);
    }

    /// Takes a guard run's reports (by skill name) and what it checked.
    pub fn set_guard_reports(&mut self, target_label: String, reports: Vec<SkillGuardReport>)
        ensures
            sorted_by_text(reports@, guard_keys_spec(reports@), final(self).guard_reports@),
            *final(self) == (SkillListDialog {
                guard_reports: final(self).guard_reports,
                guard_target_label: Some(target_label),
                ..*old(self)
            }),
    {
        let keys = guard_keys(&reports);
        self.guard_reports = sort_by_text(reports, &keys);
        self.guard_target_label = Some(target_label);
    }
}

// ---------------------------------------------------------------------------
// The catalogue
// ---------------------------------------------------------------------------

/// A text with its ASCII capitals lowered.
pub open spec fn ascii_lowered(s: Seq<char>) -> Seq<char> {
    s.map_values(|c: char| if 'A' <= c && c <= 'Z' { (((c as u32) + 32) as u8) as char } else { c })
}

pub open spec fn skill_keys_spec(v: Seq<SkillCatalogEntry>) -> Seq<Seq<char>> {
    v.map_values(|e: SkillCatalogEntry| ascii_lowered(e.name@))
}

/// The skills with each run of names equal but for ASCII case cut to its
/// first.
pub open spec fn dedup_names(v: Seq<SkillCatalogEntry>) -> Seq<SkillCatalogEntry>
    decreases v.len(),
{
    if v.len() == 0 {
        Seq::empty()
    } else {
        let r = dedup_names(v.drop_last());
        if r.len() > 0 && eq_ignore_ascii_case_spec(r.last().name@, v.last().name@) {
            r
        } else {
            r.push(v.last())
        }
    }
}

fn ascii_lower_chars(s: &str) -> (r: Vec<char>)
    ensures
        r@ == ascii_lowered(s@),
{
    let cs = chars_of(s);
    let mut out: Vec<char> = Vec::new();
    let mut i: usize = 0;
    while i < cs.len()
        invariant
            0 <= i <= cs@.len(),
            cs@ == s@,
            out@ == ascii_lowered(s@).take(i as int),
        decreases cs@.len() - i,
    {
        let c = cs[i];
        let l = if 'A' <= c && c <= 'Z' {
            let code: u32 = (c as u32) + 32;
            (code as u8) as char
        } else {
            c
        };
        out.push(l);
        assert(out@ =~= ascii_lowered(s@).take(i + 1));
        i += 1;
    }
    assert(ascii_lowered(s@).take(i as int) =~= ascii_lowered(s@));
    out
}

fn skill_keys(v: &Vec<SkillCatalogEntry>) -> (r: Vec<Vec<char>>)
    ensures
        r@.len() == v@.len(),
        r@.map_values(|k: Vec<char>| k@) == skill_keys_spec(v@),
{
    let mut out: Vec<Vec<char>> = Vec::new();
    let mut i: usize = 0;
    while i < v.len()
        invariant
            0 <= i <= v@.len(),
            out@.map_values(|k: Vec<char>| k@) == skill_keys_spec(v@).take(i as int),
        decreases v@.len() - i,
    {
        let ghost before = out@;
        let key = ascii_lower_chars(v[i].name.as_str());
        out.push(key);
        proof {
            assert(out@.map_values(|k: Vec<char>| k@) =~= before.map_values(|k: Vec<char>| k@).push(
                ascii_lowered(v@[i as int].name@),
            ));
            assert(out@.map_values(|k: Vec<char>| k@) =~= skill_keys_spec(v@).take(i + 1));
        }
        i += 1;
    }
    assert(skill_keys_spec(v@).take(i as int) =~= skill_keys_spec(v@));
    out
}

fn dedup_skills(v: Vec<SkillCatalogEntry>) -> (r: Vec<SkillCatalogEntry>)
    ensures
        r@ == dedup_names(v@),
{
    let ghost orig = v@;
    let mut rest = v;
    let mut out: Vec<SkillCatalogEntry> = Vec::new();
    assert(orig.skip(0) =~= orig);
    assert(orig.take(0) =~= Seq::<SkillCatalogEntry>::empty());
    while rest.len() > 0
        invariant
            rest@.len() <= orig.len(),
            rest@ == orig.skip(orig.len() - rest@.len()),
            out@ == dedup_names(orig.take(orig.len() - rest@.len())),
        decreases rest@.len(),
    {
        let ghost n = orig.len() - rest@.len();
        let e = rest.remove(0);
        assert(orig.take(n + 1).drop_last() =~= orig.take(n));
        assert(orig.take(n + 1).last() == e);
        assert(rest@ =~= orig.skip(n + 1));
        let keep = if out.len() > 0 {
            let last = out.len() - 1;
            !eq_ignore_ascii_case(chars_of(out[last].name.as_str()).as_slice(), chars_of(e.name.as_str()).as_slice())
        } else {
            true
        };
        if keep {
            out.push(e);
        }
    }
    assert(orig.take(orig.len() as int) =~= orig);
    out
}

impl SkillListDialog {
    /// Takes the catalogue: sorted by name ignoring ASCII case, each run
    /// of such equal names cut to its first; forgets the loaded skill and
    /// filters again.
    pub fn set_skills(&mut self, skills: Vec<SkillCatalogEntry>)
        ensures
            exists|sorted: Seq<SkillCatalogEntry>| #[trigger] sorted_by_text(skills@, skill_keys_spec(skills@), sorted)
                && final(self).skills@ == dedup_names(sorted),
            final(self).filtered_from(
                SkillListDialog {
                    skills: final(self).skills,
                    detail: None,
                    detail_error: None,
                    detail_scroll: 0,
                    ..*old(self)
                },
            ),
    {
        let keys = skill_keys(&skills);
        let ghost given = skills@;
        let sorted = sort_by_text(skills, &keys);
        let ghost sv = sorted@;
        self.skills = dedup_skills(sorted);
        proof {
            assert(sorted_by_text(given, skill_keys_spec(given), sv));
        }
        self.clear_detail();
        self.filter();
    }
}

} // verus!
