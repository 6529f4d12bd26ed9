//! What the skill list's create and edit screens show: the single-line
//! fields with the one being typed in marked, which editor takes the body,
//! the explanatory lines, where the cursor goes, and what the methodology
//! editor shows.
use vstd::prelude::*;
use crate::jsonish::sanitize::{trim, trim_spec};
use crate::text::{chars_of, push_all, string_from_chars};
use crate::tui::skill_editor::{
    editor_of, non_empty_trimmed, section_at, section_title_spec, SkillCreateField, SkillEditField,
    SkillManageEditorMode, SkillMethodologyDraft, SkillMethodologySection,
};
use crate::text::{blank, decimal, is_blank, lines_of, lines_view, split_lines};
use crate::tui::skill_list::{SkillCreateDraft, SkillEditDraft};

verus! {

/// A single-line field: an empty value shows as one muted space.
#[derive(Clone, Debug)]
pub struct FieldLine {
    pub label: String,
    pub value: String,
    pub placeholder: bool,
    pub active: bool,
}

/// The editor that takes the skill's body.
#[derive(Clone, Debug)]
pub enum EditorPane {
    /// The raw markdown editor, its title and the hint shown while empty.
    Raw { title: String, placeholder: String, active: bool },
    /// The methodology editor for the skill of that (trimmed) name; its
    /// section list or its text field may be the one in use.
    Methodology { skill_name: String, section_active: bool, editor_active: bool },
}

/// Where the cursor is put.
#[derive(Clone, Copy, Debug, PartialEq, Eq, Structural)]
pub enum CursorSpot {
    /// In the field on that row, after its label and `width` columns of
    /// text (the text's char count, as a `u16`, wrapping).
    Field { row: usize, width: u16 },
    RawEditor,
    MethodologyEditor,
    Hidden,
}

#[derive(Clone, Debug)]
pub struct ManageView {
    pub title: String,
    pub fields: Vec<FieldLine>,
    pub editor: EditorPane,
    pub notes: Vec<String>,
    pub cursor: CursorSpot,
}

pub open spec fn mode_label(m: SkillManageEditorMode) -> Seq<char> {
    match m {
        SkillManageEditorMode::Methodology => "methodology"@,
        SkillManageEditorMode::Raw => "raw markdown"@,
    }
}

/// A field shows its label, its value (a space when empty) and whether it
/// is the active one.
pub open spec fn field_matches(f: FieldLine, label: Seq<char>, value: Seq<char>, active: bool) -> bool {
    &&& f.label@ == label
    &&& f.value@ == if value.len() == 0 { " "@ } else { value }
    &&& f.placeholder == (value.len() == 0)
    &&& f.active == active
}

/// The width of a text in the cursor's terms: its chars, as a `u16`.
pub open spec fn text_width(s: Seq<char>) -> u16 {
    (s.len() % 65536) as u16
}

pub open spec fn pane_matches(
    p: EditorPane,
    mode: SkillManageEditorMode,
    name: Seq<char>,
    raw_title: Seq<char>,
    raw_hint: Seq<char>,
    raw_active: bool,
    section_active: bool,
    editor_active: bool,
) -> bool {
    match mode {
        SkillManageEditorMode::Raw => p matches EditorPane::Raw { title, placeholder, active } && title@ == raw_title
            && placeholder@ == raw_hint && active == raw_active,
        SkillManageEditorMode::Methodology => p matches EditorPane::Methodology {
            skill_name,
            section_active: s,
            editor_active: e,
        } && skill_name@ == trim_spec(name) && s == section_active && e == editor_active,
    }
}

pub open spec fn create_cursor(d: SkillCreateDraft) -> CursorSpot {
    match d.active_field {
        SkillCreateField::Name => CursorSpot::Field { row: 0, width: text_width(d.name@) },
        SkillCreateField::Description => CursorSpot::Field { row: 1, width: text_width(d.description@) },
        SkillCreateField::Category => CursorSpot::Field { row: 2, width: text_width(d.category@) },
        SkillCreateField::Body => if d.editor_mode == SkillManageEditorMode::Raw {
            CursorSpot::RawEditor
        } else {
            CursorSpot::Hidden
        },
        SkillCreateField::MethodologyEditor => CursorSpot::MethodologyEditor,
        _ => CursorSpot::Hidden,
    }
}

pub open spec fn edit_cursor(d: SkillEditDraft) -> CursorSpot {
    match d.active_field {
        SkillEditField::Description => CursorSpot::Field { row: 0, width: text_width(d.description@) },
        SkillEditField::RawSource => if d.editor_mode == SkillManageEditorMode::Raw {
            CursorSpot::RawEditor
        } else {
            CursorSpot::Hidden
        },
        SkillEditField::MethodologyEditor => CursorSpot::MethodologyEditor,
        _ => CursorSpot::Hidden,
    }
}

pub open spec fn create_notes() -> Seq<Seq<char>> {
    seq![
        "Tab move fields  Up/Down choose methodology section  Enter edits/toggles  Ctrl+S create  Esc cancel"@,
        "Creates a workspace-local skill via /skill/manage create, using methodology or raw markdown."@,
    ]
}

pub open spec fn edit_notes(d: SkillEditDraft) -> Seq<Seq<char>> {
    seq![
        "Category: "@ + match d.category {
            Some(c) => c@,
            None => "uncategorized"@,
        },
        if d.methodology_loaded {
            "This skill matched the methodology template, so structured patch mode is available."@
        } else {
            "This skill did not round-trip into the methodology template; raw markdown remains the safest edit path."@
        },
        "Ctrl+S save  Esc cancel  Tab move fields  Up/Down choose methodology section"@,
        "Saving uses POST /skill/manage action=edit for raw mode, or action=patch with methodology for structured mode."@,
    ]
}

fn field(label: &str, value: &str, active: bool) -> (r: FieldLine)
    ensures
        field_matches(r, label@, value@, active),
{
    let v = chars_of(value);
    let empty = v.len() == 0;
    FieldLine {
        label: string_from_chars(&chars_of(label)),
        value: if empty { string_from_chars(&chars_of(" ")) } else { string_from_chars(&v) },
        placeholder: empty,
        active,
    }
}

fn width_of(s: &str) -> (r: u16)
    ensures
        r == text_width(s@),
{
    let n = chars_of(s).len();
    (n % 65536) as u16
}

fn lit(s: &str) -> (r: String)
    ensures
        r@ == s@,
{
    string_from_chars(&chars_of(s))
}

fn pane(
    mode: SkillManageEditorMode,
    name: &str,
    raw_title: &str,
    raw_hint: &str,
    raw_active: bool,
    section_active: bool,
    editor_active: bool,
) -> (r: EditorPane)
    ensures
        pane_matches(r, mode, name@, raw_title@, raw_hint@, raw_active, section_active, editor_active),
{
    match mode {
        SkillManageEditorMode::Raw => EditorPane::Raw { title: lit(raw_title), placeholder: lit(raw_hint), active: raw_active },
        SkillManageEditorMode::Methodology => EditorPane::Methodology {
            skill_name: string_from_chars(&trim(&chars_of(name))),
            section_active,
            editor_active,
        },
    }
}

impl SkillCreateDraft {
    /// The create screen.
    pub fn create_view(&self) -> (r: ManageView)
        ensures
            r.title@ == " Create Skill "@,
            r.fields@.len() == 4,
            field_matches(r.fields@[0], "Name"@, self.name@, self.active_field == SkillCreateField::Name),
            field_matches(r.fields@[1], "Description"@, self.description@, self.active_field == SkillCreateField::Description),
            field_matches(r.fields@[2], "Category"@, self.category@, self.active_field == SkillCreateField::Category),
            field_matches(r.fields@[3], "Editor"@, mode_label(self.editor_mode), self.active_field == SkillCreateField::EditorMode),
            pane_matches(
                r.editor,
                self.editor_mode,
                self.name@,
                "Body"@,
                "Write markdown body here..."@,
                self.active_field == SkillCreateField::Body,
                self.active_field == SkillCreateField::MethodologySection,
                self.active_field == SkillCreateField::MethodologyEditor,
            ),
            r.notes@.map_values(|s: String| s@) == create_notes(),
            r.cursor == create_cursor(*self),
    {
        let mut fields: Vec<FieldLine> = Vec::new();
        fields.push(field("Name", self.name.as_str(), self.active_field == SkillCreateField::Name));
        fields.push(field("Description", self.description.as_str(), self.active_field == SkillCreateField::Description));
        fields.push(field("Category", self.category.as_str(), self.active_field == SkillCreateField::Category));
        fields.push(field("Editor", self.editor_mode.label(), self.active_field == SkillCreateField::EditorMode));
        let editor = pane(
            self.editor_mode,
            self.name.as_str(),
            "Body",
            "Write markdown body here...",
            self.active_field == SkillCreateField::Body,
            self.active_field == SkillCreateField::MethodologySection,
            self.active_field == SkillCreateField::MethodologyEditor,
        );
        let mut notes: Vec<String> = Vec::new();
        notes.push(lit("Tab move fields  Up/Down choose methodology section  Enter edits/toggles  Ctrl+S create  Esc cancel"));
        notes.push(lit("Creates a workspace-local skill via /skill/manage create, using methodology or raw markdown."));
        assert(notes@.map_values(|s: String| s@) =~= create_notes());
        let cursor = match self.active_field {
            SkillCreateField::Name => CursorSpot::Field { row: 0, width: width_of(self.name.as_str()) },
            SkillCreateField::Description => CursorSpot::Field { row: 1, width: width_of(self.description.as_str()) },
            SkillCreateField::Category => CursorSpot::Field { row: 2, width: width_of(self.category.as_str()) },
            SkillCreateField::Body => if self.editor_mode == SkillManageEditorMode::Raw {
                CursorSpot::RawEditor
            } else {
                CursorSpot::Hidden
            },
            SkillCreateField::MethodologyEditor => CursorSpot::MethodologyEditor,
            _ => CursorSpot::Hidden,
        };
        ManageView { title: lit(" Create Skill "), fields, editor, notes, cursor }
    }
}

impl SkillEditDraft {
    /// The edit screen.
    pub fn edit_view(&self) -> (r: ManageView)
        ensures
            r.title@ == " Edit Skill: "@ + self.name@ + " "@,
            r.fields@.len() == 2,
            field_matches(r.fields@[0], "Description"@, self.description@, self.active_field == SkillEditField::Description),
            field_matches(r.fields@[1], "Editor"@, mode_label(self.editor_mode), self.active_field == SkillEditField::EditorMode),
            pane_matches(
                r.editor,
                self.editor_mode,
                self.name@,
                "Source"@,
                "Edit raw SKILL.md source here..."@,
                self.active_field == SkillEditField::RawSource,
                self.active_field == SkillEditField::MethodologySection,
                self.active_field == SkillEditField::MethodologyEditor,
            ),
            r.notes@.map_values(|s: String| s@) == edit_notes(*self),
            r.cursor == edit_cursor(*self),
    {
        let mut fields: Vec<FieldLine> = Vec::new();
        fields.push(field("Description", self.description.as_str(), self.active_field == SkillEditField::Description));
        fields.push(field("Editor", self.editor_mode.label(), self.active_field == SkillEditField::EditorMode));
        let editor = pane(
            self.editor_mode,
            self.name.as_str(),
            "Source",
            "Edit raw SKILL.md source here...",
            self.active_field == SkillEditField::RawSource,
            self.active_field == SkillEditField::MethodologySection,
            self.active_field == SkillEditField::MethodologyEditor,
        );
        let mut cat = chars_of("Category: ");
        match &self.category {
            Some(c) => push_all(&mut cat, &chars_of(c.as_str())),
            None => push_all(&mut cat, &chars_of("uncategorized")),
        }
        let mut notes: Vec<String> = Vec::new();
        notes.push(string_from_chars(&cat));
        notes.push(
            lit(
                if self.methodology_loaded {
                    "This skill matched the methodology template, so structured patch mode is available."
                } else {
                    "This skill did not round-trip into the methodology template; raw markdown remains the safest edit path."
                },
            ),
        );
        notes.push(lit("Ctrl+S save  Esc cancel  Tab move fields  Up/Down choose methodology section"));
        notes.push(
            lit("Saving uses POST /skill/manage action=edit for raw mode, or action=patch with methodology for structured mode."),
        );
        assert(notes@.map_values(|s: String| s@) =~= edit_notes(*self));
        let cursor = match self.active_field {
            SkillEditField::Description => CursorSpot::Field { row: 0, width: width_of(self.description.as_str()) },
            SkillEditField::RawSource => if self.editor_mode == SkillManageEditorMode::Raw {
                CursorSpot::RawEditor
            } else {
                CursorSpot::Hidden
            },
            SkillEditField::MethodologyEditor => CursorSpot::MethodologyEditor,
            _ => CursorSpot::Hidden,
        };
        let mut title = chars_of(" Edit Skill: ");
        push_all(&mut title, &chars_of(self.name.as_str()));
        push_all(&mut title, &chars_of(" "));
        ManageView { title: string_from_chars(&title), fields, editor, notes, cursor }
    }
}

// ---------------------------------------------------------------------------
// The methodology editor
// ---------------------------------------------------------------------------

/// A row of the section list: the section's summary, whether it is the one
/// in focus, and its hint.
pub struct SectionRow {
    pub summary: String,
    pub selected: bool,
    pub hint: String,
}

/// The three columns of the methodology editor: the sections, the field of
/// the one in focus (its lines, or its hint while it is empty, and how far
/// it is scrolled), and the name its preview is made for.
pub struct MethodologyView {
    pub sections: Vec<SectionRow>,
    pub editor_title: String,
    pub editor_lines: Vec<String>,
    pub editor_placeholder: bool,
    pub editor_scroll: u16,
    pub preview_name: String,
}

pub open spec fn section_hint_spec(s: SkillMethodologySection) -> Seq<char> {
    match s {
        SkillMethodologySection::WhenToUse => "One trigger per line."@,
        SkillMethodologySection::WhenNotToUse => "One boundary per line."@,
        SkillMethodologySection::Prerequisites => "One requirement per line."@,
        SkillMethodologySection::CoreSteps => "One step per line: Title | Action | Outcome(optional)"@,
        SkillMethodologySection::SuccessCriteria => "One checklist item per line."@,
        SkillMethodologySection::Validation => "One validation check per line."@,
        SkillMethodologySection::Pitfalls => "One pitfall per line."@,
        SkillMethodologySection::References => "One reference per line: path | label"@,
    }
}

pub open spec fn summary_spec(d: SkillMethodologyDraft, s: SkillMethodologySection) -> Seq<char> {
    section_title_spec(s) + " ("@ + decimal(non_empty_trimmed(lines_of(editor_of(d, s)@.text)).len()) + ")"@
}

/// The name the preview is made for: the skill's name, `draft-skill`
/// while it is blank.
pub open spec fn preview_name_spec(name: Seq<char>) -> Seq<char> {
    if blank(name) { "draft-skill"@ } else { name }
}

pub open spec fn rows_match(rows: Seq<SectionRow>, d: SkillMethodologyDraft) -> bool {
    &&& rows.len() == 8
    &&& forall|i: int| 0 <= i < 8 ==> {
        let row = #[trigger] rows[i];
        &&& row.summary@ == summary_spec(d, section_at(i))
        &&& row.selected == (section_at(i) == d.selected_section)
        &&& row.hint@ == section_hint_spec(section_at(i))
    }
}

fn section_row(d: &SkillMethodologyDraft, s: SkillMethodologySection) -> (r: SectionRow)
    ensures
        r.summary@ == summary_spec(*d, s),
        r.selected == (s == d.selected_section),
        r.hint@ == section_hint_spec(s),
{
    SectionRow {
        summary: d.section_summary(s),
        selected: s == d.selected_section,
        hint: string_from_chars(&chars_of(s.hint())),
    }
}

impl SkillMethodologyDraft {
    /// What the methodology editor shows for a skill of that name; the
    /// preview itself is made from the template for `preview_name`.
    pub fn methodology_view(&self, skill_name: &str) -> (r: MethodologyView)
        ensures
            rows_match(r.sections@, *self),
            r.editor_title@ == section_title_spec(self.selected_section),
            r.editor_placeholder == (editor_of(*self, self.selected_section)@.text.len() == 0),
            r.editor_placeholder ==> r.editor_lines@.len() == 1 && r.editor_lines@[0]@ == section_hint_spec(
                self.selected_section,
            ),
            !r.editor_placeholder ==> r.editor_lines@.map_values(|l: String| l@) == lines_of(
                editor_of(*self, self.selected_section)@.text,
            ),
            r.editor_scroll == editor_of(*self, self.selected_section)@.scroll,
            r.preview_name@ == preview_name_spec(skill_name@),
    {
        let mut sections: Vec<SectionRow> = Vec::new();
        sections.push(section_row(self, SkillMethodologySection::WhenToUse));
        sections.push(section_row(self, SkillMethodologySection::WhenNotToUse));
        sections.push(section_row(self, SkillMethodologySection::Prerequisites));
        sections.push(section_row(self, SkillMethodologySection::CoreSteps));
        sections.push(section_row(self, SkillMethodologySection::SuccessCriteria));
        sections.push(section_row(self, SkillMethodologySection::Validation));
        sections.push(section_row(self, SkillMethodologySection::Pitfalls));
        sections.push(section_row(self, SkillMethodologySection::References));
        assert(rows_match(sections@, *self));
        let editor = self.selected_editor();
        let text = editor.text();
        let cs = chars_of(text.as_str());
        let mut editor_lines: Vec<String> = Vec::new();
        let placeholder = cs.len() == 0;
        if placeholder {
            editor_lines.push(string_from_chars(&chars_of(self.selected_section.hint())));
        } else {
            let lines = split_lines(&cs);
            let mut i: usize = 0;
            while i < lines.len()
                invariant
                    0 <= i <= lines@.len(),
                    editor_lines@.map_values(|l: String| l@) == lines_view(lines@).take(i as int),
                decreases lines.len() - i,
            {
                let ghost before = editor_lines@;
                let line = string_from_chars(lines[i].as_slice());
                assert(line@ == lines_view(lines@)[i as int]);
                editor_lines.push(line);
                assert(editor_lines@.map_values(|l: String| l@) =~= before.map_values(|l: String| l@).push(line@));
                i = i + 1;
                assert(editor_lines@.map_values(|l: String| l@) =~= lines_view(lines@).take(i as int));
            }
            assert(lines_view(lines@).take(lines@.len() as int) =~= lines_view(lines@));
        }
        let preview_name = if is_blank(skill_name) {
            string_from_chars(&chars_of("draft-skill"))
        } else {
            string_from_chars(&chars_of(skill_name))
        };
        MethodologyView {
            sections,
            editor_title: string_from_chars(&chars_of(self.selected_section.title())),
            editor_lines,
            editor_placeholder: placeholder,
            editor_scroll: editor.scroll(),
            preview_name,
        }
    }
}

} // verus!
