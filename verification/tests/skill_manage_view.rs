use rocode::tui::skill_editor::{SkillCreateField, SkillEditField, SkillManageEditorMode, SkillMethodologyDraft};
use rocode::tui::skill_list::{SkillCreateDraft, SkillEditDraft};
use rocode::tui::skill_manage_view::{CursorSpot, EditorPane};
use rocode::tui::text_editor::TextEditorState;

#[test]
fn create_view_marks_the_active_field_and_places_the_cursor() {
    let mut d = SkillCreateDraft::default();
    d.name = "  my-skill ".to_string();
    d.active_field = SkillCreateField::Name;
    let v = d.create_view();
    assert_eq!(v.title, " Create Skill ");
    assert_eq!(v.fields[0].value, "  my-skill ");
    assert!(v.fields[0].active && !v.fields[1].active);
    assert_eq!(v.fields[1].value, " ");
    assert!(v.fields[1].placeholder);
    assert_eq!(v.cursor, CursorSpot::Field { row: 0, width: 11 });
    d.editor_mode = SkillManageEditorMode::Raw;
    d.active_field = SkillCreateField::Body;
    let v = d.create_view();
    assert_eq!(v.fields[3].value, "raw markdown");
    assert_eq!(v.cursor, CursorSpot::RawEditor);
    match v.editor {
        EditorPane::Raw { title, active, .. } => {
            assert_eq!(title, "Body");
            assert!(active);
        }
        _ => panic!("expected the raw editor"),
    }
}

#[test]
fn edit_view_names_the_skill_and_its_category() {
    let d = SkillEditDraft {
        name: "tidy".to_string(),
        description: "Keeps things tidy".to_string(),
        category: None,
        active_field: SkillEditField::MethodologyEditor,
        editor_mode: SkillManageEditorMode::Methodology,
        source: TextEditorState::new(),
        methodology: SkillMethodologyDraft::new(),
        methodology_loaded: false,
    };
    let v = d.edit_view();
    assert_eq!(v.title, " Edit Skill: tidy ");
    assert_eq!(v.notes[0], "Category: uncategorized");
    assert!(v.notes[1].starts_with("This skill did not round-trip"));
    assert_eq!(v.cursor, CursorSpot::MethodologyEditor);
    match v.editor {
        EditorPane::Methodology { skill_name, editor_active, section_active } => {
            assert_eq!(skill_name, "tidy");
            assert!(editor_active && !section_active);
        }
        _ => panic!("expected the methodology editor"),
    }
}

#[test]
fn methodology_editor_view_lists_sections_and_the_focused_field() {
    let mut d = rocode::tui::skill_editor::SkillMethodologyDraft::new();
    let v = d.methodology_view("  ");
    assert_eq!(v.preview_name, "draft-skill");
    assert_eq!(v.sections.len(), 8);
    assert_eq!(v.sections[0].summary, "When To Use (0)");
    assert!(v.sections[0].selected && !v.sections[1].selected);
    assert_eq!(v.sections[7].hint, "One reference per line: path | label");
    assert_eq!(v.editor_title, "When To Use");
    assert!(v.editor_placeholder);
    assert_eq!(v.editor_lines, vec!["One trigger per line.".to_string()]);
    for c in "first\n\nsecond".chars() {
        d.selected_editor_mut().insert_char(c);
    }
    let v = d.methodology_view("planner");
    assert_eq!(v.preview_name, "planner");
    assert_eq!(v.sections[0].summary, "When To Use (2)");
    assert!(!v.editor_placeholder);
    assert_eq!(v.editor_lines, vec!["first", "", "second"]);
    assert_eq!(v.editor_scroll, 0);
}
