use rocode::tui::skill_editor::{
    SkillMethodologyDraft, SkillMethodologyReference, SkillMethodologySection,
    SkillMethodologyStep, SkillMethodologyTemplate,
};
use rocode::tui::skill_list::{
    SkillCatalogEntry, SkillCreatePayload, SkillDetail, SkillDetailResponse, SkillEditPayload,
    SkillListDialog, SkillMeta,
};
use rocode::types::skill::{
    ManagedSkillRecord, SkillGuardReport, SkillGuardStatus, SkillSourceIndexEntry,
    SkillSourceIndexSnapshot, SkillSourceKind, SkillSourceRef,
};

fn entry(name: &str, description: &str, category: Option<&str>, writable: bool) -> SkillCatalogEntry {
    SkillCatalogEntry {
        name: name.to_string(),
        description: description.to_string(),
        category: category.map(|c| c.to_string()),
        location: format!("/skills/{}", name),
        supporting_files: Vec::new(),
        writable,
    }
}

fn detail(name: &str, source: &str, writable: bool) -> SkillDetailResponse {
    SkillDetailResponse {
        skill: SkillDetail {
            meta: SkillMeta {
                name: name.to_string(),
                description: "desc".to_string(),
                category: Some("cat".to_string()),
                location: format!("/skills/{}", name),
                supporting_files: Vec::new(),
            },
        },
        source: source.to_string(),
        writable,
    }
}

fn template() -> SkillMethodologyTemplate {
    SkillMethodologyTemplate {
        when_to_use: vec!["a".to_string(), "b".to_string()],
        when_not_to_use: vec!["c".to_string()],
        prerequisites: Vec::new(),
        core_steps: vec![
            SkillMethodologyStep {
                title: "Plan".to_string(),
                action: "Write it down".to_string(),
                outcome: Some("A plan".to_string()),
            },
            SkillMethodologyStep {
                title: "Do".to_string(),
                action: "Act".to_string(),
                outcome: None,
            },
        ],
        success_criteria: vec!["done".to_string()],
        validation: vec!["checked".to_string()],
        pitfalls: vec!["haste".to_string()],
        references: vec![SkillMethodologyReference {
            label: "Guide".to_string(),
            path: "docs/guide.md".to_string(),
        }],
    }
}

#[test]
fn methodology_template_round_trips_through_the_draft() {
    let t = template();
    let draft = SkillMethodologyDraft::from_template(&t);
    assert_eq!(draft.when_to_use.text(), "a\nb");
    assert_eq!(draft.core_steps.text(), "Plan | Write it down | A plan\nDo | Act");
    assert_eq!(draft.references.text(), "docs/guide.md | Guide");
    assert_eq!(draft.prerequisites.text(), "");
    assert_eq!(draft.to_template(), Ok(t));
}

#[test]
fn to_template_reports_the_first_bad_section() {
    let mut draft = SkillMethodologyDraft::default();
    draft.selected_section = SkillMethodologySection::CoreSteps;
    for c in "only a title".chars() {
        draft.selected_editor_mut().insert_char(c);
    }
    let err = draft.to_template().unwrap_err();
    assert!(err.starts_with("core step line 1"), "{}", err);
}

#[test]
fn set_skills_sorts_and_drops_case_duplicates() {
    let mut dialog = SkillListDialog::new();
    dialog.open();
    dialog.set_skills(vec![
        entry("beta", "second", None, true),
        entry("Alpha", "first", Some("core"), true),
        entry("alpha", "dup", None, false),
        entry("gamma", "third", None, false),
    ]);
    let names: Vec<&str> = dialog.skills.iter().map(|s| s.name.as_str()).collect();
    assert_eq!(names, vec!["Alpha", "beta", "gamma"]);
    assert_eq!(dialog.selected_skill(), Some("Alpha"));
    dialog.move_down();
    assert_eq!(dialog.selected_skill(), Some("beta"));
    dialog.move_down();
    dialog.move_down();
    assert_eq!(dialog.selected_skill(), Some("gamma"));
    dialog.move_up();
    assert_eq!(dialog.selected_skill(), Some("beta"));
}

#[test]
fn filter_matches_name_description_or_category() {
    let mut dialog = SkillListDialog::new();
    dialog.set_skills(vec![
        entry("alpha", "first", Some("Core"), true),
        entry("beta", "second", None, true),
    ]);
    dialog.handle_input('C');
    dialog.handle_input('O');
    assert_eq!(dialog.filtered, vec![0, 1]);
    dialog.handle_input('R');
    assert_eq!(dialog.filtered, vec![0]);
    dialog.handle_backspace();
    dialog.handle_backspace();
    dialog.handle_backspace();
    assert_eq!(dialog.filtered, vec![0, 1]);
    dialog.handle_input('z');
    assert!(dialog.filtered.is_empty());
    assert_eq!(dialog.selected_skill(), None);
}

#[test]
fn begin_edit_needs_a_writable_loaded_skill() {
    let mut dialog = SkillListDialog::new();
    assert_eq!(dialog.begin_edit(None), Err("Load a skill before editing it.".to_string()));
    dialog.set_skill_detail(detail("alpha", "body", false));
    assert!(dialog.begin_edit(None).unwrap_err().contains("read-only"));
    assert!(dialog.is_browse_mode());

    dialog.set_skill_detail(detail("alpha", "# body", true));
    assert_eq!(dialog.begin_edit(None), Ok(()));
    assert!(dialog.is_edit_mode());
    match dialog.edit_payload() {
        Some(Ok(SkillEditPayload::Raw { name, content })) => {
            assert_eq!(name, "alpha");
            assert_eq!(content, "# body");
        }
        other => panic!("unexpected payload {:?}", other),
    }
    dialog.cancel_manage_mode();
    assert!(dialog.is_browse_mode());
    assert!(dialog.edit_payload().is_none());

    dialog.begin_edit(Some(template())).unwrap();
    match dialog.edit_payload() {
        Some(Ok(SkillEditPayload::Methodology { name, description, methodology })) => {
            assert_eq!(name, "alpha");
            assert_eq!(description, "desc");
            assert_eq!(methodology, template());
        }
        other => panic!("unexpected payload {:?}", other),
    }
}

#[test]
fn create_draft_takes_keys_field_by_field() {
    let mut dialog = SkillListDialog::new();
    dialog.begin_create();
    assert!(dialog.is_create_mode());
    for c in " my-skill ".chars() {
        dialog.handle_manage_char(c);
    }
    dialog.handle_manage_enter();
    for c in "Does things".chars() {
        dialog.handle_manage_char(c);
    }
    dialog.handle_manage_backspace();
    dialog.handle_manage_enter();
    dialog.handle_manage_char(' ');
    dialog.handle_manage_enter();
    // Enter on the editor mode switches to raw and steps into the body.
    dialog.handle_manage_enter();
    for c in "line".chars() {
        dialog.handle_manage_char(c);
    }
    dialog.handle_manage_home();
    dialog.handle_manage_char('>');
    dialog.handle_manage_end();
    dialog.handle_manage_enter();
    dialog.handle_manage_char('x');
    dialog.handle_manage_left();
    dialog.handle_manage_delete();
    match dialog.create_payload() {
        Some(Ok(SkillCreatePayload::Raw { name, description, category, body })) => {
            assert_eq!(name, "my-skill");
            assert_eq!(description, "Does thing");
            assert_eq!(category, None);
            assert_eq!(body, ">line\n");
        }
        other => panic!("unexpected payload {:?}", other),
    }
}

#[test]
fn create_draft_in_method_mode_parses_sections() {
    let mut dialog = SkillListDialog::new();
    dialog.begin_create();
    for c in "n".chars() {
        dialog.handle_manage_char(c);
    }
    dialog.handle_manage_tab(false);
    dialog.handle_manage_tab(false);
    dialog.handle_manage_tab(false);
    // on the editor mode; Tab goes on to the sections in method mode
    dialog.handle_manage_tab(false);
    dialog.handle_manage_down();
    dialog.handle_manage_down();
    dialog.handle_manage_down();
    dialog.handle_manage_up();
    dialog.handle_manage_up();
    dialog.handle_manage_up();
    dialog.handle_manage_up();
    // wrapped to References
    dialog.handle_manage_enter();
    for c in "docs/a.md | A".chars() {
        dialog.handle_manage_char(c);
    }
    match dialog.create_payload() {
        Some(Ok(SkillCreatePayload::Methodology { name, methodology, .. })) => {
            assert_eq!(name, "n");
            assert_eq!(methodology.references.len(), 1);
            assert_eq!(methodology.references[0].path, "docs/a.md");
            assert_eq!(methodology.references[0].label, "A");
        }
        other => panic!("unexpected payload {:?}", other),
    }
    dialog.handle_manage_tab(true);
    dialog.handle_manage_tab(true);
    dialog.handle_manage_left();
    match dialog.create_payload() {
        Some(Ok(SkillCreatePayload::Raw { .. })) => {}
        other => panic!("unexpected payload {:?}", other),
    }
}

#[test]
fn begin_delete_needs_a_writable_selection() {
    let mut dialog = SkillListDialog::new();
    assert_eq!(dialog.begin_delete(), Err("Select a skill before deleting it.".to_string()));
    dialog.set_skills(vec![entry("alpha", "a", None, false), entry("beta", "b", None, true)]);
    assert!(dialog.begin_delete().unwrap_err().contains("read-only"));
    dialog.move_down();
    assert_eq!(dialog.begin_delete(), Ok(()));
    assert!(dialog.is_delete_confirm_mode());
    assert_eq!(dialog.delete_payload(), Some("beta".to_string()));
    dialog.close();
    assert!(!dialog.is_open());
    assert!(dialog.is_browse_mode());
}

fn source(id: &str, names: &[(&str, Option<&str>)]) -> SkillSourceIndexSnapshot {
    SkillSourceIndexSnapshot {
        source: SkillSourceRef {
            source_id: id.to_string(),
            source_kind: SkillSourceKind::Registry,
            locator: format!("https://example.com/{}", id),
            revision: None,
        },
        updated_at: 0,
        entries: names
            .iter()
            .map(|(n, d)| SkillSourceIndexEntry {
                skill_name: n.to_string(),
                description: d.map(|s| s.to_string()),
                category: None,
                version: None,
                revision: None,
                manifest_path: None,
                checksum: None,
            })
            .collect(),
    }
}

#[test]
fn hub_sources_cycle_and_name_the_install_target() {
    let mut dialog = SkillListDialog::new();
    assert_eq!(dialog.resolve_remote_install_skill_name(), None);
    dialog.set_hub_state(
        Vec::new(),
        vec![
            source("zeta", &[("Other", None)]),
            source("alpha", &[("First", None), ("Auditor", Some("Audits code")), ("Beta", None)]),
        ],
        Vec::new(),
    );
    assert_eq!(dialog.selected_hub_source().map(|s| s.source_id.as_str()), Some("alpha"));
    assert_eq!(dialog.timeline_focus_label(), "source `alpha`");
    assert_eq!(dialog.resolve_remote_install_skill_name(), Some("First".to_string()));

    dialog.set_skills(vec![entry("beta", "b", None, true)]);
    assert_eq!(dialog.resolve_remote_install_skill_name(), Some("Beta".to_string()));
    assert_eq!(dialog.timeline_focus_label(), "skill `beta`");

    dialog.set_skills(Vec::new());
    dialog.handle_input('C');
    dialog.handle_input('O');
    dialog.handle_input('D');
    assert_eq!(dialog.resolve_remote_install_skill_name(), Some("Auditor".to_string()));

    dialog.cycle_hub_source();
    assert_eq!(dialog.selected_hub_source().map(|s| s.source_id.as_str()), Some("zeta"));
    dialog.cycle_hub_source();
    assert_eq!(dialog.selected_hub_source().map(|s| s.source_id.as_str()), Some("alpha"));
}

#[test]
fn hub_records_are_kept_sorted() {
    let mut dialog = SkillListDialog::new();
    let managed = |n: &str| ManagedSkillRecord {
        skill_name: n.to_string(),
        source: None,
        installed_revision: None,
        local_hash: None,
        last_synced_at: None,
        locally_modified: false,
        deleted_locally: false,
    };
    dialog.set_hub_state(vec![managed("b"), managed("a"), managed("c")], Vec::new(), Vec::new());
    let names: Vec<&str> = dialog.managed_skills.iter().map(|m| m.skill_name.as_str()).collect();
    assert_eq!(names, vec!["a", "b", "c"]);

    let report = |n: &str| SkillGuardReport {
        skill_name: n.to_string(),
        status: SkillGuardStatus::Passed,
        violations: Vec::new(),
        scanned_at: 0,
    };
    dialog.set_guard_reports("all".to_string(), vec![report("y"), report("x")]);
    assert_eq!(dialog.guard_reports[0].skill_name, "x");
    assert_eq!(dialog.guard_target_label.as_deref(), Some("all"));
}
