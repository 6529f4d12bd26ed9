use rocode::tui::skill_editor::{
    format_bytes, format_duration_ms, format_duration_seconds, governance_line_tone,
    parse_methodology_references_input, parse_methodology_steps_input, split_non_empty_lines,
    timeline_guard_status_label, timeline_status_label, timeline_timestamp_label,
    GovernanceTone, SkillCreateField, SkillEditField, SkillManageEditorMode,
    SkillMethodologyDraft, SkillMethodologySection,
};
use rocode::types::skill::{
    ManagedSkillRecord, SkillGovernanceTimelineStatus, SkillGuardReport, SkillGuardStatus,
};

#[test]
fn editor_mode_toggles_and_labels() {
    let mut m = SkillManageEditorMode::Methodology;
    assert_eq!(m.label(), "methodology");
    m.toggle();
    assert_eq!(m, SkillManageEditorMode::Raw);
    assert_eq!(m.label(), "raw markdown");
    m.toggle();
    assert_eq!(m, SkillManageEditorMode::Methodology);
}

#[test]
fn sections_cycle_both_ways() {
    let mut s = SkillMethodologySection::WhenToUse;
    for _ in 0..8 {
        assert_eq!(s.next().previous(), s);
        s = s.next();
    }
    assert_eq!(s, SkillMethodologySection::WhenToUse);
    assert_eq!(SkillMethodologySection::WhenToUse.previous(), SkillMethodologySection::References);
    assert_eq!(SkillMethodologySection::Pitfalls.title(), "Boundaries / Pitfalls");
    assert_eq!(
        SkillMethodologySection::CoreSteps.hint(),
        "One step per line: Title | Action | Outcome(optional)"
    );
}

#[test]
fn create_and_edit_fields_tab_round_trip() {
    let mode = SkillManageEditorMode::Raw;
    let mut f = SkillCreateField::Name;
    let mut seen = Vec::new();
    for _ in 0..5 {
        seen.push(f);
        assert_eq!(f.next(mode).previous(mode), f);
        f = f.next(mode);
    }
    assert_eq!(f, SkillCreateField::Name);
    assert!(seen.contains(&SkillCreateField::Body));
    assert_eq!(SkillCreateField::Name.previous(SkillManageEditorMode::Methodology), SkillCreateField::MethodologyEditor);
    assert_eq!(SkillEditField::EditorMode.next(SkillManageEditorMode::Raw), SkillEditField::RawSource);
    assert_eq!(SkillEditField::Description.previous(SkillManageEditorMode::Methodology), SkillEditField::MethodologyEditor);
    assert_eq!(SkillEditField::MethodologyEditor.next(SkillManageEditorMode::Methodology), SkillEditField::Description);
}

#[test]
fn non_empty_lines_are_trimmed() {
    assert_eq!(
        split_non_empty_lines("  a \n\n\t\r\nb\r\n  "),
        vec!["a".to_string(), "b".to_string()]
    );
    assert!(split_non_empty_lines("").is_empty());
}

#[test]
fn steps_parse_with_optional_outcome() {
    let steps = parse_methodology_steps_input("Plan | write it down | a plan\n\n Build|do it|  \n").unwrap();
    assert_eq!(steps.len(), 2);
    assert_eq!(steps[0].title, "Plan");
    assert_eq!(steps[0].action, "write it down");
    assert_eq!(steps[0].outcome.as_deref(), Some("a plan"));
    assert_eq!(steps[1].outcome, None);
    assert_eq!(
        parse_methodology_steps_input("ok | fine\nno separator").unwrap_err(),
        "core step line 2 must use `Title | Action | Outcome(optional)`"
    );
    assert_eq!(
        parse_methodology_steps_input(" | action").unwrap_err(),
        "core step line 1 must include both title and action"
    );
}

#[test]
fn references_parse_path_then_label() {
    let refs = parse_methodology_references_input("docs/a.md | Guide").unwrap();
    assert_eq!(refs.len(), 1);
    assert_eq!(refs[0].path, "docs/a.md");
    assert_eq!(refs[0].label, "Guide");
    assert_eq!(
        parse_methodology_references_input("only-path").unwrap_err(),
        "reference line 1 must use `path | label`"
    );
    assert_eq!(
        parse_methodology_references_input("a | b\npath |").unwrap_err(),
        "reference line 2 must include both path and label"
    );
}

#[test]
fn draft_selected_editor_and_summary() {
    let mut d = SkillMethodologyDraft::new();
    d.selected_section = SkillMethodologySection::Pitfalls;
    {
        let e = d.selected_editor_mut();
        e.insert_char('x');
        e.insert_newline();
        e.insert_char('y');
    }
    assert_eq!(d.selected_editor().text(), "x\ny");
    assert_eq!(d.pitfalls.text(), "x\ny");
    assert_eq!(d.section_summary(SkillMethodologySection::Pitfalls), "Boundaries / Pitfalls (2)");
    assert_eq!(d.section_summary(SkillMethodologySection::WhenToUse), "When To Use (0)");
}

#[test]
fn duration_and_size_labels() {
    assert_eq!(format_duration_seconds(0), "0d");
    assert_eq!(format_duration_seconds(172_800), "2d");
    assert_eq!(format_duration_seconds(7_200), "2h");
    assert_eq!(format_duration_seconds(120), "2m");
    assert_eq!(format_duration_seconds(61), "61s");
    assert_eq!(format_duration_ms(3000), "3s");
    assert_eq!(format_duration_ms(1500), "1500ms");
    assert_eq!(format_bytes(2 * 1_048_576), "2 MiB");
    assert_eq!(format_bytes(3072), "3 KiB");
    assert_eq!(format_bytes(1_048_577), "1048577 B");
    assert_eq!(format_bytes(0), "0 B");
    assert_eq!(timeline_timestamp_label(0), "timestamp --");
    assert_eq!(timeline_timestamp_label(1700000000), "timestamp 1700000000");
}

fn report(status: SkillGuardStatus) -> SkillGuardReport {
    SkillGuardReport { skill_name: "s".to_string(), status, violations: Vec::new(), scanned_at: 1 }
}

#[test]
fn governance_labels_and_tone() {
    assert_eq!(timeline_status_label(&SkillGovernanceTimelineStatus::Success), "ok");
    assert_eq!(timeline_status_label(&SkillGovernanceTimelineStatus::Error), "error");
    assert_eq!(timeline_guard_status_label(&report(SkillGuardStatus::Blocked)), "blocked");
    let record = ManagedSkillRecord {
        skill_name: "s".to_string(),
        source: None,
        installed_revision: None,
        local_hash: None,
        last_synced_at: None,
        locally_modified: true,
        deleted_locally: false,
    };
    assert_eq!(governance_line_tone(None, None), GovernanceTone::Muted);
    assert_eq!(governance_line_tone(Some(&record), None), GovernanceTone::Warning);
    assert_eq!(governance_line_tone(None, Some(&report(SkillGuardStatus::Warn))), GovernanceTone::Warning);
    assert_eq!(
        governance_line_tone(Some(&record), Some(&report(SkillGuardStatus::Blocked))),
        GovernanceTone::Error
    );
    assert_eq!(governance_line_tone(None, Some(&report(SkillGuardStatus::Passed))), GovernanceTone::Muted);
}
