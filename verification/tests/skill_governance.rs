use rocode::tui::skill_governance::{
    focused_timeline_entries, governance_summary_line, latest_guard_report_for_skill,
    managed_record_for_skill, timeline_focus_label,
};
use rocode::types::skill::{
    ManagedSkillRecord, SkillGovernanceTimelineEntry, SkillGovernanceTimelineKind,
    SkillGovernanceTimelineStatus, SkillGuardReport, SkillGuardStatus, SkillGuardViolation,
    SkillGuardSeverity, SkillSourceKind, SkillSourceRef,
};

fn record(name: &str, source: Option<&str>, modified: bool, deleted: bool) -> ManagedSkillRecord {
    ManagedSkillRecord {
        skill_name: name.to_string(),
        source: source.map(|s| SkillSourceRef {
            source_id: s.to_string(),
            source_kind: SkillSourceKind::Git,
            locator: "x".to_string(),
            revision: None,
        }),
        installed_revision: None,
        local_hash: None,
        last_synced_at: None,
        locally_modified: modified,
        deleted_locally: deleted,
    }
}

fn entry(skill: Option<&str>, source: Option<&str>, guard: Option<SkillGuardStatus>) -> SkillGovernanceTimelineEntry {
    SkillGovernanceTimelineEntry {
        entry_id: "e".to_string(),
        kind: SkillGovernanceTimelineKind::ManagedSnapshot,
        created_at: 1,
        skill_name: skill.map(str::to_string),
        source_id: source.map(str::to_string),
        actor: None,
        title: "t".to_string(),
        summary: "s".to_string(),
        status: SkillGovernanceTimelineStatus::Info,
        managed_record: None,
        guard_report: guard.map(|status| SkillGuardReport {
            skill_name: skill.unwrap_or("").to_string(),
            status,
            violations: vec![SkillGuardViolation {
                rule_id: "r".to_string(),
                severity: SkillGuardSeverity::Warn,
                message: "m".to_string(),
                file_path: None,
            }],
            scanned_at: 2,
        }),
        payload: serde_json::Value::Null,
    }
}

#[test]
fn summary_joins_record_and_guard() {
    let records = vec![record("Other", None, false, false), record("Deploy", Some("hub"), true, false)];
    let timeline = vec![
        entry(Some("deploy"), None, None),
        entry(Some("DEPLOY"), Some("hub"), Some(SkillGuardStatus::Warn)),
        entry(Some("deploy"), None, Some(SkillGuardStatus::Blocked)),
    ];
    assert_eq!(managed_record_for_skill(&records, "deploy").map(|r| r.locally_modified), Some(true));
    assert_eq!(
        latest_guard_report_for_skill(&timeline, "deploy").map(|r| r.status.clone()),
        Some(SkillGuardStatus::Warn)
    );
    assert_eq!(
        governance_summary_line(&records, &timeline, "deploy"),
        "source hub · locally modified · guard warn (1)"
    );
    assert_eq!(governance_summary_line(&records, &timeline, "other"), "source workspace-local · managed clean");
    assert_eq!(governance_summary_line(&records, &timeline, "nobody"), "");
    let deleted = vec![record("x", None, true, true)];
    assert_eq!(governance_summary_line(&deleted, &Vec::new(), "X"), "source workspace-local · deleted locally");
}

#[test]
fn focus_falls_back_from_skill_to_source_to_all() {
    let timeline = vec![
        entry(Some(" Deploy "), None, None),
        entry(None, Some("hub"), None),
        entry(Some("other"), Some("hub"), None),
    ];
    assert_eq!(focused_timeline_entries(&timeline, Some("deploy "), Some("hub")), vec![0]);
    assert_eq!(focused_timeline_entries(&timeline, Some("missing"), Some("hub")), vec![1, 2]);
    assert_eq!(focused_timeline_entries(&timeline, None, Some("none")), vec![0, 1, 2]);
    assert_eq!(focused_timeline_entries(&timeline, None, None), vec![0, 1, 2]);
    assert_eq!(timeline_focus_label(Some("deploy"), Some("hub")), "skill `deploy`");
    assert_eq!(timeline_focus_label(None, Some("hub")), "source `hub`");
    assert_eq!(timeline_focus_label(None, None), "all governance entries");
}
