use rocode::tui::skill_hub_view::{PreviewLine, PreviewStyle};
use rocode::tui::skill_list::SkillListDialog;
use rocode::types::skill::{
    ManagedSkillRecord, SkillArtifactCacheEntry, SkillArtifactCacheStatus, SkillArtifactKind,
    SkillArtifactRef, SkillDistributionRecord, SkillDistributionRelease,
    SkillDistributionResolution, SkillDistributionResolverKind, SkillGovernanceTimelineEntry,
    SkillGovernanceTimelineKind, SkillGovernanceTimelineStatus, SkillGuardReport,
    SkillGuardSeverity, SkillGuardStatus, SkillGuardViolation, SkillHubPolicy,
    SkillManagedLifecycleRecord, SkillManagedLifecycleState, SkillRemoteInstallAction,
    SkillRemoteInstallEntry, SkillRemoteInstallPlan, SkillSourceIndexEntry,
    SkillSourceIndexSnapshot, SkillSourceKind, SkillSourceRef, SkillSyncAction, SkillSyncEntry,
    SkillSyncPlan,
};

fn flat(lines: &[PreviewLine]) -> Vec<Vec<(String, PreviewStyle)>> {
    lines
        .iter()
        .map(|l| l.spans.iter().map(|s| (s.text.clone(), s.style)).collect())
        .collect()
}

fn one(text: &str, style: PreviewStyle) -> Vec<(String, PreviewStyle)> {
    vec![(text.to_string(), style)]
}

fn source_ref(id: &str, revision: Option<&str>) -> SkillSourceRef {
    SkillSourceRef {
        source_id: id.to_string(),
        source_kind: SkillSourceKind::Registry,
        locator: format!("https://example.com/{}", id),
        revision: revision.map(|r| r.to_string()),
    }
}

fn index_entry(
    name: &str,
    category: Option<&str>,
    revision: Option<&str>,
    description: Option<&str>,
) -> SkillSourceIndexEntry {
    SkillSourceIndexEntry {
        skill_name: name.to_string(),
        description: description.map(|s| s.to_string()),
        category: category.map(|s| s.to_string()),
        version: None,
        revision: revision.map(|s| s.to_string()),
        manifest_path: None,
        checksum: None,
    }
}

fn artifact(id: &str) -> SkillArtifactRef {
    SkillArtifactRef {
        artifact_id: id.to_string(),
        kind: SkillArtifactKind::Archive,
        locator: "archive.tar".to_string(),
        checksum: None,
        size_bytes: None,
    }
}

fn distribution(id: &str, source: &str, skill: &str, version: Option<&str>) -> SkillDistributionRecord {
    SkillDistributionRecord {
        distribution_id: id.to_string(),
        source: source_ref(source, None),
        skill_name: skill.to_string(),
        release: SkillDistributionRelease {
            version: version.map(|v| v.to_string()),
            revision: None,
            checksum: None,
            manifest_path: None,
            published_at: None,
        },
        resolution: SkillDistributionResolution {
            resolved_at: 1,
            resolver_kind: SkillDistributionResolverKind::RegistryIndex,
            artifact: artifact("art"),
        },
        installed: None,
        lifecycle: SkillManagedLifecycleState::Installed,
    }
}

fn violation(rule: &str, message: &str) -> SkillGuardViolation {
    SkillGuardViolation {
        rule_id: rule.to_string(),
        severity: SkillGuardSeverity::Warn,
        message: message.to_string(),
        file_path: None,
    }
}

fn timeline_entry(
    status: SkillGovernanceTimelineStatus,
    title: &str,
    created_at: i64,
    skill: Option<&str>,
) -> SkillGovernanceTimelineEntry {
    SkillGovernanceTimelineEntry {
        entry_id: title.to_string(),
        kind: SkillGovernanceTimelineKind::HubInstall,
        created_at,
        skill_name: skill.map(|s| s.to_string()),
        source_id: None,
        actor: None,
        title: title.to_string(),
        summary: format!("about {}", title),
        status,
        managed_record: None,
        guard_report: None,
        payload: serde_json::Value::Null,
    }
}

#[test]
fn empty_hub_preview_names_no_source() {
    let dialog = SkillListDialog::new();
    assert_eq!(
        flat(&dialog.hub_preview_lines()),
        vec![
            one(
                "Hub: managed 0 · indexed 0 · distributions 0 · artifacts 0 · lifecycle 0 · view preview",
                PreviewStyle::Heading
            ),
            one("Selected source: none", PreviewStyle::Muted),
            Vec::new(),
        ]
    );
}

#[test]
fn hub_preview_describes_the_remote_target() {
    let mut dialog = SkillListDialog::new();
    dialog.source_indices = vec![SkillSourceIndexSnapshot {
        source: source_ref("alpha", Some("r1")),
        updated_at: 3,
        entries: vec![
            index_entry("Foo", Some("tools"), Some("v2"), Some("does things")),
            index_entry("Bar", None, None, None),
        ],
    }];
    dialog.hub_policy = Some(SkillHubPolicy {
        artifact_cache_retention_seconds: 86_400,
        fetch_timeout_ms: 1_500,
        max_download_bytes: 2 * 1_048_576,
        max_extract_bytes: 3_000,
    });
    dialog.hub_plan = Some(SkillSyncPlan {
        source_id: "alpha".to_string(),
        entries: vec![SkillSyncEntry {
            skill_name: "Foo".to_string(),
            action: SkillSyncAction::Install,
            reason: "new".to_string(),
        }],
    });
    dialog.remote_install_plan = Some(SkillRemoteInstallPlan {
        source_id: "alpha".to_string(),
        distribution: distribution("d0", "alpha", "foo", None),
        entry: SkillRemoteInstallEntry {
            distribution_id: "d0".to_string(),
            source_id: "alpha".to_string(),
            skill_name: "foo".to_string(),
            action: SkillRemoteInstallAction::Update,
            reason: "newer".to_string(),
        },
    });
    dialog.distributions = vec![
        distribution("d1", "alpha", "Foo", Some("0.9")),
        distribution("d2", "alpha", "FOO", Some("1.0")),
        distribution("d3", "beta", "Foo", Some("2.0")),
    ];
    dialog.artifact_cache = vec![SkillArtifactCacheEntry {
        artifact: artifact("art"),
        cached_at: -5,
        local_path: "/tmp/art".to_string(),
        extracted_path: None,
        status: SkillArtifactCacheStatus::Extracted,
        error: Some("disk full".to_string()),
    }];
    dialog.lifecycle_records = vec![SkillManagedLifecycleRecord {
        distribution_id: "d2".to_string(),
        source_id: "alpha".to_string(),
        skill_name: "foo".to_string(),
        state: SkillManagedLifecycleState::Diverged,
        updated_at: 42,
        error: Some(String::new()),
    }];
    dialog.guard_target_label = Some("workspace".to_string());
    dialog.guard_reports = vec![SkillGuardReport {
        skill_name: "Foo".to_string(),
        status: SkillGuardStatus::Blocked,
        violations: vec![violation("a", "x"), violation("b", "y"), violation("c", "z")],
        scanned_at: 9,
    }];

    let m = PreviewStyle::Muted;
    assert_eq!(
        flat(&dialog.hub_preview_lines()),
        vec![
            one(
                "Hub: managed 0 · indexed 1 · distributions 3 · artifacts 1 · lifecycle 1 · view preview",
                PreviewStyle::Heading
            ),
            one("Selected source: alpha · r1", m),
            one("Policy: retention 1d · timeout 1500ms · download 2 MiB · extract 3000 B", m),
            one("Latest sync plan: 1 entries for alpha", m),
            one("First action: Foo -> Install", m),
            one("Remote target: Foo", m),
            one("Latest remote plan: Update via alpha", m),
            one("Remote index: tools · v2 · does things", m),
            one("Distribution: d2 · version 1.0 · revision -- · Installed", m),
            one("Artifact cache: Extracted @ -5", m),
            one("Artifact error: disk full", PreviewStyle::Error),
            one("Lifecycle: Diverged @ 42", m),
            one("Indexed remote entries:", PreviewStyle::Heading),
            one("> Foo (v2)", PreviewStyle::Primary),
            one("- Bar (unversioned)", m),
            one("Latest guard run: 1 report(s) for workspace", m),
            one("First guard status: Foo -> Blocked (3 violations)", m),
            Vec::new(),
        ]
    );
}

#[test]
fn timeline_lists_entries_with_their_details() {
    let mut dialog = SkillListDialog::new();
    let mut warned = timeline_entry(SkillGovernanceTimelineStatus::Warn, "Guard warned", 0, Some("foo"));
    warned.guard_report = Some(SkillGuardReport {
        skill_name: "foo".to_string(),
        status: SkillGuardStatus::Warn,
        violations: vec![violation("r1", "m1"), violation("r2", "m2"), violation("r3", "m3")],
        scanned_at: 1,
    });
    let mut installed = timeline_entry(SkillGovernanceTimelineStatus::Success, "Installed", 7, None);
    installed.managed_record = Some(ManagedSkillRecord {
        skill_name: "bar".to_string(),
        source: None,
        installed_revision: Some("abc".to_string()),
        local_hash: None,
        last_synced_at: None,
        locally_modified: true,
        deleted_locally: false,
    });
    dialog.governance_timeline = vec![warned, installed];

    let m = PreviewStyle::Muted;
    let lines = flat(&dialog.timeline_lines());
    assert_eq!(lines.len(), 3 + 1 + 6 + 5);
    assert_eq!(lines[3], one("Timeline focus: all governance entries", m));
    assert_eq!(
        lines[4],
        vec![
            ("[warn] ".to_string(), PreviewStyle::Warning),
            ("Guard warned".to_string(), PreviewStyle::Title),
        ]
    );
    assert_eq!(lines[5], one("timestamp -- · foo · --", m));
    assert_eq!(lines[6], one("about Guard warned", m));
    assert_eq!(lines[7], one("  - r1: m1", PreviewStyle::Warning));
    assert_eq!(lines[8], one("  - r2: m2", PreviewStyle::Warning));
    assert_eq!(lines[9], Vec::new());
    assert_eq!(
        lines[10],
        vec![
            ("[ok] ".to_string(), PreviewStyle::Success),
            ("Installed".to_string(), PreviewStyle::Title),
        ]
    );
    assert_eq!(lines[11], one("timestamp 7 · -- · --", m));
    assert_eq!(lines[12], one("about Installed", m));
    assert_eq!(lines[13], one("  - revision abc · locally modified", m));
    assert_eq!(lines[14], Vec::new());
}

#[test]
fn timeline_without_entries_says_so() {
    let dialog = SkillListDialog::new();
    let lines = flat(&dialog.timeline_lines());
    assert_eq!(lines.len(), 5);
    assert_eq!(lines[3], one("Timeline focus: all governance entries", PreviewStyle::Muted));
    assert_eq!(
        lines[4],
        one("No governance timeline entries for the current selection.", PreviewStyle::Muted)
    );
}

#[test]
fn timeline_shows_at_most_ten_entries() {
    let mut dialog = SkillListDialog::new();
    dialog.governance_timeline = (0..12)
        .map(|i| timeline_entry(SkillGovernanceTimelineStatus::Info, &format!("e{}", i), i, None))
        .collect();
    let lines = flat(&dialog.timeline_lines());
    assert_eq!(lines.len(), 3 + 1 + 10 * 4);
    assert_eq!(
        lines[4],
        vec![("[info] ".to_string(), PreviewStyle::Primary), ("e0".to_string(), PreviewStyle::Title)]
    );
    assert_eq!(lines[5], one("timestamp -- · -- · --", PreviewStyle::Muted));
    assert_eq!(lines[9], one("timestamp 1 · -- · --", PreviewStyle::Muted));
}
