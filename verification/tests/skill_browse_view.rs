use rocode::tui::skill_editor::GovernanceTone;
use rocode::tui::skill_hub_view::PreviewStyle;
use rocode::tui::skill_list::{SkillCatalogEntry, SkillDetail, SkillDetailResponse, SkillListDialog, SkillMeta};
use rocode::types::skill::ManagedSkillRecord;

fn entry(name: &str, category: Option<&str>, files: usize, writable: bool) -> SkillCatalogEntry {
    SkillCatalogEntry {
        name: name.to_string(),
        description: format!("about {}", name),
        category: category.map(|c| c.to_string()),
        location: format!("/skills/{}", name),
        supporting_files: (0..files).map(|i| format!("f{}", i)).collect(),
        writable,
    }
}

#[test]
fn browse_lists_matching_skills_with_details_and_governance() {
    let mut d = SkillListDialog::new();
    d.open();
    d.set_skills(vec![entry("alpha", Some("core"), 2, true), entry("beta", None, 0, false)]);
    d.managed_skills = vec![ManagedSkillRecord {
        skill_name: "ALPHA".to_string(),
        source: None,
        installed_revision: None,
        local_hash: None,
        last_synced_at: None,
        locally_modified: true,
        deleted_locally: false,
    }];
    let v = d.browse_view();
    assert_eq!(v.title, " Skills (2/2) ");
    assert_eq!(v.items.len(), 2);
    assert_eq!(v.items[0].detail, "[core] about alpha · files 2 · workspace");
    assert_eq!(v.items[1].detail, "about beta · read-only");
    assert_eq!(
        v.items[0].governance,
        Some(("source workspace-local · locally modified".to_string(), GovernanceTone::Warning))
    );
    assert_eq!(v.items[1].governance, None);
    assert_eq!(v.pane_title, " Preview ");
    let last = v.pane.last().unwrap();
    assert_eq!(last.spans[0].text, "Select a skill to load its raw SKILL.md preview.");

    d.set_skill_detail(SkillDetailResponse {
        skill: SkillDetail {
            meta: SkillMeta {
                name: "alpha".to_string(),
                description: "about alpha".to_string(),
                category: None,
                location: "/skills/alpha".to_string(),
                supporting_files: vec!["a".to_string()],
            },
        },
        source: "# Alpha\r\nbody\n".to_string(),
        writable: true,
    });
    let v = d.browse_view();
    let texts: Vec<String> = v.pane.iter().map(|l| l.spans.iter().map(|s| s.text.as_str()).collect()).collect();
    let n = texts.len();
    assert_eq!(texts[n - 2], "# Alpha");
    assert_eq!(texts[n - 1], "body");
    assert_eq!(texts[n - 5], "uncategorized · 1 supporting files · workspace writable");
    assert_eq!(v.pane[n - 1].spans[0].style, PreviewStyle::Text);
}
