use rocode::tui::route_view::{route_stage_lines, RouteLine, RouteTone};
use rocode::tui::session_text::StageTone;

#[test]
fn route_stage_shows_the_decision_field_by_field() {
    let text = "## Route\n\n```json\n{\"mode\": \"orchestrate\", \"preset\": \"deep-work\", \"review_mode\": \"skip\", \"insert_plan_stage\": true, \"rationale_summary\": \"  big task \", \"direct_response\": \"   \"}\n```";
    let lines = route_stage_lines(text, Some("auto_pilot"), Some(1), Some(3)).expect("decision");
    match &lines[0] {
        RouteLine::Header { icon, title, counter, tone } => {
            assert_eq!(icon, "◈ ");
            assert_eq!(title, "Auto Pilot · Route");
            assert_eq!(counter.as_deref(), Some("  (1/3)"));
            assert_eq!(*tone, StageTone::Info);
        }
        _ => panic!("expected the header"),
    }
    assert!(matches!(lines[1], RouteLine::Separator));
    assert!(matches!(lines[2], RouteLine::Heading));
    let fields: Vec<(String, String, RouteTone)> = lines
        .iter()
        .filter_map(|l| match l {
            RouteLine::Field { label, value, tone } => Some((label.clone(), value.clone(), *tone)),
            _ => None,
        })
        .collect();
    assert_eq!(
        fields,
        vec![
            ("Mode".to_string(), "Orchestrate".to_string(), RouteTone::Success),
            ("Preset".to_string(), "Deep Work".to_string(), RouteTone::Info),
            ("Review".to_string(), "Skip".to_string(), RouteTone::Warning),
            ("Insert Plan Stage".to_string(), "Yes".to_string(), RouteTone::Success),
            ("Reason".to_string(), "big task".to_string(), RouteTone::Text),
        ]
    );
    assert_eq!(lines.len(), 3 + 5);
}

#[test]
fn route_stage_without_a_decision_is_none() {
    assert!(route_stage_lines("just words", None, None, None).is_none());
    let lines = route_stage_lines("{\"mode\": \"direct\", \"direct_kind\": \"quick_answer\", \"context_append\": \"see *notes*\"}", None, Some(2), None).unwrap();
    match &lines[0] {
        RouteLine::Header { title, counter, .. } => {
            assert_eq!(title, "Scheduler · Route");
            assert_eq!(*counter, None);
        }
        _ => panic!("expected the header"),
    }
    match &lines[3] {
        RouteLine::Field { value, tone, .. } => {
            assert_eq!(value, "Direct Quick Answer");
            assert_eq!(*tone, RouteTone::Warning);
        }
        _ => panic!("expected the mode"),
    }
    assert!(matches!(lines[4], RouteLine::Blank));
    match &lines[6] {
        RouteLine::Markdown { text } => assert_eq!(text, "see *notes*"),
        _ => panic!("expected the context"),
    }
}
