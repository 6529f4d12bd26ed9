use rocode::tui::session_text::{
    extract_fenced_json_block, extract_json_candidate, parse_route_decision_value,
    prettify_token, route_string_field, split_stage_heading, stage_decoration, strip_think_tags,
    StageTone,
};

#[test]
fn stage_decorations() {
    let d = stage_decoration("synthesis");
    assert_eq!((d.icon, d.label, d.tone), ("✦", "Synthesis", StageTone::Success));
    let d = stage_decoration("execution-orchestration");
    assert_eq!((d.label, d.tone), ("Execution", StageTone::Primary));
    let d = stage_decoration("other");
    assert_eq!((d.icon, d.label), ("◈", "Stage"));
}

#[test]
fn stage_heading_split() {
    assert_eq!(
        split_stage_heading("## Plan  \n\nbody\nmore"),
        (Some("Plan".to_string()), "body\nmore".to_string())
    );
    assert_eq!(
        split_stage_heading("## Plan\nbody"),
        (Some("Plan".to_string()), "body".to_string())
    );
    assert_eq!(split_stage_heading("## Plan"), (None, "## Plan".to_string()));
    assert_eq!(split_stage_heading("Plan\n\nx"), (None, "Plan\n\nx".to_string()));
}

#[test]
fn json_candidates() {
    assert_eq!(
        extract_fenced_json_block("x ```json\n{\"a\":1}\n``` y").as_deref(),
        Some("{\"a\":1}")
    );
    assert_eq!(extract_fenced_json_block("no fence"), None);
    assert_eq!(extract_json_candidate("   "), None);
    assert_eq!(extract_json_candidate(" {\"a\":1} ").as_deref(), Some("{\"a\":1}"));
    assert_eq!(
        extract_json_candidate("route: {\"mode\":\"direct\"} done").as_deref(),
        Some("{\"mode\":\"direct\"}")
    );
    assert_eq!(extract_json_candidate("} then {"), None);
}

#[test]
fn route_decision_fields() {
    let (_, fields) = parse_route_decision_value("Decision:\n```json\n{\"mode\": \"orchestrate\", \"n\": 2}\n```")
        .expect("decision parses");
    assert_eq!(route_string_field(&fields, "mode").as_deref(), Some("orchestrate"));
    assert_eq!(route_string_field(&fields, "n"), None);
    assert_eq!(route_string_field(&fields, "missing"), None);
    assert!(parse_route_decision_value("{not json}").is_none());
    assert!(parse_route_decision_value("plain").is_none());
}

#[test]
fn tokens_and_think_tags() {
    assert_eq!(prettify_token("execution-orchestration"), "Execution Orchestration");
    assert_eq!(prettify_token("__a--b_c"), "A B C");
    assert_eq!(prettify_token(""), "");
    assert_eq!(prettify_token("ßeta"), "SSeta");
    assert_eq!(strip_think_tags("<think>a</think>b<think/>c"), "abc");
    assert_eq!(strip_think_tags("<thi<think>nk>"), "<think>");
}
