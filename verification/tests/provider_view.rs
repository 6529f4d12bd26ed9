use rocode::tui::provider::{CustomProviderState, CustomProviderStep};
use rocode::tui::provider::{Provider, ProviderConnectMode, ProviderDialog, ProviderStatus, SubmitResult};
use rocode::tui::provider_view::{ProviderLineTone, ProviderListBody};

fn provider(id: &str, status: ProviderStatus) -> Provider {
    Provider {
        id: id.to_string(),
        name: id.to_uppercase(),
        env_hint: String::new(),
        base_url: None,
        protocol: None,
        model_count: 1,
        status,
    }
}

#[test]
fn empty_list_explains_itself() {
    let d = ProviderDialog::new();
    let v = d.list_view(5);
    assert!(v.known_active);
    assert_eq!(v.search_line, "Search: ");
    match v.body {
        ProviderListBody::Notice(m) => assert_eq!(
            m,
            "No known providers available. Switch to Custom to enter an endpoint manually."
        ),
        _ => panic!("expected a notice"),
    }
    assert_eq!(v.footer[0], "0 known providers · 0/0 selected");
}

#[test]
fn list_scrolls_to_keep_the_selection_in_view() {
    let mut d = ProviderDialog::new();
    d.providers = (0..6)
        .map(|i| provider(&format!("p{}", i), if i == 4 { ProviderStatus::Connected } else { ProviderStatus::Disconnected }))
        .collect();
    d.selected = Some(4);
    let v = d.list_view(3);
    match &v.body {
        ProviderListBody::Rows { scroll, rows, scrollbar } => {
            assert_eq!(*scroll, 2);
            assert!(*scrollbar);
            let names: Vec<&str> = rows.iter().map(|r| r.name.as_str()).collect();
            assert_eq!(names, vec!["P2", "P3", "P4"]);
            assert!(rows[2].selected && !rows[0].selected);
            assert_eq!(rows[2].icon, "●");
            assert_eq!(rows[0].icon, "◯");
            assert_eq!(rows[1].detail, " · p3");
        }
        _ => panic!("expected rows"),
    }
    assert_eq!(v.footer[0], "6 known providers · 5/6 selected");
    d.search_query = "zz".to_string();
    let v = d.list_view(3);
    match v.body {
        ProviderListBody::Notice(m) => assert!(m.starts_with("No known match.")),
        _ => panic!("expected a notice"),
    }
    assert_eq!(v.footer[0], "0 matches · 5/0 selected · 6 total known");
}

#[test]
fn custom_mode_lists_the_steps_and_the_outcome() {
    let mut d = ProviderDialog::new();
    d.connect_mode = ProviderConnectMode::Custom;
    d.submit_result = Some(SubmitResult::Failed("bad key".to_string()));
    let v = d.list_view(4);
    assert!(!v.known_active);
    match v.body {
        ProviderListBody::Custom(lines) => {
            assert_eq!(lines.len(), 9);
            assert_eq!(lines[0], ("Custom provider setup".to_string(), ProviderLineTone::Heading));
            assert_eq!(lines[8], ("✗ bad key".to_string(), ProviderLineTone::Error));
        }
        _ => panic!("expected the custom text"),
    }
    assert_eq!(v.footer[0], "Manual provider setup");
}

fn flat(lines: &[rocode::tui::skill_hub_view::PreviewLine]) -> Vec<String> {
    lines.iter().map(|l| l.spans.iter().map(|s| s.text.as_str()).collect::<String>()).collect()
}

#[test]
fn custom_input_steps_show_their_field() {
    let mut d = ProviderDialog::new();
    assert!(d.custom_input_view(&Vec::new()).is_none());
    d.custom_state = Some(CustomProviderState {
        provider_id: "acme".to_string(),
        base_url: String::new(),
        protocol: String::new(),
        api_key: "sk-abcdef".to_string(),
        step: CustomProviderStep::ApiKey,
    });
    d.submit_result = Some(SubmitResult::Failed("x".repeat(60)));
    let lines = flat(&d.custom_input_view(&Vec::new()).unwrap());
    assert_eq!(lines[0], "Add Custom Provider (Step 4/4)");
    assert_eq!(lines[2], "API Key:");
    assert_eq!(lines[3], "> sk-a*****█");
    assert_eq!(lines[5], format!("✗ {}...", "x".repeat(45)));
    assert_eq!(lines[7], "Enter connect  Esc back");

    if let Some(st) = d.custom_state.as_mut() {
        st.step = CustomProviderStep::Protocol;
    }
    d.submit_result = None;
    d.protocol_index = 1;
    let names = vec!["OpenAI".to_string(), "Anthropic".to_string()];
    let lines = flat(&d.custom_input_view(&names).unwrap());
    assert_eq!(lines[2], "Protocol:");
    assert_eq!(lines[3], "");
    assert_eq!(lines[4], "  OpenAI");
    assert_eq!(lines[5], "› Anthropic");
    assert_eq!(lines[7], "↑↓ select  Enter next  Esc back");
}

#[test]
fn known_provider_key_screen() {
    let mut d = ProviderDialog::new();
    let lines = flat(&d.input_view());
    assert_eq!(lines[0], "");
    assert_eq!(lines[2], "Env: ");
    assert_eq!(lines[9], "Enter connect  Esc back");
    let mut p = provider("openai", ProviderStatus::Disconnected);
    p.env_hint = "OPENAI_API_KEY".to_string();
    p.base_url = Some("https://api.openai.com/v1".to_string());
    d.selected_provider = Some(p);
    d.api_key_input = "sk-123456".to_string();
    d.submit_result = Some(SubmitResult::Success);
    let lines = flat(&d.input_view());
    assert_eq!(lines.len(), 12);
    assert_eq!(lines[0], "OPENAI");
    assert_eq!(lines[2], "Env: OPENAI_API_KEY");
    assert_eq!(lines[3], "Base URL: https://api.openai.com/v1");
    assert_eq!(lines[4], "Protocol: ");
    assert_eq!(lines[6], "Enter API Key:");
    assert_eq!(lines[7], "> sk-1*****█");
    assert_eq!(lines[9], "✓ Connected successfully!");
    assert_eq!(lines[10], "");
    assert_eq!(lines[11], "Enter connect  Esc back");
    d.api_key_input = "abc".to_string();
    d.submit_result = Some(SubmitResult::Failed("bad key".to_string()));
    let lines = flat(&d.input_view());
    assert_eq!(lines[7], "> abc█");
    assert_eq!(lines[9], "✗ bad key");
}
