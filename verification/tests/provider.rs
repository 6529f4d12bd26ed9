use rocode::tui::provider::{
    provider_from_connect_draft, CustomProviderStep, KnownProviderEntry, PendingSubmit, Provider,
    ProviderConnectDraft, ProviderConnectMode, ProviderDialog, ProviderStatus,
};

fn provider(id: &str) -> Provider {
    Provider {
        id: id.to_string(),
        name: id.to_uppercase(),
        env_hint: String::new(),
        base_url: None,
        protocol: None,
        model_count: 1,
        status: ProviderStatus::Disconnected,
    }
}

#[test]
fn draft_becomes_provider() {
    let draft = ProviderConnectDraft {
        provider_id: "acme".to_string(),
        name: None,
        env: vec!["ACME_KEY".to_string(), "OTHER".to_string()],
        base_url: Some("https://x".to_string()),
        protocol: None,
        model_count: 3,
        connected: true,
    };
    let p = provider_from_connect_draft(&draft);
    assert_eq!(p.name, "acme");
    assert_eq!(p.env_hint, "ACME_KEY");
    assert_eq!(p.status, ProviderStatus::Connected);
    assert_eq!(p.model_count, 3);
}

#[test]
fn known_provider_key_flow() {
    let mut d = ProviderDialog::new();
    d.set_providers(vec![provider("a"), provider("b")]);
    d.open();
    assert_eq!(d.selected, Some(0));
    d.move_down();
    d.move_down();
    assert_eq!(d.selected, Some(1));
    d.move_up();
    d.move_down();
    d.enter_input_mode();
    assert!(d.is_input_mode());
    assert!(d.accepts_text_input());
    assert!(d.pending_submit().is_none());
    for c in "  sk-1 ".chars() {
        d.push_char(c);
    }
    d.pop_char();
    d.push_char(' ');
    match d.pending_submit() {
        Some(PendingSubmit::Known { provider_id, api_key }) => {
            assert_eq!(provider_id, "b");
            assert_eq!(api_key, "sk-1");
        }
        _ => panic!("expected a known submission"),
    }
    d.exit_input_mode();
    assert!(d.pending_submit().is_none());
    d.close();
    assert!(!d.is_open());
}

#[test]
fn custom_provider_flow() {
    let mut d = ProviderDialog::new();
    d.protocol_options = vec!["openai".to_string(), "anthropic".to_string()];
    d.open();
    d.toggle_mode_next();
    assert_eq!(d.connect_mode, ProviderConnectMode::Custom);
    d.enter_input_mode();
    assert!(!d.is_final_step());
    d.set_input("mine".to_string());
    assert!(!d.advance_custom_flow());
    for c in "http://h".chars() {
        d.push_char(c);
    }
    assert!(!d.advance_custom_flow());
    assert!(d.is_protocol_step());
    assert!(!d.accepts_text_input());
    d.push_char('x');
    d.protocol_index_inc();
    d.protocol_index_inc();
    assert_eq!(d.protocol_index, 1);
    assert!(d.advance_custom_flow());
    assert!(d.is_final_step());
    assert!(d.pending_submit().is_none());
    d.push_char('k');
    assert!(d.advance_custom_flow());
    match d.pending_submit() {
        Some(PendingSubmit::Custom { provider_id, base_url, protocol, api_key }) => {
            assert_eq!(provider_id, "mine");
            assert_eq!(base_url, "http://h");
            assert_eq!(protocol, "anthropic");
            assert_eq!(api_key, "k");
        }
        _ => panic!("expected a custom submission"),
    }
    d.back_custom_flow();
    assert_eq!(d.custom_state.as_ref().map(|s| s.step), Some(CustomProviderStep::Protocol));
    d.back_custom_flow();
    d.back_custom_flow();
    d.back_custom_flow();
    assert!(d.custom_state.is_none());
}

#[test]
fn prefilled_custom_flow_and_search() {
    let mut d = ProviderDialog::new();
    d.protocol_options = vec!["openai".to_string(), "anthropic".to_string()];
    d.start_custom_flow_with_prefill("p".to_string(), "u".to_string(), "anthropic".to_string());
    assert_eq!(d.protocol_index, 1);
    d.start_custom_flow_with_prefill("p".to_string(), "u".to_string(), "zzz".to_string());
    assert_eq!(d.protocol_index, 0);
    d.exit_custom_flow();
    d.set_providers(vec![provider("a")]);
    d.push_search_char('x');
    assert_eq!(d.selected, Some(0));
    d.apply_resolve_response(vec![KnownProviderEntry {
        id: "x".to_string(),
        name: "X".to_string(),
        env: vec![],
        base_url: None,
        protocol: None,
        model_count: 0,
        connected: false,
    }]);
    assert_eq!(d.selected_provider().map(|p| p.id), Some("x".to_string()));
    d.set_resolve_error("boom".to_string());
    assert_eq!(d.selected, None);
    d.pop_search_char();
    assert_eq!(d.selected, Some(0));
    assert_eq!(d.selected_provider().map(|p| p.id), Some("a".to_string()));
    d.clear_search();
    d.set_mode(ProviderConnectMode::Custom);
    d.move_down();
    assert_eq!(d.selected, Some(0));
}

fn entry(id: &str, name: &str, connected: bool) -> KnownProviderEntry {
    KnownProviderEntry {
        id: id.to_string(),
        name: name.to_string(),
        env: vec![format!("{}_KEY", id.to_uppercase())],
        base_url: None,
        protocol: None,
        model_count: 2,
        connected,
    }
}

#[test]
fn catalogue_sorts_connected_first_then_by_name() {
    let mut d = ProviderDialog::new();
    d.populate_from_known(vec![
        entry("z", "zeta", false),
        entry("b", "Beta", true),
        entry("a", "alpha", false),
        entry("b2", "beta", true),
        entry("c", "Ćma", false),
    ]);
    let ids: Vec<&str> = d.providers.iter().map(|p| p.id.as_str()).collect();
    assert_eq!(ids, vec!["b", "b2", "a", "z", "c"]);
    assert_eq!(d.providers[0].env_hint, "B_KEY");
    assert_eq!(d.providers[0].status, ProviderStatus::Connected);
    d.protocol_index = 5;
    d.populate_from_connect_schema(vec![entry("x", "X", false)], vec!["openai".to_string()]);
    assert_eq!(d.protocol_index, 0);
    assert_eq!(d.selected, Some(0));
    d.populate(&vec!["x".to_string()]);
    assert_eq!(d.providers.len(), 1);
    assert_eq!(d.providers[0].status, ProviderStatus::Connected);
    d.populate(&Vec::new());
    assert_eq!(d.providers.len(), 1);
    assert_eq!(d.providers[0].status, ProviderStatus::Disconnected);
}
