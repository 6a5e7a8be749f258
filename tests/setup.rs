use shortcutai::setup::{file_from_payload, payload_from_file, split_legacy_key, Action, SetupFile, SetupPayload};

fn action() -> Action {
    Action {
        id: "a1".to_string(),
        name: "Fix grammar".to_string(),
        prompt: "Fix the grammar of this text".to_string(),
        created_at: "2024-01-01T00:00:00Z".to_string(),
        last_used_at: None,
    }
}

fn file_with_key(key: Option<&str>) -> SetupFile {
    SetupFile {
        provider: "openai".to_string(),
        actions: vec![action()],
        default_action_id: Some("a1".to_string()),
        setup_completed_at: "2024-01-02T00:00:00Z".to_string(),
        api_key: key.map(|k| k.to_string()),
    }
}

#[test]
fn legacy_key_is_moved_out() {
    let (file, key) = split_legacy_key(file_with_key(Some("sk-legacy")));
    assert_eq!(key, Some("sk-legacy".to_string()));
    assert_eq!(file.api_key, None);
    assert_eq!(file.provider, "openai");
    assert_eq!(file.actions.len(), 1);
    assert_eq!(file.actions[0].id, "a1");
    assert_eq!(file.default_action_id, Some("a1".to_string()));
    assert_eq!(file.setup_completed_at, "2024-01-02T00:00:00Z");
}

#[test]
fn empty_legacy_key_is_not_moved() {
    let (file, key) = split_legacy_key(file_with_key(Some("")));
    assert_eq!(key, None);
    assert_eq!(file.api_key, None);
}

#[test]
fn file_without_key_has_nothing_to_move() {
    let (file, key) = split_legacy_key(file_with_key(None));
    assert_eq!(key, None);
    assert_eq!(file.provider, "openai");
}

#[test]
fn payload_takes_stored_key() {
    let p = payload_from_file(file_with_key(None), Some("sk-vault".to_string()));
    assert_eq!(p.api_key, "sk-vault");
    assert_eq!(p.provider, "openai");
    assert_eq!(p.actions[0].name, "Fix grammar");
    assert_eq!(p.default_action_id, Some("a1".to_string()));
}

#[test]
fn payload_without_stored_key_has_empty_key() {
    let p = payload_from_file(file_with_key(Some("sk-legacy")), None);
    assert_eq!(p.api_key, "");
    assert_eq!(p.setup_completed_at, "2024-01-02T00:00:00Z");
}

#[test]
fn saved_file_never_holds_key() {
    let setup = SetupPayload {
        provider: "anthropic".to_string(),
        api_key: "sk-new".to_string(),
        actions: vec![action()],
        default_action_id: None,
        setup_completed_at: "2024-03-01T00:00:00Z".to_string(),
    };
    let (file, key) = file_from_payload(setup);
    assert_eq!(key, "sk-new");
    assert_eq!(file.api_key, None);
    assert_eq!(file.provider, "anthropic");
    assert_eq!(file.default_action_id, None);
}

#[test]
fn save_then_load_gives_same_setup() {
    let setup = SetupPayload {
        provider: "anthropic".to_string(),
        api_key: "sk-new".to_string(),
        actions: vec![action()],
        default_action_id: Some("a1".to_string()),
        setup_completed_at: "2024-03-01T00:00:00Z".to_string(),
    };
    let (file, key) = file_from_payload(setup.clone());
    let (file, legacy) = split_legacy_key(file);
    assert_eq!(legacy, None);
    let back = payload_from_file(file, Some(key));
    assert_eq!(back.provider, setup.provider);
    assert_eq!(back.api_key, setup.api_key);
    assert_eq!(back.actions.len(), setup.actions.len());
    assert_eq!(back.actions[0].prompt, setup.actions[0].prompt);
    assert_eq!(back.default_action_id, setup.default_action_id);
    assert_eq!(back.setup_completed_at, setup.setup_completed_at);
}
