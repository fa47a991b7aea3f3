use aimit::settings::DEFAULT_PROMPT;
use aimit::{AimitError, ApiKeysRecord, Cli, ModelType, SemanticVersion, Settings, SettingsRecord};

fn record(model: &str) -> SettingsRecord {
    SettingsRecord {
        default_model: model.to_string(),
        prompt: "Write a message:\n".to_string(),
        api_keys: ApiKeysRecord {
            gemini_api_key: Some("secret".to_string()),
            deepseek_api_key: None,
        },
        version_needs_update: true,
    }
}

fn version(major: u64, minor: u64, patch: u64) -> SemanticVersion {
    SemanticVersion { major, minor, patch, pre: String::new() }
}

#[test]
fn defaults_hold_built_in_values() {
    let s = Settings::defaults();
    assert_eq!(*s.get_default_model(), ModelType::GEMINI);
    assert_eq!(s.get_prompt(), DEFAULT_PROMPT);
    assert!(s.get_prompt().starts_with("Analyze the following git diff"));
    assert!(s.get_prompt().ends_with("git diff:\n\n"));
    assert!(!s.get_version_needs_update());
    assert!(matches!(s.get_api_key(ModelType::GEMINI), Err(AimitError::ApiKeyNotFoundError)));
}

#[test]
fn defaults_encode_to_the_default_record() {
    let r = Settings::defaults().to_record();
    assert_eq!(r.default_model, "GEMINI");
    assert_eq!(r.prompt, DEFAULT_PROMPT);
    assert_eq!(r.api_keys.gemini_api_key, None);
    assert_eq!(r.api_keys.deepseek_api_key, None);
    assert!(!r.version_needs_update);
}

#[test]
fn save_then_load_gives_equal_settings() {
    let mut s = Settings::defaults();
    s.update_prompt("Custom prompt\n".to_string());
    s.update_api_key(ModelType::GEMINI, Some("k-123".to_string()));
    let saved = s.to_record();
    let loaded = Settings::from_record(saved.clone()).unwrap();
    assert_eq!(loaded.get_prompt(), "Custom prompt\n");
    assert_eq!(loaded.get_api_key(ModelType::GEMINI).unwrap(), "k-123");
    assert_eq!(*loaded.get_default_model(), ModelType::GEMINI);
    assert_eq!(loaded.to_record(), saved);
}

#[test]
fn loading_twice_gives_equal_settings() {
    let first = Settings::from_record(record("GEMINI")).unwrap();
    let second = Settings::from_record(record("GEMINI")).unwrap();
    assert_eq!(first.to_record(), second.to_record());
    assert_eq!(first.to_record(), record("GEMINI"));
}

#[test]
fn unknown_default_model_in_file_is_a_deserialization_error() {
    let r = Settings::from_record(record("gemini"));
    assert!(matches!(r, Err(AimitError::TomlDeserializationError(_))));
    let r = Settings::from_record(record("OPENAI"));
    assert!(matches!(r, Err(AimitError::TomlDeserializationError(_))));
}

#[test]
fn absent_and_empty_credentials_differ() {
    let mut s = Settings::defaults();
    assert!(matches!(s.get_api_key(ModelType::GEMINI), Err(AimitError::ApiKeyNotFoundError)));
    s.update_api_key(ModelType::GEMINI, Some(String::new()));
    assert_eq!(s.get_api_key(ModelType::GEMINI).unwrap(), "");
    s.update_api_key(ModelType::GEMINI, None);
    assert!(matches!(s.get_api_key(ModelType::GEMINI), Err(AimitError::ApiKeyNotFoundError)));
}

#[test]
fn set_api_key_for_default_model() {
    let mut s = Settings::defaults();
    Cli::set_api_key(&mut s, "abc".to_string(), None);
    assert_eq!(s.get_api_key(ModelType::GEMINI).unwrap(), "abc");
    Cli::set_api_key(&mut s, "xyz".to_string(), Some(ModelType::GEMINI));
    assert_eq!(s.get_api_key(ModelType::GEMINI).unwrap(), "xyz");
}

#[test]
fn set_default_model_by_name_any_case() {
    let mut s = Settings::defaults();
    assert!(Cli::update_default_model(&mut s, "gemini").is_ok());
    assert!(Cli::update_default_model(&mut s, "GeMiNi").is_ok());
    assert_eq!(*s.get_default_model(), ModelType::GEMINI);
}

#[test]
fn unknown_default_model_leaves_settings_unchanged() {
    let mut s = Settings::defaults();
    s.update_api_key(ModelType::GEMINI, Some("k".to_string()));
    let before = s.to_record();
    let r = Cli::update_default_model(&mut s, "unknown-model");
    match r {
        Err(AimitError::ModelNotFound(name)) => assert_eq!(name, "unknown-model"),
        other => panic!("unexpected result {:?}", other),
    }
    assert_eq!(s.to_record(), before);
}

#[test]
fn update_default_model_keeps_other_fields() {
    let mut s = Settings::defaults();
    s.update_prompt("p".to_string());
    s.update_default_model(ModelType::GEMINI);
    assert_eq!(s.get_prompt(), "p");
    assert_eq!(*s.get_default_model(), ModelType::GEMINI);
}

#[test]
fn request_text_prefixes_the_template() {
    let mut s = Settings::defaults();
    s.update_prompt("Summarize:\n".to_string());
    assert_eq!(s.request_text("diff --git a b"), "Summarize:\ndiff --git a b");
}

#[test]
fn newer_published_version_sets_update_pending() {
    let mut s = Settings::defaults();
    assert!(s.record_version_check(&version(1, 2, 0), &version(1, 2, 1)));
    assert!(s.get_version_needs_update());
}

#[test]
fn same_or_lower_published_version_clears_update_pending() {
    let mut s = Settings::defaults();
    s.record_version_check(&version(1, 2, 0), &version(2, 0, 0));
    assert!(s.get_version_needs_update());
    assert!(!s.record_version_check(&version(1, 2, 0), &version(1, 2, 0)));
    assert!(!s.get_version_needs_update());
    assert!(!s.record_version_check(&version(1, 2, 0), &version(1, 1, 9)));
    assert!(!s.get_version_needs_update());
}

#[test]
fn new_without_file_gives_defaults() {
    let s = Settings::new(None).unwrap();
    assert_eq!(s.to_record(), Settings::defaults().to_record());
    let again = Settings::new(Some(s.to_record())).unwrap();
    assert_eq!(again.to_record(), s.to_record());
}

#[test]
fn new_with_file_reads_its_record() {
    let s = Settings::new(Some(record("GEMINI"))).unwrap();
    assert_eq!(s.get_prompt(), "Write a message:\n");
    assert_eq!(s.get_api_key(ModelType::GEMINI).unwrap(), "secret");
    assert!(s.get_version_needs_update());
    assert!(matches!(Settings::new(Some(record("NONE"))), Err(AimitError::TomlDeserializationError(_))));
}
