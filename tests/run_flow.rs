use aimit::run::UPDATE_NOTICE;
use aimit::{
    exit_status, prepare_generation, published_version, update_notice, AimitError, BackendModel, Candidate, Cli, Intent,
    ModelType, Response, ResponseContent, ResponsePart, Settings,
};

fn with_key() -> Settings {
    let mut s = Settings::defaults();
    s.update_api_key(ModelType::GEMINI, Some("secret".to_string()));
    s
}

#[test]
fn empty_diff_fails_before_credential_lookup() {
    let r = prepare_generation(&Settings::defaults(), None, "");
    assert!(matches!(r, Err(AimitError::NoDiffFound)));
    let r = prepare_generation(&with_key(), Some(ModelType::GEMINI), "");
    assert!(matches!(r, Err(AimitError::NoDiffFound)));
}

#[test]
fn missing_credential_fails_before_any_backend() {
    let r = prepare_generation(&Settings::defaults(), None, "diff --git a/x b/x");
    assert!(matches!(r, Err(AimitError::ApiKeyNotFoundError)));
    let r = prepare_generation(&Settings::defaults(), Some(ModelType::GEMINI), "d");
    assert!(matches!(r, Err(AimitError::ApiKeyNotFoundError)));
    let msg = AimitError::ApiKeyNotFoundError.message();
    assert!(msg.contains("API key not found"));
}

#[test]
fn stored_credential_gives_bound_backend() {
    match prepare_generation(&with_key(), None, "diff").unwrap() {
        BackendModel::Gemini(g) => assert_eq!(g.api_key(), "secret"),
    }
}

#[test]
fn update_check_is_advisory() {
    assert_eq!(update_notice(&Ok(true)), Some(UPDATE_NOTICE.to_string()));
    assert_eq!(update_notice(&Ok(false)), None);
    assert_eq!(update_notice(&Err(AimitError::VersionParseError)), None);
}

#[test]
fn exit_statuses() {
    assert_eq!(exit_status(&Ok(())), 0);
    assert_eq!(exit_status(&Err(AimitError::NoDiffFound)), 1);
}

#[test]
fn administrative_intents_change_settings() {
    let mut s = Settings::defaults();
    assert_eq!(Cli::apply_intent(&mut s, Intent::EditPrompt("new prompt".to_string())).unwrap(), true);
    assert_eq!(s.get_prompt(), "new prompt");
    assert_eq!(
        Cli::apply_intent(&mut s, Intent::SetApiKey { key: "k9".to_string(), model: None }).unwrap(),
        true
    );
    assert_eq!(s.get_api_key(ModelType::GEMINI).unwrap(), "k9");
    assert_eq!(Cli::apply_intent(&mut s, Intent::SetDefaultModel("gemini".to_string())).unwrap(), true);
    assert_eq!(Cli::apply_intent(&mut s, Intent::Generate(None)).unwrap(), false);
}

#[test]
fn unknown_default_model_intent_fails_and_keeps_settings() {
    let mut s = with_key();
    let before = s.to_record();
    let r = Cli::apply_intent(&mut s, Intent::SetDefaultModel("llama".to_string()));
    assert!(matches!(r, Err(AimitError::ModelNotFound(_))));
    assert_eq!(s.to_record(), before);
    assert_eq!(exit_status(&r.map(|_| ())), 1);
}

#[test]
fn error_messages() {
    assert_eq!(AimitError::NoDiffFound.message(), "No staged changes found");
    assert_eq!(AimitError::IoError("denied".to_string()).message(), "IO error: denied");
    assert_eq!(AimitError::ModelNotFound("x".to_string()).message(), "Model not found: x");
    assert_eq!(AimitError::SemverError("bad".to_string()).message(), "Semver error: bad");
}

#[test]
fn first_run_defaults_stop_at_missing_credential() {
    let s = Settings::defaults();
    let r = prepare_generation(&s, None, "diff --git a/parser.rs b/parser.rs");
    assert!(matches!(r, Err(AimitError::ApiKeyNotFoundError)));
}

#[test]
fn run_with_credential_prints_backend_text() {
    let s = with_key();
    let model = prepare_generation(&s, None, "diff --git a/parser.rs b/parser.rs").unwrap();
    assert!(matches!(model, BackendModel::Gemini(_)));
    let answer = Response {
        candidates: vec![Candidate {
            content: ResponseContent {
                parts: vec![ResponsePart { text: "Fix off-by-one in parser".to_string() }],
            },
        }],
    };
    let outcome = answer.commit_message();
    assert_eq!(outcome.as_ref().unwrap(), "Fix off-by-one in parser");
    assert_eq!(exit_status(&outcome.map(|_| ())), 0);
}

#[test]
fn unparseable_published_version_does_not_stop_the_run() {
    let check = published_version("one.two").map(|_| true);
    assert!(matches!(check, Err(AimitError::VersionParseError)));
    assert_eq!(update_notice(&check), None);
    let s = with_key();
    assert!(!s.get_version_needs_update());
    assert!(prepare_generation(&s, None, "diff").is_ok());
}
