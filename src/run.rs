use vstd::prelude::*;

use crate::error::AimitError;
use crate::models::{model_of_tag, upper_of, BackendModel, ModelFactory, ModelType};
use crate::settings::{credential, with_credential, Settings, SettingsView};

verus! {

/// What the command line asks of one run, with every interactive choice
/// already made.
#[derive(Debug)]
pub enum Intent {
    /// Store this edited prompt template.
    EditPrompt(String),
    /// Make the model of this name the default.
    SetDefaultModel(String),
    /// Store a credential for a model kind, or for the default model.
    SetApiKey { key: String, model: Option<ModelType> },
    /// Generate a message, with the model chosen for this run or the default.
    Generate(Option<ModelType>),
}

/// The command-line side of a run.
pub struct Cli;

impl Cli {
    /// Resolves a model name given on the command line, in any letter case.
    /// A name of no model kind is a usage error that carries the name.
    pub fn select_current_model(name: &str) -> (r: Result<ModelType, AimitError>)
        ensures
            match model_of_tag(upper_of(name@)) {
                Some(m) => r == Ok::<ModelType, AimitError>(m),
                None => r is Err && r->Err_0 is ModelNotFound && r->Err_0->ModelNotFound_0@ == name@,
            },
    {
        match ModelType::parse_name(name) {
            Some(m) => Ok(m),
            None => Err(AimitError::ModelNotFound(String::from_str(name))),
        }
    }

    /// Makes the model named by `name` (in any letter case) the default. A
    /// name of no model kind is refused and the settings stay as they were.
    pub fn update_default_model(settings: &mut Settings, name: &str) -> (r: Result<(), AimitError>)
        ensures
            match model_of_tag(upper_of(name@)) {
                Some(m) => r is Ok && final(settings)@ == (SettingsView { default_model: m, ..old(settings)@ }),
                None => r is Err && r->Err_0 is ModelNotFound && final(settings)@ == old(settings)@,
            },
    {
        match Cli::select_current_model(name) {
            Ok(m) => {
                settings.update_default_model(m);
                Ok(())
            },
            Err(e) => Err(e),
        }
    }

    /// Stores a credential for the chosen model kind, or for the default
    /// model when none is chosen.
    pub fn set_api_key(settings: &mut Settings, key: String, model: Option<ModelType>)
        ensures
            final(settings)@ == with_credential(old(settings)@, chosen_model(old(settings)@, model), Some(key@)),
    {
        let target = match model {
            Some(m) => m,
            None => *settings.get_default_model(),
        };
        settings.update_api_key(target, Some(key));
    }

    /// Carries out an administrative intent on the settings. Returns `true`
    /// when the settings were changed and the run ends there, `false` when the
    /// run goes on to generate a message and nothing was changed.
    pub fn apply_intent(settings: &mut Settings, intent: Intent) -> (r: Result<bool, AimitError>)
        ensures
            match intent {
                Intent::EditPrompt(p) => r == Ok::<bool, AimitError>(true)
                    && final(settings)@ == (SettingsView { prompt: p@, ..old(settings)@ }),
                Intent::SetDefaultModel(name) => match model_of_tag(upper_of(name@)) {
                    Some(m) => r == Ok::<bool, AimitError>(true)
                        && final(settings)@ == (SettingsView { default_model: m, ..old(settings)@ }),
                    None => r is Err && r->Err_0 is ModelNotFound && final(settings)@ == old(settings)@,
                },
                Intent::SetApiKey { key, model } => r == Ok::<bool, AimitError>(true)
                    && final(settings)@ == with_credential(old(settings)@, chosen_model(old(settings)@, model), Some(key@)),
                Intent::Generate(_) => r == Ok::<bool, AimitError>(false) && final(settings)@ == old(settings)@,
            },
    {
        match intent {
            Intent::EditPrompt(p) => {
                settings.update_prompt(p);
                Ok(true)
            },
            Intent::SetDefaultModel(name) => match Cli::update_default_model(settings, name.as_str()) {
                Ok(()) => Ok(true),
                Err(e) => Err(e),
            },
            Intent::SetApiKey { key, model } => {
                Cli::set_api_key(settings, key, model);
                Ok(true)
            },
            Intent::Generate(_) => Ok(false),
        }
    }
}

/// The model a generation run uses: the one chosen for this run, else the
/// stored default.
pub open spec fn chosen_model(s: SettingsView, selected: Option<ModelType>) -> ModelType {
    match selected {
        Some(m) => m,
        None => s.default_model,
    }
}

/// The update check is advisory: whatever it records, a generation run chooses
/// the same model and finds the same credential, so its outcome is the same.
pub proof fn lemma_update_check_is_advisory(s: SettingsView, pending: bool, selected: Option<ModelType>)
    ensures
        chosen_model((SettingsView { version_needs_update: pending, ..s }), selected) == chosen_model(s, selected),
        credential((SettingsView { version_needs_update: pending, ..s }), chosen_model(s, selected))
            == credential(s, chosen_model(s, selected)),
{
    match chosen_model(s, selected) {
        ModelType::GEMINI => {},
    }
}

/// The decisions of a generation run before the backend is called. An empty
/// diff ends the run before any credential is looked up; a missing credential
/// for the chosen model ends it before any backend exists; otherwise the
/// result is the chosen backend bound to its stored credential.
pub fn prepare_generation(settings: &Settings, selected: Option<ModelType>, diff: &str) -> (r: Result<BackendModel, AimitError>)
    ensures
        diff@.len() == 0 ==> r is Err && r->Err_0 is NoDiffFound,
        diff@.len() > 0 ==> match credential(settings@, chosen_model(settings@, selected)) {
            Some(k) => r is Ok && r->Ok_0.kind() == chosen_model(settings@, selected) && r->Ok_0.key() == k,
            None => r is Err && r->Err_0 is ApiKeyNotFoundError,
        },
{
    if diff.is_empty() {
        return Err(AimitError::NoDiffFound);
    }
    let model = match selected {
        Some(m) => m,
        None => *settings.get_default_model(),
    };
    match settings.get_api_key(model) {
        Ok(key) => Ok(ModelFactory::create_model(model, String::from_str(key))),
        Err(e) => Err(e),
    }
}

/// The advisory line shown when a newer release is available.
pub const UPDATE_NOTICE: &'static str = "There is a new available version of Aimit. run `aimit --update` to update.\n";

/// What the advisory update check adds to a run: a notice when it found a
/// newer release, nothing when it found none or failed.
pub fn update_notice(check: &Result<bool, AimitError>) -> (r: Option<String>)
    ensures
        match check {
            Ok(true) => r is Some && r->0@ == UPDATE_NOTICE@,
            _ => r is None,
        },
{
    match check {
        Ok(true) => Some(String::from_str(UPDATE_NOTICE)),
        _ => None,
    }
}

/// The process exit status of a run: zero on success, one on any failure.
pub fn exit_status(outcome: &Result<(), AimitError>) -> (r: i32)
    ensures
        outcome is Ok ==> r == 0,
        outcome is Err ==> r == 1,
{
    match outcome {
        Ok(()) => 0,
        Err(_) => 1,
    }
}

} // verus!
