use vstd::prelude::*;

use crate::error::AimitError;
use crate::models::{model_of_tag, model_tag, ModelType};
use crate::version::{precedes, SemanticVersion};

verus! {

/// The text of an optional stored string.
pub open spec fn opt_text(o: Option<String>) -> Option<Seq<char>> {
    match o {
        Some(s) => Some(s@),
        None => None,
    }
}

/// The built-in prompt template that new settings start with.
pub open spec fn default_prompt() -> Seq<char> {
    DEFAULT_PROMPT@
}

pub const DEFAULT_PROMPT: &'static str = "Analyze the following git diff and generate a concise and meaningful commit message summarizing the changes.
The commit message should follow best practices, including a short title and an optional detailed description if necessary.
Requirements:
  Title: 50 characters or less, summarizing the change.
  Optional Description: If the change requires context, provide a brief explanation in the body.

git diff:

";

/// What a settings value holds.
pub struct SettingsView {
    pub default_model: ModelType,
    pub prompt: Seq<char>,
    pub gemini_key: Option<Seq<char>>,
    pub deepseek_key: Option<Seq<char>>,
    pub version_needs_update: bool,
}

/// The settings that a first run creates.
pub open spec fn default_view() -> SettingsView {
    SettingsView {
        default_model: ModelType::GEMINI,
        prompt: default_prompt(),
        gemini_key: None,
        deepseek_key: None,
        version_needs_update: false,
    }
}

/// The stored credential of a model kind; `None` when it was never set.
pub open spec fn credential(s: SettingsView, m: ModelType) -> Option<Seq<char>> {
    match m {
        ModelType::GEMINI => s.gemini_key,
    }
}

/// `s` with the credential of `m` replaced by `key`.
pub open spec fn with_credential(s: SettingsView, m: ModelType, key: Option<Seq<char>>) -> SettingsView {
    match m {
        ModelType::GEMINI => SettingsView { gemini_key: key, ..s },
    }
}

/// The stored credentials, one optional secret per backend.
#[derive(Debug)]
pub struct ApiKeysConfig {
    gemini_api_key: Option<String>,
    deepseek_api_key: Option<String>,
}

/// The user's settings: default model, prompt template, credentials and
/// whether a newer release was seen.
#[derive(Debug)]
pub struct Settings {
    default_model: ModelType,
    prompt: String,
    api_keys: ApiKeysConfig,
    version_needs_update: bool,
}

impl View for Settings {
    type V = SettingsView;

    closed spec fn view(&self) -> SettingsView {
        SettingsView {
            default_model: self.default_model,
            prompt: self.prompt@,
            gemini_key: opt_text(self.api_keys.gemini_api_key),
            deepseek_key: opt_text(self.api_keys.deepseek_api_key),
            version_needs_update: self.version_needs_update,
        }
    }
}

fn clone_opt(o: &Option<String>) -> (r: Option<String>)
    ensures
        opt_text(r) == opt_text(*o),
{
    match o {
        Some(s) => Some(s.clone()),
        None => None,
    }
}

/// The credentials as written in the settings file.
#[derive(Debug, Clone, PartialEq, Eq)]
pub struct ApiKeysRecord {
    pub gemini_api_key: Option<String>,
    pub deepseek_api_key: Option<String>,
}

/// The settings as written in the settings file: every field a plain value,
/// the default model by its tag.
#[derive(Debug, Clone, PartialEq, Eq)]
pub struct SettingsRecord {
    pub default_model: String,
    pub prompt: String,
    pub api_keys: ApiKeysRecord,
    pub version_needs_update: bool,
}

/// What a settings file record holds.
pub struct RecordView {
    pub default_model: Seq<char>,
    pub prompt: Seq<char>,
    pub gemini_key: Option<Seq<char>>,
    pub deepseek_key: Option<Seq<char>>,
    pub version_needs_update: bool,
}

impl View for SettingsRecord {
    type V = RecordView;

    open spec fn view(&self) -> RecordView {
        RecordView {
            default_model: self.default_model@,
            prompt: self.prompt@,
            gemini_key: opt_text(self.api_keys.gemini_api_key),
            deepseek_key: opt_text(self.api_keys.deepseek_api_key),
            version_needs_update: self.version_needs_update,
        }
    }
}

/// The record that saving settings writes.
pub open spec fn encode(s: SettingsView) -> RecordView {
    RecordView {
        default_model: model_tag(s.default_model),
        prompt: s.prompt,
        gemini_key: s.gemini_key,
        deepseek_key: s.deepseek_key,
        version_needs_update: s.version_needs_update,
    }
}

/// The settings that loading a record yields; `None` when its default model
/// names no model kind.
pub open spec fn decode(r: RecordView) -> Option<SettingsView> {
    match model_of_tag(r.default_model) {
        Some(m) => Some(
            SettingsView {
                default_model: m,
                prompt: r.prompt,
                gemini_key: r.gemini_key,
                deepseek_key: r.deepseek_key,
                version_needs_update: r.version_needs_update,
            },
        ),
        None => None,
    }
}

/// The record in the settings file, if there is one.
pub open spec fn file_view(f: Option<SettingsRecord>) -> Option<RecordView> {
    match f {
        Some(r) => Some(r@),
        None => None,
    }
}

/// The settings that loading yields: the defaults when there is no file,
/// else what the file's record holds.
pub open spec fn load(f: Option<RecordView>) -> Option<SettingsView> {
    match f {
        Some(r) => decode(r),
        None => Some(default_view()),
    }
}

/// The record a load leaves in the settings file: the defaults' record when
/// it created the file, else the record it read.
pub open spec fn file_after_load(f: Option<RecordView>) -> Option<RecordView> {
    match f {
        Some(r) => Some(r),
        None => Some(encode(default_view())),
    }
}

/// Saving settings and loading what was saved yields the same settings,
/// field for field.
pub proof fn lemma_save_then_load(s: SettingsView)
    ensures
        load(Some(encode(s))) == Some(s),
{
    match s.default_model {
        ModelType::GEMINI => {},
    }
}

/// Loading twice with no save in between yields equal settings, whether the
/// first load read the file or created it with the defaults; and saving what
/// was loaded writes back the record that was read.
pub proof fn lemma_load_is_stable(f: Option<RecordView>)
    ensures
        load(file_after_load(f)) == load(f),
        f is Some && load(f) is Some ==> Some(encode(load(f)->0)) == f,
{
    lemma_save_then_load(default_view());
    if load(f) is Some {
        lemma_save_then_load(load(f)->0);
    }
}

impl Settings {
    /// The settings a first run creates: the built-in backend as default,
    /// the built-in prompt template, no credentials, no update seen.
    pub fn defaults() -> (r: Settings)
        ensures
            r@ == default_view(),
    {
        Settings {
            default_model: ModelType::GEMINI,
            prompt: String::from_str(DEFAULT_PROMPT),
            api_keys: ApiKeysConfig { gemini_api_key: None, deepseek_api_key: None },
            version_needs_update: false,
        }
    }

    /// Loads the settings from the settings file's record, or yields the
    /// defaults when there is no file yet (the caller then writes their
    /// record). A record whose default model names no model kind is
    /// unreadable.
    pub fn new(file: Option<SettingsRecord>) -> (r: Result<Settings, AimitError>)
        ensures
            match load(file_view(file)) {
                Some(v) => r is Ok && r->Ok_0@ == v,
                None => r is Err && r->Err_0 is TomlDeserializationError,
            },
    {
        match file {
            Some(record) => Settings::from_record(record),
            None => Ok(Settings::defaults()),
        }
    }

    /// The record that saving these settings writes.
    pub fn to_record(&self) -> (r: SettingsRecord)
        ensures
            r@ == encode(self@),
    {
        SettingsRecord {
            default_model: self.default_model.tag(),
            prompt: self.prompt.clone(),
            api_keys: ApiKeysRecord {
                gemini_api_key: clone_opt(&self.api_keys.gemini_api_key),
                deepseek_api_key: clone_opt(&self.api_keys.deepseek_api_key),
            },
            version_needs_update: self.version_needs_update,
        }
    }

    /// The settings held in a loaded record. A default model that names no
    /// model kind makes the record unreadable.
    pub fn from_record(record: SettingsRecord) -> (r: Result<Settings, AimitError>)
        ensures
            match decode(record@) {
                Some(v) => r is Ok && r->Ok_0@ == v,
                None => r is Err && r->Err_0 is TomlDeserializationError,
            },
    {
        match ModelType::from_tag(record.default_model.as_str()) {
            Some(m) => Ok(
                Settings {
                    default_model: m,
                    prompt: record.prompt,
                    api_keys: ApiKeysConfig {
                        gemini_api_key: record.api_keys.gemini_api_key,
                        deepseek_api_key: record.api_keys.deepseek_api_key,
                    },
                    version_needs_update: record.version_needs_update,
                },
            ),
            None => {
                let mut msg = String::from_str("unknown default model: ");
                msg.append(record.default_model.as_str());
                Err(AimitError::TomlDeserializationError(msg))
            },
        }
    }

    pub fn get_prompt(&self) -> (r: &str)
        ensures
            r@ == self@.prompt,
    {
        self.prompt.as_str()
    }

    pub fn get_default_model(&self) -> (r: &ModelType)
        ensures
            *r == self@.default_model,
    {
        &self.default_model
    }

    /// Replaces the prompt template; nothing else changes.
    pub fn update_prompt(&mut self, prompt: String)
        ensures
            final(self)@ == (SettingsView { prompt: prompt@, ..old(self)@ }),
    {
        self.prompt = prompt;
    }

    /// Replaces the credential of one model kind; `None` removes it.
    pub fn update_api_key(&mut self, service: ModelType, api_key: Option<String>)
        ensures
            final(self)@ == with_credential(old(self)@, service, opt_text(api_key)),
    {
        match service {
            ModelType::GEMINI => self.api_keys.gemini_api_key = api_key,
        }
    }

    /// Replaces the default model; nothing else changes.
    pub fn update_default_model(&mut self, model: ModelType)
        ensures
            final(self)@ == (SettingsView { default_model: model, ..old(self)@ }),
    {
        self.default_model = model;
    }

    /// The stored credential of a model kind. An absent credential is an
    /// error; a present but empty one is returned as it is.
    pub fn get_api_key(&self, service: ModelType) -> (r: Result<&str, AimitError>)
        ensures
            match credential(self@, service) {
                Some(k) => r is Ok && r->Ok_0@ == k,
                None => r is Err && r->Err_0 is ApiKeyNotFoundError,
            },
    {
        match service {
            ModelType::GEMINI => match &self.api_keys.gemini_api_key {
                Some(k) => Ok(k.as_str()),
                None => Err(AimitError::ApiKeyNotFoundError),
            },
        }
    }

    pub fn get_version_needs_update(&self) -> (r: bool)
        ensures
            r == self@.version_needs_update,
    {
        self.version_needs_update
    }

    /// Records the outcome of an update check: an update is pending exactly
    /// when the running version comes before the published one. Returns
    /// whether it is.
    pub fn record_version_check(&mut self, current: &SemanticVersion, latest: &SemanticVersion) -> (r: bool)
        ensures
            r == precedes(current@, latest@),
            latest@ == current@ || precedes(latest@, current@) ==> !r,
            final(self)@ == (SettingsView { version_needs_update: r, ..old(self)@ }),
    {
        let newer = current.precedes(latest);
        self.version_needs_update = newer;
        newer
    }

    /// The text sent to a backend: the prompt template followed by the diff.
    pub fn request_text(&self, diff: &str) -> (r: String)
        ensures
            r@ == self@.prompt + diff@,
    {
        let mut text = self.prompt.clone();
        text.append(diff);
        text
    }
}

} // verus!
