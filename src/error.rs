use vstd::prelude::*;

verus! {

/// Every failure the library reports, as one closed set of kinds.
///
/// Failures of outside collaborators (file system, TOML, HTTP, version parsing)
/// carry the collaborator's own description as text, so that no raw outside
/// error type leaks past this boundary.
#[derive(Debug)]
pub enum AimitError {
    RepoNotFound,
    NoDiffFound,
    GitError,
    ApiKeyNotFoundError,
    HomeDirectoryNotFoundError,
    IoError(String),
    TomlDeserializationError(String),
    TomlSerError(String),
    ReqwestError(String),
    FileNotFoundError(String),
    VersionParseError,
    SemverError(String),
    /// A model name given by the user names no known model kind.
    ModelNotFound(String),
    /// The backend answered with a status outside the success range.
    BackendStatusError(u16),
    /// The backend answered, but without any candidate text.
    MalformedResponse,
}

/// The line shown to the user for an error.
pub open spec fn error_message(e: AimitError) -> Seq<char> {
    match e {
        AimitError::RepoNotFound => "No repository found in the current directory"@,
        AimitError::NoDiffFound => "No staged changes found"@,
        AimitError::GitError => "Git error"@,
        AimitError::ApiKeyNotFoundError => "API key not found please run `aimit -k <your_api_key>`"@,
        AimitError::HomeDirectoryNotFoundError => "Home directory not found"@,
        AimitError::VersionParseError => "Error parsing version"@,
        AimitError::BackendStatusError(_) => "The model backend answered with a non-success status"@,
        AimitError::MalformedResponse => "The model backend answered without any commit message"@,
        AimitError::IoError(s) => "IO error: "@ + s@,
        AimitError::TomlDeserializationError(s) => "Toml deserialization error: "@ + s@,
        AimitError::TomlSerError(s) => "Toml serialization error: "@ + s@,
        AimitError::ReqwestError(s) => "Reqwest error: "@ + s@,
        AimitError::FileNotFoundError(s) => "File not found: "@ + s@,
        AimitError::SemverError(s) => "Semver error: "@ + s@,
        AimitError::ModelNotFound(s) => "Model not found: "@ + s@,
    }
}

impl AimitError {
    /// The line shown to the user for this error.
    pub fn message(&self) -> (r: String)
        ensures
            r@ == error_message(*self),
    {
        match self {
            AimitError::RepoNotFound => String::from_str("No repository found in the current directory"),
            AimitError::NoDiffFound => String::from_str("No staged changes found"),
            AimitError::GitError => String::from_str("Git error"),
            AimitError::ApiKeyNotFoundError => String::from_str("API key not found please run `aimit -k <your_api_key>`"),
            AimitError::HomeDirectoryNotFoundError => String::from_str("Home directory not found"),
            AimitError::VersionParseError => String::from_str("Error parsing version"),
            AimitError::BackendStatusError(_) => String::from_str("The model backend answered with a non-success status"),
            AimitError::MalformedResponse => String::from_str("The model backend answered without any commit message"),
            AimitError::IoError(s) => {
                let mut m = String::from_str("IO error: ");
                m.append(s.as_str());
                m
            },
            AimitError::TomlDeserializationError(s) => {
                let mut m = String::from_str("Toml deserialization error: ");
                m.append(s.as_str());
                m
            },
            AimitError::TomlSerError(s) => {
                let mut m = String::from_str("Toml serialization error: ");
                m.append(s.as_str());
                m
            },
            AimitError::ReqwestError(s) => {
                let mut m = String::from_str("Reqwest error: ");
                m.append(s.as_str());
                m
            },
            AimitError::FileNotFoundError(s) => {
                let mut m = String::from_str("File not found: ");
                m.append(s.as_str());
                m
            },
            AimitError::SemverError(s) => {
                let mut m = String::from_str("Semver error: ");
                m.append(s.as_str());
                m
            },
            AimitError::ModelNotFound(s) => {
                let mut m = String::from_str("Model not found: ");
                m.append(s.as_str());
                m
            },
        }
    }
}

} // verus!
