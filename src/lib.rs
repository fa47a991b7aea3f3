//! Configuration and model orchestration for a tool that turns staged changes
//! into a commit message with the help of an AI text-generation backend.
//!
//! - `settings`: the user's settings, their file record, and the laws that
//!   saving and loading obey.
//! - `models`: the closed set of model kinds and the backend factory.
//! - `gemini`: what a Gemini request is sent to and what its answer yields.
//! - `version`: release numbers and the update check's comparison.
//! - `run`: the decisions of one invocation.
//! - `error`: the closed error taxonomy.

pub mod error;
pub mod gemini;
pub mod models;
pub mod run;
pub mod settings;
pub mod version;

pub use error::AimitError;
pub use gemini::{check_status, Candidate, Response, ResponseContent, ResponsePart};
pub use models::{BackendModel, GeminiModel, ModelFactory, ModelType};
pub use run::{exit_status, prepare_generation, update_notice, Cli, Intent};
pub use settings::{ApiKeysConfig, ApiKeysRecord, Settings, SettingsRecord};
pub use version::{manifest_version, published_version, SemanticVersion};
