use vstd::prelude::*;

use crate::error::AimitError;
use crate::settings::opt_text;

verus! {

/// A release number: major, minor and patch numbers and an optional
/// pre-release label (empty for a release). Build metadata plays no part in
/// precedence and is not kept.
#[derive(Debug, Clone, PartialEq, Eq)]
pub struct SemanticVersion {
    pub major: u64,
    pub minor: u64,
    pub patch: u64,
    pub pre: String,
}

pub struct VersionView {
    pub major: u64,
    pub minor: u64,
    pub patch: u64,
    pub pre: Seq<char>,
}

impl View for SemanticVersion {
    type V = VersionView;

    open spec fn view(&self) -> VersionView {
        VersionView { major: self.major, minor: self.minor, patch: self.patch, pre: self.pre@ }
    }
}

/// Precedence of releases: major, then minor, then patch number; with all
/// three equal, the order that semver gives the pre-release labels.
pub open spec fn precedes(a: VersionView, b: VersionView) -> bool {
    if a.major != b.major {
        a.major < b.major
    } else if a.minor != b.minor {
        a.minor < b.minor
    } else if a.patch != b.patch {
        a.patch < b.patch
    } else {
        pre_precedes(a.pre, b.pre)
    }
}

/// Whether semver orders pre-release label `a` before label `b`.
pub uninterp spec fn pre_precedes(a: Seq<char>, b: Seq<char>) -> bool;

/// Relies on `semver::Prerelease::new` and `Prerelease`'s `Ord`, a total
/// order: whether label `a` comes before label `b`. A text that is no label
/// comes before nothing.
#[verifier::external_body]
fn prerelease_precedes(a: &str, b: &str) -> (r: bool)
    ensures
        r == pre_precedes(a@, b@),
        a@ == b@ ==> !r,
        r ==> !pre_precedes(b@, a@),
{
    match (semver::Prerelease::new(a), semver::Prerelease::new(b)) {
        (Ok(x), Ok(y)) => x < y,
        _ => false,
    }
}

/// What `semver::Version::parse` reads from a text, if it accepts it.
pub uninterp spec fn semver_parse(text: Seq<char>) -> Option<VersionView>;

/// Relies on `semver::Version::parse`: whether the text is a version, and its
/// numbers and pre-release label, which depend on the text alone.
#[verifier::external_body]
fn parse_semver(text: &str) -> (r: Result<SemanticVersion, String>)
    ensures
        match semver_parse(text@) {
            Some(v) => r is Ok && r->Ok_0@ == v,
            None => r is Err,
        },
{
    match semver::Version::parse(text) {
        Ok(v) => Ok(SemanticVersion { major: v.major, minor: v.minor, patch: v.patch, pre: v.pre.as_str().to_string() }),
        Err(e) => Err(e.to_string()),
    }
}

#[verifier::external_type_specification]
#[verifier::external_body]
pub struct ExTomlDeError(toml::de::Error);

/// Whether `toml` accepts a text as a document.
pub uninterp spec fn toml_accepts(text: Seq<char>) -> bool;

/// The text that `toml` finds under `key` of table `table` of a document, if
/// the document has a string there.
pub uninterp spec fn toml_str_at(text: Seq<char>, table: Seq<char>, key: Seq<char>) -> Option<Seq<char>>;

/// Relies on `<toml::Value as FromStr>::from_str`, `toml::Value::get` and
/// `toml::Value::as_str`: the string under `table.key` of a TOML document,
/// which depends on the texts alone.
#[verifier::external_body]
fn toml_table_str(text: &str, table: &str, key: &str) -> (r: Result<Option<String>, toml::de::Error>)
    ensures
        r is Ok <==> toml_accepts(text@),
        r is Ok ==> opt_text(r->Ok_0) == toml_str_at(text@, table@, key@),
{
    let doc = text.parse::<toml::Value>()?;
    Ok(doc.get(table).and_then(|t| t.get(key)).and_then(|v| v.as_str()).map(|v| v.to_string()))
}

/// Relies on `toml::de::Error`'s `Display`: a description of the error.
#[verifier::external_body]
fn toml_error_text(e: &toml::de::Error) -> (r: String) {
    e.to_string()
}

impl SemanticVersion {
    /// Reads a version; a text that is no version is a semver error.
    pub fn parse(text: &str) -> (r: Result<SemanticVersion, AimitError>)
        ensures
            match semver_parse(text@) {
                Some(v) => r is Ok && r->Ok_0@ == v,
                None => r is Err && r->Err_0 is SemverError,
            },
    {
        match parse_semver(text) {
            Ok(v) => Ok(v),
            Err(msg) => Err(AimitError::SemverError(msg)),
        }
    }

    /// Whether this version comes before `other`.
    pub fn precedes(&self, other: &SemanticVersion) -> (r: bool)
        ensures
            r == precedes(self@, other@),
            self@ == other@ ==> !r,
            r ==> !precedes(other@, self@),
    {
        if self.major != other.major {
            self.major < other.major
        } else if self.minor != other.minor {
            self.minor < other.minor
        } else if self.patch != other.patch {
            self.patch < other.patch
        } else {
            prerelease_precedes(self.pre.as_str(), other.pre.as_str())
        }
    }
}

/// The published version read from the text of a manifest's version field.
/// A text that is no version is a version-parse error.
pub fn published_version(version_text: &str) -> (r: Result<SemanticVersion, AimitError>)
    ensures
        match semver_parse(version_text@) {
            Some(v) => r is Ok && r->Ok_0@ == v,
            None => r is Err && r->Err_0 is VersionParseError,
        },
{
    match parse_semver(version_text) {
        Ok(v) => Ok(v),
        Err(_) => Err(AimitError::VersionParseError),
    }
}

/// The version under `package.version` of a package manifest. A text that is
/// no TOML document fails with a deserialization error; a document without a
/// text under that key, or whose text is no version, fails with a
/// version-parse error.
pub fn manifest_version(manifest: &str) -> (r: Result<SemanticVersion, AimitError>)
    ensures
        !toml_accepts(manifest@) ==> r is Err && r->Err_0 is TomlDeserializationError,
        toml_accepts(manifest@) ==> match toml_str_at(manifest@, "package"@, "version"@) {
            Some(t) => match semver_parse(t) {
                Some(v) => r is Ok && r->Ok_0@ == v,
                None => r is Err && r->Err_0 is VersionParseError,
            },
            None => r is Err && r->Err_0 is VersionParseError,
        },
{
    match toml_table_str(manifest, "package", "version") {
        Ok(Some(text)) => published_version(text.as_str()),
        Ok(None) => Err(AimitError::VersionParseError),
        Err(e) => Err(AimitError::TomlDeserializationError(toml_error_text(&e))),
    }
}

} // verus!
