//! The closed failure vocabulary of the tool manager.
//!
//! Every fallible operation in the surrounding system returns
//! [`RokitResult`].  Five variants wrap an external failure losslessly — the
//! wrapped value is carried as-is and `From` performs the conversion at the
//! call site — while the other variants are raised directly at the point of
//! detection.

use vstd::prelude::*;

verus! {

/// Declares `std::io::Error`, the failure type of filesystem and stream
/// operations; carried through [`RokitError::Io`] unchanged.
#[verifier::external_type_specification]
#[verifier::external_body]
pub struct ExIoError(std::io::Error);

/// Declares `std::path::PathBuf`, the owned path named by
/// [`RokitError::FileNotFound`].
#[verifier::external_type_specification]
#[verifier::external_body]
pub struct ExPathBuf(std::path::PathBuf);

/// Declares `tokio::task::JoinError`, the failure of a spawned concurrent
/// unit of work; carried through [`RokitError::TaskJoinError`] unchanged.
#[verifier::external_type_specification]
#[verifier::external_body]
pub struct ExJoinError(tokio::task::JoinError);

/// Declares `toml_edit::TomlError`, the failure of structured configuration
/// parsing; carried through [`RokitError::TomlParseError`] unchanged.
#[verifier::external_type_specification]
#[verifier::external_body]
pub struct ExTomlError(toml_edit::TomlError);

/// Declares `serde_json::Error`, the failure of JSON parsing; carried
/// through [`RokitError::Json`] unchanged.
#[verifier::external_type_specification]
#[verifier::external_body]
pub struct ExJsonError(serde_json::Error);

/// Declares `zip::result::ZipError`, the failure of archive container
/// handling; carried through [`RokitError::Zip`] unchanged.
#[verifier::external_type_specification]
#[verifier::external_body]
pub struct ExZipError(zip::result::ZipError);

/// The domain error: the single failure type every subsystem of the tool
/// manager reports through.
#[derive(Debug)]
pub enum RokitError {
    /// The user's home directory cannot be located.
    HomeNotFound,
    /// An expected file is absent at the carried path.
    FileNotFound(std::path::PathBuf),
    /// An artifact archive has no recognised format.
    ExtractUnknownFormat,
    /// The expected binary is absent inside an extracted archive.
    ExtractFileMissing,
    /// Text expected to be valid UTF-8 is not.
    InvalidUtf8,
    /// A spawned concurrent unit of work failed or was cancelled.
    TaskJoinError(tokio::task::JoinError),
    /// Structured configuration text failed to parse.
    TomlParseError(toml_edit::TomlError),
    /// An underlying filesystem or stream operation failed.
    Io(std::io::Error),
    /// Structured JSON text failed to parse.
    Json(serde_json::Error),
    /// Archive container reading or writing failed.
    Zip(zip::result::ZipError),
}

/// The return contract of every fallible operation in the wider system.
pub type RokitResult<T> = Result<T, RokitError>;

impl From<tokio::task::JoinError> for RokitError {
    /// Wraps a concurrency-join failure losslessly.
    fn from(e: tokio::task::JoinError) -> (r: Self) {
        RokitError::TaskJoinError(e)
    }
}

impl vstd::std_specs::convert::FromSpecImpl<tokio::task::JoinError> for RokitError {
    open spec fn obeys_from_spec() -> bool {
        true
    }

    open spec fn from_spec(e: tokio::task::JoinError) -> Self {
        RokitError::TaskJoinError(e)
    }
}

impl From<toml_edit::TomlError> for RokitError {
    /// Wraps a configuration-parse failure losslessly.
    fn from(e: toml_edit::TomlError) -> (r: Self) {
        RokitError::TomlParseError(e)
    }
}

impl vstd::std_specs::convert::FromSpecImpl<toml_edit::TomlError> for RokitError {
    open spec fn obeys_from_spec() -> bool {
        true
    }

    open spec fn from_spec(e: toml_edit::TomlError) -> Self {
        RokitError::TomlParseError(e)
    }
}

impl From<std::io::Error> for RokitError {
    /// Wraps an I/O failure losslessly.
    fn from(e: std::io::Error) -> (r: Self) {
        RokitError::Io(e)
    }
}

impl vstd::std_specs::convert::FromSpecImpl<std::io::Error> for RokitError {
    open spec fn obeys_from_spec() -> bool {
        true
    }

    open spec fn from_spec(e: std::io::Error) -> Self {
        RokitError::Io(e)
    }
}

impl From<serde_json::Error> for RokitError {
    /// Wraps a JSON-parse failure losslessly.
    fn from(e: serde_json::Error) -> (r: Self) {
        RokitError::Json(e)
    }
}

impl vstd::std_specs::convert::FromSpecImpl<serde_json::Error> for RokitError {
    open spec fn obeys_from_spec() -> bool {
        true
    }

    open spec fn from_spec(e: serde_json::Error) -> Self {
        RokitError::Json(e)
    }
}

impl From<zip::result::ZipError> for RokitError {
    /// Wraps an archive failure losslessly.
    fn from(e: zip::result::ZipError) -> (r: Self) {
        RokitError::Zip(e)
    }
}

impl vstd::std_specs::convert::FromSpecImpl<zip::result::ZipError> for RokitError {
    open spec fn obeys_from_spec() -> bool {
        true
    }

    open spec fn from_spec(e: zip::result::ZipError) -> Self {
        RokitError::Zip(e)
    }
}

} // verus!
