//! The errors of a run.

use vstd::prelude::*;

verus! {

/// `anyhow::Error`, carried through as an opaque value.
#[verifier::external_type_specification]
#[verifier::external_body]
pub struct ExAnyhowError(anyhow::Error);

/// `url::ParseError`, carried through as an opaque value.
#[verifier::external_type_specification]
#[verifier::external_body]
pub struct ExUrlParseError(url::ParseError);

/// `serde_json::Error`, carried through as an opaque value.
#[verifier::external_type_specification]
#[verifier::external_body]
pub struct ExJsonError(serde_json::Error);

/// `std::num::ParseIntError`, carried through as an opaque value.
#[verifier::external_type_specification]
#[verifier::external_body]
pub struct ExParseIntError(std::num::ParseIntError);

/// `git2::Error`, carried through as an opaque value.
#[verifier::external_type_specification]
#[verifier::external_body]
pub struct ExGitError(git2::Error);

/// `walkdir::Error`, carried through as an opaque value.
#[verifier::external_type_specification]
#[verifier::external_body]
pub struct ExWalkdirError(walkdir::Error);

/// `std::io::Error`, carried through as an opaque value.
#[verifier::external_type_specification]
#[verifier::external_body]
pub struct ExIoError(std::io::Error);

/// What can go wrong in a run, by where it came from.
#[derive(Debug)]
pub enum AppError {
    /// Anything that fits none of the other kinds.
    General(anyhow::Error),
    /// A repository URL that does not parse.
    Url(url::ParseError),
    /// A document that could not be written or read as JSON.
    Json(serde_json::Error),
    /// A number that does not parse.
    Int(std::num::ParseIntError),
    /// A failed operation on a repository.
    Git(git2::Error),
    /// A failed walk through a directory tree.
    Walkdir(walkdir::Error),
    /// A failed read or write.
    Io(std::io::Error),
}

/// Makes a general error that carries the message, with
/// `anyhow::Error::msg`.
///
/// Trusted: nothing is claimed of the error.
#[verifier::external_body]
pub(crate) fn general(message: &str) -> (error: anyhow::Error) {
    anyhow::Error::msg(message.to_owned())
}

} // verus!
