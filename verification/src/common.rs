//! The error type shared by the whole project.
use vstd::prelude::*;

verus! {

#[verifier::external_type_specification]
#[verifier::external_body]
pub struct ExIoError(std::io::Error);

/// The project's primary error type. More specific error types convert into
/// it.
#[derive(Debug)]
pub enum UmbrelloError {
    /// An I/O error occurred.
    Io(std::io::Error),
    /// A parse error occurred.
    Parse(String),
    /// A validation error occurred.
    Validation(String),
    /// A resource was not found.
    NotFound(String),
    /// An unsupported version was encountered.
    UnsupportedVersion(String),
    /// A duplicate identifier was detected.
    DuplicateId(String),
    /// A generic or unexpected error.
    Internal(String),
}

} // verus!
