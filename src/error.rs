//! Error type of the memoizer.

use vstd::prelude::*;

verus! {

/// Declares std's `io::Error` to Verus as an opaque type: its values are
/// only carried, never looked into.
#[verifier::external_type_specification]
#[verifier::external_body]
pub struct ExIoError(std::io::Error);

/// Declares `serde_json::Error` to Verus as an opaque type: its values are
/// only carried, never looked into.
#[verifier::external_type_specification]
#[verifier::external_body]
pub struct ExJsonError(serde_json::Error);

/// What can go wrong while memoizing a command.
#[derive(Debug)]
pub enum MemoError {
    /// An I/O error occurred.
    Io(std::io::Error),
    /// The digest could not be computed.
    Digest(String),
    /// JSON serialization or deserialization failed.
    Json(serde_json::Error),
    /// Neither a cache root nor a home directory is known.
    HomeNotFound,
    /// The command is not one that can be run.
    InvalidCommand(String),
}

} // verus!
