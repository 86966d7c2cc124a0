//! The recoverable failures of an append.

use vstd::prelude::*;

verus! {

/// What the filesystem reports when a write fails.
#[verifier::external_type_specification]
#[verifier::external_body]
pub struct ExIoError(std::io::Error);

/// Why a document was not, or not wholly, appended.
#[derive(Debug)]
pub enum WriteError {
    /// The serializer refused the document. No write was asked for.
    Serialize(serde_json::Error),
    /// The filesystem refused the write.
    Io(std::io::Error),
    /// The filesystem took `written` bytes where `expected` were handed to it:
    /// the file may end in a part of the document.
    Short { written: usize, expected: usize },
}

} // verus!
