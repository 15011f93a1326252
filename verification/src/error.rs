//! The subsystem's error kinds.

use vstd::prelude::*;

verus! {

/// Why a storage operation failed.
///
/// `LocationUnavailable` is the one fatal condition: no system fallback
/// directory can even be determined. `IoFailure` carries the underlying
/// cause text of a filesystem step. `InvalidDocumentShape` reports a write
/// payload that is not a JSON array; it is raised before any disk access.
#[derive(Debug)]
pub enum StorageError {
    LocationUnavailable,
    IoFailure(String),
    InvalidDocumentShape,
}

impl StorageError {
    /// The human-readable text of this error.
    pub open spec fn message_spec(&self) -> Seq<char> {
        match self {
            StorageError::LocationUnavailable => "cannot determine an application data directory"@,
            StorageError::IoFailure(cause) => "I/O failure: "@ + cause@,
            StorageError::InvalidDocumentShape => "the document must be a JSON array"@,
        }
    }

    /// Renders the error as text.
    pub fn message(&self) -> (r: String)
        ensures
            r@ == self.message_spec(),
    {
        match self {
            StorageError::LocationUnavailable => "cannot determine an application data directory".to_owned(),
            StorageError::IoFailure(cause) => {
                let mut out = "I/O failure: ".to_owned();
                out.push_str(cause.as_str());
                out
            },
            StorageError::InvalidDocumentShape => "the document must be a JSON array".to_owned(),
        }
    }
}

} // verus!
