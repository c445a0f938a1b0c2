use vstd::prelude::*;

verus! {

/// Why an operation on notes failed.
#[derive(Debug, PartialEq, Eq)]
pub enum NoteError {
    /// The file is not inside the repository.
    IdentityResolution,
    /// The requested line is past the end of the file's current content.
    OutOfRange { line: usize },
    /// A note already resolves to the requested line.
    DuplicateAnchor { line: usize },
    /// No note resolves to the requested line.
    NotFound { line: usize },
    /// The version store could not produce the file's current content.
    ContentUnavailable,
    /// Stored or read bytes hold no UTF-8 text, or no valid object.
    InvalidContent,
}

} // verus!
