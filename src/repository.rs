use vstd::prelude::*;

use crate::ledger::NoteLedger;
use crate::libgit::Libgit;
use crate::note::{sha256_hex, Note};
use crate::path::Paths;

verus! {

/// Keeps one record of notes per file, keyed by the file's identity.
pub struct NoteRepository<T: Libgit> {
    pub libgit: T,
}

impl<T: Libgit> NoteRepository<T> {
    pub fn new(libgit: T) -> (r: Self)
        ensures
            r.libgit == libgit,
    {
        NoteRepository { libgit }
    }

    /// The ledger for the file at `paths`, given what storage holds for its
    /// identity. With nothing stored, the record starts empty and the flag
    /// says it must be written back.
    pub fn read_note(&self, paths: &Paths, stored: Option<Note>) -> (r: (NoteLedger, bool))
        ensures
            match stored {
                Some(n) => r.0.note == n && !r.1,
                None => r.0.note.id@ == sha256_hex(paths.relative@) && r.0.note.reference
                    == paths.relative && r.0.note.messages@.len() == 0 && r.1,
            },
    {
        match stored {
            Some(n) => (NoteLedger::new(n), false),
            None => {
                let id = Note::get_id(&paths.relative);
                (NoteLedger::new(Note::new(&id, &paths.relative)), true)
            },
        }
    }
}

} // verus!
