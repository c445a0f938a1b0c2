use vstd::prelude::*;

use crate::error::NoteError;
use crate::ledger::{edited, resolved_messages, without_uuid, NoteLedger};
use crate::libgit::{GitBlob, Libgit};
use crate::note::{is_anchored, last_at, Message};
use crate::repository::NoteRepository;
use crate::text::lines_of;

verus! {

/// Whether some note of `ms` stands on line `line`.
pub open spec fn exists_at(ms: Seq<Message>, line: usize) -> bool {
    exists|j: int| 0 <= j < ms.len() && (#[trigger] ms[j]).line == line
}

/// The add, edit and delete operations, each on one line of one file.
pub struct NoteHandler<T: Libgit> {
    pub note_repository: NoteRepository<T>,
}

impl<T: Libgit> NoteHandler<T> {
    pub fn new(note_repository: NoteRepository<T>) -> (r: Self)
        ensures
            r.note_repository == note_repository,
    {
        NoteHandler { note_repository }
    }

    /// Adds a note on line `line` of the file's current version, unless a note
    /// already resolves there.
    pub fn add_note(
        &self,
        ledger: &mut NoteLedger,
        line: usize,
        message: String,
        current: &Option<GitBlob>,
        anchored: &Vec<Option<String>>,
    ) -> (r: Result<(), NoteError>)
        ensures
            final(ledger).note.id == old(ledger).note.id,
            final(ledger).note.reference == old(ledger).note.reference,
            ({
                let ms = resolved_messages(old(ledger).note.messages@, *current, anchored@);
                match current {
                    None => r == Err::<(), NoteError>(NoteError::ContentUnavailable)
                        && final(ledger).note == old(ledger).note,
                    Some(blob) => if exists_at(ms, line) {
                        r == Err::<(), NoteError>(NoteError::DuplicateAnchor { line })
                            && final(ledger).note == old(ledger).note
                    } else if line >= lines_of(blob.content@).len() {
                        r == Err::<(), NoteError>(NoteError::OutOfRange { line })
                            && final(ledger).note == old(ledger).note
                    } else {
                        r is Ok && final(ledger).note.messages@.len() == old(
                            ledger,
                        ).note.messages@.len() + 1 && final(ledger).note.messages@.drop_last()
                            == old(ledger).note.messages@ && is_anchored(
                            final(ledger).note.messages@.last(),
                            *blob,
                            line,
                            message@,
                        )
                    },
                }
            }),
    {
        if ledger.opaque_exists(line, current, anchored) {
            return Err(NoteError::DuplicateAnchor { line });
        }
        match current {
            Some(blob) => ledger.append(line, message, blob),
            None => Err(NoteError::ContentUnavailable),
        }
    }

    /// Replaces the text of the most recently added note that resolves to
    /// line `line`.
    pub fn edit_note(
        &self,
        ledger: &mut NoteLedger,
        line: usize,
        message: String,
        current: &Option<GitBlob>,
        anchored: &Vec<Option<String>>,
    ) -> (r: Result<(), NoteError>)
        ensures
            final(ledger).note.id == old(ledger).note.id,
            final(ledger).note.reference == old(ledger).note.reference,
            ({
                let ms = resolved_messages(old(ledger).note.messages@, *current, anchored@);
                match last_at(ms, line, ms.len() as int) {
                    Some(j) => r is Ok && edited(
                        old(ledger).note.messages@,
                        final(ledger).note.messages@,
                        ms[j].uuid@,
                        message,
                    ),
                    None => r == Err::<(), NoteError>(NoteError::NotFound { line })
                        && final(ledger).note == old(ledger).note,
                }
            }),
    {
        match ledger.opaque_uuid(line, current, anchored) {
            Some(uuid) => {
                ledger.edit(uuid, message);
                Ok(())
            },
            None => Err(NoteError::NotFound { line }),
        }
    }

    /// Removes the most recently added note that resolves to line `line`.
    pub fn delete_note(
        &self,
        ledger: &mut NoteLedger,
        line: usize,
        current: &Option<GitBlob>,
        anchored: &Vec<Option<String>>,
    ) -> (r: Result<(), NoteError>)
        ensures
            final(ledger).note.id == old(ledger).note.id,
            final(ledger).note.reference == old(ledger).note.reference,
            ({
                let ms = resolved_messages(old(ledger).note.messages@, *current, anchored@);
                match last_at(ms, line, ms.len() as int) {
                    Some(j) => r is Ok && final(ledger).note.messages@ == without_uuid(
                        old(ledger).note.messages@,
                        ms[j].uuid@,
                    ),
                    None => r == Err::<(), NoteError>(NoteError::NotFound { line })
                        && final(ledger).note == old(ledger).note,
                }
            }),
    {
        match ledger.opaque_uuid(line, current, anchored) {
            Some(uuid) => {
                ledger.delete(uuid);
                Ok(())
            },
            None => Err(NoteError::NotFound { line }),
        }
    }
}

} // verus!
