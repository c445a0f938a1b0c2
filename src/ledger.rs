use vstd::prelude::*;

use crate::diff::{line_diff, resolved_model, DiffModel, GitDiffer, SimilarGitDiffer};
use crate::error::NoteError;
use crate::libgit::GitBlob;
use crate::note::{is_anchored, last_at, Message, Note};
use crate::text::lines_of;

verus! {

/// The anchored text handed in for the note at index `i`, if any.
pub open spec fn anchored_at(anchored: Seq<Option<String>>, i: int) -> Option<String> {
    if 0 <= i < anchored.len() {
        anchored[i]
    } else {
        None
    }
}

/// Where note `m` stands in `current`, given the text of the blob it was
/// anchored to: unchanged when that blob is the current one, else moved along
/// the line diff; `None` when it no longer applies or its blob is unavailable.
pub open spec fn resolve_message(m: Message, current: GitBlob, anchored: Option<String>) -> Option<
    Message,
> {
    match anchored {
        None => None,
        Some(old_content) => if m.oid@ == current.id@ {
            Some(m)
        } else {
            let r = resolved_model(
                line_diff(old_content@, current.content@),
                DiffModel { line: m.line, snippet: m.snippet, valid: true },
            );
            if r.valid {
                Some(Message { line: r.line, oid: current.id, ..m })
            } else {
                None
            }
        },
    }
}

/// Resolves one note against `current`, given the text `anchored` of the
/// blob it was anchored to: the note moved to its current line, or `None`
/// when its line no longer applies.
pub fn resolve(message: &Message, current: &GitBlob, anchored: &String) -> (r: Option<Message>)
    ensures
        r == resolve_message(*message, *current, Some(*anchored)),
{
    if message.oid == current.id {
        Some(message.copied(message.line, message.oid.clone()))
    } else {
        let mut model = DiffModel::of(message);
        SimilarGitDiffer.diff(anchored, &current.content, &mut model);
        if model.valid {
            Some(message.copied(model.line, current.id.clone()))
        } else {
            None
        }
    }
}

/// A note anchored to the current blob itself keeps its line and stays valid:
/// when old and new content have the same address, nothing moves.
pub proof fn lemma_same_blob_keeps_anchor(m: Message, current: GitBlob, anchored: String)
    requires
        m.oid@ == current.id@,
    ensures
        resolve_message(m, current, Some(anchored)) == Some(m),
        resolve_message(m, current, Some(anchored))->0.line == m.line,
{
}

proof fn lemma_resolved_on_current(msgs: Seq<Message>, current: GitBlob, anchored: Seq<Option<String>>)
    ensures
        forall|j: int|
            0 <= j < resolved_messages(msgs, Some(current), anchored).len() ==> (#[trigger] resolved_messages(
                msgs,
                Some(current),
                anchored,
            )[j]).oid@ == current.id@,
    decreases msgs.len(),
{
    if msgs.len() > 0 {
        let prev = resolved_messages(msgs.drop_last(), Some(current), anchored);
        lemma_resolved_on_current(msgs.drop_last(), current, anchored);
        let all = resolved_messages(msgs, Some(current), anchored);
        match resolve_message(msgs.last(), current, anchored_at(anchored, msgs.len() - 1)) {
            Some(m) => {
                assert(m.oid@ == current.id@);
                assert forall|j: int| 0 <= j < all.len() implies (#[trigger] all[j]).oid@ == current.id@ by {
                    if j < prev.len() {
                        assert(all[j] == prev[j]);
                    }
                }
            },
            None => {},
        }
    }
}

proof fn lemma_resolve_current_unchanged(msgs: Seq<Message>, current: GitBlob, anchored: Seq<Option<String>>)
    requires
        forall|j: int| 0 <= j < msgs.len() ==> (#[trigger] msgs[j]).oid@ == current.id@,
        forall|j: int| 0 <= j < msgs.len() ==> (#[trigger] anchored_at(anchored, j)) is Some,
    ensures
        resolved_messages(msgs, Some(current), anchored) == msgs,
    decreases msgs.len(),
{
    if msgs.len() > 0 {
        let init = msgs.drop_last();
        assert forall|j: int| 0 <= j < init.len() implies (#[trigger] init[j]).oid@ == current.id@ by {
            assert(init[j] == msgs[j]);
        }
        assert forall|j: int| 0 <= j < init.len() implies (#[trigger] anchored_at(anchored, j)) is Some by {
            assert(anchored_at(anchored, j) == anchored_at(anchored, j));
        }
        lemma_resolve_current_unchanged(init, current, anchored);
        assert(msgs.last().oid@ == current.id@);
        assert(anchored_at(anchored, msgs.len() - 1) is Some);
        assert(init.push(msgs.last()) =~= msgs);
    }
}

/// Resolving the resolved view again against the same current content changes
/// nothing: every note it holds is anchored to the current blob already.
pub proof fn lemma_resolved_view_idempotent(
    msgs: Seq<Message>,
    current: GitBlob,
    anchored: Seq<Option<String>>,
    anchored_again: Seq<Option<String>>,
)
    requires
        forall|j: int|
            0 <= j < resolved_messages(msgs, Some(current), anchored).len() ==> (#[trigger] anchored_at(
                anchored_again,
                j,
            )) is Some,
    ensures
        resolved_messages(resolved_messages(msgs, Some(current), anchored), Some(current), anchored_again)
            == resolved_messages(msgs, Some(current), anchored),
{
    lemma_resolved_on_current(msgs, current, anchored);
    lemma_resolve_current_unchanged(
        resolved_messages(msgs, Some(current), anchored),
        current,
        anchored_again,
    );
}

/// Two resolved views of one record, taken against the same current content
/// and the same anchored texts, are identical.
pub proof fn lemma_resolved_view_repeatable(
    ledger: NoteLedger,
    current: Option<GitBlob>,
    anchored: Seq<Option<String>>,
    first: Note,
    second: Note,
)
    requires
        first.id == ledger.note.id,
        first.reference == ledger.note.reference,
        first.messages@ == resolved_messages(ledger.note.messages@, current, anchored),
        second.id == ledger.note.id,
        second.reference == ledger.note.reference,
        second.messages@ == resolved_messages(ledger.note.messages@, current, anchored),
    ensures
        first.id == second.id,
        first.reference == second.reference,
        first.messages@ == second.messages@,
{
}

/// The notes that still apply to `current`, in order, each moved to its line
/// there. Nothing applies when the current content is unavailable.
pub open spec fn resolved_messages(
    msgs: Seq<Message>,
    current: Option<GitBlob>,
    anchored: Seq<Option<String>>,
) -> Seq<Message>
    decreases msgs.len(),
{
    if msgs.len() == 0 || current is None {
        Seq::empty()
    } else {
        let prev = resolved_messages(msgs.drop_last(), current, anchored);
        match resolve_message(msgs.last(), current->0, anchored_at(anchored, msgs.len() - 1)) {
            Some(m) => prev.push(m),
            None => prev,
        }
    }
}

/// The notes whose id is not `uuid`, in order.
pub open spec fn without_uuid(msgs: Seq<Message>, uuid: Seq<char>) -> Seq<Message>
    decreases msgs.len(),
{
    if msgs.len() == 0 {
        Seq::empty()
    } else {
        let prev = without_uuid(msgs.drop_last(), uuid);
        if msgs.last().uuid@ == uuid {
            prev
        } else {
            prev.push(msgs.last())
        }
    }
}

/// `after` is `before` with the text of every note with id `uuid` replaced.
pub open spec fn edited(before: Seq<Message>, after: Seq<Message>, uuid: Seq<char>, message: String) -> bool {
    &&& after.len() == before.len()
    &&& forall|i: int|
        0 <= i < before.len() ==> if before[i].uuid@ == uuid {
            #[trigger] after[i] == Message { message, updated_at: after[i].updated_at, ..before[i] }
        } else {
            after[i] == before[i]
        }
}

/// The notes of one file, as stored, and the operations on them.
pub struct NoteLedger {
    pub note: Note,
}

impl NoteLedger {
    pub fn new(note: Note) -> (r: NoteLedger)
        ensures
            r.note == note,
    {
        NoteLedger { note }
    }

    /// The notes as stored, unfiltered.
    pub fn plain_note(&self) -> (r: &Note)
        ensures
            *r == self.note,
    {
        &self.note
    }

    /// The stored notes that still apply to `current`, each moved to its line
    /// there. `anchored[i]` is the text of the blob that note `i` is anchored
    /// to, `None` where the version store could not produce it.
    pub fn opaque_messages(&self, current: &Option<GitBlob>, anchored: &Vec<Option<String>>) -> (r:
        Vec<Message>)
        ensures
            r@ == resolved_messages(self.note.messages@, *current, anchored@),
    {
        let mut r: Vec<Message> = Vec::new();
        let blob = match current {
            Some(b) => b,
            None => {
                return r;
            },
        };
        let msgs = &self.note.messages;
        let mut i: usize = 0;
        while i < msgs.len()
            invariant
                0 <= i <= msgs@.len(),
                msgs == self.note.messages,
                *current == Some(*blob),
                r@ == resolved_messages(msgs@.subrange(0, i as int), *current, anchored@),
            decreases msgs@.len() - i,
        {
            let m = &msgs[i];
            let ghost before = msgs@.subrange(0, i as int);
            proof {
                let next = msgs@.subrange(0, i as int + 1);
                assert(next.drop_last() =~= before);
                assert(next.last() == msgs@[i as int]);
            }
            if i < anchored.len() {
                match &anchored[i] {
                    Some(old_content) => {
                        match resolve(m, blob, old_content) {
                            Some(moved) => r.push(moved),
                            None => {},
                        }
                    },
                    None => {},
                }
            }
            i = i + 1;
        }
        proof {
            assert(msgs@.subrange(0, msgs@.len() as int) =~= msgs@);
        }
        r
    }

    /// The record with only the notes that still apply to `current`.
    pub fn opaque_note(&self, current: &Option<GitBlob>, anchored: &Vec<Option<String>>) -> (r: Note)
        ensures
            r.id == self.note.id,
            r.reference == self.note.reference,
            r.messages@ == resolved_messages(self.note.messages@, *current, anchored@),
    {
        let messages = self.opaque_messages(current, anchored);
        Note::from(&self.note.id, &self.note.reference, messages)
    }

    /// Whether some note resolves to line `line` of `current`.
    pub fn opaque_exists(&self, line: usize, current: &Option<GitBlob>, anchored: &Vec<Option<String>>) -> (r: bool)
        ensures
            r == exists|j: int|
                0 <= j < resolved_messages(self.note.messages@, *current, anchored@).len()
                    && (#[trigger] resolved_messages(self.note.messages@, *current, anchored@)[j]).line
                    == line,
    {
        let ms = self.opaque_messages(current, anchored);
        let mut i: usize = 0;
        while i < ms.len()
            invariant
                0 <= i <= ms@.len(),
                ms@ == resolved_messages(self.note.messages@, *current, anchored@),
                forall|j: int| 0 <= j < i ==> (#[trigger] ms@[j]).line != line,
            decreases ms@.len() - i,
        {
            if ms[i].line == line {
                assert(resolved_messages(self.note.messages@, *current, anchored@)[i as int].line == line);
                return true;
            }
            i = i + 1;
        }
        false
    }

    /// The id of the most recently appended note that resolves to line `line`.
    pub fn opaque_uuid(&self, line: usize, current: &Option<GitBlob>, anchored: &Vec<Option<String>>) -> (r: Option<String>)
        ensures
            ({
                let ms = resolved_messages(self.note.messages@, *current, anchored@);
                match last_at(ms, line, ms.len() as int) {
                    Some(j) => r == Some(ms[j].uuid),
                    None => r is None,
                }
            }),
    {
        let ms = self.opaque_messages(current, anchored);
        let mut i: usize = ms.len();
        while i > 0
            invariant
                i <= ms@.len(),
                ms@ == resolved_messages(self.note.messages@, *current, anchored@),
                last_at(ms@, line, ms@.len() as int) == last_at(ms@, line, i as int),
            decreases i,
        {
            if ms[i - 1].line == line {
                assert(last_at(ms@, line, i as int) == Some(i as int - 1));
                return Some(ms[i - 1].uuid.clone());
            }
            i = i - 1;
        }
        None
    }

    /// Adds a note on line `line` of `blob`, the file's current version. It does
    /// not look for a note already on that line.
    pub fn append(&mut self, line: usize, message: String, blob: &GitBlob) -> (r: Result<(), NoteError>)
        ensures
            final(self).note.id == old(self).note.id,
            final(self).note.reference == old(self).note.reference,
            match r {
                Ok(()) => line < lines_of(blob.content@).len()
                    && final(self).note.messages@.len() == old(self).note.messages@.len() + 1
                    && final(self).note.messages@.drop_last() == old(self).note.messages@
                    && is_anchored(final(self).note.messages@.last(), *blob, line, message@),
                Err(e) => e == NoteError::OutOfRange { line } && line >= lines_of(
                    blob.content@,
                ).len() && final(self).note == old(self).note,
            },
    {
        let m = Message::new(blob, line, message)?;
        let r = self.note.append(m);
        proof {
            assert(self.note.messages@.drop_last() =~= old(self).note.messages@);
        }
        r
    }

    /// Removes every note with id `uuid`.
    pub fn delete(&mut self, uuid: String)
        ensures
            final(self).note.id == old(self).note.id,
            final(self).note.reference == old(self).note.reference,
            final(self).note.messages@ == without_uuid(old(self).note.messages@, uuid@),
    {
        let mut kept: Vec<Message> = Vec::new();
        let ghost before = self.note.messages@;
        let mut old_messages: Vec<Message> = Vec::new();
        std::mem::swap(&mut old_messages, &mut self.note.messages);
        let mut i: usize = 0;
        while i < old_messages.len()
            invariant
                0 <= i <= old_messages@.len(),
                old_messages@ == before,
                kept@ == without_uuid(before.subrange(0, i as int), uuid@),
            decreases old_messages@.len() - i,
        {
            let m = &old_messages[i];
            proof {
                let next = before.subrange(0, i as int + 1);
                assert(next.drop_last() =~= before.subrange(0, i as int));
            }
            if m.uuid != uuid {
                kept.push(m.copied(m.line, m.oid.clone()));
            }
            i = i + 1;
        }
        proof {
            assert(before.subrange(0, before.len() as int) =~= before);
        }
        self.note.messages = kept;
    }

    /// Replaces the text of every note with id `uuid`; the notes stay where
    /// they are anchored.
    pub fn edit(&mut self, uuid: String, message: String)
        ensures
            final(self).note.id == old(self).note.id,
            final(self).note.reference == old(self).note.reference,
            edited(old(self).note.messages@, final(self).note.messages@, uuid@, message),
    {
        let ghost before = self.note.messages@;
        let mut old_messages: Vec<Message> = Vec::new();
        std::mem::swap(&mut old_messages, &mut self.note.messages);
        let mut out: Vec<Message> = Vec::new();
        let mut i: usize = 0;
        while i < old_messages.len()
            invariant
                0 <= i <= old_messages@.len(),
                old_messages@ == before,
                out@.len() == i,
                forall|j: int|
                    0 <= j < i ==> if before[j].uuid@ == uuid@ {
                        #[trigger] out@[j] == Message { message, updated_at: out@[j].updated_at, ..before[j] }
                    } else {
                        out@[j] == before[j]
                    },
            decreases old_messages@.len() - i,
        {
            let m = &old_messages[i];
            let mut c = m.copied(m.line, m.oid.clone());
            if m.uuid == uuid {
                c.update(message.clone());
            }
            out.push(c);
            i = i + 1;
        }
        self.note.messages = out;
    }
}

} // verus!
