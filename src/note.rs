use vstd::prelude::*;

use crate::error::NoteError;
use crate::libgit::GitBlob;
use crate::text::lines_of;

verus! {

/// The lowercase hex SHA-256 digest of a text's UTF-8 bytes.
pub uninterp spec fn sha256_hex(s: Seq<char>) -> Seq<char>;

/// Relies on `sha256::digest`: the hex encoding of the SHA-256 digest of the
/// text's bytes, 64 characters for the 32 bytes.
#[verifier::external_body]
fn sha256_digest(s: &str) -> (r: String)
    ensures
        r@ == sha256_hex(s@),
        r@.len() == 64,
{
    sha256::digest(s)
}

/// Relies on `uuid::Uuid::new_v4` and its hyphenated text form, which has
/// 36 characters.
#[verifier::external_body]
fn new_uuid() -> (r: String)
    ensures
        r@.len() == 36,
{
    uuid::Uuid::new_v4().to_string()
}

/// Relies on `chrono::Utc::now`: the current time in whole seconds since the
/// Unix epoch.
#[verifier::external_body]
fn now_seconds() -> i64 {
    chrono::Utc::now().timestamp()
}

/// One note, anchored to line `line` of the blob `oid`.
#[derive(Debug)]
pub struct Message {
    pub uuid: String,
    pub oid: String,
    pub line: usize,
    /// The anchored line's text when the note was anchored.
    pub snippet: String,
    /// The note's own text.
    pub message: String,
    /// Seconds since the Unix epoch, UTC.
    pub created_at: i64,
    /// Seconds since the Unix epoch, UTC.
    pub updated_at: i64,
}

/// `m` is a fresh note on line `line` of `blob`.
pub open spec fn is_anchored(m: Message, blob: GitBlob, line: usize, message: Seq<char>) -> bool {
    &&& line < lines_of(blob.content@).len()
    &&& m.oid@ == blob.id@
    &&& m.line == line
    &&& m.snippet@ == lines_of(blob.content@)[line as int]
    &&& m.message@ == message
    &&& m.created_at == m.updated_at
}

impl Message {
    /// A note on line `line` of `blob`, with the given id and creation time;
    /// `OutOfRange` when the blob has no such line.
    pub fn anchored(blob: &GitBlob, line: usize, message: String, uuid: String, now: i64) -> (r:
        Result<Message, NoteError>)
        ensures
            match r {
                Ok(m) => is_anchored(m, *blob, line, message@) && m.uuid == uuid
                    && m.created_at == now,
                Err(e) => e == NoteError::OutOfRange { line } && line >= lines_of(
                    blob.content@,
                ).len(),
            },
    {
        match blob.snippet(line) {
            Some(snippet) => Ok(
                Message {
                    uuid,
                    oid: blob.id.clone(),
                    line,
                    snippet,
                    message,
                    created_at: now,
                    updated_at: now,
                },
            ),
            None => Err(NoteError::OutOfRange { line }),
        }
    }

    /// A new note on line `line` of `blob`, with a fresh random id and the
    /// current time; `OutOfRange` when the blob has no such line.
    pub fn new(blob: &GitBlob, line: usize, message: String) -> (r: Result<Message, NoteError>)
        ensures
            match r {
                Ok(m) => is_anchored(m, *blob, line, message@) && m.uuid@.len() == 36,
                Err(e) => e == NoteError::OutOfRange { line } && line >= lines_of(
                    blob.content@,
                ).len(),
            },
    {
        let uuid = new_uuid();
        let now = now_seconds();
        Message::anchored(blob, line, message, uuid, now)
    }

    /// The same note, re-anchored to line `line` of blob `oid`.
    pub fn copied(&self, line: usize, oid: String) -> (r: Message)
        ensures
            r == (Message {
                uuid: self.uuid,
                oid,
                line,
                snippet: self.snippet,
                message: self.message,
                created_at: self.created_at,
                updated_at: self.updated_at,
            }),
    {
        Message {
            uuid: self.uuid.clone(),
            oid,
            line,
            snippet: self.snippet.clone(),
            message: self.message.clone(),
            created_at: self.created_at,
            updated_at: self.updated_at,
        }
    }

    /// Replaces the note's text and stamps it with the current time.
    pub fn update(&mut self, message: String)
        ensures
            *final(self) == (Message { message, updated_at: final(self).updated_at, ..*old(self) }),
    {
        self.message = message;
        self.updated_at = now_seconds();
    }
}

/// All notes of one file.
#[derive(Debug)]
pub struct Note {
    /// The identity of the file: a digest of its repository-relative path.
    pub id: String,
    /// The repository-relative path.
    pub reference: String,
    /// The notes, oldest first.
    pub messages: Vec<Message>,
}

/// Index of the last of the first `n` notes that stands on line `line`.
pub open spec fn last_at(msgs: Seq<Message>, line: usize, n: int) -> Option<int>
    decreases n,
{
    if n <= 0 {
        None
    } else if msgs[n - 1].line == line {
        Some(n - 1)
    } else {
        last_at(msgs, line, n - 1)
    }
}

impl Note {
    /// A record with no notes.
    pub fn new(id: &String, reference: &String) -> (r: Note)
        ensures
            r.id == *id,
            r.reference == *reference,
            r.messages@ == Seq::<Message>::empty(),
    {
        Note::from(id, reference, Vec::new())
    }

    pub fn from(id: &String, reference: &String, messages: Vec<Message>) -> (r: Note)
        ensures
            r.id == *id,
            r.reference == *reference,
            r.messages == messages,
    {
        Note { id: id.clone(), reference: reference.clone(), messages }
    }

    /// The identity of the file at repository-relative path `path`.
    pub fn get_id(path: &String) -> (r: String)
        ensures
            r@ == sha256_hex(path@),
            r@.len() == 64,
    {
        sha256_digest(path.as_str())
    }

    pub fn messages(&self) -> (r: Vec<&Message>)
        ensures
            r@.len() == self.messages@.len(),
            forall|i: int| 0 <= i < r@.len() ==> *r@[i] == self.messages@[i],
    {
        let mut r: Vec<&Message> = Vec::new();
        let mut i: usize = 0;
        while i < self.messages.len()
            invariant
                0 <= i <= self.messages@.len(),
                r@.len() == i,
                forall|j: int| 0 <= j < i ==> *r@[j] == self.messages@[j],
            decreases self.messages@.len() - i,
        {
            r.push(&self.messages[i]);
            i = i + 1;
        }
        r
    }

    pub fn append(&mut self, message: Message) -> (r: Result<(), NoteError>)
        ensures
            r is Ok,
            final(self).id == old(self).id,
            final(self).reference == old(self).reference,
            final(self).messages@ == old(self).messages@.push(message),
    {
        self.messages.push(message);
        Ok(())
    }

    /// The most recently appended note on line `line`.
    pub fn find(&self, line: usize) -> (r: Option<&Message>)
        ensures
            match last_at(self.messages@, line, self.messages@.len() as int) {
                Some(j) => r == Some(&self.messages@[j]),
                None => r is None,
            },
    {
        let mut i: usize = self.messages.len();
        while i > 0
            invariant
                i <= self.messages@.len(),
                last_at(self.messages@, line, self.messages@.len() as int) == last_at(
                    self.messages@,
                    line,
                    i as int,
                ),
            decreases i,
        {
            if self.messages[i - 1].line == line {
                return Some(&self.messages[i - 1]);
            }
            i = i - 1;
        }
        None
    }
}

} // verus!
