use gitnote::diff::DiffModel;
use gitnote::error::NoteError;
use gitnote::ledger::{resolve, NoteLedger};
use gitnote::libgit::GitBlob;
use gitnote::note::{Message, Note};
use gitnote::path::Paths;
use gitnote::repository::NoteRepository;
use gitnote::libgit::ManualLibgit;
use gitnote::diff::SimilarGitDiffer;

fn blob(id: &str, content: &str) -> GitBlob {
    GitBlob { id: id.to_string(), file_path: "f.txt".to_string(), content: content.to_string() }
}

fn anchored_bar(oid: &str) -> Message {
    Message {
        uuid: "u1".to_string(),
        oid: oid.to_string(),
        line: 1,
        snippet: "bar".to_string(),
        message: "note".to_string(),
        created_at: 10,
        updated_at: 10,
    }
}

#[test]
fn resolve_identical_content() {
    let m = anchored_bar("old");
    let r = resolve(&m, &blob("new", "foo\nbar\nbaz"), &"foo\nbar\nbaz".to_string()).unwrap();
    assert_eq!(r.line, 1);
    assert_eq!(r.oid, "new");
}

#[test]
fn resolve_same_blob_skips_diff() {
    let m = anchored_bar("same");
    let r = resolve(&m, &blob("same", "whatever"), &"unrelated".to_string()).unwrap();
    assert_eq!(r.line, 1);
    assert_eq!(r.oid, "same");
    assert_eq!(r.message, "note");
}

#[test]
fn resolve_changed_line() {
    let m = anchored_bar("old");
    assert!(resolve(&m, &blob("new", "foo\nX\nbaz"), &"foo\nbar\nbaz".to_string()).is_none());
}

#[test]
fn resolve_insert_above() {
    let m = anchored_bar("old");
    let r = resolve(&m, &blob("new", "foo\nX\nbar\nbaz"), &"foo\nbar\nbaz".to_string()).unwrap();
    assert_eq!(r.line, 2);
    assert_eq!(r.uuid, "u1");
    assert_eq!(r.created_at, 10);
}

#[test]
fn resolve_removed_line() {
    let m = anchored_bar("old");
    assert!(resolve(&m, &blob("new", "foo\nbaz"), &"foo\nbar\nbaz".to_string()).is_none());
}

#[test]
fn resolve_line_with_no_record_is_invalid() {
    let mut model = DiffModel { line: 7, snippet: "bar".to_string(), valid: true };
    gitnote::diff::resolve_changes(&Vec::new(), &mut model);
    assert!(!model.valid);
    assert_eq!(model.line, 7);
}

#[test]
fn eq_trim_ignores_outer_whitespace() {
    let model = DiffModel { line: 0, snippet: "  bar ".to_string(), valid: true };
    assert!(model.eq_trim("\tbar\n"));
    assert!(!model.eq_trim("b ar"));
}

#[test]
fn append_then_exists_and_append_again() {
    let current = Some(blob("b1", "foo\nbar\nbaz"));
    let mut ledger = NoteLedger::new(Note::new(&"id".to_string(), &"f.txt".to_string()));
    ledger.append(1, "note".to_string(), current.as_ref().unwrap()).unwrap();
    let anchored = vec![Some("foo\nbar\nbaz".to_string())];
    assert!(ledger.opaque_exists(1, &current, &anchored));
    assert!(!ledger.opaque_exists(0, &current, &anchored));
    ledger.append(1, "note2".to_string(), current.as_ref().unwrap()).unwrap();
    assert_eq!(ledger.plain_note().messages.len(), 2);
    let anchored = vec![Some("foo\nbar\nbaz".to_string()), Some("foo\nbar\nbaz".to_string())];
    let last = ledger.opaque_uuid(1, &current, &anchored).unwrap();
    assert_eq!(last, ledger.plain_note().messages[1].uuid);
    assert_ne!(ledger.plain_note().messages[0].uuid, ledger.plain_note().messages[1].uuid);
    assert_eq!(ledger.plain_note().messages[1].snippet, "bar");
}

#[test]
fn append_out_of_range() {
    let current = blob("b1", "foo\nbar\nbaz");
    let mut ledger = NoteLedger::new(Note::new(&"id".to_string(), &"f.txt".to_string()));
    assert_eq!(ledger.append(3, "x".to_string(), &current), Err(NoteError::OutOfRange { line: 3 }));
}

#[test]
fn resolved_view_drops_unavailable_and_moved_on() {
    let mut note = Note::new(&"id".to_string(), &"f.txt".to_string());
    note.messages.push(anchored_bar("old"));
    let mut gone = anchored_bar("lost");
    gone.uuid = "u2".to_string();
    note.messages.push(gone);
    let ledger = NoteLedger::new(note);
    let current = Some(blob("new", "foo\nX\nbar\nbaz"));
    let anchored = vec![Some("foo\nbar\nbaz".to_string()), None];
    let view = ledger.opaque_note(&current, &anchored);
    assert_eq!(view.messages.len(), 1);
    assert_eq!(view.messages[0].line, 2);
    assert_eq!(view.messages[0].oid, "new");
    assert_eq!(ledger.plain_note().messages.len(), 2);
    assert_eq!(ledger.plain_note().messages[0].line, 1);
    let again = ledger.opaque_note(&current, &anchored);
    assert_eq!(again.messages.len(), 1);
    assert_eq!(again.messages[0].line, view.messages[0].line);
    assert_eq!(again.messages[0].uuid, view.messages[0].uuid);
    let none = ledger.opaque_note(&None, &anchored);
    assert_eq!(none.messages.len(), 0);
}

#[test]
fn edit_keeps_anchor_and_delete_removes() {
    let mut note = Note::new(&"id".to_string(), &"f.txt".to_string());
    note.messages.push(anchored_bar("old"));
    let mut other = anchored_bar("old");
    other.uuid = "u2".to_string();
    other.line = 0;
    note.messages.push(other);
    let mut ledger = NoteLedger::new(note);
    ledger.edit("u1".to_string(), "changed".to_string());
    assert_eq!(ledger.plain_note().messages[0].message, "changed");
    assert_eq!(ledger.plain_note().messages[0].line, 1);
    assert_eq!(ledger.plain_note().messages[0].created_at, 10);
    assert_eq!(ledger.plain_note().messages[1].message, "note");
    ledger.delete("u1".to_string());
    assert_eq!(ledger.plain_note().messages.len(), 1);
    assert_eq!(ledger.plain_note().messages[0].uuid, "u2");
    ledger.delete("nothing".to_string());
    assert_eq!(ledger.plain_note().messages.len(), 1);
}

#[test]
fn load_without_storage_creates_empty_record() {
    let repository = NoteRepository::new(ManualLibgit::new(SimilarGitDiffer));
    let paths = Paths::new("/repo".to_string(), "a/b.txt".to_string());
    let (ledger, persist) = repository.read_note(&paths, None);
    assert!(persist);
    assert_eq!(ledger.plain_note().id, Note::get_id(&"a/b.txt".to_string()));
    assert_eq!(ledger.plain_note().reference, "a/b.txt");
    assert!(ledger.plain_note().messages.is_empty());
    let (again, persist) = repository.read_note(&paths, Some(ledger.note));
    assert!(!persist);
    assert_eq!(again.plain_note().id, Note::get_id(&"a/b.txt".to_string()));
    assert!(again.plain_note().messages.is_empty());
}

#[test]
fn find_returns_last_on_line() {
    let mut note = Note::new(&"id".to_string(), &"f.txt".to_string());
    note.messages.push(anchored_bar("o"));
    let mut second = anchored_bar("o");
    second.uuid = "u2".to_string();
    note.messages.push(second);
    assert_eq!(note.find(1).unwrap().uuid, "u2");
    assert!(note.find(0).is_none());
    assert_eq!(note.messages().len(), 2);
}

#[test]
fn new_messages_get_fresh_ids() {
    let current = blob("b1", "foo\nbar");
    let m = Message::new(&current, 0, "n".to_string()).unwrap();
    assert_eq!(m.uuid.len(), 36);
    assert_eq!(m.snippet, "foo");
    assert_eq!(m.oid, "b1");
    assert_eq!(m.created_at, m.updated_at);
    let anchored = Message::anchored(&current, 1, "n".to_string(), "id-1".to_string(), 42).unwrap();
    assert_eq!(anchored.uuid, "id-1");
    assert_eq!(anchored.snippet, "bar");
    assert_eq!(anchored.created_at, 42);
    assert!(Message::new(&current, 2, "n".to_string()).is_err());
}
