use gitnote::error::NoteError;
use gitnote::note::Note;
use gitnote::path::{join, PathResolver};

#[test]
pub fn resolve() {
    let paths = PathResolver::resolve(&"/tmp/repo".to_string(), &"/tmp/repo/foo.txt".to_string()).unwrap();

    assert_eq!(paths.root(), "/tmp/repo");
    assert_eq!(paths.canonical(), "/tmp/repo/foo.txt");
    assert_eq!(paths.home(), "/tmp/repo/.git/notes");
    assert_eq!(paths.relative(), "foo.txt");
}

#[test]
pub fn resolve_in_nested() {
    let paths = PathResolver::resolve(&"/tmp/repo".to_string(), &"/tmp/repo/foo/bar/baz.txt".to_string()).unwrap();
    assert_eq!(paths.root(), "/tmp/repo");
    assert_eq!(paths.canonical(), "/tmp/repo/foo/bar/baz.txt");
    assert_eq!(paths.home(), "/tmp/repo/.git/notes");
    assert_eq!(paths.relative(), "foo/bar/baz.txt");
}

#[test]
fn resolve_outside_repository() {
    let r = PathResolver::resolve(&"/tmp/repo".to_string(), &"/tmp/repository/a.txt".to_string());
    assert_eq!(r.unwrap_err(), NoteError::IdentityResolution);
    let r = PathResolver::resolve(&"/tmp/repo".to_string(), &"/tmp/a.txt".to_string());
    assert_eq!(r.unwrap_err(), NoteError::IdentityResolution);
}

#[test]
fn derived_paths() {
    let paths = PathResolver::resolve(&"/r".to_string(), &"/r/src/a.rs".to_string()).unwrap();
    assert_eq!(paths.objects(), "/r/.git/objects");
    assert_eq!(paths.config(), "/r/.git/notes/config.yml");
    let id = Note::get_id(&paths.relative());
    assert_eq!(id.len(), 64);
    let note = paths.note(&id);
    assert_eq!(note, format!("/r/.git/notes/{}/{}", &id[0..2], &id[2..]));
}

#[test]
fn join_rules() {
    assert_eq!(join("/a", "b"), "/a/b");
    assert_eq!(join("/a/", "b"), "/a/b");
    assert_eq!(join("", "b"), "b");
    assert_eq!(join("/a", "/b"), "/b");
}

#[test]
fn identity_is_sha256_of_path() {
    assert_eq!(
        Note::get_id(&"hello".to_string()),
        "2cf24dba5fb0a30e26e83b2ac5b9e29e1b161e5c1fa7425e73043362938b9824"
    );
}
