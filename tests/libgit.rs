use gitnote::diff::SimilarGitDiffer;
use gitnote::libgit::{decimal_bytes, strip_object_header, GitBlob, ManualLibgit, ProcessLibgit};
use gitnote::text::normalize_newlines;
use gitnote::path::PathResolver;

const CONTENT: &str = "  hello world\nmore lines\n   multiple spaces: and 한글";

#[test]
fn test_make_git_blob() {
    let oid = "f06840e105b1dd0b30b36bac387239359cd78f99";

    let paths = PathResolver::resolve(&"/repo".to_string(), &"/repo/test.txt".to_string()).unwrap();
    let libgit = ManualLibgit::new(SimilarGitDiffer);
    let git_blob = libgit.make_git_blob(&paths.relative(), &CONTENT.as_bytes().to_vec()).unwrap();
    assert_eq!(git_blob.id, oid);
    assert_eq!(git_blob.content, "  hello world\nmore lines\n   multiple spaces: and 한글");
    assert_eq!(git_blob.file_path, paths.relative());
}

#[test]
fn test_read_blob() {
    let oid = "f06840e105b1dd0b30b36bac387239359cd78f99";

    let paths = PathResolver::resolve(&"/repo".to_string(), &"/repo/test.txt".to_string()).unwrap();
    let libgit = ManualLibgit::new(SimilarGitDiffer);
    let object = libgit.make_blob_bytes(&CONTENT.as_bytes().to_vec());
    let stored = libgit.zlib_encode(object).unwrap();
    let blob = libgit.read_git_blob(&paths.relative(), &oid.to_string(), &stored).unwrap();
    assert_eq!(blob.content, "  hello world\nmore lines\n   multiple spaces: and 한글");
}

#[test]
fn blob_bytes_carry_header() {
    let libgit = ManualLibgit::new(SimilarGitDiffer);
    let bytes = libgit.make_blob_bytes(&b"abc".to_vec());
    assert_eq!(bytes, b"blob 3\0abc".to_vec());
    let empty = libgit.make_blob_bytes(&Vec::new());
    assert_eq!(empty, b"blob 0\0".to_vec());
}

#[test]
fn decimal_digits() {
    assert_eq!(decimal_bytes(0), b"0".to_vec());
    assert_eq!(decimal_bytes(7), b"7".to_vec());
    assert_eq!(decimal_bytes(1234), b"1234".to_vec());
}

#[test]
fn header_is_stripped_once() {
    assert_eq!(strip_object_header(&b"blob 11\0hello world".to_vec()), b"hello world".to_vec());
    assert_eq!(strip_object_header(&b"blob 3\0blob 1\0x".to_vec()), b"blob 1\0x".to_vec());
    assert_eq!(strip_object_header(&b"no header".to_vec()), b"no header".to_vec());
    assert_eq!(strip_object_header(&b"blob x\0y".to_vec()), b"blob x\0y".to_vec());
}

#[test]
fn empty_blob_id() {
    let libgit = ManualLibgit::new(SimilarGitDiffer);
    let blob = libgit.make_git_blob(&"e.txt".to_string(), &Vec::new()).unwrap();
    assert_eq!(blob.id, "e69de29bb2d1d6434b8b29ae775ad8c2e48c5391");
    assert_eq!(blob.content, "");
}

#[test]
fn invalid_utf8_is_refused() {
    let libgit = ManualLibgit::new(SimilarGitDiffer);
    assert!(libgit.make_git_blob(&"b.bin".to_string(), &vec![0xffu8, 0xfe]).is_err());
    assert!(libgit.read_git_blob(&"b.bin".to_string(), &"ab".to_string(), &vec![1u8, 2, 3]).is_err());
}

#[test]
fn object_path_is_sharded() {
    let libgit = ManualLibgit::new(SimilarGitDiffer);
    let p = libgit.object_path(&"/repo/.git/objects".to_string(), &"f06840e1".to_string());
    assert_eq!(p, "/repo/.git/objects/f0/6840e1");
}

#[test]
fn snippet_of_lines() {
    let blob = GitBlob {
        id: "x".to_string(),
        file_path: "a.txt".to_string(),
        content: "foo\r\nbar\n\nbaz\n".to_string(),
    };
    assert_eq!(blob.snippet(0), Some("foo".to_string()));
    assert_eq!(blob.snippet(1), Some("bar".to_string()));
    assert_eq!(blob.snippet(2), Some("".to_string()));
    assert_eq!(blob.snippet(3), Some("baz".to_string()));
    assert_eq!(blob.snippet(4), None);
}

#[test]
fn process_blob_normalizes_line_endings() {
    let libgit = ProcessLibgit::new(SimilarGitDiffer);
    let blob = libgit.make_git_blob(&"a.txt".to_string(), &"abc123\n".to_string(), &"x\r\ny\r\n\rz".to_string());
    assert_eq!(blob.id, "abc123");
    assert_eq!(blob.file_path, "a.txt");
    assert_eq!(blob.content, "x\ny\n\rz");
    let read = libgit.read_git_blob(&"a.txt".to_string(), &"abc123".to_string(), &"  one\r\ntwo\r\n".to_string());
    assert_eq!(read.id, "abc123");
    assert_eq!(read.content, "one\ntwo");
}

#[test]
fn normalize_keeps_lone_carriage_returns() {
    assert_eq!(normalize_newlines(""), "");
    assert_eq!(normalize_newlines("\r\n"), "\n");
    assert_eq!(normalize_newlines("a\rb\r"), "a\rb\r");
    assert_eq!(normalize_newlines("한\r\n글"), "한\n글");
}

#[test]
fn stored_objects_are_compressed() {
    let libgit = ManualLibgit::new(SimilarGitDiffer);
    let object = libgit.make_blob_bytes(&b"aaaaaaaaaaaaaaaaaaaaaaaaaaaaaaaaaaaaaaaa".to_vec());
    let stored = libgit.zlib_encode(object.clone()).unwrap();
    assert_ne!(stored, object);
    assert_eq!(stored[0], 0x78);
    let blob = libgit.read_git_blob(&"a".to_string(), &"ab".to_string(), &stored).unwrap();
    assert_eq!(blob.content, "aaaaaaaaaaaaaaaaaaaaaaaaaaaaaaaaaaaaaaaa");
}
