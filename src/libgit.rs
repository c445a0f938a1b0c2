use vstd::prelude::*;
use vstd::utf8::{decode_utf8, valid_utf8};

use crate::diff::{line_diff, resolved_model, DiffModel, GitDiffer};
use crate::error::NoteError;
use crate::path::{join, path_join};
use crate::text::{crlf_to_lf, line_at, lines_of, normalize_newlines, trim_str, trimmed};

verus! {

/// One version of a file: its blob id, its path relative to the repository
/// root, and its text.
#[derive(Debug)]
pub struct GitBlob {
    pub id: String,
    pub file_path: String,
    pub content: String,
}

impl GitBlob {
    /// The text of line `line` (zero-based), or `None` past the last line.
    pub fn snippet(&self, line: usize) -> (r: Option<String>)
        ensures
            match r {
                Some(s) => line < lines_of(self.content@).len()
                    && s@ == lines_of(self.content@)[line as int],
                None => line >= lines_of(self.content@).len(),
            },
    {
        line_at(self.content.as_str(), line)
    }
}

/// The lowercase hex SHA-1 digest of some bytes.
pub uninterp spec fn sha1_hex(b: Seq<u8>) -> Seq<char>;

/// What zlib compression at the default level makes of some bytes.
pub uninterp spec fn zlib_deflated(b: Seq<u8>) -> Seq<u8>;

/// What zlib decompression makes of some bytes.
pub uninterp spec fn zlib_inflated(b: Seq<u8>) -> Seq<u8>;

/// Relies on sha1_smol's `Sha1::from(..).digest()` and its `Display`, which
/// writes the five 32-bit words of the digest as 40 lowercase hex digits.
#[verifier::external_body]
fn sha1_digest(b: &Vec<u8>) -> (r: String)
    ensures
        r@ == sha1_hex(b@),
        r@.len() == 40,
{
    sha1_smol::Sha1::from(b.as_slice()).digest().to_string()
}

/// Relies on flate2's `read::ZlibEncoder` with `Compression::default()`,
/// read to its end.
#[verifier::external_body]
fn zlib_compress(b: &Vec<u8>) -> (r: Option<Vec<u8>>)
    ensures
        r matches Some(x) ==> x@ == zlib_deflated(b@),
{
    let mut encoder = flate2::read::ZlibEncoder::new(b.as_slice(), flate2::Compression::default());
    let mut out: Vec<u8> = Vec::new();
    std::io::Read::read_to_end(&mut encoder, &mut out).ok().map(|_| out)
}

/// Relies on flate2's `read::ZlibDecoder`, read to its end; it fails on bytes
/// that are no zlib stream.
#[verifier::external_body]
fn zlib_decompress(b: &Vec<u8>) -> (r: Option<Vec<u8>>)
    ensures
        r matches Some(x) ==> x@ == zlib_inflated(b@),
{
    let mut decoder = flate2::read::ZlibDecoder::new(b.as_slice());
    let mut out: Vec<u8> = Vec::new();
    std::io::Read::read_to_end(&mut decoder, &mut out).ok().map(|_| out)
}

/// Relies on `String::from_utf8`: the text when the bytes are valid UTF-8.
#[verifier::external_body]
fn utf8_text(b: &Vec<u8>) -> (r: Option<String>)
    ensures
        match r {
            Some(s) => valid_utf8(b@) && s@ == decode_utf8(b@),
            None => !valid_utf8(b@),
        },
{
    String::from_utf8(b.clone()).ok()
}

/// The ASCII decimal digits of `n`.
pub open spec fn decimal(n: nat) -> Seq<u8>
    decreases n,
{
    if n < 10 {
        seq![(48 + n) as u8]
    } else {
        decimal(n / 10).push((48 + n % 10) as u8)
    }
}

/// The bytes `"blob "`.
pub open spec fn blob_tag() -> Seq<u8> {
    seq![98u8, 108u8, 111u8, 98u8, 32u8]
}

/// A git blob object: `"blob "`, the content's length in decimal, a zero
/// byte, then the content.
pub open spec fn blob_object(content: Seq<u8>) -> Seq<u8> {
    blob_tag() + decimal(content.len()) + seq![0u8] + content
}

/// The first index at or after `i` that holds no ASCII digit, or `b.len()`.
pub open spec fn digits_end(b: Seq<u8>, i: int) -> int
    decreases b.len() - i,
{
    if i < 0 || i >= b.len() {
        b.len() as int
    } else if 48 <= b[i] <= 57 {
        digits_end(b, i + 1)
    } else {
        i
    }
}

/// The content of a stored object: what follows a leading `"blob <digits>\0"`
/// header, or all of it when there is no such header.
pub open spec fn object_body(b: Seq<u8>) -> Seq<u8> {
    let k = digits_end(b, 5);
    if b.len() >= 5 && b.subrange(0, 5) == blob_tag() && k > 5 && k < b.len() && b[k] == 0u8 {
        b.subrange(k + 1, b.len() as int)
    } else {
        b
    }
}

/// The ASCII decimal digits of `n`.
pub fn decimal_bytes(n: usize) -> (r: Vec<u8>)
    ensures
        r@ == decimal(n as nat),
    decreases n,
{
    if n < 10 {
        let mut v: Vec<u8> = Vec::new();
        v.push((48 + n) as u8);
        v
    } else {
        let mut v = decimal_bytes(n / 10);
        v.push((48 + n % 10) as u8);
        v
    }
}

/// The content of a stored object, with its header removed.
pub fn strip_object_header(b: &Vec<u8>) -> (r: Vec<u8>)
    ensures
        r@ == object_body(b@),
{
    let n = b.len();
    if n < 5 || b[0] != 98u8 || b[1] != 108u8 || b[2] != 111u8 || b[3] != 98u8 || b[4] != 32u8 {
        proof {
            if n >= 5 {
                assert(b@.subrange(0, 5) != blob_tag()) by {
                    assert(b@.subrange(0, 5)[0] == b@[0]);
                    assert(b@.subrange(0, 5)[1] == b@[1]);
                    assert(b@.subrange(0, 5)[2] == b@[2]);
                    assert(b@.subrange(0, 5)[3] == b@[3]);
                    assert(b@.subrange(0, 5)[4] == b@[4]);
                }
            }
        }
        return b.clone();
    }
    proof {
        assert(b@.subrange(0, 5) =~= blob_tag());
    }
    let mut k: usize = 5;
    while k < n && 48u8 <= b[k] && b[k] <= 57u8
        invariant
            5 <= k <= n,
            n == b@.len(),
            digits_end(b@, 5) == digits_end(b@, k as int),
        decreases n - k,
    {
        k = k + 1;
    }
    if k > 5 && k < n && b[k] == 0u8 {
        let mut out: Vec<u8> = Vec::new();
        let mut i: usize = k + 1;
        while i < n
            invariant
                k + 1 <= i <= n,
                n == b@.len(),
                out@ == b@.subrange(k + 1, i as int),
            decreases n - i,
        {
            out.push(b[i]);
            proof {
                assert(out@ =~= b@.subrange(k + 1, i + 1));
            }
            i = i + 1;
        }
        out
    } else {
        b.clone()
    }
}

/// A version store that can move anchors between two texts.
pub trait Libgit {
    fn diff(&self, old_content: &String, new_content: &String, diff_model: &mut DiffModel)
        ensures
            *final(diff_model) == resolved_model(
                line_diff(old_content@, new_content@),
                *old(diff_model),
            ),
    ;
}

/// A version store that runs the `git` program; the process calls live with
/// the caller, and this type keeps what is computed around them.
pub struct ProcessLibgit<T: GitDiffer> {
    pub differ: T,
}

impl<T: GitDiffer> ProcessLibgit<T> {
    pub fn new(differ: T) -> (r: Self)
        ensures
            r.differ == differ,
    {
        ProcessLibgit { differ }
    }

    /// The blob of a file from what `git hash-object -w` printed and the
    /// file's decoded text, with `"\r\n"` line endings made `"\n"`.
    pub fn make_git_blob(&self, relative: &String, hash_output: &String, content: &String) -> (r: GitBlob)
        ensures
            r.id@ == trimmed(hash_output@),
            r.file_path == *relative,
            r.content@ == crlf_to_lf(content@, content@.len() as int),
    {
        let id = trim_str(hash_output.as_str()).to_owned();
        GitBlob { id, file_path: relative.clone(), content: normalize_newlines(content.as_str()) }
    }

    /// The blob with id `oid` from what `git cat-file -p` printed: the
    /// output trimmed, with `"\r\n"` line endings made `"\n"`.
    pub fn read_git_blob(&self, relative: &String, oid: &String, cat_output: &String) -> (r: GitBlob)
        ensures
            r.id == *oid,
            r.file_path == *relative,
            r.content@ == crlf_to_lf(trimmed(cat_output@), trimmed(cat_output@).len() as int),
    {
        let text = trim_str(cat_output.as_str());
        GitBlob { id: oid.clone(), file_path: relative.clone(), content: normalize_newlines(text) }
    }
}

impl<T: GitDiffer> Libgit for ProcessLibgit<T> {
    fn diff(&self, old_content: &String, new_content: &String, diff_model: &mut DiffModel) {
        self.differ.diff(old_content, new_content, diff_model);
    }
}

/// A version store that reads and writes git's object store itself.
pub struct ManualLibgit<T: GitDiffer> {
    pub differ: T,
}

impl<T: GitDiffer> ManualLibgit<T> {
    pub fn new(differ: T) -> (r: Self)
        ensures
            r.differ == differ,
    {
        ManualLibgit { differ }
    }

    /// The blob object for a file's content.
    pub fn make_blob_bytes(&self, content: &Vec<u8>) -> (r: Vec<u8>)
        ensures
            r@ == blob_object(content@),
    {
        let mut target: Vec<u8> = Vec::new();
        target.push(98u8);
        target.push(108u8);
        target.push(111u8);
        target.push(98u8);
        target.push(32u8);
        let mut digits = decimal_bytes(content.len());
        target.append(&mut digits);
        target.push(0u8);
        let mut i: usize = 0;
        let ghost head = target@;
        while i < content.len()
            invariant
                0 <= i <= content@.len(),
                target@ == head + content@.subrange(0, i as int),
            decreases content@.len() - i,
        {
            target.push(content[i]);
            proof {
                assert(target@ =~= head + content@.subrange(0, i + 1));
            }
            i = i + 1;
        }
        proof {
            assert(head =~= blob_tag() + decimal(content@.len()) + seq![0u8]);
            assert(content@.subrange(0, content@.len() as int) =~= content@);
            assert(target@ =~= blob_object(content@));
        }
        target
    }

    /// The id of a blob object: the hex SHA-1 of its bytes.
    pub fn oid(&self, content: &Vec<u8>) -> (r: String)
        ensures
            r@ == sha1_hex(content@),
            r@.len() == 40,
    {
        sha1_digest(content)
    }

    /// The compressed form in which an object is stored.
    pub fn zlib_encode(&self, to_encode: Vec<u8>) -> (r: Option<Vec<u8>>)
        ensures
            r matches Some(x) ==> x@ == zlib_deflated(to_encode@),
    {
        zlib_compress(&to_encode)
    }

    /// Where the object with id `oid` is stored under `objects`.
    pub fn object_path(&self, objects: &String, oid: &String) -> (r: String)
        requires
            oid@.len() >= 2,
        ensures
            r@ == path_join(
                path_join(objects@, oid@.subrange(0, 2)),
                oid@.subrange(2, oid@.len() as int),
            ),
    {
        let n = oid.as_str().unicode_len();
        let dir = join(objects.as_str(), oid.as_str().substring_char(0, 2));
        join(dir.as_str(), oid.as_str().substring_char(2, n))
    }

    /// The blob of a file whose bytes are `content`; `InvalidContent` when
    /// they are not UTF-8.
    pub fn make_git_blob(&self, relative: &String, content: &Vec<u8>) -> (r: Result<GitBlob, NoteError>)
        ensures
            match r {
                Ok(b) => valid_utf8(content@) && b.id@ == sha1_hex(blob_object(content@))
                    && b.file_path == *relative && b.content@ == decode_utf8(content@),
                Err(e) => !valid_utf8(content@) && e == NoteError::InvalidContent,
            },
    {
        let blob = self.make_blob_bytes(content);
        let id = self.oid(&blob);
        match utf8_text(content) {
            Some(text) => Ok(GitBlob { id, file_path: relative.clone(), content: text }),
            None => Err(NoteError::InvalidContent),
        }
    }

    /// The blob with id `oid` from the bytes stored for it; `InvalidContent`
    /// when they do not decompress or hold no UTF-8 text.
    pub fn read_git_blob(&self, relative: &String, oid: &String, stored: &Vec<u8>) -> (r: Result<GitBlob, NoteError>)
        ensures
            match r {
                Ok(b) => b.id == *oid && b.file_path == *relative
                    && valid_utf8(object_body(zlib_inflated(stored@)))
                    && b.content@ == decode_utf8(object_body(zlib_inflated(stored@))),
                Err(e) => e == NoteError::InvalidContent,
            },
    {
        match zlib_decompress(stored) {
            Some(raw) => {
                let body = strip_object_header(&raw);
                match utf8_text(&body) {
                    Some(text) => Ok(GitBlob { id: oid.clone(), file_path: relative.clone(), content: text }),
                    None => Err(NoteError::InvalidContent),
                }
            },
            None => Err(NoteError::InvalidContent),
        }
    }
}

impl<T: GitDiffer> Libgit for ManualLibgit<T> {
    fn diff(&self, old_content: &String, new_content: &String, diff_model: &mut DiffModel) {
        self.differ.diff(old_content, new_content, diff_model);
    }
}

} // verus!
