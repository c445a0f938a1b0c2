use vstd::prelude::*;

use crate::error::NoteError;

verus! {

/// `tail` appended to `base` as a path: an absolute `tail` replaces `base`,
/// and a separator is put between them unless `base` is empty or ends in one.
pub open spec fn path_join(base: Seq<char>, tail: Seq<char>) -> Seq<char> {
    if tail.len() > 0 && tail[0] == '/' {
        tail
    } else if base.len() == 0 || base.last() == '/' {
        base + tail
    } else {
        base + seq!['/'] + tail
    }
}

/// The path of `path` relative to `root`, when `path` lies under `root`
/// (component-wise: `/a/bc` does not lie under `/a/b`).
pub open spec fn relative_to(root: Seq<char>, path: Seq<char>) -> Option<Seq<char>> {
    if path.len() < root.len() || path.subrange(0, root.len() as int) != root {
        None
    } else {
        let rest = path.subrange(root.len() as int, path.len() as int);
        if rest.len() == 0 {
            Some(rest)
        } else if rest[0] == '/' {
            Some(rest.subrange(1, rest.len() as int))
        } else if root.len() > 0 && root.last() == '/' {
            Some(rest)
        } else {
            None
        }
    }
}

/// Joins two paths as `Path::join` does on Unix.
pub fn join(base: &str, tail: &str) -> (r: String)
    ensures
        r@ == path_join(base@, tail@),
{
    let tail_len = tail.unicode_len();
    if tail_len > 0 && tail.get_char(0) == '/' {
        return tail.to_owned();
    }
    let base_len = base.unicode_len();
    if base_len == 0 || base.get_char(base_len - 1) == '/' {
        String::from_str(base).concat(tail)
    } else {
        let sep = "/";
        proof {
            reveal_strlit("/");
        }
        let r = String::from_str(base).concat(sep).concat(tail);
        proof {
            assert(r@ =~= base@ + seq!['/'] + tail@);
        }
        r
    }
}

/// The paths around one file of a repository: the repository's root and the
/// file's path relative to it.
#[derive(Debug, Clone)]
pub struct Paths {
    pub root: String,
    pub relative: String,
}

impl Paths {
    pub fn new(root: String, relative: String) -> (r: Paths)
        ensures
            r.root == root,
            r.relative == relative,
    {
        Paths { root, relative }
    }

    pub fn root(&self) -> (r: String)
        ensures
            r == self.root,
    {
        self.root.clone()
    }

    pub fn relative(&self) -> (r: String)
        ensures
            r == self.relative,
    {
        self.relative.clone()
    }

    /// The file's full path.
    pub fn canonical(&self) -> (r: String)
        ensures
            r@ == path_join(self.root@, self.relative@),
    {
        join(self.root.as_str(), self.relative.as_str())
    }

    /// The repository's object store.
    pub fn objects(&self) -> (r: String)
        ensures
            r@ == path_join(self.root@, ".git/objects"@),
    {
        join(self.root.as_str(), ".git/objects")
    }

    /// The directory that holds the notes.
    pub fn home(&self) -> (r: String)
        ensures
            r@ == path_join(self.root@, ".git/notes"@),
    {
        join(self.root.as_str(), ".git/notes")
    }

    /// The configuration file.
    pub fn config(&self) -> (r: String)
        ensures
            r@ == path_join(path_join(self.root@, ".git/notes"@), "config.yml"@),
    {
        let home = self.home();
        join(home.as_str(), "config.yml")
    }

    /// Where the record with identity `id` is stored: a directory named by
    /// the first two characters of `id`, a file named by the rest.
    pub fn note(&self, id: &String) -> (r: String)
        requires
            id@.len() >= 2,
        ensures
            r@ == path_join(
                path_join(path_join(self.root@, ".git/notes"@), id@.subrange(0, 2)),
                id@.subrange(2, id@.len() as int),
            ),
    {
        let home = self.home();
        let n = id.as_str().unicode_len();
        let dir = id.as_str().substring_char(0, 2);
        let file = id.as_str().substring_char(2, n);
        let shard = join(home.as_str(), dir);
        join(shard.as_str(), file)
    }
}

/// Finds where a file stands inside its repository.
#[derive(Debug)]
pub struct PathResolver;

impl PathResolver {
    /// The paths of the file at full path `canonical` inside the repository
    /// rooted at `root`; `IdentityResolution` when it lies outside.
    pub fn resolve(root: &String, canonical: &String) -> (r: Result<Paths, NoteError>)
        ensures
            match relative_to(root@, canonical@) {
                Some(rel) => r matches Ok(p) && p.root == *root && p.relative@ == rel,
                None => r == Err::<Paths, NoteError>(NoteError::IdentityResolution),
            },
    {
        let rs = root.as_str();
        let cs = canonical.as_str();
        let rn = rs.unicode_len();
        let cn = cs.unicode_len();
        if cn < rn {
            return Err(NoteError::IdentityResolution);
        }
        let mut i: usize = 0;
        while i < rn
            invariant
                rn == root@.len(),
                cn == canonical@.len(),
                rs@ == root@,
                cs@ == canonical@,
                rn <= cn,
                0 <= i <= rn,
                forall|j: int| 0 <= j < i ==> root@[j] == canonical@[j],
            decreases rn - i,
        {
            if rs.get_char(i) != cs.get_char(i) {
                proof {
                    assert(canonical@.subrange(0, rn as int)[i as int] != root@[i as int]);
                }
                return Err(NoteError::IdentityResolution);
            }
            i = i + 1;
        }
        proof {
            assert(canonical@.subrange(0, rn as int) =~= root@);
        }
        let rest = cs.substring_char(rn, cn);
        let rest_len = cn - rn;
        if rest_len == 0 {
            Ok(Paths::new(root.clone(), rest.to_owned()))
        } else if rest.get_char(0) == '/' {
            let rel = rest.substring_char(1, rest_len);
            Ok(Paths::new(root.clone(), rel.to_owned()))
        } else if rn > 0 && rs.get_char(rn - 1) == '/' {
            Ok(Paths::new(root.clone(), rest.to_owned()))
        } else {
            Err(NoteError::IdentityResolution)
        }
    }
}

} // verus!
