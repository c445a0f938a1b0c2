use vstd::prelude::*;
use vstd::std_specs::iter::IteratorSpec;

verus! {

/// What `str::trim` returns on a string with these characters.
pub uninterp spec fn trimmed(s: Seq<char>) -> Seq<char>;

/// Relies on `str::trim`: leading and trailing whitespace removed; the result
/// depends on the characters alone.
#[verifier::external_body]
pub(crate) fn trim_str(s: &str) -> (r: &str)
    ensures
        r@ == trimmed(s@),
{
    s.trim()
}

/// Index of the first `'\n'` in `s` at or after `i`, or `s.len()` when none.
pub open spec fn next_newline(s: Seq<char>, i: int) -> int
    decreases s.len() - i,
{
    if i < 0 || i >= s.len() {
        s.len() as int
    } else if s[i] == '\n' {
        i
    } else {
        next_newline(s, i + 1)
    }
}

/// A line that ended in `"\r\n"` loses its `'\r'`.
pub open spec fn strip_cr(line: Seq<char>) -> Seq<char> {
    if line.len() > 0 && line.last() == '\r' {
        line.drop_last()
    } else {
        line
    }
}

/// The lines of `s` from position `i` on, as `str::lines` yields them: split at
/// `"\n"` or `"\r\n"`, terminators dropped, the final terminator optional.
pub open spec fn lines_from(s: Seq<char>, i: int) -> Seq<Seq<char>>
    decreases s.len() + 1 - i via lines_from_decreases
{
    if i < 0 || i >= s.len() {
        Seq::empty()
    } else {
        let e = next_newline(s, i);
        let raw = s.subrange(i, e);
        let line = if e < s.len() { strip_cr(raw) } else { raw };
        seq![line] + lines_from(s, e + 1)
    }
}

#[via_fn]
proof fn lines_from_decreases(s: Seq<char>, i: int) {
    if 0 <= i < s.len() {
        lemma_next_newline_bounds(s, i);
    }
}

/// The lines of a text.
pub open spec fn lines_of(s: Seq<char>) -> Seq<Seq<char>> {
    lines_from(s, 0)
}

proof fn lemma_next_newline_bounds(s: Seq<char>, i: int)
    requires
        0 <= i <= s.len(),
    ensures
        i <= next_newline(s, i) <= s.len(),
        next_newline(s, i) < s.len() ==> s[next_newline(s, i)] == '\n',
        forall|j: int| i <= j < next_newline(s, i) ==> s[j] != '\n',
    decreases s.len() - i,
{
    if i < s.len() && s[i] != '\n' {
        lemma_next_newline_bounds(s, i + 1);
    }
}

/// The characters of `s`, in order.
pub fn chars_of(s: &str) -> (r: Vec<char>)
    ensures
        r@ == s@,
{
    broadcast use vstd::string::group_string_axioms;
    broadcast use vstd::string::next_postcondition;
    let mut it = s.chars();
    let mut v: Vec<char> = Vec::new();
    loop
        invariant
            v@ + it.remaining() == s@,
            it.decrease() is Some,
        decreases it.decrease()->0,
    {
        match it.next() {
            Some(c) => {
                v.push(c);
            },
            None => {
                return v;
            },
        }
    }
}

/// The line of `content` at zero-based index `line`, without its terminator,
/// or `None` when the text has no such line.
pub fn line_at(content: &str, line: usize) -> (r: Option<String>)
    ensures
        match r {
            Some(x) => line < lines_of(content@).len() && x@ == lines_of(content@)[line as int],
            None => line >= lines_of(content@).len(),
        },
{
    let cs = chars_of(content);
    let n = cs.len();
    let ghost s = content@;
    let mut i: usize = 0;
    let mut k: usize = 0;
    while i < n
        invariant
            n == s.len(),
            cs@ == s,
            s == content@,
            0 <= i <= n,
            k <= line,
            k <= lines_of(s).len(),
            lines_of(s).subrange(k as int, lines_of(s).len() as int) == lines_from(s, i as int),
        decreases n - i,
    {
        let mut e: usize = i;
        while e < n && cs[e] != '\n'
            invariant
                i <= e <= n,
                cs@ == s,
                s == content@,
                n == s.len(),
                next_newline(s, i as int) == next_newline(s, e as int),
            decreases n - e,
        {
            e = e + 1;
        }
        proof {
            lemma_next_newline_bounds(s, i as int);
            let all = lines_of(s);
            let rest = lines_from(s, e as int + 1);
            assert(lines_from(s, i as int) == seq![lines_from(s, i as int)[0]] + rest);
            let sub = all.subrange(k as int, all.len() as int);
            assert(sub.len() == 1 + rest.len());
            assert(all.subrange(k as int + 1, all.len() as int) =~= sub.subrange(1, sub.len() as int));
            assert(sub.subrange(1, sub.len() as int) =~= rest);
        }
        if k == line {
            let mut stop = e;
            if e < n && e > i && cs[e - 1] == '\r' {
                stop = e - 1;
            }
            let r = content.substring_char(i, stop).to_owned();
            proof {
                let all = lines_of(s);
                assert(all[k as int] == all.subrange(k as int, all.len() as int)[0]);
                assert(r@ =~= lines_from(s, i as int)[0]);
            }
            return Some(r);
        }
        if e >= n {
            proof {
                assert(lines_from(s, e as int + 1) == Seq::<Seq<char>>::empty());
                let all = lines_of(s);
                assert(all.subrange(k as int, all.len() as int).len() == 1);
            }
            return None;
        }
        i = e + 1;
        k = k + 1;
    }
    proof {
        assert(lines_from(s, i as int) == Seq::<Seq<char>>::empty());
    }
    None
}

/// Whether position `j` of `s` holds a `'\r'` that starts a `"\r\n"`.
pub open spec fn is_cr_before_lf(s: Seq<char>, j: int) -> bool {
    0 <= j && j + 1 < s.len() && s[j] == '\r' && s[j + 1] == '\n'
}

/// The first `n` characters of `s` with every `"\r\n"` turned into `"\n"`.
pub open spec fn crlf_to_lf(s: Seq<char>, n: int) -> Seq<char>
    decreases n,
{
    if n <= 0 {
        Seq::empty()
    } else if is_cr_before_lf(s, n - 1) {
        crlf_to_lf(s, n - 1)
    } else {
        crlf_to_lf(s, n - 1).push(s[n - 1])
    }
}

/// `s` with every `"\r\n"` line ending turned into `"\n"`.
pub fn normalize_newlines(s: &str) -> (r: String)
    ensures
        r@ == crlf_to_lf(s@, s@.len() as int),
{
    let cs = chars_of(s);
    let n = cs.len();
    let mut out = String::new();
    let mut start: usize = 0;
    let mut i: usize = 0;
    while i < n
        invariant
            n == s@.len(),
            cs@ == s@,
            0 <= start <= i <= n,
            out@ + s@.subrange(start as int, i as int) == crlf_to_lf(s@, i as int),
        decreases n - i,
    {
        if cs[i] == '\r' && i + 1 < n && cs[i + 1] == '\n' {
            let seg = s.substring_char(start, i);
            out.append(seg);
            start = i + 1;
            proof {
                assert(s@.subrange(start as int, i + 1) =~= Seq::<char>::empty());
                assert(out@ + s@.subrange(start as int, i + 1) =~= out@);
            }
        } else {
            proof {
                assert(s@.subrange(start as int, i + 1) =~= s@.subrange(start as int, i as int).push(
                    s@[i as int],
                ));
                assert(!is_cr_before_lf(s@, i as int));
            }
        }
        i = i + 1;
    }
    let seg = s.substring_char(start, n);
    out.append(seg);
    out
}

} // verus!
