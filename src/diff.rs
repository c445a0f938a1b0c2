use vstd::prelude::*;

use crate::note::Message;
use crate::text::{trim_str, trimmed};

verus! {

/// The kind of one record of a line diff.
#[derive(Clone, Copy, Debug, PartialEq, Eq, Structural)]
pub enum ChangeTag {
    Equal,
    Delete,
    Insert,
}

/// One record of a line diff between an old and a new text.
#[derive(Debug)]
pub struct LineChange {
    pub tag: ChangeTag,
    pub old_index: Option<usize>,
    pub new_index: Option<usize>,
    /// The line's text, line terminator included.
    pub value: String,
}

/// The anchor of one note while it is being resolved against a newer text.
#[derive(Debug)]
pub struct DiffModel {
    pub line: usize,
    pub snippet: String,
    pub valid: bool,
}

/// Whether the snippet and a line of text are equal once trimmed.
pub open spec fn same_trimmed(snippet: Seq<char>, text: Seq<char>) -> bool {
    trimmed(snippet) == trimmed(text)
}

/// Walks the diff records from index `i` on, for an anchor at old line `line`.
/// `pending` is set once the anchored line was seen deleted; the next inserted
/// line then decides. The result is `Some(new line)` when the anchor survives.
pub open spec fn walk(changes: Seq<LineChange>, i: int, line: usize, snippet: Seq<char>, pending: bool) -> Option<usize>
    decreases changes.len() - i,
{
    if i < 0 || i >= changes.len() {
        None
    } else {
        let c = changes[i];
        if c.old_index is Some && c.new_index is Some && c.tag == ChangeTag::Equal
            && c.old_index->0 == line {
            Some(c.new_index->0)
        } else if c.old_index is Some && c.new_index is None && c.old_index->0 == line {
            walk(changes, i + 1, line, snippet, true)
        } else if c.old_index is None && c.new_index is Some && pending {
            if same_trimmed(snippet, c.value@) {
                Some(c.new_index->0)
            } else {
                None
            }
        } else {
            walk(changes, i + 1, line, snippet, pending)
        }
    }
}

/// The anchor after the diff records have been walked: moved to its new line
/// when it survives, marked invalid otherwise.
pub open spec fn resolved_model(changes: Seq<LineChange>, m: DiffModel) -> DiffModel {
    match walk(changes, 0, m.line, m.snippet@, false) {
        Some(n) => DiffModel { line: n, snippet: m.snippet, valid: m.valid },
        None => DiffModel { line: m.line, snippet: m.snippet, valid: false },
    }
}

impl DiffModel {
    /// The anchor of a note, taken as valid until a diff says otherwise.
    pub fn of(message: &Message) -> (r: DiffModel)
        ensures
            r == (DiffModel { line: message.line, snippet: message.snippet, valid: true }),
    {
        DiffModel { line: message.line, snippet: message.snippet.clone(), valid: true }
    }

    /// Whether the anchored snippet equals `other`, leading and trailing
    /// whitespace ignored on both sides.
    pub fn eq_trim(&self, other: &str) -> (r: bool)
        ensures
            r == same_trimmed(self.snippet@, other@),
    {
        let a = trim_str(self.snippet.as_str()).to_owned();
        let b = trim_str(other).to_owned();
        a == b
    }
}

/// Walks the diff records in order and moves or invalidates the anchor.
pub fn resolve_changes(changes: &Vec<LineChange>, diff_model: &mut DiffModel)
    ensures
        *final(diff_model) == resolved_model(changes@, *old(diff_model)),
{
    let ghost start = *old(diff_model);
    let mut pending = false;
    let mut i: usize = 0;
    while i < changes.len()
        invariant
            0 <= i <= changes@.len(),
            *diff_model == start,
            start == *old(diff_model),
            walk(changes@, 0, start.line, start.snippet@, false)
                == walk(changes@, i as int, start.line, start.snippet@, pending),
        decreases changes@.len() - i,
    {
        let c = &changes[i];
        match (c.old_index, c.new_index) {
            (Some(old_line), Some(new_line)) => {
                if c.tag == ChangeTag::Equal && old_line == diff_model.line {
                    assert(walk(changes@, i as int, start.line, start.snippet@, pending) == Some(new_line));
                    diff_model.line = new_line;
                    return;
                }
            },
            (Some(old_line), None) => {
                if old_line == diff_model.line {
                    pending = true;
                }
            },
            (None, Some(new_line)) => {
                if pending {
                    assert(walk(changes@, i as int, start.line, start.snippet@, pending)
                        == if same_trimmed(start.snippet@, c.value@) { Some(new_line) } else { None::<usize> });
                    if diff_model.eq_trim(c.value.as_str()) {
                        diff_model.line = new_line;
                    } else {
                        diff_model.valid = false;
                    }
                    return;
                }
            },
            (None, None) => {},
        }
        i = i + 1;
    }
    diff_model.valid = false;
}

/// The records that a line diff of `old` against `new` yields, in order.
pub uninterp spec fn line_diff(old: Seq<char>, new: Seq<char>) -> Seq<LineChange>;

/// Relies on similar's `TextDiff::from_lines` and `iter_all_changes`: every
/// record of the line diff, in order. The default configuration sets no
/// deadline, so the records depend on the two texts alone.
#[verifier::external_body]
fn line_changes(old: &str, new: &str) -> (r: Vec<LineChange>)
    ensures
        r@ == line_diff(old@, new@),
{
    similar::TextDiff::from_lines(old, new).iter_all_changes().map(|c| LineChange {
        tag: match c.tag() {
            similar::ChangeTag::Equal => ChangeTag::Equal,
            similar::ChangeTag::Delete => ChangeTag::Delete,
            similar::ChangeTag::Insert => ChangeTag::Insert,
        },
        old_index: c.old_index(),
        new_index: c.new_index(),
        value: c.value().to_string(),
    }).collect()
}

/// A way to move an anchor from an old text to a new one.
pub trait GitDiffer {
    fn diff(&self, old_content: &String, new_content: &String, diff_model: &mut DiffModel)
        ensures
            *final(diff_model) == resolved_model(
                line_diff(old_content@, new_content@),
                *old(diff_model),
            ),
    ;
}

/// Moves anchors along the line diff that the `similar` crate computes.
pub struct SimilarGitDiffer;

impl GitDiffer for SimilarGitDiffer {
    fn diff(&self, old_content: &String, new_content: &String, diff_model: &mut DiffModel) {
        let changes = line_changes(old_content.as_str(), new_content.as_str());
        resolve_changes(&changes, diff_model);
    }
}

/// A record that keeps the old line `line` unchanged.
pub open spec fn is_equal_at(c: LineChange, line: usize) -> bool {
    c.old_index == Some(line) && c.new_index is Some && c.tag == ChangeTag::Equal
}

/// A record that removes the old line `line`.
pub open spec fn is_delete_at(c: LineChange, line: usize) -> bool {
    c.old_index == Some(line) && c.new_index is None
}

proof fn lemma_walk_untouched(changes: Seq<LineChange>, i: int, line: usize, snippet: Seq<char>)
    requires
        0 <= i,
        forall|j: int| 0 <= j < changes.len() ==> !is_equal_at(#[trigger] changes[j], line)
            && !is_delete_at(changes[j], line),
    ensures
        walk(changes, i, line, snippet, false) is None,
    decreases changes.len() - i,
{
    if i < changes.len() {
        assert(!is_equal_at(changes[i], line) && !is_delete_at(changes[i], line));
        lemma_walk_untouched(changes, i + 1, line, snippet);
    }
}

/// An anchor whose line the diff neither keeps as equal nor deletes was removed
/// wholesale: it resolves as invalid.
pub proof fn lemma_untouched_line_invalid(changes: Seq<LineChange>, m: DiffModel)
    requires
        forall|j: int| 0 <= j < changes.len() ==> !is_equal_at(#[trigger] changes[j], m.line)
            && !is_delete_at(changes[j], m.line),
    ensures
        !resolved_model(changes, m).valid,
{
    lemma_walk_untouched(changes, 0, m.line, m.snippet@);
}

} // verus!
