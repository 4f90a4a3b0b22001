//! Paths as text.
//!
//! A path is a sequence of characters in which `/` separates segments. Trailing
//! separators do not count: the final segment of `a/b/` is `b`. The rules below
//! only read the text; they never ask the filesystem.

use crate::text::chars_of;
use vstd::prelude::*;
use vstd::string::*;

verus! {

/// What a path's final segment asks for.
#[derive(Debug, Copy, Clone, PartialEq, Eq, Structural)]
pub enum LeafKind {
    /// An empty regular file.
    File,
    /// A directory.
    Directory,
}

/// The position just behind the last `mark` among the first `end` characters of
/// `s`, or 0 where there is none.
pub open spec fn after_last(s: Seq<char>, end: int, mark: char) -> int
    decreases end,
{
    if end <= 0 {
        0
    } else if end > s.len() {
        after_last(s, s.len() as int, mark)
    } else if s[end - 1] == mark {
        end
    } else {
        after_last(s, end - 1, mark)
    }
}

/// The length of `p` once its trailing separators are dropped.
pub open spec fn leaf_end(p: Seq<char>) -> int
    decreases p.len(),
{
    if p.len() > 0 && p.last() == '/' {
        leaf_end(p.drop_last())
    } else {
        p.len() as int
    }
}

/// Where the final segment of `p` begins.
pub open spec fn leaf_start(p: Seq<char>) -> int {
    after_last(p, leaf_end(p), '/')
}

/// The final segment of `p`: what stands between the last separator and the
/// trailing ones. It is empty for the empty path and for a path of separators only.
pub open spec fn final_segment_of(p: Seq<char>) -> Seq<char> {
    p.subrange(leaf_start(p), leaf_end(p))
}

/// The directory that holds the final segment of `p`, where `p` names one.
///
/// There is none for a path without a final segment, nor for a single relative
/// segment, which lies in the current directory. Directly below the root it is `/`.
pub open spec fn parent_of(p: Seq<char>) -> Option<Seq<char>> {
    let start = leaf_start(p);
    if start == leaf_end(p) || start == 0 {
        None
    } else {
        let end = leaf_end(p.subrange(0, start));
        if end == 0 {
            Some(p.subrange(0, 1))
        } else {
            Some(p.subrange(0, end))
        }
    }
}

/// The directory part of `p` as it is named to the user: the parent, and
/// nothing where there is none.
pub open spec fn directory_of(p: Seq<char>) -> Seq<char> {
    match parent_of(p) {
        Some(dir) => dir,
        None => Seq::empty(),
    }
}

/// Whether a segment carries an extension: its last `.` has at least one
/// character before it and at least one behind it. So `notes.txt` and `..a` do,
/// while `dir`, `.hidden`, `name.`, `.` and `..` do not.
pub open spec fn has_extension_of(segment: Seq<char>) -> bool {
    1 < after_last(segment, segment.len() as int, '.') < segment.len()
}

/// What is created at `p`: a file where the final segment carries an extension,
/// a directory otherwise.
pub open spec fn leaf_kind_of(p: Seq<char>) -> LeafKind {
    if has_extension_of(final_segment_of(p)) {
        LeafKind::File
    } else {
        LeafKind::Directory
    }
}

/// `after_last` by what it finds: the character before the result is `mark`,
/// and no `mark` stands between the result and `end`.
pub proof fn lemma_after_last(s: Seq<char>, end: int, mark: char)
    requires
        0 <= end <= s.len(),
    ensures
        0 <= after_last(s, end, mark) <= end,
        after_last(s, end, mark) > 0 ==> s[after_last(s, end, mark) - 1] == mark,
        forall|j: int| after_last(s, end, mark) <= j < end ==> s[j] != mark,
    decreases end,
{
    if end > 0 && s[end - 1] != mark {
        lemma_after_last(s, end - 1, mark);
    }
}

/// `leaf_end` by what it finds: only separators stand behind it, and none
/// stands directly before it.
pub proof fn lemma_leaf_end(p: Seq<char>)
    ensures
        0 <= leaf_end(p) <= p.len(),
        leaf_end(p) > 0 ==> p[leaf_end(p) - 1] != '/',
        forall|j: int| leaf_end(p) <= j < p.len() ==> p[j] == '/',
    decreases p.len(),
{
    if p.len() > 0 && p.last() == '/' {
        let front = p.drop_last();
        lemma_leaf_end(front);
        assert forall|j: int| leaf_end(p) <= j < p.len() implies p[j] == '/' by {
            if j < front.len() {
                assert(front[j] == '/');
            }
        }
    }
}

/// The final segment holds no separator, and is empty only where the whole
/// path is empty or made of separators.
pub proof fn lemma_final_segment(p: Seq<char>)
    ensures
        0 <= leaf_start(p) <= leaf_end(p) <= p.len(),
        forall|j: int| 0 <= j < final_segment_of(p).len() ==> final_segment_of(p)[j] != '/',
        final_segment_of(p).len() == 0 <==> leaf_end(p) == 0,
{
    lemma_leaf_end(p);
    lemma_after_last(p, leaf_end(p), '/');
}

/// The parent is the beginning of the path: it is not empty, only separators
/// stand between it and the final segment, and it ends in a separator only
/// where it is the root.
pub proof fn lemma_parent(p: Seq<char>)
    ensures
        parent_of(p) matches Some(dir) ==> {
            &&& 0 < dir.len() <= leaf_start(p)
            &&& dir == p.subrange(0, dir.len() as int)
            &&& forall|j: int| dir.len() <= j < leaf_start(p) ==> p[j] == '/'
            &&& dir.last() == '/' ==> dir.len() == 1
        },
{
    lemma_final_segment(p);
    let start = leaf_start(p);
    if start != leaf_end(p) && start != 0 {
        let front = p.subrange(0, start);
        lemma_leaf_end(front);
        lemma_after_last(p, leaf_end(p), '/');
        let end = leaf_end(front);
        assert forall|j: int| end <= j < start implies p[j] == '/' by {
            assert(front[j] == '/');
        }
        if end > 0 {
            assert(front[end - 1] != '/');
        }
    }
}

/// Whether the `.` at position `dot` sets an extension off: it is neither the
/// first nor the last character of the segment, and no `.` follows it.
pub open spec fn is_extension_dot(segment: Seq<char>, dot: int) -> bool {
    &&& 0 < dot < segment.len() - 1
    &&& segment[dot] == '.'
    &&& forall|j: int| dot < j < segment.len() ==> segment[j] != '.'
}

/// A segment carries an extension exactly when one of its characters is such
/// a `.`.
pub proof fn lemma_extension(segment: Seq<char>)
    ensures
        has_extension_of(segment) <==> exists|dot: int| is_extension_dot(segment, dot),
{
    let behind = after_last(segment, segment.len() as int, '.');
    lemma_after_last(segment, segment.len() as int, '.');
    if has_extension_of(segment) {
        assert(is_extension_dot(segment, behind - 1));
    }
    if exists|dot: int| is_extension_dot(segment, dot) {
        let dot = choose|dot: int| is_extension_dot(segment, dot);
        assert(behind == dot + 1) by {
            if behind <= dot {
                assert(segment[dot] != '.');
            } else if behind > dot + 1 {
                assert(segment[behind - 1] != '.');
            }
        }
    }
}

/// The number of characters that remain of the first `end` of `chars` once the
/// separators at their end are dropped.
fn scan_leaf_end(chars: &Vec<char>, end: usize) -> (kept: usize)
    requires
        end <= chars.len(),
    ensures
        kept <= end,
        kept == leaf_end(chars@.subrange(0, end as int)),
{
    let mut kept = end;
    while kept > 0 && chars[kept - 1] == '/'
        invariant
            kept <= end <= chars.len(),
            leaf_end(chars@.subrange(0, end as int)) == leaf_end(chars@.subrange(0, kept as int)),
        decreases kept,
    {
        assert(chars@.subrange(0, kept as int).drop_last() == chars@.subrange(0, kept - 1));
        kept = kept - 1;
    }
    kept
}

/// The position just behind the last `mark` among the first `end` of `chars`.
fn scan_after_last(chars: &Vec<char>, end: usize, mark: char) -> (at: usize)
    requires
        end <= chars.len(),
    ensures
        at <= end,
        at == after_last(chars@, end as int, mark),
{
    let mut at = end;
    while at > 0 && chars[at - 1] != mark
        invariant
            at <= end <= chars.len(),
            after_last(chars@, end as int, mark) == after_last(chars@, at as int, mark),
        decreases at,
    {
        at = at - 1;
    }
    at
}

/// Where the final segment of `chars` begins and where it ends.
fn leaf_bounds(chars: &Vec<char>) -> (bounds: (usize, usize))
    ensures
        bounds.0 == leaf_start(chars@),
        bounds.1 == leaf_end(chars@),
        bounds.0 <= bounds.1 <= chars.len(),
{
    assert(chars@.subrange(0, chars@.len() as int) == chars@);
    let end = scan_leaf_end(chars, chars.len());
    let start = scan_after_last(chars, end, '/');
    (start, end)
}

/// The final segment of `path`.
pub fn final_segment(path: &str) -> (segment: &str)
    ensures
        segment@ == final_segment_of(path@),
{
    let chars = chars_of(path);
    let (start, end) = leaf_bounds(&chars);
    path.substring_char(start, end)
}

/// The directory in which the final segment of `path` lies, where one has to
/// be named: see [`parent_of`].
pub fn parent(path: &str) -> (dir: Option<&str>)
    ensures
        match dir {
            Some(d) => parent_of(path@) == Some(d@),
            None => parent_of(path@) is None,
        },
{
    let chars = chars_of(path);
    let (start, end) = leaf_bounds(&chars);
    if start == end || start == 0 {
        None
    } else {
        let dir_end = scan_leaf_end(&chars, start);
        if dir_end == 0 {
            Some(path.substring_char(0, 1))
        } else {
            Some(path.substring_char(0, dir_end))
        }
    }
}

/// The directory part of `path`, empty where it has no parent.
pub fn directory(path: &str) -> (dir: String)
    ensures
        dir@ == directory_of(path@),
{
    match parent(path) {
        Some(d) => String::from_str(d),
        None => String::new(),
    }
}

/// Whether `segment` carries an extension.
pub fn has_extension(segment: &str) -> (yes: bool)
    ensures
        yes == has_extension_of(segment@),
{
    let chars = chars_of(segment);
    let behind_dot = scan_after_last(&chars, chars.len(), '.');
    1 < behind_dot && behind_dot < chars.len()
}

/// What is created at `path`.
pub fn leaf_kind(path: &str) -> (kind: LeafKind)
    ensures
        kind == leaf_kind_of(path@),
{
    if has_extension(final_segment(path)) {
        LeafKind::File
    } else {
        LeafKind::Directory
    }
}

} // verus!
