//! Paths as byte strings.
//!
//! A path is a sequence of bytes in which `/` separates names. Two spellings
//! that differ only in repeated separators, in a trailing separator or in a
//! `.` that changes nothing name the same file, so the lock table compares
//! paths by their [`PathKey`].

use vstd::prelude::*;

verus! {

/// The byte that separates two names.
pub const SEPARATOR: u8 = 47u8;

/// The byte of the name that stands for the directory itself.
pub const DOT: u8 = 46u8;

/// What two spellings of one path have in common: whether it starts at the
/// file system's root, and its names in order.
#[verifier::ext_equal]
pub struct PathKey {
    pub absolute: bool,
    pub names: Seq<Seq<u8>>,
}

/// Whether a path starts at the file system's root.
pub open spec fn is_absolute(p: Seq<u8>) -> bool {
    p.len() > 0 && p[0] == SEPARATOR
}

/// Where the name that starts at `start` ends.
pub open spec fn name_end(p: Seq<u8>, start: int) -> int
    decreases p.len() - start,
{
    if start < 0 || start >= p.len() || p[start] == SEPARATOR {
        start
    } else {
        name_end(p, start + 1)
    }
}

/// Whether the bytes from `start` to `end` count as a name: an empty stretch
/// does not, and `.` does only at the very start of a path.
pub open spec fn counts(p: Seq<u8>, start: int, end: int) -> bool {
    start < end && (start == 0 || !(end == start + 1 && p[start] == DOT))
}

/// The stretches of the path from `start` on that are names.
pub open spec fn spans_from(p: Seq<u8>, start: int) -> Seq<(int, int)>
    decreases p.len() + 1 - start,
{
    if start < 0 || start >= p.len() {
        Seq::empty()
    } else {
        let end = name_end(p, start);
        proof {
            lemma_name_end(p, start);
        }
        let rest = spans_from(p, end + 1);
        if counts(p, start, end) {
            seq![(start, end)] + rest
        } else {
            rest
        }
    }
}

/// The names of a path, in order.
pub open spec fn names(p: Seq<u8>) -> Seq<Seq<u8>> {
    spans_from(p, 0).map_values(|s: (int, int)| p.subrange(s.0, s.1))
}

/// What the spelling `p` names.
pub open spec fn path_key(p: Seq<u8>) -> PathKey {
    PathKey { absolute: is_absolute(p), names: names(p) }
}

/// `path` seen from the directory `root`: an absolute path stands as it is,
/// any other continues `root` behind exactly one separator.
pub open spec fn joined(root: Seq<u8>, path: Seq<u8>) -> Seq<u8> {
    if is_absolute(path) {
        path
    } else if root.len() == 0 || root.last() == SEPARATOR {
        root + path
    } else {
        root.push(SEPARATOR) + path
    }
}

/// The path without its last name, and without what stands between that name
/// and the one before it. A path without a name has no parent.
pub open spec fn parent_of(p: Seq<u8>) -> Option<Seq<u8>> {
    let spans = spans_from(p, 0);
    if spans.len() == 0 {
        None
    } else if spans.len() > 1 {
        Some(p.subrange(0, spans[spans.len() - 2].1))
    } else if is_absolute(p) {
        Some(seq![SEPARATOR])
    } else {
        Some(Seq::empty())
    }
}

/// The name that starts at `start` runs up to the next separator or to the end
/// of the path.
pub proof fn lemma_name_end(p: Seq<u8>, start: int)
    requires
        0 <= start <= p.len(),
    ensures
        start <= name_end(p, start) <= p.len(),
        name_end(p, start) < p.len() ==> p[name_end(p, start)] == SEPARATOR,
        forall|i: int| start <= i < name_end(p, start) ==> p[i] != SEPARATOR,
    decreases p.len() - start,
{
    if start < p.len() && p[start] != SEPARATOR {
        lemma_name_end(p, start + 1);
    }
}

/// Every span lies inside the path, at or behind `start`.
pub proof fn lemma_spans_inside(p: Seq<u8>, start: int)
    requires
        0 <= start,
    ensures
        forall|i: int|
            0 <= i < spans_from(p, start).len() ==> start <= (#[trigger] spans_from(p, start)[i]).0
                < spans_from(p, start)[i].1 <= p.len(),
    decreases p.len() + 1 - start,
{
    if start < p.len() {
        let end = name_end(p, start);
        lemma_name_end(p, start);
        lemma_spans_inside(p, end + 1);
        let rest = spans_from(p, end + 1);
        let all = spans_from(p, start);
        assert forall|i: int| 0 <= i < all.len() implies start <= (#[trigger] all[i]).0 < all[i].1
            <= p.len() by {
            if counts(p, start, end) {
                if i > 0 {
                    assert(all[i] == rest[i - 1]);
                }
            } else {
                assert(all[i] == rest[i]);
            }
        }
    }
}

/// Whether `path` starts at the file system's root.
fn absolute(path: &[u8]) -> (r: bool)
    ensures
        r == is_absolute(path@),
{
    path.len() > 0 && path[0] == SEPARATOR
}

/// The stretches of `path` that are its names.
fn spans(path: &[u8]) -> (r: Vec<(usize, usize)>)
    ensures
        r@.map_values(|s: (usize, usize)| (s.0 as int, s.1 as int)) == spans_from(path@, 0),
{
    let ghost as_ints = |s: (usize, usize)| (s.0 as int, s.1 as int);
    let ghost p = path@;
    let mut found: Vec<(usize, usize)> = Vec::new();
    let mut start: usize = 0;
    let mut i: usize = 0;
    let len: usize = path.len();
    assert(found@.map_values(as_ints) + spans_from(p, 0) =~= spans_from(p, 0));
    while i < len
        invariant
            p == path@,
            len == p.len(),
            0 <= start <= i <= len,
            forall|j: int| start <= j < i ==> p[j] != SEPARATOR,
            as_ints == (|s: (usize, usize)| (s.0 as int, s.1 as int)),
            found@.map_values(as_ints) + spans_from(p, start as int) == spans_from(p, 0),
        decreases len - i,
    {
        if path[i] == SEPARATOR {
            proof {
                lemma_name_end_at(p, start as int, i as int);
            }
            let ghost before = found@;
            if start < i && (start == 0 || !(i == start + 1 && path[start] == DOT)) {
                found.push((start, i));
                assert(found@.map_values(as_ints) =~= before.map_values(as_ints).push(
                    (start as int, i as int),
                ));
            }
            assert(found@.map_values(as_ints) + spans_from(p, i + 1) =~= before.map_values(as_ints)
                + spans_from(p, start as int));
            start = i + 1;
        }
        i = i + 1;
    }
    proof {
        lemma_name_end_at(p, start as int, i as int);
    }
    let ghost before = found@;
    if start < i && (start == 0 || !(i == start + 1 && path[start] == DOT)) {
        found.push((start, i));
        assert(found@.map_values(as_ints) =~= before.map_values(as_ints).push(
            (start as int, i as int),
        ));
    }
    assert(spans_from(p, len + 1) =~= Seq::empty());
    assert(found@.map_values(as_ints) =~= before.map_values(as_ints) + spans_from(p, start as int));
    found
}

/// A stretch without a separator that runs up to one, or to the end of the
/// path, is one name.
pub proof fn lemma_name_end_at(p: Seq<u8>, start: int, end: int)
    requires
        0 <= start <= end <= p.len(),
        forall|j: int| start <= j < end ==> p[j] != SEPARATOR,
        end < p.len() ==> p[end] == SEPARATOR,
    ensures
        name_end(p, start) == end,
    decreases end - start,
{
    if start < end {
        lemma_name_end_at(p, start + 1, end);
    }
}

/// Whether the stretch `a[i..j]` holds the same bytes as `b[k..l]`.
fn same_bytes(a: &[u8], i: usize, j: usize, b: &[u8], k: usize, l: usize) -> (r: bool)
    requires
        i <= j <= a@.len(),
        k <= l <= b@.len(),
    ensures
        r == (a@.subrange(i as int, j as int) == b@.subrange(k as int, l as int)),
{
    let ghost left = a@.subrange(i as int, j as int);
    let ghost right = b@.subrange(k as int, l as int);
    if j - i != l - k {
        assert(left.len() != right.len());
        return false;
    }
    let len: usize = j - i;
    let mut n: usize = 0;
    while n < len
        invariant
            len == j - i == l - k,
            i <= j <= a@.len(),
            k <= l <= b@.len(),
            n <= len,
            left == a@.subrange(i as int, j as int),
            right == b@.subrange(k as int, l as int),
            forall|m: int| 0 <= m < n ==> left[m] == right[m],
        decreases len - n,
    {
        if a[i + n] != b[k + n] {
            assert(left[n as int] != right[n as int]);
            return false;
        }
        n = n + 1;
    }
    assert(left =~= right);
    true
}

/// Whether `a` and `b` are spellings of one path.
pub fn same_path(a: &[u8], b: &[u8]) -> (r: bool)
    ensures
        r == (path_key(a@) == path_key(b@)),
{
    let ghost as_ints = |s: (usize, usize)| (s.0 as int, s.1 as int);
    let left = spans(a);
    let right = spans(b);
    let ghost left_names = names(a@);
    let ghost right_names = names(b@);
    proof {
        lemma_spans_inside(a@, 0);
        lemma_spans_inside(b@, 0);
        assert(left@.map_values(as_ints).len() == left@.len());
        assert(right@.map_values(as_ints).len() == right@.len());
        assert forall|i: int| 0 <= i < left@.len() implies (#[trigger] left@[i]).0 <= left@[i].1
            <= a@.len() && left_names[i] == a@.subrange(
            left@[i].0 as int,
            left@[i].1 as int,
        ) by {
            assert(left@.map_values(as_ints)[i] == spans_from(a@, 0)[i]);
        }
        assert forall|i: int| 0 <= i < right@.len() implies (#[trigger] right@[i]).0 <= right@[i].1
            <= b@.len() && right_names[i] == b@.subrange(
            right@[i].0 as int,
            right@[i].1 as int,
        ) by {
            assert(right@.map_values(as_ints)[i] == spans_from(b@, 0)[i]);
        }
    }
    if absolute(a) != absolute(b) || left.len() != right.len() {
        assert(left_names.len() == left@.len());
        assert(right_names.len() == right@.len());
        return false;
    }
    let len: usize = left.len();
    let mut n: usize = 0;
    while n < len
        invariant
            len == left@.len() == right@.len(),
            n <= len,
            left_names == names(a@),
            right_names == names(b@),
            left_names.len() == len,
            right_names.len() == len,
            forall|i: int|
                0 <= i < len ==> (#[trigger] left@[i]).0 <= left@[i].1 <= a@.len() && left_names[i]
                    == a@.subrange(left@[i].0 as int, left@[i].1 as int),
            forall|i: int|
                0 <= i < len ==> (#[trigger] right@[i]).0 <= right@[i].1 <= b@.len()
                    && right_names[i] == b@.subrange(right@[i].0 as int, right@[i].1 as int),
            forall|i: int| 0 <= i < n ==> left_names[i] == right_names[i],
        decreases len - n,
    {
        let (i, j) = left[n];
        let (k, l) = right[n];
        if !same_bytes(a, i, j, b, k, l) {
            assert(left_names[n as int] != right_names[n as int]);
            return false;
        }
        n = n + 1;
    }
    assert(left_names =~= right_names);
    true
}

/// A copy of the first `len` bytes of `path`.
fn prefix(path: &[u8], len: usize) -> (r: Vec<u8>)
    requires
        len <= path@.len(),
    ensures
        r@ == path@.subrange(0, len as int),
{
    let mut out: Vec<u8> = Vec::new();
    let mut i: usize = 0;
    while i < len
        invariant
            i <= len <= path@.len(),
            out@ == path@.subrange(0, i as int),
        decreases len - i,
    {
        out.push(path[i]);
        i = i + 1;
        assert(out@ =~= path@.subrange(0, i as int));
    }
    out
}

/// A copy of `path`.
pub(crate) fn copy(path: &[u8]) -> (r: Vec<u8>)
    ensures
        r@ == path@,
{
    let r = prefix(path, path.len());
    assert(r@ =~= path@);
    r
}

/// `path` as seen from the directory `root`.
///
/// An absolute `path` replaces `root`; any other is put behind it, with one
/// separator between them.
pub fn join(root: &[u8], path: &[u8]) -> (r: Vec<u8>)
    ensures
        r@ == joined(root@, path@),
{
    if absolute(path) {
        return copy(path);
    }
    let mut out = copy(root);
    if root.len() > 0 && root[root.len() - 1] != SEPARATOR {
        out.push(SEPARATOR);
    }
    let ghost head = out@;
    let mut i: usize = 0;
    while i < path.len()
        invariant
            i <= path@.len(),
            out@ == head + path@.subrange(0, i as int),
        decreases path@.len() - i,
    {
        out.push(path[i]);
        i = i + 1;
        assert(out@ =~= head + path@.subrange(0, i as int));
    }
    assert(path@.subrange(0, i as int) =~= path@);
    out
}

/// The directory that holds what `path` names, or `None` for the file
/// system's root and for the empty path.
pub fn parent(path: &[u8]) -> (r: Option<Vec<u8>>)
    ensures
        (match r {
            Some(bytes) => Some(bytes@),
            None => None,
        }) == parent_of(path@),
{
    let ghost as_ints = |s: (usize, usize)| (s.0 as int, s.1 as int);
    let found = spans(path);
    proof {
        lemma_spans_inside(path@, 0);
        assert(found@.map_values(as_ints).len() == found@.len());
    }
    if found.len() == 0 {
        None
    } else if found.len() > 1 {
        let last: usize = found.len() - 2;
        assert(found@.map_values(as_ints)[last as int] == spans_from(path@, 0)[last as int]);
        Some(prefix(path, found[last].1))
    } else if absolute(path) {
        let mut root: Vec<u8> = Vec::new();
        root.push(SEPARATOR);
        assert(root@ =~= seq![SEPARATOR]);
        Some(root)
    } else {
        let empty: Vec<u8> = Vec::new();
        assert(empty@ =~= Seq::empty());
        Some(empty)
    }
}

} // verus!
