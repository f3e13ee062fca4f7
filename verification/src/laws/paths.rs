//! Laws of paths: what joining, taking the parent and comparing do to bytes.
//!
//! The separator is the byte 47, and the name that stands for the directory
//! itself is the byte 46 alone.

use crate::path::{
    counts, is_absolute, joined, lemma_name_end, lemma_name_end_at, lemma_spans_inside, name_end,
    names, parent_of, path_key, spans_from, PathKey,
};
use vstd::prelude::*;

verus! {

/// Whether `name` is a name of a file or directory other than `.`: it is not
/// empty and no separator stands in it.
pub open spec fn plain_name(name: Seq<u8>) -> bool {
    name.len() > 0 && !name.contains(47u8) && name != seq![46u8]
}

/// The path that leads from the directory `dir` to `name`.
pub open spec fn under(dir: Seq<u8>, name: Seq<u8>) -> Seq<u8> {
    dir + seq![47u8] + name
}

proof fn lemma_spans_of_bare(name: Seq<u8>)
    requires
        !name.contains(47u8),
    ensures
        spans_from(name, 0) == (if name.len() == 0 {
            Seq::<(int, int)>::empty()
        } else {
            seq![(0int, name.len() as int)]
        }),
{
    assert forall|j: int| 0 <= j < name.len() implies name[j] != 47u8 by {
        assert(name.contains(name[j]));
    }
    lemma_name_end_at(name, 0, name.len() as int);
    assert(spans_from(name, name.len() + 1int) =~= Seq::<(int, int)>::empty());
    assert(spans_from(name, 0) =~= (if name.len() == 0 {
        Seq::<(int, int)>::empty()
    } else {
        seq![(0int, name.len() as int)]
    }));
}

/// The spans of a longer path are those of the directory and that of the name.
proof fn lemma_spans_under(dir: Seq<u8>, name: Seq<u8>, start: int)
    requires
        0 <= start <= dir.len() + 1,
        !name.contains(47u8),
    ensures
        spans_from(under(dir, name), start) == spans_from(dir, start) + (if name.len() == 0 || name
            == seq![46u8] {
            Seq::<(int, int)>::empty()
        } else {
            seq![(dir.len() + 1int, dir.len() + 1int + name.len())]
        }),
    decreases dir.len() + 1 - start,
{
    let path = under(dir, name);
    let n = dir.len() as int;
    let last = if name.len() == 0 || name == seq![46u8] {
        Seq::<(int, int)>::empty()
    } else {
        seq![(n + 1, n + 1 + name.len())]
    };
    if start < n {
        let end = name_end(dir, start);
        lemma_name_end(dir, start);
        assert forall|j: int| start <= j < end implies path[j] != 47u8 by {
            assert(path[j] == dir[j]);
        }
        lemma_name_end_at(path, start, end);
        lemma_spans_under(dir, name, end + 1);
        assert(path[start] == dir[start]);
        assert(spans_from(path, start) =~= spans_from(dir, start) + last);
    } else if start == n {
        lemma_name_end_at(path, n, n);
        lemma_spans_under(dir, name, n + 1);
        assert(spans_from(path, n) =~= spans_from(dir, n) + last);
    } else {
        assert forall|j: int| n + 1 <= j < path.len() implies path[j] != 47u8 by {
            assert(name.contains(name[j - n - 1]));
        }
        lemma_name_end_at(path, n + 1, path.len() as int);
        assert(spans_from(path, path.len() + 1int) =~= Seq::<(int, int)>::empty());
        if name.len() == 1 && name[0] == 46u8 {
            assert(name =~= seq![46u8]);
        }
        assert(name.len() > 0 ==> path[n + 1] == name[0]);
        assert(spans_from(path, n + 1) =~= spans_from(dir, n + 1) + last);
    }
}

/// A path without a separator is relative, and the whole of it is its one name.
/// The empty path has none.
pub proof fn law_bare_name_is_its_own_key(name: Seq<u8>)
    requires
        !name.contains(47u8),
    ensures
        !path_key(name).absolute,
        name.len() > 0 ==> path_key(name).names == seq![name],
        name.len() == 0 ==> path_key(name).names == Seq::<Seq<u8>>::empty(),
{
    lemma_spans_of_bare(name);
    if name.len() > 0 {
        assert(name.contains(name[0]));
        assert(name.subrange(0, name.len() as int) =~= name);
    }
    assert(names(name) =~= (if name.len() > 0 {
        seq![name]
    } else {
        Seq::<Seq<u8>>::empty()
    }));
}

/// What a path is known by grows with each name, and by the whole of it: behind
/// a directory and a separator a name is added as it stands, and neither an
/// empty name nor `.` adds anything. The path starts at the file system's root
/// if the directory does or is empty.
///
/// Every path is a bare name or a name behind a directory, so this says what
/// every path is known by.
pub proof fn law_key_grows_by_the_whole_name(dir: Seq<u8>, name: Seq<u8>)
    requires
        !name.contains(47u8),
    ensures
        path_key(under(dir, name)).absolute <==> dir.len() == 0 || dir[0] == 47u8,
        plain_name(name) ==> path_key(under(dir, name)).names == path_key(dir).names.push(name),
        !plain_name(name) ==> path_key(under(dir, name)).names == path_key(dir).names,
{
    let path = under(dir, name);
    lemma_spans_under(dir, name, 0);
    lemma_spans_inside(dir, 0);
    let spans = spans_from(dir, 0);
    assert(path[0] == (if dir.len() == 0 {
        47u8
    } else {
        dir[0]
    }));
    assert forall|i: int| 0 <= i < spans.len() implies path.subrange(
        (#[trigger] spans[i]).0,
        spans[i].1,
    ) == dir.subrange(spans[i].0, spans[i].1) by {
        assert(path.subrange(spans[i].0, spans[i].1) =~= dir.subrange(spans[i].0, spans[i].1));
    }
    assert(path.subrange(dir.len() + 1int, dir.len() + 1int + name.len()) =~= name);
    if plain_name(name) {
        assert(names(path) =~= names(dir).push(name));
    } else {
        assert(names(path) =~= names(dir));
    }
}

/// Two files of one directory are one file if and only if their names are equal
/// byte for byte, so locks on different files never meet.
pub proof fn law_different_names_are_different_files(dir: Seq<u8>, a: Seq<u8>, b: Seq<u8>)
    requires
        plain_name(a),
        plain_name(b),
    ensures
        path_key(under(dir, a)) == path_key(under(dir, b)) <==> a == b,
{
    law_key_grows_by_the_whole_name(dir, a);
    law_key_grows_by_the_whole_name(dir, b);
    let left = path_key(under(dir, a)).names;
    let right = path_key(under(dir, b)).names;
    assert(left.last() == a);
    assert(right.last() == b);
}

/// Files of the same name in two directories are one file if and only if the
/// directories are one.
pub proof fn law_different_directories_hold_different_files(
    dir: Seq<u8>,
    other: Seq<u8>,
    name: Seq<u8>,
)
    requires
        plain_name(name),
        dir.len() > 0,
        other.len() > 0,
    ensures
        path_key(under(dir, name)) == path_key(under(other, name)) <==> path_key(dir) == path_key(
            other,
        ),
{
    law_key_grows_by_the_whole_name(dir, name);
    law_key_grows_by_the_whole_name(other, name);
    let left = path_key(under(dir, name)).names;
    let right = path_key(under(other, name)).names;
    assert(left.drop_last() =~= path_key(dir).names);
    assert(right.drop_last() =~= path_key(other).names);
    law_key_says_where_a_path_starts(dir);
    law_key_says_where_a_path_starts(other);
    if path_key(under(dir, name)) == path_key(under(other, name)) {
        assert(path_key(dir) =~= path_key(other));
    }
}

/// A path starts at the file system's root if and only if its first byte is a
/// separator.
pub proof fn law_key_says_where_a_path_starts(path: Seq<u8>)
    ensures
        path_key(path).absolute <==> path.len() > 0 && path[0] == 47u8,
        is_absolute(path) <==> path.len() > 0 && path[0] == 47u8,
{
}

/// No name that a path is known by is empty or has a separator in it, and `.`
/// is one only at the very start of a relative path. Each stands in the path as
/// it is.
pub proof fn law_names_stand_in_the_path(path: Seq<u8>, i: int) -> (at: int)
    requires
        0 <= i < path_key(path).names.len(),
    ensures
        0 <= at,
        at + path_key(path).names[i].len() <= path.len(),
        path.subrange(at, at + path_key(path).names[i].len()) == path_key(path).names[i],
        at > 0 ==> path[at - 1] == 47u8,
        at + path_key(path).names[i].len() < path.len() ==> path[at
            + path_key(path).names[i].len()] == 47u8,
        path_key(path).names[i].len() > 0,
        !path_key(path).names[i].contains(47u8),
        path_key(path).names[i] == seq![46u8] ==> at == 0,
{
    lemma_spans_inside(path, 0);
    lemma_spans_bounded(path, 0, i);
    let span = spans_from(path, 0)[i];
    let name = path.subrange(span.0, span.1);
    assert(names(path)[i] == name);
    if name.contains(47u8) {
        let j = choose|j: int| 0 <= j < name.len() && name[j] == 47u8;
        assert(path[span.0 + j] == 47u8);
    }
    if name == seq![46u8] {
        assert(name[0] == 46u8);
        assert(path[span.0] == 46u8);
        assert(span.1 == span.0 + 1);
    }
    span.0
}

/// Each span runs from separator to separator.
proof fn lemma_spans_bounded(path: Seq<u8>, start: int, i: int)
    requires
        0 <= start,
        start > 0 && start <= path.len() ==> path[start - 1] == 47u8,
        0 <= i < spans_from(path, start).len(),
    ensures
        ({
            let span = spans_from(path, start)[i];
            &&& start <= span.0 < span.1 <= path.len()
            &&& span.0 > 0 ==> path[span.0 - 1] == 47u8
            &&& span.1 < path.len() ==> path[span.1] == 47u8
            &&& forall|j: int| span.0 <= j < span.1 ==> path[j] != 47u8
            &&& span.1 == span.0 + 1 && path[span.0] == 46u8 ==> span.0 == 0
        }),
    decreases path.len() + 1 - start,
{
    let end = name_end(path, start);
    lemma_name_end(path, start);
    let rest = spans_from(path, end + 1);
    let all = spans_from(path, start);
    if counts(path, start, end) {
        if i > 0 {
            assert(all[i] == rest[i - 1]);
            lemma_spans_bounded(path, end + 1, i - 1);
        } else {
            assert(all[0] == (start, end));
        }
    } else {
        assert(all[i] == rest[i]);
        lemma_spans_bounded(path, end + 1, i);
    }
}

/// A path that is seen from a directory keeps all its bytes. One that starts
/// with a separator stands alone. Any other stands at the end as it is; before
/// it stands the directory as it is, and between them one separator, if the
/// directory is not empty and does not end in one.
pub proof fn law_joining_keeps_all_bytes(root: Seq<u8>, path: Seq<u8>)
    ensures
        path.len() > 0 && path[0] == 47u8 ==> joined(root, path) == path,
        !(path.len() > 0 && path[0] == 47u8) ==> {
            let whole = joined(root, path);
            let head = whole.len() - path.len();
            &&& head == root.len() || head == root.len() + 1
            &&& head == root.len() + 1 <==> root.len() > 0 && root[root.len() - 1] != 47u8
            &&& whole.subrange(head, whole.len() as int) == path
            &&& whole.subrange(0, root.len() as int) == root
            &&& head == root.len() + 1 ==> whole[root.len() as int] == 47u8
        },
{
    if !(path.len() > 0 && path[0] == 47u8) {
        let whole = joined(root, path);
        let head = whole.len() - path.len();
        assert(whole.subrange(head, whole.len() as int) =~= path);
        assert(whole.subrange(0, root.len() as int) =~= root);
    }
}

/// A name that is seen from a directory is a file of that directory, known by
/// the names of the directory and then its own.
pub proof fn law_joined_name_is_in_the_directory(root: Seq<u8>, name: Seq<u8>)
    requires
        plain_name(name),
        root.len() > 0,
        root[0] == 47u8,
    ensures
        path_key(joined(root, name)).absolute,
        path_key(joined(root, name)).names == path_key(root).names.push(name),
{
    assert(name[0] != 47u8) by {
        assert(name.contains(name[0]));
    }
    law_joining_keeps_all_bytes(root, name);
    if root[root.len() - 1] != 47u8 {
        assert(joined(root, name) =~= under(root, name));
        law_key_grows_by_the_whole_name(root, name);
    } else {
        let dir = root.drop_last();
        let nothing = Seq::<u8>::empty();
        assert(joined(root, name) =~= under(dir, name));
        assert(root =~= under(dir, nothing));
        assert(!nothing.contains(47u8));
        law_key_grows_by_the_whole_name(dir, name);
        law_key_grows_by_the_whole_name(dir, nothing);
    }
}

/// The spans of a path up to the end of one of its names are those up to that
/// name.
proof fn lemma_spans_of_prefix(path: Seq<u8>, start: int, i: int)
    requires
        0 <= start,
        start > 0 && start <= path.len() ==> path[start - 1] == 47u8,
        0 <= i < spans_from(path, start).len(),
    ensures
        spans_from(path.subrange(0, spans_from(path, start)[i].1), start) == spans_from(
            path,
            start,
        ).subrange(0, i + 1),
    decreases path.len() + 1 - start,
{
    lemma_spans_bounded(path, start, i);
    let all = spans_from(path, start);
    let cut = all[i].1;
    let short = path.subrange(0, cut);
    let end = name_end(path, start);
    lemma_name_end(path, start);
    let rest = spans_from(path, end + 1);
    let counted = counts(path, start, end);
    if counted && i == 0 {
        assert(cut == end);
        assert forall|j: int| start <= j < end implies short[j] != 47u8 by {
            assert(short[j] == path[j]);
        }
        lemma_name_end_at(short, start, end);
        assert(spans_from(short, end + 1) =~= Seq::<(int, int)>::empty());
        assert(short[start] == path[start]);
        assert(spans_from(short, start) =~= all.subrange(0, 1));
    } else {
        let k = if counted {
            i - 1
        } else {
            i
        };
        assert(all[i] == rest[k]);
        lemma_spans_bounded(path, end + 1, k);
        lemma_spans_of_prefix(path, end + 1, k);
        assert(end < cut);
        assert forall|j: int| start <= j < end implies short[j] != 47u8 by {
            assert(short[j] == path[j]);
        }
        assert(short[end] == path[end]);
        lemma_name_end_at(short, start, end);
        assert(short[start] == path[start]);
        assert(spans_from(short, start) =~= all.subrange(0, i + 1));
    }
}

/// The parent of a path with two names or more is the path up to the end of its
/// last name but one: a beginning of the path, known by all its names but the
/// last, that ends in the last of these. That of an absolute path with one name
/// is the separator alone, that of a relative one is empty, and a path without
/// a name has none.
pub proof fn law_parent_is_the_path_without_its_last_name(path: Seq<u8>)
    ensures
        ({
            let all = path_key(path).names;
            let count = all.len() as int;
            &&& parent_of(path) is None <==> count == 0
            &&& count == 1 ==> parent_of(path) == Some(
                if path[0] == 47u8 {
                    seq![47u8]
                } else {
                    Seq::<u8>::empty()
                },
            )
            &&& count > 1 ==> {
                let dir = parent_of(path)->0;
                let last = all[count - 2];
                &&& dir.len() <= path.len()
                &&& dir == path.subrange(0, dir.len() as int)
                &&& path_key(dir) == (PathKey {
                    absolute: path_key(path).absolute,
                    names: all.subrange(0, count - 1),
                })
                &&& last.len() <= dir.len()
                &&& dir.subrange(dir.len() - last.len(), dir.len() as int) == last
            }
        }),
{
    let spans = spans_from(path, 0);
    let all = names(path);
    let count = all.len() as int;
    lemma_spans_inside(path, 0);
    if count == 1 {
        assert(path.len() > 0) by {
            lemma_spans_bounded(path, 0, 0);
        }
    }
    if count > 1 {
        let i = count - 2;
        lemma_spans_bounded(path, 0, i);
        lemma_spans_of_prefix(path, 0, i);
        let cut = spans[i].1;
        let dir = path.subrange(0, cut);
        lemma_spans_inside(dir, 0);
        assert(spans_from(dir, 0) == spans.subrange(0, count - 1));
        assert forall|j: int| 0 <= j < count - 1 implies #[trigger] names(dir)[j] == all[j] by {
            let span = spans_from(dir, 0)[j];
            assert(span == spans[j]);
            assert(dir.subrange(span.0, span.1) =~= path.subrange(span.0, span.1));
        }
        assert(names(dir) =~= all.subrange(0, count - 1));
        assert(dir[0] == path[0]);
        let last = all[i];
        assert(dir.subrange(dir.len() - last.len(), dir.len() as int) =~= last);
    }
}

/// The file that is opened lies in the directory that is created for it: a name
/// behind a directory whose path ends in a name has that directory as its
/// parent.
pub proof fn law_parent_of_a_file_is_its_directory(dir: Seq<u8>, parent: Seq<u8>, name: Seq<u8>)
    requires
        plain_name(parent),
        plain_name(name),
    ensures
        parent_of(under(under(dir, parent), name)) == Some(under(dir, parent)),
{
    let inner = under(dir, parent);
    let path = under(inner, name);
    lemma_spans_under(dir, parent, 0);
    lemma_spans_under(inner, name, 0);
    assert(path.subrange(0, inner.len() as int) =~= inner);
}

} // verus!
