//! Paths as texts with `/` between their segments, and the places in which
//! the service keeps its snapshots.

use crate::configuration::{kind_text, SnapshotKind};
use crate::text::{characters, ends_with, has_prefix, starts_with};
use vstd::prelude::*;
use vstd::string::*;

verus! {

/// `segment` appended to `base`: an absolute segment replaces the base, and a
/// `/` is put between the two unless the base is empty or already ends in one.
pub open spec fn join_text(base: Seq<char>, segment: Seq<char>) -> Seq<char> {
    if segment.len() > 0 && segment[0] == '/' {
        segment
    } else if base.len() == 0 || base.last() == '/' {
        base + segment
    } else {
        base + "/"@ + segment
    }
}

/// The name of the entry at `path` where it lies directly in `directory`, one
/// segment deeper and no more.
pub open spec fn child_name(directory: Seq<char>, path: Seq<char>) -> Option<Seq<char>> {
    let stem = join_text(directory, Seq::<char>::empty());
    if starts_with(path, stem) && path.len() > stem.len() && !path.subrange(
        stem.len() as int,
        path.len() as int,
    ).contains('/') {
        Some(path.subrange(stem.len() as int, path.len() as int))
    } else {
        None
    }
}

/// The directory that holds the snapshots of one kind under `target`.
pub open spec fn category_text(target: Seq<char>, kind: SnapshotKind) -> Seq<char> {
    join_text(target, kind_text(kind))
}

/// The lock file that a running node keeps in its database directory.
pub open spec fn lock_file_text(database: Seq<char>) -> Seq<char> {
    join_text(database, "context/index/lock"@)
}

/// A joined path ends with the segment that was joined, and so with whatever
/// that segment ends with.
pub proof fn lemma_join_ends_with(base: Seq<char>, segment: Seq<char>, tail: Seq<char>)
    requires
        ends_with(segment, tail),
    ensures
        ends_with(join_text(base, segment), tail),
{
    let joined = join_text(base, segment);
    let skipped = joined.len() - segment.len();
    assert(joined.subrange(skipped, joined.len() as int) =~= segment);
    assert(joined.subrange(joined.len() - tail.len(), joined.len() as int) =~= segment.subrange(
        segment.len() - tail.len(),
        segment.len() as int,
    ));
}

/// A relative segment that is not empty makes the joined path longer than
/// its base, so that the two differ.
pub proof fn lemma_join_is_longer(base: Seq<char>, segment: Seq<char>)
    requires
        segment.len() > 0,
        segment[0] != '/',
    ensures
        join_text(base, segment).len() > base.len(),
        join_text(base, segment) != base,
{
}

/// The path of `segment` under `base`.
pub fn join(base: &str, segment: &str) -> (r: String)
    ensures
        r@ == join_text(base@, segment@),
{
    let segment_len: usize = segment.unicode_len();
    if segment_len > 0 && segment.get_char(0) == '/' {
        return segment.to_owned();
    }
    let base_len: usize = base.unicode_len();
    let mut out: String = base.to_owned();
    if base_len > 0 && base.get_char(base_len - 1) != '/' {
        out.append("/");
    }
    out.append(segment);
    proof {
        reveal_strlit("/");
        assert(base@ + Seq::<char>::empty() == base@);
    }
    out
}

/// The name of the entry at `path` if it lies directly in `directory`.
pub fn direct_child(directory: &str, path: &str) -> (r: Option<String>)
    ensures
        match r {
            Some(name) => child_name(directory@, path@) == Some(name@),
            None => child_name(directory@, path@) is None,
        },
{
    let stem: String = join(directory, "");
    proof {
        reveal_strlit("");
    }
    assert(stem@ == join_text(directory@, Seq::<char>::empty())) by {
        assert(""@ =~= Seq::<char>::empty());
    }
    if !has_prefix(path, stem.as_str()) {
        return None;
    }
    let chars: Vec<char> = characters(path);
    let from: usize = stem.as_str().unicode_len();
    let to: usize = chars.len();
    if to <= from {
        return None;
    }
    let ghost rest = path@.subrange(from as int, to as int);
    let mut i: usize = from;
    while i < to
        invariant
            from <= i <= to,
            to == path@.len(),
            chars@ == path@,
            from == stem@.len(),
            stem@ == join_text(directory@, Seq::<char>::empty()),
            starts_with(path@, stem@),
            rest == path@.subrange(from as int, to as int),
            forall|j: int| 0 <= j < i - from ==> rest[j] != '/',
        decreases to - i,
    {
        if chars[i] == '/' {
            assert(rest[i - from] == '/');
            assert(rest.contains('/'));
            return None;
        }
        i += 1;
    }
    assert(!rest.contains('/'));
    Some(path.substring_char(from, to).to_owned())
}

/// The directory of the snapshots of kind `kind` under `target`.
pub fn category_directory(target: &str, kind: SnapshotKind) -> (r: String)
    ensures
        r@ == category_text(target@, kind),
{
    let category: String = kind.to_string();
    join(target, category.as_str())
}

/// The lock file of the node whose database lies in `database`.
pub fn lock_file(database: &str) -> (r: String)
    ensures
        r@ == lock_file_text(database@),
{
    join(database, "context/index/lock")
}

} // verus!
