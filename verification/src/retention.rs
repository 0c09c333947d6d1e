//! Which snapshot makes room for a new one. A category keeps at most as many
//! promoted snapshots as its capacity says: before a new snapshot is staged,
//! the oldest promoted one leaves if the category is already full.

use crate::paths::{child_name, direct_child};
use crate::text::{ends_with, has_suffix};
use vstd::prelude::*;
use vstd::string::*;

verus! {

/// One entry found in a scan of a snapshot directory, with the time of its
/// last modification in seconds and nanoseconds.
#[derive(Clone, Debug, PartialEq, Eq)]
pub struct SnapshotEntry {
    pub path: String,
    pub modified_seconds: i64,
    pub modified_nanos: u32,
}

/// The mathematical content of a `SnapshotEntry`.
pub struct SnapshotEntryView {
    pub path: Seq<char>,
    pub seconds: int,
    pub nanos: int,
}

impl View for SnapshotEntry {
    type V = SnapshotEntryView;

    open spec fn view(&self) -> SnapshotEntryView {
        SnapshotEntryView {
            path: self.path@,
            seconds: self.modified_seconds as int,
            nanos: self.modified_nanos as int,
        }
    }
}

impl DeepView for SnapshotEntry {
    type V = SnapshotEntryView;

    open spec fn deep_view(&self) -> SnapshotEntryView {
        self@
    }
}

impl SnapshotEntry {
    /// An entry at `path`, last modified at the given time.
    pub fn new(path: &str, modified_seconds: i64, modified_nanos: u32) -> (r: SnapshotEntry)
        ensures
            r@ == (SnapshotEntryView {
                path: path@,
                seconds: modified_seconds as int,
                nanos: modified_nanos as int,
            }),
    {
        SnapshotEntry { path: path.to_owned(), modified_seconds, modified_nanos }
    }
}

/// Whether `a` was last modified strictly before `b`.
pub open spec fn older(a: SnapshotEntryView, b: SnapshotEntryView) -> bool {
    a.seconds < b.seconds || (a.seconds == b.seconds && a.nanos < b.nanos)
}

/// Whether `entry` is a promoted snapshot of `directory`: it lies directly in
/// it and its name does not end in `.temp`.
pub open spec fn is_promoted(directory: Seq<char>, entry: SnapshotEntryView) -> bool {
    match child_name(directory, entry.path) {
        Some(name) => !ends_with(name, ".temp"@),
        None => false,
    }
}

/// The test "is a promoted snapshot of `directory`".
pub open spec fn promoted_in(directory: Seq<char>) -> spec_fn(SnapshotEntryView) -> bool {
    |entry: SnapshotEntryView| is_promoted(directory, entry)
}

/// The promoted snapshots of `directory` among `entries`, in scan order.
pub open spec fn promoted(directory: Seq<char>, entries: Seq<SnapshotEntryView>) -> Seq<
    SnapshotEntryView,
> {
    entries.filter(promoted_in(directory))
}

/// Whether `entries[i]` is the promoted snapshot that leaves first: none is
/// older, and among equally old ones it is the first in scan order.
pub open spec fn is_oldest(directory: Seq<char>, entries: Seq<SnapshotEntryView>, i: int) -> bool {
    &&& 0 <= i < entries.len()
    &&& is_promoted(directory, entries[i])
    &&& forall|j: int|
        0 <= j < i && is_promoted(directory, #[trigger] entries[j]) ==> older(
            entries[i],
            entries[j],
        )
    &&& forall|j: int|
        i < j < entries.len() && is_promoted(directory, #[trigger] entries[j]) ==> !older(
            entries[j],
            entries[i],
        )
}

/// Whether a retention pass over `entries` with `capacity` removes an entry.
pub open spec fn evicts(directory: Seq<char>, entries: Seq<SnapshotEntryView>, capacity: nat) -> bool {
    promoted(directory, entries).len() >= capacity && promoted(directory, entries).len() > 0
}

/// The entries that a retention pass leaves: all of them where the promoted
/// ones are fewer than `capacity`, and all but the oldest promoted one
/// otherwise.
pub open spec fn retention_pass(
    directory: Seq<char>,
    entries: Seq<SnapshotEntryView>,
    capacity: nat,
) -> Seq<SnapshotEntryView> {
    if evicts(directory, entries, capacity) {
        entries.remove(choose|i: int| is_oldest(directory, entries, i))
    } else {
        entries
    }
}

/// At most one entry is the oldest.
pub proof fn lemma_oldest_is_unique(
    directory: Seq<char>,
    entries: Seq<SnapshotEntryView>,
    i: int,
    k: int,
)
    requires
        is_oldest(directory, entries, i),
        is_oldest(directory, entries, k),
    ensures
        i == k,
{
    if i < k {
        assert(is_promoted(directory, entries[i]));
        assert(older(entries[k], entries[i]));
        assert(!older(entries[k], entries[i]));
    } else if k < i {
        assert(is_promoted(directory, entries[k]));
        assert(older(entries[i], entries[k]));
        assert(!older(entries[i], entries[k]));
    }
}

/// The entries of a category after one successful attempt: the retention pass
/// comes first, then the new snapshot `added` is promoted.
pub open spec fn after_attempt(
    directory: Seq<char>,
    entries: Seq<SnapshotEntryView>,
    capacity: nat,
    added: SnapshotEntryView,
) -> Seq<SnapshotEntryView> {
    retention_pass(directory, entries, capacity).push(added)
}

/// The entries of a category after one successful attempt for each of `added`,
/// in that order.
pub open spec fn after_attempts(
    directory: Seq<char>,
    entries: Seq<SnapshotEntryView>,
    capacity: nat,
    added: Seq<SnapshotEntryView>,
) -> Seq<SnapshotEntryView>
    decreases added.len(),
{
    if added.len() == 0 {
        entries
    } else {
        after_attempt(
            directory,
            after_attempts(directory, entries, capacity, added.drop_last()),
            capacity,
            added.last(),
        )
    }
}

/// Taking out an entry that passes a test leaves one entry fewer that passes.
proof fn lemma_filter_remove(
    entries: Seq<SnapshotEntryView>,
    test: spec_fn(SnapshotEntryView) -> bool,
    i: int,
)
    requires
        0 <= i < entries.len(),
        test(entries[i]),
    ensures
        entries.remove(i).filter(test).len() + 1 == entries.filter(test).len(),
    decreases entries.len(),
{
    reveal(Seq::filter);
    if i == entries.len() - 1 {
        assert(entries.remove(i) == entries.drop_last());
    } else {
        lemma_filter_remove(entries.drop_last(), test, i);
        let shorter = entries.remove(i);
        assert(shorter.drop_last() == entries.drop_last().remove(i));
        assert(shorter.last() == entries.last());
    }
}

/// Where an entry passes a test, the entries that pass are not none.
proof fn lemma_filter_nonempty(
    entries: Seq<SnapshotEntryView>,
    test: spec_fn(SnapshotEntryView) -> bool,
    i: int,
)
    requires
        0 <= i < entries.len(),
        test(entries[i]),
    ensures
        entries.filter(test).len() > 0,
    decreases entries.len(),
{
    reveal(Seq::filter);
    if i < entries.len() - 1 {
        lemma_filter_nonempty(entries.drop_last(), test, i);
    }
}

/// Where a category has a promoted snapshot, one of them is the oldest.
pub proof fn lemma_oldest_exists(directory: Seq<char>, entries: Seq<SnapshotEntryView>)
    requires
        promoted(directory, entries).len() > 0,
    ensures
        exists|i: int| is_oldest(directory, entries, i),
    decreases entries.len(),
{
    reveal(Seq::filter);
    let front = entries.drop_last();
    let last = entries.len() - 1;
    if promoted(directory, front).len() > 0 {
        lemma_oldest_exists(directory, front);
        let k = choose|k: int| is_oldest(directory, front, k);
        assert(forall|j: int| 0 <= j < last ==> front[j] == entries[j]);
        if is_promoted(directory, entries[last]) && older(entries[last], entries[k]) {
            assert(is_oldest(directory, entries, last));
        } else {
            assert(is_oldest(directory, entries, k));
        }
    } else {
        assert(is_promoted(directory, entries[last]));
        assert forall|j: int| 0 <= j < last implies !is_promoted(directory, #[trigger] entries[j]) by {
            if is_promoted(directory, entries[j]) {
                assert(front[j] == entries[j]);
                lemma_filter_nonempty(front, promoted_in(directory), j);
            }
        }
        assert(is_oldest(directory, entries, last));
    }
}

/// What a retention pass removes: where it removes anything, exactly one
/// entry, a promoted one, and no promoted entry is older than it.
pub proof fn lemma_eviction_takes_the_oldest(
    directory: Seq<char>,
    entries: Seq<SnapshotEntryView>,
    capacity: nat,
)
    requires
        evicts(directory, entries, capacity),
    ensures
        exists|i: int|
            {
                &&& is_oldest(directory, entries, i)
                &&& retention_pass(directory, entries, capacity) == entries.remove(i)
                &&& forall|j: int|
                    0 <= j < entries.len() && is_promoted(directory, #[trigger] entries[j])
                        ==> !older(entries[j], entries[i])
            },
        promoted(directory, retention_pass(directory, entries, capacity)).len() + 1 == promoted(
            directory,
            entries,
        ).len(),
{
    lemma_oldest_exists(directory, entries);
    let i = choose|i: int| is_oldest(directory, entries, i);
    assert forall|j: int|
        0 <= j < entries.len() && is_promoted(directory, #[trigger] entries[j]) implies !older(
        entries[j],
        entries[i],
    ) by {
        if j < i {
            assert(older(entries[i], entries[j]));
        }
    }
    lemma_filter_remove(entries, promoted_in(directory), i);
}

/// One attempt keeps a category within its capacity: one that held at most
/// `capacity` promoted snapshots holds at most `capacity` after a retention
/// pass and one more promotion.
pub proof fn lemma_attempt_keeps_bound(
    directory: Seq<char>,
    entries: Seq<SnapshotEntryView>,
    capacity: nat,
    added: SnapshotEntryView,
)
    requires
        capacity >= 1,
        promoted(directory, entries).len() <= capacity,
    ensures
        promoted(directory, after_attempt(directory, entries, capacity, added)).len() <= capacity,
{
    reveal(Seq::filter);
    let kept = retention_pass(directory, entries, capacity);
    if evicts(directory, entries, capacity) {
        lemma_eviction_takes_the_oldest(directory, entries, capacity);
    }
    assert(kept.push(added).drop_last() == kept);
}

/// Starting from a category within its capacity, any
/// number of successful attempts leaves it within its capacity. Where there
/// is an attempt at all, it needs a capacity of at least one: with none,
/// each attempt still promotes one snapshot.
pub proof fn lemma_retention_bound(
    directory: Seq<char>,
    entries: Seq<SnapshotEntryView>,
    capacity: nat,
    added: Seq<SnapshotEntryView>,
)
    requires
        capacity >= 1 || added.len() == 0,
        promoted(directory, entries).len() <= capacity,
    ensures
        promoted(directory, after_attempts(directory, entries, capacity, added)).len() <= capacity,
    decreases added.len(),
{
    if added.len() > 0 {
        lemma_retention_bound(directory, entries, capacity, added.drop_last());
        lemma_attempt_keeps_bound(
            directory,
            after_attempts(directory, entries, capacity, added.drop_last()),
            capacity,
            added.last(),
        );
    }
}

/// Whether `entry` is a promoted snapshot of `directory`.
pub fn counts_as_promoted(directory: &str, entry: &SnapshotEntry) -> (r: bool)
    ensures
        r == is_promoted(directory@, entry@),
{
    match direct_child(directory, entry.path.as_str()) {
        Some(name) => !has_suffix(name.as_str(), ".temp"),
        None => false,
    }
}

/// Whether `a` was last modified strictly before `b`.
pub fn modified_before(a: &SnapshotEntry, b: &SnapshotEntry) -> (r: bool)
    ensures
        r == older(a@, b@),
{
    a.modified_seconds < b.modified_seconds || (a.modified_seconds == b.modified_seconds
        && a.modified_nanos < b.modified_nanos)
}

/// Decides what a retention pass over the scanned `entries` of `snapshot_dir`
/// removes: the index of the oldest promoted snapshot where the promoted ones
/// have reached `snapshot_capacity`, and nothing otherwise. Entries that lie
/// deeper than `snapshot_dir`, or outside it, and entries that are still
/// staged do not count and never leave.
pub fn check_rolling(entries: &Vec<SnapshotEntry>, snapshot_dir: &str, snapshot_capacity: usize) -> (r:
    Option<usize>)
    ensures
        match r {
            Some(i) => evicts(snapshot_dir@, entries.deep_view(), snapshot_capacity as nat)
                && is_oldest(snapshot_dir@, entries.deep_view(), i as int),
            None => !evicts(snapshot_dir@, entries.deep_view(), snapshot_capacity as nat),
        },
        entries.deep_view().len() == entries.len(),
        retention_pass(snapshot_dir@, entries.deep_view(), snapshot_capacity as nat) == match r {
            Some(i) => entries.deep_view().remove(i as int),
            None => entries.deep_view(),
        },
{
    let ghost all = entries.deep_view();
    let ghost dir = snapshot_dir@;
    let mut count: usize = 0;
    let mut best: usize = 0;
    let mut i: usize = 0;
    while i < entries.len()
        invariant
            i <= entries.len(),
            all == entries.deep_view(),
            all.len() == entries.len(),
            dir == snapshot_dir@,
            count <= i,
            count == promoted(dir, all.subrange(0, i as int)).len(),
            count > 0 ==> is_oldest(dir, all.subrange(0, i as int), best as int),
            count == 0 ==> forall|j: int| 0 <= j < i ==> !is_promoted(dir, #[trigger] all[j]),
        decreases entries.len() - i,
    {
        let ghost before = all.subrange(0, i as int);
        let ghost after = all.subrange(0, i + 1);
        proof {
            assert(after.drop_last() == before);
            assert(after.last() == entries[i as int]@);
            reveal(Seq::filter);
            assert(promoted(dir, after) == if is_promoted(dir, after.last()) {
                promoted(dir, before).push(after.last())
            } else {
                promoted(dir, before)
            });
            assert(forall|j: int| 0 <= j < i ==> after[j] == before[j] && before[j] == all[j]);
            assert(after[i as int] == all[i as int]);
        }
        if counts_as_promoted(snapshot_dir, &entries[i]) {
            if count == 0 || modified_before(&entries[i], &entries[best]) {
                best = i;
            }
            count += 1;
        }
        i += 1;
    }
    proof {
        assert(all.subrange(0, all.len() as int) == all);
    }
    if count > 0 && count >= snapshot_capacity {
        proof {
            let chosen = choose|k: int| is_oldest(dir, all, k);
            lemma_oldest_is_unique(dir, all, best as int, chosen);
        }
        Some(best)
    } else {
        None
    }
}

} // verus!
