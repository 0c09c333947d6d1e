//! What belongs in a distributed snapshot and what does not, and how a staged
//! tree is packaged. A staged copy of the node's database still holds the
//! node's log files and its identity file; neither may leave the machine.

use crate::paths::{join, join_text};
use crate::steps::{PackedTree, PackedTreeView, Step, StepView};
use crate::text::{characters, contains, contains_text, same_text};
use vstd::prelude::*;
use vstd::string::*;

verus! {

/// Where the last segment of `path` starts: behind its last `/`, or at 0.
pub open spec fn name_start(path: Seq<char>) -> int
    decreases path.len(),
{
    if path.len() == 0 {
        0
    } else if path.last() == '/' {
        path.len() as int
    } else {
        name_start(path.drop_last())
    }
}

/// The last segment of `path`: the name of the file or directory.
pub open spec fn file_name_text(path: Seq<char>) -> Seq<char> {
    path.subrange(name_start(path), path.len() as int)
}

/// Whether the file at `path` is a log file: its name holds `.log`.
pub open spec fn is_log_file(path: Seq<char>) -> bool {
    contains_text(file_name_text(path), ".log"@)
}

/// Whether the file at `path` is the node's identity file.
pub open spec fn is_identity_file(path: Seq<char>) -> bool {
    file_name_text(path) == "identity.json"@
}

/// Whether the file at `path` must not appear in a snapshot.
pub open spec fn is_transient(path: Seq<char>) -> bool {
    is_log_file(path) || is_identity_file(path)
}

/// The test "must not appear in a snapshot".
pub open spec fn transient() -> spec_fn(Seq<char>) -> bool {
    |path: Seq<char>| is_transient(path)
}

/// The test "may appear in a snapshot".
pub open spec fn lasting() -> spec_fn(Seq<char>) -> bool {
    |path: Seq<char>| !is_transient(path)
}

/// The files of a staged tree that a purge removes, in listing order.
pub open spec fn purged(files: Seq<Seq<char>>) -> Seq<Seq<char>> {
    files.filter(transient())
}

/// The files of a staged tree that a purge leaves, in listing order.
pub open spec fn kept(files: Seq<Seq<char>>) -> Seq<Seq<char>> {
    files.filter(lasting())
}

/// The two directories of a node's database that a snapshot holds, taken
/// from `source` and put under the directory `root` of the archive, each
/// under its own name.
pub open spec fn subtrees_text(source: Seq<char>, root: Seq<char>) -> Seq<PackedTreeView> {
    seq![
        PackedTreeView {
            source: join_text(source, "context"@),
            member: join_text(root, "context"@),
        },
        PackedTreeView {
            source: join_text(source, "bootstrap_db"@),
            member: join_text(root, "bootstrap_db"@),
        },
    ]
}

/// The name of the file or directory at `path`.
pub fn file_name(path: &str) -> (r: String)
    ensures
        r@ == file_name_text(path@),
{
    let chars: Vec<char> = characters(path);
    let n: usize = chars.len();
    let mut i: usize = n;
    assert(path@.subrange(0, n as int) == path@);
    while i > 0 && chars[i - 1] != '/'
        invariant
            i <= n,
            n == path@.len(),
            chars@ == path@,
            name_start(path@) == name_start(path@.subrange(0, i as int)),
        decreases i,
    {
        proof {
            let shown = path@.subrange(0, i as int);
            assert(shown.last() == path@[i - 1]);
            assert(shown.drop_last() == path@.subrange(0, i - 1));
        }
        i -= 1;
    }
    proof {
        let shown = path@.subrange(0, i as int);
        if i > 0 {
            assert(shown.last() == '/');
        }
        assert(name_start(shown) == i);
    }
    path.substring_char(i, n).to_owned()
}

/// Whether the file at `path` must not appear in a snapshot.
pub fn is_transient_file(path: &str) -> (r: bool)
    ensures
        r == is_transient(path@),
{
    let name: String = file_name(path);
    contains(name.as_str(), ".log") || same_text(name.as_str(), "identity.json")
}

/// The files to remove from a staged tree whose files are `files`: the log
/// files and the identity file, in listing order, and no other file.
pub fn purge_list(files: &Vec<String>) -> (r: Vec<String>)
    ensures
        r.deep_view() == purged(files.deep_view()),
{
    let ghost all = files.deep_view();
    let mut out: Vec<String> = Vec::new();
    let mut i: usize = 0;
    while i < files.len()
        invariant
            i <= files.len(),
            all == files.deep_view(),
            out.deep_view() == purged(all.subrange(0, i as int)),
        decreases files.len() - i,
    {
        proof {
            let longer = all.subrange(0, i + 1);
            assert(longer.drop_last() == all.subrange(0, i as int));
            assert(longer.last() == files[i as int]@);
            reveal(Seq::filter);
            assert(purged(longer) == if is_transient(longer.last()) {
                purged(all.subrange(0, i as int)).push(longer.last())
            } else {
                purged(all.subrange(0, i as int))
            });
        }
        if is_transient_file(files[i].as_str()) {
            let ghost before = out.deep_view();
            out.push(files[i].clone());
            assert(out.deep_view() =~= before.push(files[i as int]@));
        }
        i += 1;
    }
    assert(all.subrange(0, files.len() as int) == all);
    out
}

/// The step that packages the `context` and `bootstrap_db` directories of
/// `source`, and nothing else, into the compressed archive `archive_name` in
/// `destination`. Both stand under the directory `root` inside the archive,
/// so that unpacking yields a directory of that name.
pub fn create_tezedge_tar_archive(archive_name: &str, root: &str, source: &str, destination: &str) -> (r:
    Step)
    ensures
        r@ == (StepView::Pack {
            subtrees: subtrees_text(source@, root@),
            destination: join_text(destination@, archive_name@),
        }),
{
    let mut subtrees: Vec<PackedTree> = Vec::new();
    subtrees.push(PackedTree { source: join(source, "context"), member: join(root, "context") });
    subtrees.push(
        PackedTree { source: join(source, "bootstrap_db"), member: join(root, "bootstrap_db") },
    );
    assert(subtrees.deep_view() =~= subtrees_text(source@, root@));
    Step::Pack { subtrees, destination: join(destination, archive_name) }
}

/// Of the files of a staged tree, a purge removes the
/// transient ones and only those. What it leaves holds no log file and no
/// identity file, and every file of the tree is either removed or left.
pub proof fn lemma_purge_excludes_transient(files: Seq<Seq<char>>)
    ensures
        forall|i: int| 0 <= i < kept(files).len() ==> !is_transient(#[trigger] kept(files)[i]),
        forall|i: int| 0 <= i < purged(files).len() ==> is_transient(#[trigger] purged(files)[i]),
        forall|i: int|
            0 <= i < files.len() ==> (if is_transient(#[trigger] files[i]) {
                purged(files).contains(files[i])
            } else {
                kept(files).contains(files[i])
            }),
        kept(files).len() + purged(files).len() == files.len(),
    decreases files.len(),
{
    reveal(Seq::filter);
    if files.len() > 0 {
        let front = files.drop_last();
        lemma_purge_excludes_transient(front);
        let last = files.last();
        assert forall|i: int| 0 <= i < files.len() implies (if is_transient(#[trigger] files[i]) {
            purged(files).contains(files[i])
        } else {
            kept(files).contains(files[i])
        }) by {
            if i < files.len() - 1 {
                assert(files[i] == front[i]);
                if is_transient(files[i]) {
                    let k = choose|k: int| 0 <= k < purged(front).len() && purged(front)[k] == front[i];
                    assert(purged(files)[k] == files[i]);
                } else {
                    let k = choose|k: int| 0 <= k < kept(front).len() && kept(front)[k] == front[i];
                    assert(kept(files)[k] == files[i]);
                }
            } else {
                if is_transient(last) {
                    assert(purged(files)[purged(files).len() - 1] == last);
                } else {
                    assert(kept(files)[kept(files).len() - 1] == last);
                }
            }
        }
    }
}

} // verus!
