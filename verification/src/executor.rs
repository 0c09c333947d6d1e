//! The work of one snapshot attempt between the stop of the node and its
//! restart: which steps make a packaged copy, which make a consolidated
//! export, and what each step leaves to be put in order if it fails.

use crate::configuration::{kind_text, SnapshotType};
use crate::naming::{
    export_name,
    export_text,
    temp_name,
    temp_text,
    SnapshotIdentity,
    SnapshotIdentityView,
};
use crate::paths::{
    join,
    join_text,
    lemma_join_ends_with,
    lemma_join_is_longer,
    lock_file,
    lock_file_text,
};
use crate::staging::{create_tezedge_tar_archive, subtrees_text};
use crate::steps::{
    copy_container,
    ContainerSpec,
    ContainerSpecView,
    PlannedStep,
    PlannedStepView,
    Step,
    StepView,
};
use crate::text::ends_with;
use vstd::prelude::*;
use vstd::string::*;

verus! {

/// A step with what its failure leaves to be put in order.
pub open spec fn planned(step: StepView, release: Seq<StepView>) -> PlannedStepView {
    PlannedStepView { step, release }
}

/// The work that makes a packaged copy named `name` of the database in
/// `database`: room is made in `directory` first; the database is copied to
/// a staging directory under `scratch`, without the node's lock file; log
/// files and the identity file are taken out of the copy; the copy is packed
/// under a temporary name in `directory`; and only the finished archive gets
/// its final name.
pub open spec fn archive_work_text(
    database: Seq<char>,
    directory: Seq<char>,
    scratch: Seq<char>,
    name: Seq<char>,
    capacity: nat,
) -> Seq<PlannedStepView> {
    let staged = join_text(scratch, temp_text(name));
    let packed = join_text(directory, temp_text(name));
    let promoted = join_text(directory, name);
    let drop_staged = seq![StepView::Discard { path: staged }];
    let drop_both = seq![StepView::Discard { path: packed }, StepView::Discard { path: staged }];
    seq![
        planned(StepView::EnsureDirectory { path: directory }, seq![]),
        planned(StepView::EvictOldest { directory, capacity }, seq![]),
        planned(StepView::BeginStaging { path: staged }, drop_staged),
        planned(StepView::RemoveLock { path: lock_file_text(database) }, drop_staged),
        planned(StepView::CopyTree { from: database, to: staged }, drop_staged),
        planned(StepView::PurgeTransient { root: staged }, drop_staged),
        planned(
            StepView::Pack {
                subtrees: subtrees_text(staged, name),
                destination: packed,
            },
            drop_both,
        ),
        planned(StepView::Promote { from: packed, to: promoted }, drop_both),
        planned(StepView::Discard { path: staged }, seq![]),
    ]
}

/// The work that makes a consolidated export named `name` of the database in
/// `database`: room is made in
/// `directory` first; the helper container `helper` exports into a temporary
/// directory in `directory`; its export is packed under a temporary name;
/// only the finished archive gets its final name; and the helper container
/// is removed whether or not the packing succeeds.
pub open spec fn full_work_text(
    database: Seq<char>,
    directory: Seq<char>,
    name: Seq<char>,
    capacity: nat,
    helper: ContainerSpecView,
) -> Seq<PlannedStepView> {
    let export = join_text(directory, export_text(name));
    let packed = join_text(directory, temp_text(name));
    let promoted = join_text(directory, name);
    let remove_helper = StepView::RemoveContainer { name: helper.name };
    let drop_export = seq![StepView::Discard { path: export }];
    let drop_helper = seq![remove_helper, StepView::Discard { path: export }];
    let drop_all = seq![
        remove_helper,
        StepView::Discard { path: packed },
        StepView::Discard { path: export },
    ];
    seq![
        planned(StepView::RemoveLock { path: lock_file_text(database) }, seq![]),
        planned(StepView::EnsureDirectory { path: directory }, seq![]),
        planned(StepView::EvictOldest { directory, capacity }, seq![]),
        planned(StepView::BeginStaging { path: export }, drop_export),
        planned(StepView::CreateContainer { container: helper }, drop_export),
        planned(StepView::StartContainer { name: helper.name }, drop_helper),
        planned(StepView::AwaitContainer { name: helper.name }, drop_helper),
        planned(
            StepView::Pack {
                subtrees: subtrees_text(export, name),
                destination: packed,
            },
            drop_all,
        ),
        planned(StepView::Promote { from: packed, to: promoted }, drop_all),
        planned(remove_helper, drop_export),
        planned(StepView::Discard { path: export }, seq![]),
    ]
}

/// The work of an attempt of the given kind: the packaged copy, the
/// consolidated export, or the copy and then the export.
pub open spec fn work_text(
    kind: SnapshotType,
    archive: Seq<PlannedStepView>,
    full: Seq<PlannedStepView>,
) -> Seq<PlannedStepView> {
    match kind {
        SnapshotType::Archive => archive,
        SnapshotType::Full => full,
        SnapshotType::All => archive + full,
    }
}

/// The paths that a step brings into being.
pub open spec fn creates(step: StepView) -> Seq<Seq<char>> {
    match step {
        StepView::EnsureDirectory { path } => seq![path],
        StepView::BeginStaging { path } => seq![path],
        StepView::CopyTree { from, to } => seq![to],
        StepView::Pack { subtrees, destination } => seq![destination],
        StepView::Promote { from, to } => seq![to],
        _ => seq![],
    }
}

/// Whether the work `work` makes the snapshot at `promoted` visible only
/// when it is complete: one step gives it its final name, the step before
/// that one packed it under the temporary name `packed`, no other step
/// brings anything into being under the final name, and until the final
/// name is given every path that comes into being in `directory` ends in
/// `.temp`.
pub open spec fn promotes_atomically(
    work: Seq<PlannedStepView>,
    directory: Seq<char>,
    packed: Seq<char>,
    promoted: Seq<char>,
) -> bool {
    exists|k: int|
        {
            &&& 0 < k < work.len()
            &&& #[trigger] work[k].step == (StepView::Promote { from: packed, to: promoted })
            &&& work[k - 1].step is Pack
            &&& creates(work[k - 1].step) == seq![packed]
            &&& ends_with(packed, ".temp"@)
            &&& !ends_with(promoted, ".temp"@)
            &&& forall|i: int|
                0 <= i < work.len() && i != k ==> !creates(#[trigger] work[i].step).contains(
                    promoted,
                )
            &&& forall|i: int, j: int|
                0 <= i < k && 0 <= j < creates(work[i].step).len() ==> {
                    let path = #[trigger] creates(work[i].step)[j];
                    path == directory || ends_with(path, ".temp"@)
                }
        }
}

/// A snapshot name begins with the prefix and ends with its kind: it is not
/// empty, does not begin with `/` and does not end in `.temp`.
proof fn lemma_name_is_relative(identity: SnapshotIdentityView)
    ensures
        identity.name().len() > 0,
        identity.name()[0] == 't',
        ends_with(identity.name(), kind_text(identity.kind)),
        !ends_with(identity.name(), ".temp"@),
{
    reveal_strlit("tezedge_");
    reveal_strlit("archive");
    reveal_strlit("full");
    reveal_strlit(".temp");
    let name = identity.name();
    let kind = kind_text(identity.kind);
    assert(name.subrange(name.len() - kind.len(), name.len() as int) =~= kind);
    assert(name.last() == kind.last());
    if ends_with(name, ".temp"@) {
        assert(name.subrange(name.len() - 5, name.len() as int)[4] == 'p');
    }
}

/// A path under `directory` that ends like the name of a snapshot is not a
/// temporary one and is not the directory itself.
proof fn lemma_promoted_path(directory: Seq<char>, identity: SnapshotIdentityView)
    ensures
        !ends_with(join_text(directory, identity.name()), ".temp"@),
        join_text(directory, identity.name()) != directory,
        ends_with(join_text(directory, temp_text(identity.name())), ".temp"@),
        ends_with(join_text(directory, export_text(identity.name())), ".temp"@),
{
    let name = identity.name();
    let promoted = join_text(directory, name);
    lemma_name_is_relative(identity);
    reveal_strlit(".temp");
    reveal_strlit("-dir.temp");
    reveal_strlit("archive");
    reveal_strlit("full");
    lemma_join_ends_with(directory, name, kind_text(identity.kind));
    lemma_join_is_longer(directory, name);
    assert(promoted.last() == kind_text(identity.kind).last()) by {
        let kind = kind_text(identity.kind);
        assert(promoted.subrange(promoted.len() - kind.len(), promoted.len() as int).last()
            == kind.last());
    }
    if ends_with(promoted, ".temp"@) {
        assert(promoted.subrange(promoted.len() - 5, promoted.len() as int)[4] == 'p');
    }
    assert(ends_with(temp_text(name), ".temp"@));
    assert(ends_with(export_text(name), ".temp"@)) by {
        let text = export_text(name);
        assert(text.subrange(text.len() - 5, text.len() as int) =~= ".temp"@);
    }
    lemma_join_ends_with(directory, temp_text(name), ".temp"@);
    lemma_join_ends_with(directory, export_text(name), ".temp"@);
}

/// A packaged copy is seen complete or not at all: whatever the
/// directories and the identity, the copy appears under its final name in
/// one move, after it was packed in full under a name that ends in `.temp`.
/// An attempt that breaks off before that move leaves nothing under the
/// final name.
pub proof fn lemma_archive_is_promoted_atomically(
    database: Seq<char>,
    directory: Seq<char>,
    scratch: Seq<char>,
    identity: SnapshotIdentityView,
    capacity: nat,
)
    ensures
        promotes_atomically(
            archive_work_text(database, directory, scratch, identity.name(), capacity),
            directory,
            join_text(directory, temp_text(identity.name())),
            join_text(directory, identity.name()),
        ),
{
    let name = identity.name();
    let work = archive_work_text(database, directory, scratch, name, capacity);
    let packed = join_text(directory, temp_text(name));
    let promoted = join_text(directory, name);
    lemma_promoted_path(directory, identity);
    lemma_promoted_path(scratch, identity);
    assert(work[7].step == (StepView::Promote { from: packed, to: promoted }));
    assert forall|i: int| 0 <= i < work.len() && i != 7 implies !creates(
        #[trigger] work[i].step,
    ).contains(promoted) by {
        let made = creates(work[i].step);
        assert(forall|j: int| 0 <= j < made.len() ==> made[j] != promoted);
    }
    assert forall|i: int, j: int| 0 <= i < 7 && 0 <= j < creates(work[i].step).len() implies {
        let path = #[trigger] creates(work[i].step)[j];
        path == directory || ends_with(path, ".temp"@)
    } by {
    }
}

/// A consolidated export is seen complete or not at all: the export
/// appears under its final name in one move, after it was packed in full
/// under a name that ends in `.temp`.
pub proof fn lemma_full_is_promoted_atomically(
    database: Seq<char>,
    directory: Seq<char>,
    identity: SnapshotIdentityView,
    capacity: nat,
    helper: ContainerSpecView,
)
    ensures
        promotes_atomically(
            full_work_text(database, directory, identity.name(), capacity, helper),
            directory,
            join_text(directory, temp_text(identity.name())),
            join_text(directory, identity.name()),
        ),
{
    let name = identity.name();
    let work = full_work_text(database, directory, name, capacity, helper);
    let packed = join_text(directory, temp_text(name));
    let promoted = join_text(directory, name);
    lemma_promoted_path(directory, identity);
    assert(work[8].step == (StepView::Promote { from: packed, to: promoted }));
    assert forall|i: int| 0 <= i < work.len() && i != 8 implies !creates(
        #[trigger] work[i].step,
    ).contains(promoted) by {
        let made = creates(work[i].step);
        assert(forall|j: int| 0 <= j < made.len() ==> made[j] != promoted);
    }
    assert forall|i: int, j: int| 0 <= i < 8 && 0 <= j < creates(work[i].step).len() implies {
        let path = #[trigger] creates(work[i].step)[j];
        path == directory || ends_with(path, ".temp"@)
    } by {
    }
}

/// The packaged copy is made from a purged tree: the database is copied to
/// the staging directory, the copy is purged, and what is packed is that
/// copy, with no step between the purge and the packing.
pub proof fn lemma_archive_packs_the_purged_copy(
    database: Seq<char>,
    directory: Seq<char>,
    scratch: Seq<char>,
    name: Seq<char>,
    capacity: nat,
)
    ensures
        ({
            let work = archive_work_text(database, directory, scratch, name, capacity);
            let staged = join_text(scratch, temp_text(name));
            exists|purge: int|
                {
                    &&& 0 < purge < work.len() - 1
                    &&& work[purge - 1].step == (StepView::CopyTree { from: database, to: staged })
                    &&& #[trigger] work[purge].step == (StepView::PurgeTransient { root: staged })
                    &&& work[purge + 1].step == (StepView::Pack {
                        subtrees: subtrees_text(staged, name),
                        destination: join_text(directory, temp_text(name)),
                    })
                }
        }),
{
    let work = archive_work_text(database, directory, scratch, name, capacity);
    let staged = join_text(scratch, temp_text(name));
    assert(work[5].step == (StepView::PurgeTransient { root: staged }));
}

/// Room is made before anything new is staged. In the work for either kind
/// of snapshot, the retention pass over the category comes before every
/// step that brings a path into being in it, the category's own directory
/// apart.
pub proof fn lemma_eviction_precedes_staging(
    database: Seq<char>,
    directory: Seq<char>,
    scratch: Seq<char>,
    name: Seq<char>,
    capacity: nat,
    helper: ContainerSpecView,
)
    ensures
        ({
            let work = archive_work_text(database, directory, scratch, name, capacity);
            exists|e: int|
                0 <= e < work.len() && #[trigger] work[e].step == (StepView::EvictOldest {
                    directory,
                    capacity,
                }) && forall|i: int|
                    0 <= i < e ==> creates(#[trigger] work[i].step) =~= seq![directory]
        }),
        ({
            let work = full_work_text(database, directory, name, capacity, helper);
            exists|e: int|
                0 <= e < work.len() && #[trigger] work[e].step == (StepView::EvictOldest {
                    directory,
                    capacity,
                }) && forall|i: int|
                    0 <= i < e ==> creates(#[trigger] work[i].step).len() == 0 || creates(
                        work[i].step,
                    ) =~= seq![directory]
        }),
{
    let archive = archive_work_text(database, directory, scratch, name, capacity);
    assert(archive[1].step == (StepView::EvictOldest { directory, capacity }));
    let full = full_work_text(database, directory, name, capacity, helper);
    assert(full[2].step == (StepView::EvictOldest { directory, capacity }));
}

/// The helper container does not outlive the attempt: from the moment it
/// is started until the step that removes it, the failure of any step of
/// the work has the container removed. That holds of the wait for its end
/// too: a wait that fails packs and promotes nothing.
pub proof fn lemma_helper_is_always_removed(
    database: Seq<char>,
    directory: Seq<char>,
    name: Seq<char>,
    capacity: nat,
    helper: ContainerSpecView,
)
    ensures
        ({
            let work = full_work_text(database, directory, name, capacity, helper);
            let removal = StepView::RemoveContainer { name: helper.name };
            exists|created: int, removed: int|
                {
                    &&& 0 <= created < removed < work.len()
                    &&& #[trigger] work[created].step == (StepView::CreateContainer {
                        container: helper,
                    })
                    &&& #[trigger] work[removed].step == removal
                    &&& forall|i: int|
                        created < i < removed ==> (#[trigger] work[i]).release.contains(removal)
                }
        }),
{
    let work = full_work_text(database, directory, name, capacity, helper);
    let removal = StepView::RemoveContainer { name: helper.name };
    assert(work[4].step == (StepView::CreateContainer { container: helper }));
    assert(work[9].step == removal);
    assert forall|i: int| 4 < i < 9 implies (#[trigger] work[i]).release.contains(removal) by {
        assert(work[i].release[0] == removal);
    }
}

/// Appends `step` with its `release` to `out`.
fn push_planned(out: &mut Vec<PlannedStep>, step: Step, release: Vec<Step>)
    ensures
        final(out).deep_view() == old(out).deep_view().push(planned(step@, release.deep_view())),
{
    let ghost before = out.deep_view();
    out.push(PlannedStep { step, release });
    assert(out.deep_view() =~= before.push(planned(step@, release.deep_view())));
}

/// No steps.
fn release_none() -> (r: Vec<Step>)
    ensures
        r.deep_view() == Seq::<StepView>::empty(),
{
    let out: Vec<Step> = Vec::new();
    assert(out.deep_view() =~= Seq::<StepView>::empty());
    out
}

/// The removal of `path`.
fn release_one(path: &str) -> (r: Vec<Step>)
    ensures
        r.deep_view() == seq![StepView::Discard { path: path@ }],
{
    let mut out: Vec<Step> = Vec::new();
    out.push(Step::Discard { path: path.to_owned() });
    assert(out.deep_view() =~= seq![StepView::Discard { path: path@ }]);
    out
}

/// The removal of `first`, then of `second`.
fn release_two(first: &str, second: &str) -> (r: Vec<Step>)
    ensures
        r.deep_view() == seq![
            StepView::Discard { path: first@ },
            StepView::Discard { path: second@ },
        ],
{
    let mut out: Vec<Step> = Vec::new();
    out.push(Step::Discard { path: first.to_owned() });
    out.push(Step::Discard { path: second.to_owned() });
    assert(out.deep_view() =~= seq![
        StepView::Discard { path: first@ },
        StepView::Discard { path: second@ },
    ]);
    out
}

/// The removal of the container `helper`, then of each of `paths`.
fn release_helper(helper: &str, paths: Vec<Step>) -> (r: Vec<Step>)
    ensures
        r.deep_view() == seq![StepView::RemoveContainer { name: helper@ }] + paths.deep_view(),
{
    let mut out: Vec<Step> = Vec::new();
    out.push(Step::RemoveContainer { name: helper.to_owned() });
    let mut rest: Vec<Step> = paths;
    let ghost tail = rest.deep_view();
    let ghost tail_steps = rest@;
    out.append(&mut rest);
    assert(out.deep_view() =~= seq![StepView::RemoveContainer { name: helper@ }] + tail) by {
        assert(out@ =~= seq![out@[0]] + tail_steps);
        assert(forall|i: int| 0 <= i < tail.len() ==> tail[i] == tail_steps[i]@);
    }
    out
}

/// Appends to `out` the work that makes the packaged copy that `identity`
/// names, of the database in `database`.
pub fn take_archive_snapshot(
    out: &mut Vec<PlannedStep>,
    snapshot_capacity: usize,
    identity: &SnapshotIdentity,
    database: &str,
    directory: &str,
    scratch: &str,
)
    ensures
        final(out).deep_view() == old(out).deep_view() + archive_work_text(
            database@,
            directory@,
            scratch@,
            identity@.name(),
            snapshot_capacity as nat,
        ),
{
    let ghost before = out.deep_view();
    let final_name: String = identity.name();
    let temp: String = temp_name(final_name.as_str());
    let staged: String = join(scratch, temp.as_str());
    let packed: String = join(directory, temp.as_str());
    let promoted: String = join(directory, final_name.as_str());
    push_planned(out, Step::EnsureDirectory { path: directory.to_owned() }, release_none());
    push_planned(
        out,
        Step::EvictOldest { directory: directory.to_owned(), capacity: snapshot_capacity },
        release_none(),
    );
    push_planned(out, Step::BeginStaging { path: staged.clone() }, release_one(staged.as_str()));
    push_planned(out, Step::RemoveLock { path: lock_file(database) }, release_one(staged.as_str()));
    push_planned(
        out,
        Step::CopyTree { from: database.to_owned(), to: staged.clone() },
        release_one(staged.as_str()),
    );
    push_planned(out, Step::PurgeTransient { root: staged.clone() }, release_one(staged.as_str()));
    push_planned(
        out,
        create_tezedge_tar_archive(temp.as_str(), final_name.as_str(), staged.as_str(), directory),
        release_two(packed.as_str(), staged.as_str()),
    );
    push_planned(
        out,
        Step::Promote { from: packed.clone(), to: promoted },
        release_two(packed.as_str(), staged.as_str()),
    );
    push_planned(out, Step::Discard { path: staged.clone() }, release_none());
    assert(out.deep_view() =~= before + archive_work_text(
        database@,
        directory@,
        scratch@,
        identity@.name(),
        snapshot_capacity as nat,
    ));
}

/// Appends to `out` the work that makes the consolidated export that
/// `identity` names, with the helper container `helper`, which reads the
/// database in `database`.
pub fn take_full_snapshot(
    out: &mut Vec<PlannedStep>,
    identity: &SnapshotIdentity,
    snapshot_capacity: usize,
    database: &str,
    directory: &str,
    helper: &ContainerSpec,
)
    ensures
        final(out).deep_view() == old(out).deep_view() + full_work_text(
            database@,
            directory@,
            identity@.name(),
            snapshot_capacity as nat,
            helper@,
        ),
{
    let ghost before = out.deep_view();
    let final_name: String = identity.name();
    let temp: String = temp_name(final_name.as_str());
    let export_dir: String = export_name(final_name.as_str());
    let export: String = join(directory, export_dir.as_str());
    let packed: String = join(directory, temp.as_str());
    let promoted: String = join(directory, final_name.as_str());
    let name: &str = helper.name.as_str();
    push_planned(out, Step::RemoveLock { path: lock_file(database) }, release_none());
    push_planned(out, Step::EnsureDirectory { path: directory.to_owned() }, release_none());
    push_planned(
        out,
        Step::EvictOldest { directory: directory.to_owned(), capacity: snapshot_capacity },
        release_none(),
    );
    push_planned(out, Step::BeginStaging { path: export.clone() }, release_one(export.as_str()));
    push_planned(
        out,
        Step::CreateContainer { container: copy_container(helper) },
        release_one(export.as_str()),
    );
    push_planned(
        out,
        Step::StartContainer { name: name.to_owned() },
        release_helper(name, release_one(export.as_str())),
    );
    push_planned(
        out,
        Step::AwaitContainer { name: name.to_owned() },
        release_helper(name, release_one(export.as_str())),
    );
    push_planned(
        out,
        create_tezedge_tar_archive(temp.as_str(), final_name.as_str(), export.as_str(), directory),
        release_helper(name, release_two(packed.as_str(), export.as_str())),
    );
    push_planned(
        out,
        Step::Promote { from: packed.clone(), to: promoted },
        release_helper(name, release_two(packed.as_str(), export.as_str())),
    );
    push_planned(out, Step::RemoveContainer { name: name.to_owned() }, release_one(export.as_str()));
    push_planned(out, Step::Discard { path: export.clone() }, release_none());
    proof {
        let remove_helper = StepView::RemoveContainer { name: helper@.name };
        let drop_export = StepView::Discard { path: export@ };
        let drop_packed = StepView::Discard { path: packed@ };
        assert(seq![remove_helper] + seq![drop_export] =~= seq![remove_helper, drop_export]);
        assert(seq![remove_helper] + seq![drop_packed, drop_export] =~= seq![
            remove_helper,
            drop_packed,
            drop_export,
        ]);
    }
    assert(out.deep_view() =~= before + full_work_text(
        database@,
        directory@,
        identity@.name(),
        snapshot_capacity as nat,
        helper@,
    ));
}

} // verus!
