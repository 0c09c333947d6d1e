use tezedge_snapshots::attempt::{SnapshotAttempt, Stage};
use tezedge_snapshots::configuration::{ContextType, SnapshotKind, SnapshotType};
use tezedge_snapshots::executor::{take_archive_snapshot, take_full_snapshot};
use tezedge_snapshots::failure::TezedgeNodeControllerError;
use tezedge_snapshots::lifecycle::{start_steps, stop_steps};
use tezedge_snapshots::naming::{SnapshotIdentity, UtcStamp};
use tezedge_snapshots::node::{TezedgeNodeController, TezosBlockHeader};
use tezedge_snapshots::steps::{
    copy_container, copy_step, copy_steps, copy_texts, copy_trees, BindMount, ContainerSpec,
    PackedTree, PlannedStep, Step,
};

const ARCHIVE: &str = "tezedge_mainnet_20210304-123456_BLhash_archive";
const FULL: &str = "tezedge_mainnet_20210304-123456_BLhash_full";

fn controller() -> TezedgeNodeController {
    TezedgeNodeController::new(
        "http://localhost:18732".to_string(),
        "tezedge-node".to_string(),
        "tezedge-node-monitoring".to_string(),
        "mainnet".to_string(),
        "/tmp/tezedge".to_string(),
        "/tmp/snapshots".to_string(),
        "tezedge/tezedge:latest".to_string(),
        ContextType::Irmin,
    )
}

fn stamp() -> UtcStamp {
    UtcStamp { year: 2021, month: 3, day: 4, hour: 12, minute: 34, second: 56 }
}

fn identity(kind: SnapshotKind) -> SnapshotIdentity {
    SnapshotIdentity::new("mainnet", stamp(), "BLhash", kind)
}

fn plan(kind: SnapshotType, capacity: usize) -> SnapshotAttempt {
    controller().plan_snapshot(
        capacity,
        &kind,
        stamp(),
        &TezosBlockHeader::new("BLhash"),
        &None,
        &None,
    )
}

fn stop(name: &str) -> Step {
    Step::StopContainer { name: name.to_string() }
}

fn start(name: &str) -> Step {
    Step::StartContainer { name: name.to_string() }
}

fn discard(path: String) -> Step {
    Step::Discard { path }
}

fn helper(source: &str) -> ContainerSpec {
    ContainerSpec {
        name: "tezedge-snapshots-full-irmin-mainnet".to_string(),
        image: "tezedge/tezedge:latest".to_string(),
        entrypoint: [
            "/light-node",
            "--config-file=/tezedge.config",
            "--p2p-port=1234",
            "--rpc-port=1234",
            "--init-sapling-spend-params-file=/sapling-spend.params",
            "--init-sapling-output-params-file=/sapling-output.params",
            "--network",
            "mainnet",
            "--bootstrap-db-path=bootstrap_db",
            "--tezos-data-dir",
            source,
            "snapshot",
            "--target-path",
            &format!("/tmp/snapshots/full/{}-dir.temp", FULL),
        ]
        .iter()
        .map(|s| s.to_string())
        .collect(),
        mounts: vec![
            BindMount { source: "/tmp/snapshots".to_string(), target: "/tmp/snapshots".to_string() },
            BindMount { source: "/tmp/tezedge".to_string(), target: "/tmp/tezedge".to_string() },
        ],
    }
}

fn archive_steps(capacity: usize) -> Vec<Step> {
    let staged = format!("/tmp/tezedge-snapshots-tmp/{}.temp", ARCHIVE);
    let packed = format!("/tmp/snapshots/archive/{}.temp", ARCHIVE);
    let promoted = format!("/tmp/snapshots/archive/{}", ARCHIVE);
    vec![
        Step::EnsureDirectory { path: "/tmp/snapshots/archive".to_string() },
        Step::EvictOldest { directory: "/tmp/snapshots/archive".to_string(), capacity },
        Step::BeginStaging { path: staged.clone() },
        Step::RemoveLock { path: "/tmp/tezedge/context/index/lock".to_string() },
        Step::CopyTree { from: "/tmp/tezedge".to_string(), to: staged.clone() },
        Step::PurgeTransient { root: staged.clone() },
        Step::Pack {
            subtrees: vec![
                PackedTree {
                    source: format!("{}/context", staged),
                    member: format!("{}/context", ARCHIVE),
                },
                PackedTree {
                    source: format!("{}/bootstrap_db", staged),
                    member: format!("{}/bootstrap_db", ARCHIVE),
                },
            ],
            destination: packed.clone(),
        },
        Step::Promote { from: packed, to: promoted },
        Step::Discard { path: staged },
    ]
}

fn full_steps(capacity: usize, source: &str) -> Vec<Step> {
    let export = format!("/tmp/snapshots/full/{}-dir.temp", FULL);
    let packed = format!("/tmp/snapshots/full/{}.temp", FULL);
    let promoted = format!("/tmp/snapshots/full/{}", FULL);
    let name = "tezedge-snapshots-full-irmin-mainnet".to_string();
    vec![
        Step::RemoveLock { path: format!("{}/context/index/lock", source) },
        Step::EnsureDirectory { path: "/tmp/snapshots/full".to_string() },
        Step::EvictOldest { directory: "/tmp/snapshots/full".to_string(), capacity },
        Step::BeginStaging { path: export.clone() },
        Step::CreateContainer { container: helper(source) },
        Step::StartContainer { name: name.clone() },
        Step::AwaitContainer { name: name.clone() },
        Step::Pack {
            subtrees: vec![
                PackedTree {
                    source: format!("{}/context", export),
                    member: format!("{}/context", FULL),
                },
                PackedTree {
                    source: format!("{}/bootstrap_db", export),
                    member: format!("{}/bootstrap_db", FULL),
                },
            ],
            destination: packed.clone(),
        },
        Step::Promote { from: packed, to: promoted },
        Step::RemoveContainer { name },
        Step::Discard { path: export },
    ]
}

/// Performs the attempt with every step succeeding but the steps listed in
/// `failing`, which fail with a Docker error that carries their number.
fn perform(attempt: &mut SnapshotAttempt, failing: &[usize]) -> Vec<Step> {
    let mut performed = Vec::new();
    while let Some(step) = attempt.current() {
        let index = performed.len();
        performed.push(step);
        if failing.contains(&index) {
            attempt.advance(Err(TezedgeNodeControllerError::DockerError(format!("step {}", index))));
        } else {
            attempt.advance(Ok(()));
        }
        assert!(performed.len() < 100);
    }
    performed
}

#[test]
fn archive_attempt_stops_works_and_starts() {
    let mut attempt = plan(SnapshotType::Archive, 7);
    assert_eq!(attempt.stage(), Stage::Stopping);
    assert_eq!(attempt.result(), None);
    let performed = perform(&mut attempt, &[]);
    let mut expected = vec![stop("tezedge-node-mainnet"), stop("tezedge-node-monitoring-mainnet")];
    expected.extend(archive_steps(7));
    expected.push(start("tezedge-node-mainnet"));
    expected.push(start("tezedge-node-monitoring-mainnet"));
    assert_eq!(performed, expected);
    assert!(attempt.is_finished());
    assert_eq!(attempt.stage(), Stage::Finished);
    assert_eq!(attempt.result(), Some(Ok(())));
    assert_eq!(attempt.restart_failure(), None);
}

#[test]
fn full_attempt_runs_the_helper_against_the_live_database() {
    let mut attempt = plan(SnapshotType::Full, 3);
    let performed = perform(&mut attempt, &[]);
    let mut expected = vec![stop("tezedge-node-mainnet"), stop("tezedge-node-monitoring-mainnet")];
    expected.extend(full_steps(3, "/tmp/tezedge"));
    expected.push(start("tezedge-node-mainnet"));
    expected.push(start("tezedge-node-monitoring-mainnet"));
    assert_eq!(performed, expected);
    assert_eq!(attempt.result(), Some(Ok(())));
}

#[test]
fn all_attempt_makes_the_archive_first_and_exports_the_live_database() {
    let mut attempt = plan(SnapshotType::All, 2);
    let performed = perform(&mut attempt, &[]);
    let mut expected = vec![stop("tezedge-node-mainnet"), stop("tezedge-node-monitoring-mainnet")];
    expected.extend(archive_steps(2));
    expected.extend(full_steps(2, "/tmp/tezedge"));
    expected.push(start("tezedge-node-mainnet"));
    expected.push(start("tezedge-node-monitoring-mainnet"));
    assert_eq!(performed, expected);
    assert_eq!(performed.len(), 24);
    assert_eq!(attempt.result(), Some(Ok(())));
}

#[test]
fn archive_is_promoted_under_its_kind_tagged_name() {
    let mut attempt = controller().plan_snapshot(
        7,
        &SnapshotType::Archive,
        UtcStamp { year: 2021, month: 3, day: 4, hour: 5, minute: 6, second: 7 },
        &TezosBlockHeader::new("BLabc"),
        &None,
        &None,
    );
    let performed = perform(&mut attempt, &[]);
    let promoted: Vec<&Step> =
        performed.iter().filter(|step| matches!(step, Step::Promote { .. })).collect();
    assert_eq!(
        promoted,
        vec![&Step::Promote {
            from: "/tmp/snapshots/archive/tezedge_mainnet_20210304-050607_BLabc_archive.temp"
                .to_string(),
            to: "/tmp/snapshots/archive/tezedge_mainnet_20210304-050607_BLabc_archive".to_string(),
        }]
    );
}

#[test]
fn helper_reads_the_database_directory_for_every_kind() {
    for kind in [SnapshotType::Full, SnapshotType::All] {
        let mut attempt = plan(kind, 2);
        let performed = perform(&mut attempt, &[]);
        let created: Vec<&Step> =
            performed.iter().filter(|step| matches!(step, Step::CreateContainer { .. })).collect();
        assert_eq!(created.len(), 1);
        if let Step::CreateContainer { container } = created[0] {
            assert_eq!(container.image, "tezedge/tezedge:latest");
            assert_eq!(container.entrypoint[6], "--network");
            assert_eq!(container.entrypoint[7], "mainnet");
            assert_eq!(container.entrypoint[9], "--tezos-data-dir");
            assert_eq!(container.entrypoint[10], "/tmp/tezedge");
            assert_eq!(container.entrypoint[12], "--target-path");
            assert_eq!(container.entrypoint[13], format!("/tmp/snapshots/full/{}-dir.temp", FULL));
        }
    }
}

#[test]
fn failed_wait_for_the_helper_packs_and_promotes_nothing() {
    // steps 0 and 1 stop the node; step 8 is the wait for the helper
    let mut attempt = plan(SnapshotType::Full, 7);
    let performed = perform(&mut attempt, &[8]);
    assert!(matches!(performed[8], Step::AwaitContainer { .. }));
    assert!(!performed.iter().any(|step| matches!(step, Step::Pack { .. })));
    assert!(!performed.iter().any(|step| matches!(step, Step::Promote { .. })));
    assert_eq!(
        &performed[9..],
        &[
            Step::RemoveContainer { name: "tezedge-snapshots-full-irmin-mainnet".to_string() },
            discard(format!("/tmp/snapshots/full/{}-dir.temp", FULL)),
            start("tezedge-node-mainnet"),
            start("tezedge-node-monitoring-mainnet"),
        ]
    );
    assert_eq!(
        attempt.result(),
        Some(Err(TezedgeNodeControllerError::DockerError("step 8".to_string())))
    );
}

#[test]
fn both_artifacts_of_one_attempt_share_their_name() {
    let mut attempt = plan(SnapshotType::All, 2);
    let performed = perform(&mut attempt, &[]);
    let promoted: Vec<String> = performed
        .iter()
        .filter_map(|step| match step { Step::Promote { to, .. } => Some(to.clone()), _ => None })
        .collect();
    assert_eq!(
        promoted,
        vec![
            format!("/tmp/snapshots/archive/{}", ARCHIVE),
            format!("/tmp/snapshots/full/{}", FULL),
        ]
    );
}

#[test]
fn eviction_comes_before_staging() {
    for kind in [SnapshotType::Archive, SnapshotType::Full, SnapshotType::All] {
        let mut attempt = plan(kind, 2);
        let performed = perform(&mut attempt, &[]);
        let mut evicted_for: Vec<String> = Vec::new();
        for step in &performed {
            match step {
                Step::EvictOldest { directory, capacity } => {
                    assert_eq!(*capacity, 2);
                    evicted_for.push(directory.clone());
                }
                Step::Pack { destination, .. } => {
                    assert!(evicted_for.iter().any(|d| destination.starts_with(d.as_str())));
                }
                Step::Promote { to, .. } => {
                    assert!(evicted_for.iter().any(|d| to.starts_with(d.as_str())));
                }
                _ => {}
            }
        }
    }
}

#[test]
fn nothing_carries_the_final_name_before_promotion() {
    for kind in [SnapshotType::Archive, SnapshotType::Full, SnapshotType::All] {
        let mut attempt = plan(kind, 2);
        let performed = perform(&mut attempt, &[]);
        for (index, step) in performed.iter().enumerate() {
            if let Step::Promote { from, to } = step {
                assert!(from.ends_with(".temp"));
                assert!(!to.ends_with(".temp"));
                assert!(matches!(&performed[index - 1], Step::Pack { destination, .. } if destination == from));
                for earlier in &performed[..index] {
                    match earlier {
                        Step::BeginStaging { path } => assert_ne!(path, to),
                        Step::CopyTree { to: copied, .. } => assert_ne!(copied, to),
                        Step::Pack { destination, .. } => assert_ne!(destination, to),
                        Step::EnsureDirectory { path } => assert_ne!(path, to),
                        _ => {}
                    }
                }
            }
        }
    }
}

#[test]
fn attempt_interrupted_before_promotion_has_promoted_nothing() {
    let mut attempt = plan(SnapshotType::Archive, 2);
    let mut performed = Vec::new();
    while let Some(step) = attempt.current() {
        if matches!(step, Step::Promote { .. }) {
            break;
        }
        performed.push(step);
        attempt.advance(Ok(()));
    }
    assert_eq!(performed.len(), 9);
    let final_name = format!("/tmp/snapshots/archive/{}", ARCHIVE);
    for step in &performed {
        match step {
            Step::BeginStaging { path } | Step::EnsureDirectory { path } => assert_ne!(path, &final_name),
            Step::CopyTree { to, .. } => assert_ne!(to, &final_name),
            Step::Pack { destination, .. } => {
                assert_ne!(destination, &final_name);
                assert!(destination.ends_with(".temp"));
            }
            Step::Promote { .. } => panic!("promoted before the break"),
            _ => {}
        }
    }
}

#[test]
fn failed_work_is_put_in_order_and_the_node_is_started() {
    // steps 0 and 1 stop the node; step 8 is the packing of the archive
    let mut attempt = plan(SnapshotType::Archive, 7);
    let performed = perform(&mut attempt, &[8]);
    let staged = format!("/tmp/tezedge-snapshots-tmp/{}.temp", ARCHIVE);
    let packed = format!("/tmp/snapshots/archive/{}.temp", ARCHIVE);
    let mut expected = vec![stop("tezedge-node-mainnet"), stop("tezedge-node-monitoring-mainnet")];
    expected.extend(archive_steps(7).into_iter().take(7));
    expected.push(discard(packed));
    expected.push(discard(staged));
    expected.push(start("tezedge-node-mainnet"));
    expected.push(start("tezedge-node-monitoring-mainnet"));
    assert_eq!(performed, expected);
    assert_eq!(
        attempt.result(),
        Some(Err(TezedgeNodeControllerError::DockerError("step 8".to_string())))
    );
    assert_eq!(attempt.restart_failure(), None);
}

#[test]
fn failed_eviction_stages_nothing() {
    let mut attempt = plan(SnapshotType::All, 7);
    let mut performed = Vec::new();
    while let Some(step) = attempt.current() {
        let evicting = matches!(step, Step::EvictOldest { .. });
        performed.push(step);
        if evicting {
            attempt.advance(Err(TezedgeNodeControllerError::FilesystemError("unreadable".to_string())));
        } else {
            attempt.advance(Ok(()));
        }
    }
    assert_eq!(
        performed,
        vec![
            stop("tezedge-node-mainnet"),
            stop("tezedge-node-monitoring-mainnet"),
            Step::EnsureDirectory { path: "/tmp/snapshots/archive".to_string() },
            Step::EvictOldest { directory: "/tmp/snapshots/archive".to_string(), capacity: 7 },
            start("tezedge-node-mainnet"),
            start("tezedge-node-monitoring-mainnet"),
        ]
    );
    assert_eq!(
        attempt.result(),
        Some(Err(TezedgeNodeControllerError::FilesystemError("unreadable".to_string())))
    );
}

#[test]
fn helper_is_removed_when_packing_fails() {
    // steps 0 and 1 stop the node; step 9 is the packing of the export
    let mut attempt = plan(SnapshotType::Full, 7);
    let performed = perform(&mut attempt, &[9]);
    let export = format!("/tmp/snapshots/full/{}-dir.temp", FULL);
    let packed = format!("/tmp/snapshots/full/{}.temp", FULL);
    let mut expected = vec![stop("tezedge-node-mainnet"), stop("tezedge-node-monitoring-mainnet")];
    expected.extend(full_steps(7, "/tmp/tezedge").into_iter().take(8));
    expected.push(Step::RemoveContainer { name: "tezedge-snapshots-full-irmin-mainnet".to_string() });
    expected.push(discard(packed));
    expected.push(discard(export));
    expected.push(start("tezedge-node-mainnet"));
    expected.push(start("tezedge-node-monitoring-mainnet"));
    assert_eq!(performed, expected);
    assert_eq!(
        attempt.result(),
        Some(Err(TezedgeNodeControllerError::DockerError("step 9".to_string())))
    );
}

#[test]
fn helper_that_was_not_created_is_not_removed() {
    // step 6 is the creation of the helper container
    let mut attempt = plan(SnapshotType::Full, 7);
    let performed = perform(&mut attempt, &[6]);
    assert!(matches!(performed[6], Step::CreateContainer { .. }));
    assert!(!performed.iter().any(|step| matches!(step, Step::RemoveContainer { .. })));
    assert_eq!(&performed[7..], &[
        discard(format!("/tmp/snapshots/full/{}-dir.temp", FULL)),
        start("tezedge-node-mainnet"),
        start("tezedge-node-monitoring-mainnet"),
    ]);
}

#[test]
fn failures_while_putting_in_order_are_passed_over() {
    let mut attempt = plan(SnapshotType::Full, 7);
    // step 9 fails; steps 10, 11 and 12 are the clean-up and fail too
    let performed = perform(&mut attempt, &[9, 10, 11, 12]);
    assert_eq!(performed.len(), 15);
    assert_eq!(performed[13], start("tezedge-node-mainnet"));
    assert_eq!(performed[14], start("tezedge-node-monitoring-mainnet"));
    assert_eq!(
        attempt.result(),
        Some(Err(TezedgeNodeControllerError::DockerError("step 9".to_string())))
    );
    assert_eq!(attempt.restart_failure(), None);
}

#[test]
fn failed_stop_of_the_node_leaves_the_monitor_alone_and_restarts() {
    let mut attempt = plan(SnapshotType::Archive, 7);
    let performed = perform(&mut attempt, &[0]);
    assert_eq!(
        performed,
        vec![
            stop("tezedge-node-mainnet"),
            start("tezedge-node-mainnet"),
            start("tezedge-node-monitoring-mainnet"),
        ]
    );
    assert_eq!(
        attempt.result(),
        Some(Err(TezedgeNodeControllerError::DockerError("step 0".to_string())))
    );
}

#[test]
fn failed_start_of_the_node_leaves_the_monitor_stopped() {
    let mut attempt = plan(SnapshotType::Archive, 7);
    let performed = perform(&mut attempt, &[11]);
    assert_eq!(performed.len(), 12);
    assert_eq!(performed[11], start("tezedge-node-mainnet"));
    assert_eq!(
        attempt.result(),
        Some(Err(TezedgeNodeControllerError::DockerError("step 11".to_string())))
    );
    assert_eq!(attempt.restart_failure(), None);
}

#[test]
fn failed_restart_does_not_hide_the_first_failure() {
    let mut attempt = plan(SnapshotType::Archive, 7);
    // step 4 is the staging; step 5 its clean-up; step 6 the start of the node
    let performed = perform(&mut attempt, &[4, 6]);
    assert_eq!(performed.len(), 7);
    assert_eq!(performed[6], start("tezedge-node-mainnet"));
    assert_eq!(
        attempt.result(),
        Some(Err(TezedgeNodeControllerError::DockerError("step 4".to_string())))
    );
    assert_eq!(
        attempt.restart_failure(),
        Some(TezedgeNodeControllerError::DockerError("step 6".to_string()))
    );
}

#[test]
fn node_stays_stopped_while_the_helper_runs() {
    let mut attempt = plan(SnapshotType::All, 7);
    let mut performed = Vec::new();
    while let Some(step) = attempt.current() {
        if matches!(step, Step::AwaitContainer { .. }) {
            break;
        }
        performed.push(step);
        attempt.advance(Ok(()));
    }
    // the archive is promoted, the helper is started, and the attempt waits
    assert!(performed.iter().any(|s| matches!(s, Step::Promote { to, .. } if to.ends_with("_archive"))));
    for _ in 0..1000 {
        assert_eq!(
            attempt.current(),
            Some(Step::AwaitContainer { name: "tezedge-snapshots-full-irmin-mainnet".to_string() })
        );
        assert_eq!(attempt.stage(), Stage::Working);
        assert_eq!(attempt.result(), None);
    }
    assert!(performed.contains(&stop("tezedge-node-mainnet")));
    assert!(!performed.contains(&start("tezedge-node-mainnet")));
    // once the wait is over, the attempt goes on and starts the node
    let rest = perform(&mut attempt, &[]);
    assert_eq!(rest.last(), Some(&start("tezedge-node-monitoring-mainnet")));
    assert!(rest.contains(&start("tezedge-node-mainnet")));
}

#[test]
fn finished_attempt_takes_no_more_outcomes() {
    let mut attempt = plan(SnapshotType::Archive, 7);
    perform(&mut attempt, &[]);
    attempt.advance(Err(TezedgeNodeControllerError::NodeUnreachable));
    attempt.advance(Ok(()));
    assert!(attempt.is_finished());
    assert_eq!(attempt.current(), None);
    assert_eq!(attempt.result(), Some(Ok(())));
}

#[test]
fn empty_attempt_is_finished_at_once() {
    let attempt = SnapshotAttempt::begin(Vec::new(), Vec::new(), Vec::new());
    assert!(attempt.is_finished());
    assert_eq!(attempt.result(), Some(Ok(())));
    let mut only_start = SnapshotAttempt::begin(Vec::new(), Vec::new(), start_steps("n", "m"));
    assert_eq!(only_start.stage(), Stage::Starting);
    assert_eq!(perform(&mut only_start, &[]), vec![start("n"), start("m")]);
}

#[test]
fn work_without_clean_up_goes_straight_to_the_start() {
    let work = vec![PlannedStep { step: Step::RemoveLock { path: "/db/lock".to_string() }, release: Vec::new() }];
    let mut attempt = SnapshotAttempt::begin(stop_steps("n", "m"), work, start_steps("n", "m"));
    let performed = perform(&mut attempt, &[2]);
    assert_eq!(
        performed,
        vec![stop("n"), stop("m"), Step::RemoveLock { path: "/db/lock".to_string() }, start("n"), start("m")]
    );
    assert!(matches!(attempt.result(), Some(Err(_))));
}

#[test]
fn work_builders_append_to_what_is_there() {
    let mut work = vec![PlannedStep { step: Step::RemoveLock { path: "x".to_string() }, release: Vec::new() }];
    take_archive_snapshot(&mut work, 4, &identity(SnapshotKind::Archive), "/db", "/snap/archive", "/scratch");
    assert_eq!(work.len(), 10);
    assert_eq!(work[0].step, Step::RemoveLock { path: "x".to_string() });
    assert_eq!(work[1].step, Step::EnsureDirectory { path: "/snap/archive".to_string() });
    assert_eq!(work[2].step, Step::EvictOldest { directory: "/snap/archive".to_string(), capacity: 4 });
    assert_eq!(work[3].step, Step::BeginStaging { path: format!("/scratch/{}.temp", ARCHIVE) });
    assert_eq!(work[3].release, vec![discard(format!("/scratch/{}.temp", ARCHIVE))]);
    assert_eq!(
        work[8].step,
        Step::Promote {
            from: format!("/snap/archive/{}.temp", ARCHIVE),
            to: format!("/snap/archive/{}", ARCHIVE),
        }
    );
    assert_eq!(
        work[8].release,
        vec![
            discard(format!("/snap/archive/{}.temp", ARCHIVE)),
            discard(format!("/scratch/{}.temp", ARCHIVE)),
        ]
    );
    assert_eq!(work[9].release, Vec::<Step>::new());
    let container = helper("/db");
    take_full_snapshot(&mut work, &identity(SnapshotKind::Full), 4, "/db", "/snap/full", &container);
    assert_eq!(work.len(), 21);
    assert_eq!(work[14].step, Step::CreateContainer { container: container.clone() });
    assert_eq!(work[14].release, vec![discard(format!("/snap/full/{}-dir.temp", FULL))]);
    assert_eq!(
        work[17].release,
        vec![
            Step::RemoveContainer { name: container.name.clone() },
            discard(format!("/snap/full/{}.temp", FULL)),
            discard(format!("/snap/full/{}-dir.temp", FULL)),
        ]
    );
    assert_eq!(work[19].step, Step::RemoveContainer { name: container.name.clone() });
    assert_eq!(work[19].release, vec![discard(format!("/snap/full/{}-dir.temp", FULL))]);
}

#[test]
fn copies_equal_what_they_copy() {
    let container = helper("/db");
    assert_eq!(copy_container(&container), container);
    let steps = full_steps(3, "/db");
    assert_eq!(copy_steps(&steps), steps);
    for step in archive_steps(3) {
        assert_eq!(copy_step(&step), step);
    }
    let texts = vec!["a".to_string(), "".to_string(), "c".to_string()];
    assert_eq!(copy_texts(&texts), texts);
    let trees = vec![PackedTree { source: "/a".to_string(), member: "r/a".to_string() }];
    assert_eq!(copy_trees(&trees), trees);
}
