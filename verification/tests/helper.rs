use tezedge_snapshots::configuration::ContextType;
use tezedge_snapshots::helper::{
    entrypoint, helper_container, host_path, is_running, running_filters, HelperAction,
    HelperEvent, HelperPhase, HelperProcessSupervisor, ListFilter, POLL_INTERVAL_SECONDS,
};
use tezedge_snapshots::steps::BindMount;

#[test]
fn entrypoint_tells_the_node_to_export() {
    let command = entrypoint("mainnet", "/tmp/tezedge", "/tmp/snapshots/irmin/full/x.full-dir.temp");
    let expected: Vec<String> = [
        "/light-node",
        "--config-file=/tezedge.config",
        "--p2p-port=1234",
        "--rpc-port=1234",
        "--init-sapling-spend-params-file=/sapling-spend.params",
        "--init-sapling-output-params-file=/sapling-output.params",
        "--network",
        "mainnet",
        "--bootstrap-db-path=bootstrap_db",
        "--tezos-data-dir",
        "/tmp/tezedge",
        "snapshot",
        "--target-path",
        "/tmp/snapshots/irmin/full/x.full-dir.temp",
    ]
    .iter()
    .map(|s| s.to_string())
    .collect();
    assert_eq!(command, expected);
}

#[test]
fn host_path_prefers_the_override() {
    assert_eq!(host_path(&Some("/mnt/volume".to_string()), "/tmp/snapshots"), "/mnt/volume");
    assert_eq!(host_path(&None, "/tmp/snapshots"), "/tmp/snapshots");
}

#[test]
fn helper_sees_both_directories_at_their_own_paths() {
    let container = helper_container(
        ContextType::Irmin,
        "mainnet",
        "tezedge/tezedge:latest",
        "/tmp/tezedge",
        "/tmp/snapshots/irmin/full/x.full-dir.temp",
        "/tmp/snapshots",
        &None,
        "/tmp/tezedge",
        &None,
    );
    assert_eq!(container.name, "tezedge-snapshots-full-irmin-mainnet");
    assert_eq!(container.image, "tezedge/tezedge:latest");
    assert_eq!(container.entrypoint.len(), 14);
    assert_eq!(container.entrypoint[10], "/tmp/tezedge");
    assert_eq!(container.entrypoint[13], "/tmp/snapshots/irmin/full/x.full-dir.temp");
    assert_eq!(
        container.mounts,
        vec![
            BindMount { source: "/tmp/snapshots".to_string(), target: "/tmp/snapshots".to_string() },
            BindMount { source: "/tmp/tezedge".to_string(), target: "/tmp/tezedge".to_string() },
        ]
    );
}

#[test]
fn helper_mounts_take_the_host_overrides() {
    let container = helper_container(
        ContextType::Tezedge,
        "net",
        "image",
        "/db",
        "/snap/tezedge/full/x.full-dir.temp",
        "/snap",
        &Some("/host/snap".to_string()),
        "/db",
        &Some("/host/db".to_string()),
    );
    assert_eq!(
        container.mounts,
        vec![
            BindMount { source: "/host/snap".to_string(), target: "/snap".to_string() },
            BindMount { source: "/host/db".to_string(), target: "/db".to_string() },
        ]
    );
}

#[test]
fn running_containers_are_found_by_name_and_status() {
    assert_eq!(
        running_filters("tezedge-snapshots-full-irmin-mainnet"),
        vec![
            ListFilter {
                key: "name".to_string(),
                values: vec!["tezedge-snapshots-full-irmin-mainnet".to_string()],
            },
            ListFilter { key: "status".to_string(), values: vec!["running".to_string()] },
        ]
    );
}

#[test]
fn container_runs_if_the_listing_found_one() {
    assert!(!is_running(0));
    assert!(is_running(1));
    assert!(is_running(7));
}

#[test]
fn supervisor_walks_through_the_life_of_a_helper() {
    let mut supervisor = HelperProcessSupervisor::new();
    assert_eq!(supervisor.phase, HelperPhase::Created);
    assert_eq!(supervisor.next(HelperEvent::Started), HelperAction::Poll);
    assert_eq!(supervisor.phase, HelperPhase::Started);
    assert_eq!(
        supervisor.next(HelperEvent::Observed { running: Some(true) }),
        HelperAction::Sleep { seconds: 1 }
    );
    assert_eq!(supervisor.phase, HelperPhase::Polling);
    assert!(!supervisor.is_finished());
    assert_eq!(
        supervisor.next(HelperEvent::Observed { running: Some(false) }),
        HelperAction::Collect
    );
    assert_eq!(supervisor.phase, HelperPhase::Finished);
    assert!(supervisor.is_finished());
    assert_eq!(supervisor.next(HelperEvent::Removed), HelperAction::Rest);
    assert_eq!(supervisor.phase, HelperPhase::Removed);
    assert!(!supervisor.is_finished());
}

#[test]
fn helper_that_never_ends_is_polled_without_end() {
    let mut supervisor = HelperProcessSupervisor::new();
    supervisor.next(HelperEvent::Started);
    for _ in 0..10_000 {
        assert_eq!(
            supervisor.next(HelperEvent::Observed { running: Some(true) }),
            HelperAction::Sleep { seconds: POLL_INTERVAL_SECONDS }
        );
        assert_eq!(supervisor.phase, HelperPhase::Polling);
        assert!(!supervisor.is_finished());
    }
}

#[test]
fn failed_look_fails_the_wait_and_collects_nothing() {
    let mut supervisor = HelperProcessSupervisor::new();
    supervisor.next(HelperEvent::Started);
    assert_eq!(supervisor.next(HelperEvent::Observed { running: None }), HelperAction::Fail);
    assert_eq!(supervisor.phase, HelperPhase::Failed);
    assert!(!supervisor.is_finished());
    // nothing that is reported later has the export collected
    assert_eq!(supervisor.next(HelperEvent::Observed { running: Some(false) }), HelperAction::Rest);
    assert_eq!(supervisor.next(HelperEvent::Observed { running: Some(true) }), HelperAction::Rest);
    assert_eq!(supervisor.phase, HelperPhase::Failed);
    assert_eq!(supervisor.next(HelperEvent::Removed), HelperAction::Rest);
    assert_eq!(supervisor.phase, HelperPhase::Removed);
}

#[test]
fn failed_look_after_running_looks_fails_the_wait() {
    let mut supervisor = HelperProcessSupervisor::new();
    supervisor.next(HelperEvent::Started);
    supervisor.next(HelperEvent::Observed { running: Some(true) });
    supervisor.next(HelperEvent::Observed { running: Some(true) });
    assert_eq!(supervisor.next(HelperEvent::Observed { running: None }), HelperAction::Fail);
    assert_eq!(supervisor.phase, HelperPhase::Failed);
}

#[test]
fn helper_that_ended_at_once_is_collected() {
    let mut supervisor = HelperProcessSupervisor::new();
    supervisor.next(HelperEvent::Started);
    assert_eq!(
        supervisor.next(HelperEvent::Observed { running: Some(false) }),
        HelperAction::Collect
    );
}

#[test]
fn events_out_of_turn_change_nothing() {
    let mut supervisor = HelperProcessSupervisor::new();
    assert_eq!(supervisor.next(HelperEvent::Removed), HelperAction::Rest);
    assert_eq!(supervisor.next(HelperEvent::Observed { running: Some(true) }), HelperAction::Rest);
    assert_eq!(supervisor.phase, HelperPhase::Created);
    supervisor.next(HelperEvent::Started);
    assert_eq!(supervisor.next(HelperEvent::Started), HelperAction::Rest);
    assert_eq!(supervisor.phase, HelperPhase::Started);
    supervisor.next(HelperEvent::Observed { running: Some(false) });
    assert_eq!(supervisor.next(HelperEvent::Observed { running: Some(true) }), HelperAction::Rest);
    assert_eq!(supervisor.phase, HelperPhase::Finished);
}
