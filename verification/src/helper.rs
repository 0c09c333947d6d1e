//! The helper container that makes the consolidated export: how it is
//! described to the container runtime, how its end is detected, and the
//! order in which it is created, started, watched and removed.

use crate::configuration::ContextType;
use crate::naming::{helper_name, helper_name_text};
use crate::steps::{BindMount, BindMountView, ContainerSpec, ContainerSpecView};
use vstd::prelude::*;
use vstd::string::*;

verus! {

/// The seconds between two looks at the helper container.
pub const POLL_INTERVAL_SECONDS: u64 = 1;

/// The command of the helper container: the node's binary, told to export
/// the database in `database` of `network` into `export`.
pub open spec fn entrypoint_text(network: Seq<char>, database: Seq<char>, export: Seq<char>) -> Seq<
    Seq<char>,
> {
    seq![
        "/light-node"@,
        "--config-file=/tezedge.config"@,
        "--p2p-port=1234"@,
        "--rpc-port=1234"@,
        "--init-sapling-spend-params-file=/sapling-spend.params"@,
        "--init-sapling-output-params-file=/sapling-output.params"@,
        "--network"@,
        network,
        "--bootstrap-db-path=bootstrap_db"@,
        "--tezos-data-dir"@,
        database,
        "snapshot"@,
        "--target-path"@,
        export,
    ]
}

/// The host side of a mount: the override where one is given, and else the
/// same path as inside the container.
pub open spec fn host_path_text(given: Option<Seq<char>>, inside: Seq<char>) -> Seq<char> {
    match given {
        Some(path) => path,
        None => inside,
    }
}

/// The two mounts of the helper container: the snapshot directory and the
/// database directory, each at the path it has on the host.
pub open spec fn mounts_text(
    snapshots: Seq<char>,
    snapshots_host: Option<Seq<char>>,
    database: Seq<char>,
    database_host: Option<Seq<char>>,
) -> Seq<BindMountView> {
    seq![
        BindMountView { source: host_path_text(snapshots_host, snapshots), target: snapshots },
        BindMountView { source: host_path_text(database_host, database), target: database },
    ]
}

/// The command of the helper container.
pub fn entrypoint(network: &str, database: &str, export: &str) -> (r: Vec<String>)
    ensures
        r.deep_view() == entrypoint_text(network@, database@, export@),
{
    let mut out: Vec<String> = Vec::new();
    out.push("/light-node".to_owned());
    out.push("--config-file=/tezedge.config".to_owned());
    out.push("--p2p-port=1234".to_owned());
    out.push("--rpc-port=1234".to_owned());
    out.push("--init-sapling-spend-params-file=/sapling-spend.params".to_owned());
    out.push("--init-sapling-output-params-file=/sapling-output.params".to_owned());
    out.push("--network".to_owned());
    out.push(network.to_owned());
    out.push("--bootstrap-db-path=bootstrap_db".to_owned());
    out.push("--tezos-data-dir".to_owned());
    out.push(database.to_owned());
    out.push("snapshot".to_owned());
    out.push("--target-path".to_owned());
    out.push(export.to_owned());
    assert(out.deep_view() =~= entrypoint_text(network@, database@, export@));
    out
}

/// The host side of a mount that is seen at `inside` in the container.
pub fn host_path(given: &Option<String>, inside: &str) -> (r: String)
    ensures
        r@ == host_path_text(given.deep_view(), inside@),
{
    match given {
        Some(path) => path.clone(),
        None => inside.to_owned(),
    }
}

/// The helper container for one export: named after the context kind and the
/// network, running `image`, reading the database in `source` and writing
/// into `export`. It sees the snapshot directory `snapshots` and the database
/// directory `database` of the host.
pub fn helper_container(
    context: ContextType,
    network: &str,
    image: &str,
    source: &str,
    export: &str,
    snapshots: &str,
    snapshots_host: &Option<String>,
    database: &str,
    database_host: &Option<String>,
) -> (r: ContainerSpec)
    ensures
        r@ == (ContainerSpecView {
            name: helper_name_text(context, network@),
            image: image@,
            entrypoint: entrypoint_text(network@, source@, export@),
            mounts: mounts_text(
                snapshots@,
                snapshots_host.deep_view(),
                database@,
                database_host.deep_view(),
            ),
        }),
{
    let mut mounts: Vec<BindMount> = Vec::new();
    mounts.push(
        BindMount { source: host_path(snapshots_host, snapshots), target: snapshots.to_owned() },
    );
    mounts.push(
        BindMount { source: host_path(database_host, database), target: database.to_owned() },
    );
    assert(mounts.deep_view() =~= mounts_text(
        snapshots@,
        snapshots_host.deep_view(),
        database@,
        database_host.deep_view(),
    ));
    ContainerSpec {
        name: helper_name(context, network),
        image: image.to_owned(),
        entrypoint: entrypoint(network, source, export),
        mounts,
    }
}

/// One condition of a container listing: the field `key` must have one of
/// `values`.
#[derive(Clone, Debug, PartialEq, Eq)]
pub struct ListFilter {
    pub key: String,
    pub values: Vec<String>,
}

/// The mathematical content of a `ListFilter`.
pub struct ListFilterView {
    pub key: Seq<char>,
    pub values: Seq<Seq<char>>,
}

impl DeepView for ListFilter {
    type V = ListFilterView;

    open spec fn deep_view(&self) -> ListFilterView {
        ListFilterView { key: self.key@, values: self.values.deep_view() }
    }
}

impl View for ListFilter {
    type V = ListFilterView;

    open spec fn view(&self) -> ListFilterView {
        self.deep_view()
    }
}

/// The listing that finds the container `name` while it runs: its name is
/// `name` and its status is `running`.
pub open spec fn running_filters_text(name: Seq<char>) -> Seq<ListFilterView> {
    seq![
        ListFilterView { key: "name"@, values: seq![name] },
        ListFilterView { key: "status"@, values: seq!["running"@] },
    ]
}

/// The conditions of the listing that tells whether `container_name` runs.
pub fn running_filters(container_name: &str) -> (r: Vec<ListFilter>)
    ensures
        r.deep_view() == running_filters_text(container_name@),
{
    let mut names: Vec<String> = Vec::new();
    names.push(container_name.to_owned());
    assert(names.deep_view() =~= seq![container_name@]);
    let mut states: Vec<String> = Vec::new();
    states.push("running".to_owned());
    assert(states.deep_view() =~= seq!["running"@]);
    let mut out: Vec<ListFilter> = Vec::new();
    out.push(ListFilter { key: "name".to_owned(), values: names });
    out.push(ListFilter { key: "status".to_owned(), values: states });
    assert(out.deep_view() =~= running_filters_text(container_name@));
    out
}

/// Whether the container runs, from the number of containers that the
/// listing of `running_filters` found.
pub fn is_running(listed: usize) -> (r: bool)
    ensures
        r == (listed > 0),
{
    listed != 0
}

/// Where a helper container stands between its creation and its removal.
#[derive(Clone, Copy, Debug, PartialEq, Eq, Structural)]
pub enum HelperPhase {
    /// The container exists and was not started yet.
    Created,
    /// The container was started and not looked at yet.
    Started,
    /// The last look found the container running.
    Polling,
    /// A look found that the container runs no more.
    Finished,
    /// A look failed: whether the container runs is not known.
    Failed,
    /// The container was removed.
    Removed,
}

/// What the host reports of a helper container.
#[derive(Clone, Copy, Debug, PartialEq, Eq, Structural)]
pub enum HelperEvent {
    /// The container was started.
    Started,
    /// A look at the container: `Some(true)` where it runs, `Some(false)`
    /// where it does not, `None` where the look itself failed.
    Observed { running: Option<bool> },
    /// The container was removed.
    Removed,
}

/// What the host does next for a helper container.
#[derive(Clone, Copy, Debug, PartialEq, Eq, Structural)]
pub enum HelperAction {
    /// Look whether the container runs.
    Poll,
    /// Wait `seconds`, then look again.
    Sleep { seconds: u64 },
    /// Go on with the export that the container left.
    Collect,
    /// Give the wait up as failed, with the failure of the look.
    Fail,
    /// Nothing: the event does not belong to this phase, or all is done.
    Rest,
}

/// The phase after `event` and what the host does then. The container is
/// watched for as long as a look finds it running, and no number of such
/// looks ends the watch. The first look that finds it not running has its
/// export collected. A look that fails says nothing of the container: the
/// wait is given up as failed, and nothing is collected.
pub open spec fn helper_next(phase: HelperPhase, event: HelperEvent) -> (HelperPhase, HelperAction) {
    match (phase, event) {
        (HelperPhase::Created, HelperEvent::Started) => (HelperPhase::Started, HelperAction::Poll),
        (HelperPhase::Started, HelperEvent::Observed { running })
        | (HelperPhase::Polling, HelperEvent::Observed { running }) => match running {
            Some(true) => (
                HelperPhase::Polling,
                HelperAction::Sleep { seconds: POLL_INTERVAL_SECONDS },
            ),
            Some(false) => (HelperPhase::Finished, HelperAction::Collect),
            None => (HelperPhase::Failed, HelperAction::Fail),
        },
        (HelperPhase::Finished, HelperEvent::Removed)
        | (HelperPhase::Failed, HelperEvent::Removed) => (HelperPhase::Removed, HelperAction::Rest),
        _ => (phase, HelperAction::Rest),
    }
}

/// The phase after each of `events` in turn.
pub open spec fn helper_run(phase: HelperPhase, events: Seq<HelperEvent>) -> HelperPhase
    decreases events.len(),
{
    if events.len() == 0 {
        phase
    } else {
        helper_next(helper_run(phase, events.drop_last()), events.last()).0
    }
}

/// Watches one helper container from its creation to its removal.
pub struct HelperProcessSupervisor {
    pub phase: HelperPhase,
}

impl HelperProcessSupervisor {
    /// The supervisor of a container that was just created.
    pub fn new() -> (r: HelperProcessSupervisor)
        ensures
            r.phase == HelperPhase::Created,
    {
        HelperProcessSupervisor { phase: HelperPhase::Created }
    }

    /// Takes in `event` and says what the host does next.
    pub fn next(&mut self, event: HelperEvent) -> (r: HelperAction)
        ensures
            (final(self).phase, r) == helper_next(old(self).phase, event),
    {
        match (self.phase, event) {
            (HelperPhase::Created, HelperEvent::Started) => {
                self.phase = HelperPhase::Started;
                HelperAction::Poll
            },
            (HelperPhase::Started, HelperEvent::Observed { running })
            | (HelperPhase::Polling, HelperEvent::Observed { running }) => {
                match running {
                    Some(true) => {
                        self.phase = HelperPhase::Polling;
                        HelperAction::Sleep { seconds: POLL_INTERVAL_SECONDS }
                    },
                    Some(false) => {
                        self.phase = HelperPhase::Finished;
                        HelperAction::Collect
                    },
                    None => {
                        self.phase = HelperPhase::Failed;
                        HelperAction::Fail
                    },
                }
            },
            (HelperPhase::Finished, HelperEvent::Removed)
            | (HelperPhase::Failed, HelperEvent::Removed) => {
                self.phase = HelperPhase::Removed;
                HelperAction::Rest
            },
            _ => HelperAction::Rest,
        }
    }

    /// Whether a look found that the container runs no more, so that its
    /// export can be collected.
    pub fn is_finished(&self) -> (r: bool)
        ensures
            r == (self.phase == HelperPhase::Finished),
    {
        match self.phase {
            HelperPhase::Finished => true,
            _ => false,
        }
    }
}

/// A helper container that every look finds running is watched without end:
/// after any number of such looks the supervisor still polls.
pub proof fn lemma_running_helper_is_polled_on(events: Seq<HelperEvent>)
    requires
        events.len() > 0,
        forall|i: int|
            0 <= i < events.len() ==> events[i] == (HelperEvent::Observed { running: Some(true) }),
    ensures
        helper_run(HelperPhase::Started, events) == HelperPhase::Polling,
    decreases events.len(),
{
    reveal_with_fuel(helper_run, 2);
    assert(events.last() == (HelperEvent::Observed { running: Some(true) }));
    if events.len() > 1 {
        lemma_running_helper_is_polled_on(events.drop_last());
    }
}

/// An export is collected only after a look that found the container not
/// running. A look that failed is never taken for the end of the container:
/// it gives the wait up, whatever the phase.
pub proof fn lemma_failed_look_collects_nothing(phase: HelperPhase, event: HelperEvent)
    ensures
        helper_next(phase, event).1 == HelperAction::Collect ==> event == (HelperEvent::Observed {
            running: Some(false),
        }),
        helper_next(phase, event).0 == HelperPhase::Finished && phase != HelperPhase::Finished
            ==> event == (HelperEvent::Observed { running: Some(false) }),
        event == (HelperEvent::Observed { running: None }) && (phase == HelperPhase::Started
            || phase == HelperPhase::Polling) ==> helper_next(phase, event) == (
            HelperPhase::Failed,
            HelperAction::Fail,
        ),
{
}

/// A supervisor only ever moves forward: from a later phase no event leads
/// back to an earlier one.
pub proof fn lemma_helper_moves_forward(phase: HelperPhase, event: HelperEvent)
    ensures
        helper_rank(helper_next(phase, event).0) >= helper_rank(phase),
{
}

/// The place of a phase in the order of a helper container's life.
pub open spec fn helper_rank(phase: HelperPhase) -> nat {
    match phase {
        HelperPhase::Created => 0,
        HelperPhase::Started => 1,
        HelperPhase::Polling => 2,
        HelperPhase::Finished => 3,
        HelperPhase::Failed => 3,
        HelperPhase::Removed => 4,
    }
}

} // verus!
