//! The controller of one node: what it is configured with, how it asks the
//! node for its head, and how it plans a snapshot attempt.

use crate::attempt::{
    begin_text,
    lemma_finished_attempt_tried_to_start_the_node,
    lemma_run_keeps_the_steps,
    SnapshotAttempt,
    SnapshotAttemptView,
};
use crate::clock::{elapsed_seconds, instant_now, utc_civil, utc_now};
use crate::configuration::{ContextType, SnapshotKind, SnapshotType};
use crate::executor::{
    archive_work_text,
    full_work_text,
    take_archive_snapshot,
    take_full_snapshot,
    work_text,
};
use crate::failure::{FailureView, TezedgeNodeControllerError};
use crate::helper::{entrypoint_text, helper_container, mounts_text};
use crate::lifecycle::{start_steps, start_steps_text, stop_steps, stop_steps_text};
use crate::naming::{
    container_name,
    container_name_text,
    export_name,
    export_text,
    helper_name_text,
    SnapshotIdentity,
    SnapshotIdentityView,
    UtcStamp,
};
use crate::paths::{category_directory, category_text, join, join_text, lemma_join_ends_with};
use crate::text::ends_with;
use crate::scheduler::{eligible, is_eligible};
use crate::steps::{ContainerSpec, ContainerSpecView, PlannedStep, PlannedStepView, Step, StepView};
use crate::web::{join_url, url_join};
use vstd::prelude::*;
use vstd::string::*;

verus! {

/// The head of the node's chain, as the node reports it.
#[derive(Clone, Debug, PartialEq, Eq)]
pub struct TezosBlockHeader {
    pub hash: String,
}

impl TezosBlockHeader {
    /// The header of the block with the hash `hash`.
    pub fn new(hash: &str) -> (r: TezosBlockHeader)
        ensures
            r.hash@ == hash@,
    {
        TezosBlockHeader { hash: hash.to_owned() }
    }
}

/// The path of the node's RPC that answers with the header of its head.
pub open spec fn head_path_text() -> Seq<char> {
    "chains/main/blocks/head/header"@
}

/// The directory in which a packaged copy is staged before it is packed.
pub open spec fn scratch_text() -> Seq<char> {
    "/tmp/tezedge-snapshots-tmp"@
}

/// The mathematical content of a `TezedgeNodeController`.
pub struct TezedgeNodeControllerView {
    pub url: Seq<char>,
    pub node_container_name: Seq<char>,
    pub monitoring_container_name: Seq<char>,
    pub network: Seq<char>,
    pub database_directory: Seq<char>,
    pub snapshots_target_directory: Seq<char>,
    pub full_snapshot_image: Seq<char>,
    pub context_type: ContextType,
    /// Whether an attempt was begun before.
    pub has_attempted: bool,
}

impl TezedgeNodeControllerView {
    /// The directory of the packaged copies.
    pub open spec fn archive_directory(self) -> Seq<char> {
        category_text(self.snapshots_target_directory, SnapshotKind::Archive)
    }

    /// The directory of the consolidated exports.
    pub open spec fn full_directory(self) -> Seq<char> {
        category_text(self.snapshots_target_directory, SnapshotKind::Full)
    }

    /// The identity of the snapshot of kind `kind` that an attempt makes
    /// which began at `stamp` with the node at the block `head`.
    pub open spec fn identity(
        self,
        stamp: UtcStamp,
        head: Seq<char>,
        kind: SnapshotKind,
    ) -> SnapshotIdentityView {
        SnapshotIdentityView { network: self.network, stamp, head, kind }
    }

    /// The helper container that makes the consolidated export named `name`.
    /// It reads the database directory, whatever else the attempt makes, and
    /// writes into a temporary directory among the exports. The host sides
    /// of its two mounts are `snapshots_host` and `database_host` where they
    /// are given.
    pub open spec fn helper(
        self,
        name: Seq<char>,
        snapshots_host: Option<Seq<char>>,
        database_host: Option<Seq<char>>,
    ) -> ContainerSpecView {
        ContainerSpecView {
            name: helper_name_text(self.context_type, self.network),
            image: self.full_snapshot_image,
            entrypoint: entrypoint_text(
                self.network,
                self.database_directory,
                join_text(self.full_directory(), export_text(name)),
            ),
            mounts: mounts_text(
                self.snapshots_target_directory,
                snapshots_host,
                self.database_directory,
                database_host,
            ),
        }
    }

    /// The work of an attempt of kind `kind` that keeps `capacity` snapshots
    /// of each kind: the packaged copy that `archive` names, the
    /// consolidated export that `full` names, or the one and then the other.
    pub open spec fn work(
        self,
        capacity: nat,
        kind: SnapshotType,
        archive: SnapshotIdentityView,
        full: SnapshotIdentityView,
        snapshots_host: Option<Seq<char>>,
        database_host: Option<Seq<char>>,
    ) -> Seq<PlannedStepView> {
        work_text(
            kind,
            archive_work_text(
                self.database_directory,
                self.archive_directory(),
                scratch_text(),
                archive.name(),
                capacity,
            ),
            full_work_text(
                self.database_directory,
                self.full_directory(),
                full.name(),
                capacity,
                self.helper(full.name(), snapshots_host, database_host),
            ),
        )
    }

    /// The attempt of kind `kind` that began at `stamp` with the node at the
    /// block `head`: stop the node, do the work, start the node. Its
    /// snapshots are named after the same network, date, time and head, and
    /// each after its own kind.
    pub open spec fn attempt(
        self,
        capacity: nat,
        kind: SnapshotType,
        stamp: UtcStamp,
        head: Seq<char>,
        snapshots_host: Option<Seq<char>>,
        database_host: Option<Seq<char>>,
    ) -> SnapshotAttemptView {
        begin_text(
            stop_steps_text(self.node_container_name, self.monitoring_container_name),
            self.work(
                capacity,
                kind,
                self.identity(stamp, head, SnapshotKind::Archive),
                self.identity(stamp, head, SnapshotKind::Full),
                snapshots_host,
                database_host,
            ),
            start_steps_text(self.node_container_name, self.monitoring_container_name),
        )
    }
}

/// The node is not left stopped: whatever the kind of the attempt and
/// however its steps end, an attempt that has come to its end has tried to
/// start the container of the node.
pub proof fn lemma_finished_attempt_tried_to_start_the_container(
    controller: TezedgeNodeControllerView,
    capacity: nat,
    kind: SnapshotType,
    stamp: UtcStamp,
    head: Seq<char>,
    snapshots_host: Option<Seq<char>>,
    database_host: Option<Seq<char>>,
    outcomes: Seq<Option<FailureView>>,
)
    requires
        controller.attempt(capacity, kind, stamp, head, snapshots_host, database_host).run(
            outcomes,
        ).current() is None,
    ensures
        exists|k: int|
            0 <= k <= outcomes.len() && (#[trigger] controller.attempt(
                capacity,
                kind,
                stamp,
                head,
                snapshots_host,
                database_host,
            ).run(outcomes.take(k))).current() == Some(
                StepView::StartContainer { name: controller.node_container_name },
            ),
{
    let stop = stop_steps_text(controller.node_container_name, controller.monitoring_container_name);
    let work = controller.work(
        capacity,
        kind,
        controller.identity(stamp, head, SnapshotKind::Archive),
        controller.identity(stamp, head, SnapshotKind::Full),
        snapshots_host,
        database_host,
    );
    let start = start_steps_text(
        controller.node_container_name,
        controller.monitoring_container_name,
    );
    lemma_finished_attempt_tried_to_start_the_node(stop, work, start, outcomes);
    let k = choose|k: int|
        0 <= k <= outcomes.len() && #[trigger] begin_text(stop, work, start).run(
            outcomes.take(k),
        ).starts_the_node();
    lemma_run_keeps_the_steps(stop, work, start, outcomes.take(k));
    let reached = begin_text(stop, work, start).run(outcomes.take(k));
    assert(reached.current() == Some(start[0]));
}

/// What the helper container is told: to run the controller's image, to
/// export the database directory of the controller's network, whatever the
/// kind of the attempt, and to write into a directory among the exports
/// whose name ends in `.temp`.
pub proof fn lemma_helper_exports_the_database(
    controller: TezedgeNodeControllerView,
    identity: SnapshotIdentityView,
    snapshots_host: Option<Seq<char>>,
    database_host: Option<Seq<char>>,
)
    ensures
        ({
            let helper = controller.helper(identity.name(), snapshots_host, database_host);
            let export = join_text(controller.full_directory(), export_text(identity.name()));
            &&& helper.image == controller.full_snapshot_image
            &&& helper.entrypoint.len() == 14
            &&& helper.entrypoint[6] == "--network"@
            &&& helper.entrypoint[7] == controller.network
            &&& helper.entrypoint[9] == "--tezos-data-dir"@
            &&& helper.entrypoint[10] == controller.database_directory
            &&& helper.entrypoint[12] == "--target-path"@
            &&& helper.entrypoint[13] == export
            &&& ends_with(export, ".temp"@)
        }),
{
    reveal_strlit(".temp");
    reveal_strlit("-dir.temp");
    let name = export_text(identity.name());
    assert(name.subrange(name.len() - 5, name.len() as int) =~= ".temp"@);
    lemma_join_ends_with(controller.full_directory(), name, ".temp"@);
}

/// The controller of one node and of the container that monitors it.
pub struct TezedgeNodeController {
    url: String,
    node_container_name: String,
    monitoring_container_name: String,
    network: String,
    database_directory: String,
    last_snapshot_timestamp: Option<tokio::time::Instant>,
    snapshots_target_directory: String,
    full_snapshot_image: String,
    context_type: ContextType,
}

impl View for TezedgeNodeController {
    type V = TezedgeNodeControllerView;

    closed spec fn view(&self) -> TezedgeNodeControllerView {
        TezedgeNodeControllerView {
            url: self.url@,
            node_container_name: self.node_container_name@,
            monitoring_container_name: self.monitoring_container_name@,
            network: self.network@,
            database_directory: self.database_directory@,
            snapshots_target_directory: self.snapshots_target_directory@,
            full_snapshot_image: self.full_snapshot_image@,
            context_type: self.context_type,
            has_attempted: self.last_snapshot_timestamp is Some,
        }
    }
}

impl TezedgeNodeController {
    /// A controller for the node at `url` on `network`. The containers of
    /// the node and of its monitor are named after the network.
    pub fn new(
        url: String,
        node_container_name: String,
        monitoring_container_name: String,
        network: String,
        database_directory: String,
        snapshots_target_directory: String,
        full_snapshot_image: String,
        context_type: ContextType,
    ) -> (r: TezedgeNodeController)
        ensures
            r@ == (TezedgeNodeControllerView {
                url: url@,
                node_container_name: container_name_text(node_container_name@, network@),
                monitoring_container_name: container_name_text(
                    monitoring_container_name@,
                    network@,
                ),
                network: network@,
                database_directory: database_directory@,
                snapshots_target_directory: snapshots_target_directory@,
                full_snapshot_image: full_snapshot_image@,
                context_type,
                has_attempted: false,
            }),
    {
        let node_container_name: String = container_name(
            node_container_name.as_str(),
            network.as_str(),
        );
        let monitoring_container_name: String = container_name(
            monitoring_container_name.as_str(),
            network.as_str(),
        );
        TezedgeNodeController {
            url,
            node_container_name,
            monitoring_container_name,
            network,
            database_directory,
            last_snapshot_timestamp: None,
            snapshots_target_directory,
            full_snapshot_image,
            context_type,
        }
    }

    /// The address to ask for the header of the node's head: the path of
    /// that question resolved against the address of the node. It fails with
    /// `MalformedUrl` exactly where the address cannot be resolved.
    pub fn head_header_url(&self) -> (r: Result<String, TezedgeNodeControllerError>)
        ensures
            match r {
                Ok(address) => url_join(self@.url, head_path_text()) == Some(address@),
                Err(failure) => url_join(self@.url, head_path_text()) is None
                    && failure is MalformedUrl,
            },
    {
        match join_url(self.url.as_str(), "chains/main/blocks/head/header") {
            Ok(address) => Ok(address),
            Err(reason) => Err(TezedgeNodeControllerError::MalformedUrl(reason.to_string())),
        }
    }

    /// The head of the node, from what the question for it brought back.
    /// Whatever went wrong with the question, the node counts as
    /// unreachable.
    pub fn get_head(&self, answer: Result<TezosBlockHeader, TezedgeNodeControllerError>) -> (r:
        Result<TezosBlockHeader, TezedgeNodeControllerError>)
        ensures
            match answer {
                Ok(header) => r == Ok::<TezosBlockHeader, TezedgeNodeControllerError>(header),
                Err(_) => r == Err::<TezosBlockHeader, TezedgeNodeControllerError>(
                    TezedgeNodeControllerError::NodeUnreachable,
                ),
            },
    {
        match answer {
            Ok(header) => Ok(header),
            Err(_) => Err(TezedgeNodeControllerError::NodeUnreachable),
        }
    }

    /// The steps that stop the node: the node first, then its monitor.
    pub fn stop(&self) -> (r: Vec<Step>)
        ensures
            r.deep_view() == stop_steps_text(
                self@.node_container_name,
                self@.monitoring_container_name,
            ),
    {
        stop_steps(self.node_container_name.as_str(), self.monitoring_container_name.as_str())
    }

    /// The steps that start the node: the node first, then its monitor.
    pub fn start(&self) -> (r: Vec<Step>)
        ensures
            r.deep_view() == start_steps_text(
                self@.node_container_name,
                self@.monitoring_container_name,
            ),
    {
        start_steps(self.node_container_name.as_str(), self.monitoring_container_name.as_str())
    }

    /// The helper container that makes the consolidated export named `name`.
    fn helper(
        &self,
        name: &str,
        snapshots_host: &Option<String>,
        database_host: &Option<String>,
    ) -> (r: ContainerSpec)
        ensures
            r@ == self@.helper(name@, snapshots_host.deep_view(), database_host.deep_view()),
    {
        let directory: String = category_directory(
            self.snapshots_target_directory.as_str(),
            SnapshotKind::Full,
        );
        let export_dir: String = export_name(name);
        let export: String = join(directory.as_str(), export_dir.as_str());
        helper_container(
            self.context_type,
            self.network.as_str(),
            self.full_snapshot_image.as_str(),
            self.database_directory.as_str(),
            export.as_str(),
            self.snapshots_target_directory.as_str(),
            snapshots_host,
            self.database_directory.as_str(),
            database_host,
        )
    }

    /// Plans the attempt of kind `snapshot_type` that began at `stamp` with
    /// the node at the block `head`, with `snapshot_capacity` snapshots kept
    /// of each kind. `snapshots_host`
    /// and `database_host` are the paths under which the host of the
    /// container runtime sees the snapshot directory and the database
    /// directory, where they differ from the paths that the service sees.
    pub fn plan_snapshot(
        &self,
        snapshot_capacity: usize,
        snapshot_type: &SnapshotType,
        stamp: UtcStamp,
        head: &TezosBlockHeader,
        snapshots_host: &Option<String>,
        database_host: &Option<String>,
    ) -> (r: SnapshotAttempt)
        ensures
            r@ == self@.attempt(
                snapshot_capacity as nat,
                *snapshot_type,
                stamp,
                head.hash@,
                snapshots_host.deep_view(),
                database_host.deep_view(),
            ),
    {
        let mut work: Vec<PlannedStep> = Vec::new();
        assert(work.deep_view() =~= Seq::<PlannedStepView>::empty());
        if snapshot_type.includes_archive() {
            let identity: SnapshotIdentity = SnapshotIdentity::new(
                self.network.as_str(),
                stamp,
                head.hash.as_str(),
                SnapshotKind::Archive,
            );
            let directory: String = category_directory(
                self.snapshots_target_directory.as_str(),
                SnapshotKind::Archive,
            );
            take_archive_snapshot(
                &mut work,
                snapshot_capacity,
                &identity,
                self.database_directory.as_str(),
                directory.as_str(),
                "/tmp/tezedge-snapshots-tmp",
            );
        }
        if snapshot_type.includes_full() {
            let identity: SnapshotIdentity = SnapshotIdentity::new(
                self.network.as_str(),
                stamp,
                head.hash.as_str(),
                SnapshotKind::Full,
            );
            let directory: String = category_directory(
                self.snapshots_target_directory.as_str(),
                SnapshotKind::Full,
            );
            let name: String = identity.name();
            let container: ContainerSpec = self.helper(
                name.as_str(),
                snapshots_host,
                database_host,
            );
            take_full_snapshot(
                &mut work,
                &identity,
                snapshot_capacity,
                self.database_directory.as_str(),
                directory.as_str(),
                &container,
            );
        }
        assert(work.deep_view() =~= self@.work(
            snapshot_capacity as nat,
            *snapshot_type,
            self@.identity(stamp, head.hash@, SnapshotKind::Archive),
            self@.identity(stamp, head.hash@, SnapshotKind::Full),
            snapshots_host.deep_view(),
            database_host.deep_view(),
        ));
        SnapshotAttempt::begin(self.stop(), work, self.start())
    }

    /// The moment at which the last attempt was begun, if any was.
    pub closed spec fn last_attempt(&self) -> Option<tokio::time::Instant> {
        self.last_snapshot_timestamp
    }

    /// An attempt was begun before exactly where its moment is on record.
    pub proof fn lemma_attempt_has_its_moment(&self)
        ensures
            self@.has_attempted == (self.last_attempt() is Some),
    {
    }

    /// Begins the attempt of kind `snapshot_type` at the moment `now` of
    /// the steady clock and the date and time `stamp` of the calendar, with
    /// what the question for the head brought back. The moment is noted in
    /// every case, before anything else, so that an attempt that fails is
    /// not repeated at once. Without a head there is no attempt: the node
    /// counts as unreachable. Without a date there is none either: a clock
    /// that gives no date is an `IoError`. With both, the attempt is the
    /// planned one, named after the network, the date and time, and the head.
    pub fn begin_snapshot(
        &mut self,
        now: tokio::time::Instant,
        stamp: Option<UtcStamp>,
        snapshot_capacity: usize,
        snapshot_type: &SnapshotType,
        head: Result<TezosBlockHeader, TezedgeNodeControllerError>,
        snapshots_host: &Option<String>,
        database_host: &Option<String>,
    ) -> (r: Result<SnapshotAttempt, TezedgeNodeControllerError>)
        ensures
            final(self).last_attempt() == Some(now),
            final(self)@ == (TezedgeNodeControllerView { has_attempted: true, ..old(self)@ }),
            match head {
                Ok(header) => match stamp {
                    Some(stamp) => r is Ok && r->Ok_0@ == old(self)@.attempt(
                        snapshot_capacity as nat,
                        *snapshot_type,
                        stamp,
                        header.hash@,
                        snapshots_host.deep_view(),
                        database_host.deep_view(),
                    ),
                    None => r is Err && r->Err_0 is IoError,
                },
                Err(_) => r is Err && r->Err_0 is NodeUnreachable,
            },
    {
        let ghost before = self@;
        self.last_snapshot_timestamp = Some(now);
        let header: TezosBlockHeader = match self.get_head(head) {
            Ok(header) => header,
            Err(failure) => { return Err(failure); },
        };
        let stamp: UtcStamp = match stamp {
            Some(stamp) => stamp,
            None => {
                return Err(
                    TezedgeNodeControllerError::IoError(
                        "the system clock gives no date".to_owned(),
                    ),
                );
            },
        };
        let attempt: SnapshotAttempt = self.plan_snapshot(
            snapshot_capacity,
            snapshot_type,
            stamp,
            &header,
            snapshots_host,
            database_host,
        );
        proof {
            let hosts = snapshots_host.deep_view();
            let host = database_host.deep_view();
            let capacity = snapshot_capacity as nat;
            let archive = before.identity(stamp, header.hash@, SnapshotKind::Archive);
            let full = before.identity(stamp, header.hash@, SnapshotKind::Full);
            assert(self@.identity(stamp, header.hash@, SnapshotKind::Archive) == archive);
            assert(self@.identity(stamp, header.hash@, SnapshotKind::Full) == full);
            assert(self@.archive_directory() == before.archive_directory());
            assert(self@.full_directory() == before.full_directory());
            assert(self@.helper(full.name(), hosts, host) == before.helper(
                full.name(),
                hosts,
                host,
            ));
            assert(self@.work(capacity, *snapshot_type, archive, full, hosts, host) == before.work(
                capacity,
                *snapshot_type,
                archive,
                full,
                hosts,
                host,
            ));
            assert(attempt@ == before.attempt(
                capacity,
                *snapshot_type,
                stamp,
                header.hash@,
                hosts,
                host,
            ));
        }
        Ok(attempt)
    }

    /// Begins an attempt now: reads the steady clock and the calendar, and
    /// begins the attempt of kind `snapshot_type` as `begin_snapshot` does.
    /// Without a head there is no attempt: the node counts as unreachable.
    /// Without a date there is none either: a system clock that stands
    /// before 1970, or beyond the dates that the calendar knows, is an
    /// `IoError`. The moment is noted in every case.
    pub fn take_snapshot(
        &mut self,
        snapshot_capacity: usize,
        snapshot_type: &SnapshotType,
        head: Result<TezosBlockHeader, TezedgeNodeControllerError>,
        snapshots_host: &Option<String>,
        database_host: &Option<String>,
    ) -> (r: Result<SnapshotAttempt, TezedgeNodeControllerError>)
        ensures
            final(self)@ == (TezedgeNodeControllerView { has_attempted: true, ..old(self)@ }),
            match head {
                Ok(header) => match r {
                    Ok(attempt) => exists|seconds: int|
                        (#[trigger] utc_civil(seconds)) matches Some(stamp) && stamp.well_formed()
                            && attempt@ == old(self)@.attempt(
                            snapshot_capacity as nat,
                            *snapshot_type,
                            stamp,
                            header.hash@,
                            snapshots_host.deep_view(),
                            database_host.deep_view(),
                        ),
                    Err(failure) => failure is IoError,
                },
                Err(_) => r is Err && r->Err_0 is NodeUnreachable,
            },
    {
        let now = instant_now();
        let stamp: Option<UtcStamp> = utc_now();
        proof {
            if stamp is Some {
                let seconds = choose|seconds: int| #[trigger] utc_civil(seconds) == stamp;
                assert(utc_civil(seconds) matches Some(shown) && shown == stamp->0);
            }
        }
        self.begin_snapshot(
            now,
            stamp,
            snapshot_capacity,
            snapshot_type,
            head,
            snapshots_host,
            database_host,
        )
    }

    /// Whether a snapshot is due when `elapsed` seconds have passed since
    /// the last attempt was begun: the node gave its head, and either no
    /// attempt was begun before or `elapsed` is at least
    /// `snapshot_frequency`. A node that does not answer is never due.
    pub fn can_snapshot_after(
        &self,
        head: &Result<TezosBlockHeader, TezedgeNodeControllerError>,
        elapsed: u64,
        snapshot_frequency: u64,
    ) -> (r: bool)
        ensures
            r == is_eligible(
                head is Ok,
                if self@.has_attempted {
                    Some(elapsed)
                } else {
                    None
                },
                snapshot_frequency,
            ),
    {
        let passed: Option<u64> = match &self.last_snapshot_timestamp {
            Some(_) => Some(elapsed),
            None => None,
        };
        eligible(head.is_ok(), passed, snapshot_frequency)
    }

    /// Whether a snapshot is due: the node gave its head, and either no
    /// attempt was begun before or the last one was begun at least
    /// `snapshot_frequency` seconds ago, by the steady clock. A node that
    /// does not answer is never due, whatever the time.
    pub fn can_snapshot(
        &self,
        head: &Result<TezosBlockHeader, TezedgeNodeControllerError>,
        snapshot_frequency: u64,
    ) -> (r: bool)
        ensures
            head is Err ==> !r,
            !self@.has_attempted ==> r == is_eligible(head is Ok, None, snapshot_frequency),
            self@.has_attempted ==> exists|elapsed: u64|
                r == #[trigger] is_eligible(head is Ok, Some(elapsed), snapshot_frequency),
    {
        let elapsed: u64 = match &self.last_snapshot_timestamp {
            Some(instant) => elapsed_seconds(instant),
            None => 0,
        };
        let due: bool = self.can_snapshot_after(head, elapsed, snapshot_frequency);
        assert(self@.has_attempted ==> due == is_eligible(
            head is Ok,
            Some(elapsed),
            snapshot_frequency,
        ));
        due
    }
}

} // verus!
