//! One snapshot attempt as a sequence of steps that the host performs one at
//! a time. The attempt stops the node, does its work, and starts the node
//! again: also when a step has failed, so that a failed attempt does not
//! leave the node stopped.

use crate::failure::{FailureView, TezedgeNodeControllerError};
use crate::steps::{copy_step, copy_steps, PlannedStep, PlannedStepView, Step, StepView};
use vstd::prelude::*;

verus! {

/// The part of an attempt that is under way.
#[derive(Clone, Copy, Debug, PartialEq, Eq, Structural)]
pub enum Stage {
    /// The node is being stopped.
    Stopping,
    /// The snapshots are being made.
    Working,
    /// A step of the work has failed; what it left behind is put in order.
    Releasing,
    /// The node is being started.
    Starting,
    /// Nothing is left to do.
    Finished,
}

/// The mathematical content of a `SnapshotAttempt`.
pub struct SnapshotAttemptView {
    /// The steps that stop the node.
    pub stop: Seq<StepView>,
    /// The steps that make the snapshots.
    pub work: Seq<PlannedStepView>,
    /// The steps that start the node.
    pub start: Seq<StepView>,
    /// The part that is under way.
    pub stage: Stage,
    /// The place of the current step in its part.
    pub cursor: int,
    /// The steps that put things in order after the failure of a work step.
    pub release: Seq<StepView>,
    /// The first failure of the attempt: the one that it ends with.
    pub failure: Option<FailureView>,
    /// The failure of the restart, where the attempt had failed before.
    pub restart_failure: Option<FailureView>,
}

impl SnapshotAttemptView {
    /// The number of steps of the part under way.
    pub open spec fn part_len(self) -> int {
        match self.stage {
            Stage::Stopping => self.stop.len() as int,
            Stage::Working => self.work.len() as int,
            Stage::Releasing => self.release.len() as int,
            Stage::Starting => self.start.len() as int,
            Stage::Finished => 0,
        }
    }

    /// The step that the host performs now, if any is left.
    pub open spec fn current(self) -> Option<StepView> {
        if 0 <= self.cursor < self.part_len() {
            Some(
                match self.stage {
                    Stage::Stopping => self.stop[self.cursor],
                    Stage::Working => self.work[self.cursor].step,
                    Stage::Releasing => self.release[self.cursor],
                    _ => self.start[self.cursor],
                },
            )
        } else {
            None
        }
    }

    /// This attempt with nothing left to do.
    pub open spec fn finished(self) -> SnapshotAttemptView {
        SnapshotAttemptView { stage: Stage::Finished, cursor: 0, ..self }
    }

    /// This attempt at the start of the node.
    pub open spec fn to_starting(self) -> SnapshotAttemptView {
        if self.start.len() > 0 {
            SnapshotAttemptView { stage: Stage::Starting, cursor: 0, ..self }
        } else {
            self.finished()
        }
    }

    /// This attempt at the first step of its work.
    pub open spec fn to_working(self) -> SnapshotAttemptView {
        if self.work.len() > 0 {
            SnapshotAttemptView { stage: Stage::Working, cursor: 0, ..self }
        } else {
            self.to_starting()
        }
    }

    /// This attempt at the first of the steps `release`.
    pub open spec fn to_releasing(self, release: Seq<StepView>) -> SnapshotAttemptView {
        if release.len() > 0 {
            SnapshotAttemptView { stage: Stage::Releasing, cursor: 0, release, ..self }
        } else {
            (SnapshotAttemptView { release, ..self }).to_starting()
        }
    }

    /// This attempt one step further: at the next step of the part under
    /// way, or at the part that follows it.
    pub open spec fn step_on(self) -> SnapshotAttemptView {
        if self.cursor + 1 < self.part_len() {
            SnapshotAttemptView { cursor: self.cursor + 1, ..self }
        } else {
            match self.stage {
                Stage::Stopping => self.to_working(),
                Stage::Working => self.to_starting(),
                Stage::Releasing => self.to_starting(),
                _ => self.finished(),
            }
        }
    }

    /// This attempt with `failure` on record. The first failure stays the
    /// one that the attempt ends with; a later one is kept beside it.
    pub open spec fn failed(self, failure: FailureView) -> SnapshotAttemptView {
        if self.failure is None {
            SnapshotAttemptView { failure: Some(failure), ..self }
        } else {
            SnapshotAttemptView { restart_failure: Some(failure), ..self }
        }
    }

    /// This attempt after its current step ended with `outcome`, `None` for
    /// success.
    ///
    /// A failed stop skips the work and goes on to start the node. A failed
    /// step of the work skips the rest of the work, puts in order what the
    /// step left behind, and goes on to start the node. While things are put
    /// in order, failures are passed over. A failed start ends the attempt:
    /// the monitor is not started against a node that did not start.
    pub open spec fn advance(self, outcome: Option<FailureView>) -> SnapshotAttemptView {
        if self.current() is None {
            self.finished()
        } else {
            match (self.stage, outcome) {
                (Stage::Stopping, Some(failure)) => self.failed(failure).to_starting(),
                (Stage::Working, Some(failure)) => self.failed(failure).to_releasing(
                    self.work[self.cursor].release,
                ),
                (Stage::Starting, Some(failure)) => self.failed(failure).finished(),
                _ => self.step_on(),
            }
        }
    }

    /// How the attempt ended, once nothing is left to do: with success where
    /// no step failed, and with its first failure otherwise.
    pub open spec fn result(self) -> Option<Result<(), FailureView>> {
        if self.current() is None {
            Some(
                match self.failure {
                    Some(failure) => Err(failure),
                    None => Ok(()),
                },
            )
        } else {
            None
        }
    }

    /// This attempt after its steps ended with each of `outcomes` in turn.
    pub open spec fn run(self, outcomes: Seq<Option<FailureView>>) -> SnapshotAttemptView
        decreases outcomes.len(),
    {
        if outcomes.len() == 0 {
            self
        } else {
            self.run(outcomes.drop_last()).advance(outcomes.last())
        }
    }
}

/// An attempt that is about to perform the first of the steps `stop`, with
/// the steps `work` and `start` to follow.
pub open spec fn begin_text(
    stop: Seq<StepView>,
    work: Seq<PlannedStepView>,
    start: Seq<StepView>,
) -> SnapshotAttemptView {
    let fresh = SnapshotAttemptView {
        stop,
        work,
        start,
        stage: Stage::Stopping,
        cursor: 0,
        release: Seq::empty(),
        failure: None,
        restart_failure: None,
    };
    if stop.len() > 0 {
        fresh
    } else {
        fresh.to_working()
    }
}

/// How a step ended, as the model of an attempt takes it.
pub open spec fn outcome_text(outcome: Result<(), TezedgeNodeControllerError>) -> Option<
    FailureView,
> {
    match outcome {
        Ok(_) => None,
        Err(failure) => Some(failure@),
    }
}

/// One snapshot attempt in progress.
pub struct SnapshotAttempt {
    stop: Vec<Step>,
    work: Vec<PlannedStep>,
    start: Vec<Step>,
    stage: Stage,
    cursor: usize,
    release: Vec<Step>,
    failure: Option<TezedgeNodeControllerError>,
    restart_failure: Option<TezedgeNodeControllerError>,
}

impl View for SnapshotAttempt {
    type V = SnapshotAttemptView;

    closed spec fn view(&self) -> SnapshotAttemptView {
        SnapshotAttemptView {
            stop: self.stop.deep_view(),
            work: self.work.deep_view(),
            start: self.start.deep_view(),
            stage: self.stage,
            cursor: self.cursor as int,
            release: self.release.deep_view(),
            failure: self.failure.deep_view(),
            restart_failure: self.restart_failure.deep_view(),
        }
    }
}

impl SnapshotAttempt {
    /// An attempt that first performs `stop`, then `work`, then `start`.
    pub fn begin(stop: Vec<Step>, work: Vec<PlannedStep>, start: Vec<Step>) -> (r: SnapshotAttempt)
        ensures
            r@ == begin_text(stop.deep_view(), work.deep_view(), start.deep_view()),
            r@.well_formed(),
    {
        let stage: Stage = if stop.len() > 0 {
            Stage::Stopping
        } else if work.len() > 0 {
            Stage::Working
        } else if start.len() > 0 {
            Stage::Starting
        } else {
            Stage::Finished
        };
        let release: Vec<Step> = Vec::new();
        assert(release.deep_view() =~= Seq::<StepView>::empty());
        proof {
            lemma_begin_is_well_formed(stop.deep_view(), work.deep_view(), start.deep_view());
        }
        SnapshotAttempt {
            stop,
            work,
            start,
            stage,
            cursor: 0,
            release,
            failure: None,
            restart_failure: None,
        }
    }

    /// The number of steps of the part under way.
    fn part_len(&self) -> (r: usize)
        ensures
            r == self@.part_len(),
    {
        match self.stage {
            Stage::Stopping => self.stop.len(),
            Stage::Working => self.work.len(),
            Stage::Releasing => self.release.len(),
            Stage::Starting => self.start.len(),
            Stage::Finished => 0,
        }
    }

    /// The part of the attempt that is under way.
    pub fn stage(&self) -> (r: Stage)
        ensures
            r == self@.stage,
    {
        self.stage
    }

    /// The step that the host performs now; `None` once the attempt is over.
    pub fn current(&self) -> (r: Option<Step>)
        ensures
            r.deep_view() == self@.current(),
    {
        if self.cursor >= self.part_len() {
            return None;
        }
        let step: Step = match self.stage {
            Stage::Stopping => copy_step(&self.stop[self.cursor]),
            Stage::Working => copy_step(&self.work[self.cursor].step),
            Stage::Releasing => copy_step(&self.release[self.cursor]),
            _ => copy_step(&self.start[self.cursor]),
        };
        Some(step)
    }

    /// Whether nothing is left to do.
    pub fn is_finished(&self) -> (r: bool)
        ensures
            r == (self@.current() is None),
    {
        self.cursor >= self.part_len()
    }

    /// How the attempt ended; `None` while a step is left.
    pub fn result(&self) -> (r: Option<Result<(), TezedgeNodeControllerError>>)
        ensures
            match r {
                Some(Ok(_)) => self@.result() == Some(Ok::<(), FailureView>(())),
                Some(Err(failure)) => self@.result() == Some(Err::<(), FailureView>(failure@)),
                None => self@.result() is None,
            },
    {
        if !self.is_finished() {
            return None;
        }
        match &self.failure {
            Some(failure) => Some(Err(failure.duplicate())),
            None => Some(Ok(())),
        }
    }

    /// The failure of the restart of the node, where the attempt had already
    /// failed before the restart.
    pub fn restart_failure(&self) -> (r: Option<TezedgeNodeControllerError>)
        ensures
            r.deep_view() == self@.restart_failure,
    {
        match &self.restart_failure {
            Some(failure) => Some(failure.duplicate()),
            None => None,
        }
    }

    fn finish(&mut self)
        ensures
            final(self)@ == old(self)@.finished(),
    {
        self.stage = Stage::Finished;
        self.cursor = 0;
    }

    fn enter_starting(&mut self)
        ensures
            final(self)@ == old(self)@.to_starting(),
    {
        if self.start.len() > 0 {
            self.stage = Stage::Starting;
            self.cursor = 0;
        } else {
            self.finish();
        }
    }

    fn enter_working(&mut self)
        ensures
            final(self)@ == old(self)@.to_working(),
    {
        if self.work.len() > 0 {
            self.stage = Stage::Working;
            self.cursor = 0;
        } else {
            self.enter_starting();
        }
    }

    fn enter_releasing(&mut self, release: Vec<Step>)
        ensures
            final(self)@ == old(self)@.to_releasing(release.deep_view()),
    {
        let some: bool = release.len() > 0;
        self.release = release;
        if some {
            self.stage = Stage::Releasing;
            self.cursor = 0;
        } else {
            self.enter_starting();
        }
    }

    fn go_on(&mut self)
        requires
            old(self)@.current() is Some,
        ensures
            final(self)@ == old(self)@.step_on(),
    {
        let len: usize = self.part_len();
        if self.cursor + 1 < len {
            self.cursor = self.cursor + 1;
        } else {
            match self.stage {
                Stage::Stopping => self.enter_working(),
                Stage::Working => self.enter_starting(),
                Stage::Releasing => self.enter_starting(),
                _ => self.finish(),
            }
        }
    }

    fn record(&mut self, failure: TezedgeNodeControllerError)
        ensures
            final(self)@ == old(self)@.failed(failure@),
    {
        if self.failure.is_none() {
            self.failure = Some(failure);
        } else {
            self.restart_failure = Some(failure);
        }
    }

    /// Takes in how the current step ended and moves to the step that
    /// follows.
    pub fn advance(&mut self, outcome: Result<(), TezedgeNodeControllerError>)
        ensures
            final(self)@ == old(self)@.advance(outcome_text(outcome)),
            old(self)@.well_formed() ==> final(self)@.well_formed(),
    {
        proof {
            if self@.well_formed() {
                lemma_advance_keeps_order(self@, outcome_text(outcome));
            }
        }
        if self.is_finished() {
            self.finish();
            return ;
        }
        match outcome {
            Ok(_) => self.go_on(),
            Err(failure) => match self.stage {
                Stage::Stopping => {
                    self.record(failure);
                    self.enter_starting();
                },
                Stage::Working => {
                    let release: Vec<Step> = copy_steps(&self.work[self.cursor].release);
                    self.record(failure);
                    self.enter_releasing(release);
                },
                Stage::Starting => {
                    self.record(failure);
                    self.finish();
                },
                _ => self.go_on(),
            },
        }
    }
}

impl SnapshotAttemptView {
    /// Whether this attempt is in order: while anything is left to do, the
    /// current step exists, and no step of the stop or of the work is
    /// performed after a failure.
    pub open spec fn well_formed(self) -> bool {
        &&& self.stage != Stage::Finished ==> 0 <= self.cursor < self.part_len()
        &&& (self.stage == Stage::Stopping || self.stage == Stage::Working) ==> self.failure is None
    }

    /// Whether this attempt performs the first step of the start of the
    /// node.
    pub open spec fn starts_the_node(self) -> bool {
        self.stage == Stage::Starting && self.cursor == 0 && self.start.len() > 0
    }

    /// Whether this attempt has not come to the start of the node yet.
    pub open spec fn before_the_start(self) -> bool {
        self.stage == Stage::Stopping || self.stage == Stage::Working || self.stage
            == Stage::Releasing
    }
}

/// A fresh attempt is in order.
pub proof fn lemma_begin_is_well_formed(
    stop: Seq<StepView>,
    work: Seq<PlannedStepView>,
    start: Seq<StepView>,
)
    ensures
        begin_text(stop, work, start).well_formed(),
        begin_text(stop, work, start).stop == stop,
        begin_text(stop, work, start).work == work,
        begin_text(stop, work, start).start == start,
        begin_text(stop, work, start).failure is None,
        start.len() > 0 ==> begin_text(stop, work, start).before_the_start() || begin_text(
            stop,
            work,
            start,
        ).starts_the_node(),
{
}

/// A step keeps an attempt in order and leaves its three lists of steps as
/// they are. The first failure, once on record, stays the one on record. A
/// step that leads out of the stop, of the work or of the clean-up leads to
/// the first step of the start of the node.
pub proof fn lemma_advance_keeps_order(attempt: SnapshotAttemptView, outcome: Option<FailureView>)
    requires
        attempt.well_formed(),
    ensures
        attempt.advance(outcome).well_formed(),
        attempt.advance(outcome).stop == attempt.stop,
        attempt.advance(outcome).work == attempt.work,
        attempt.advance(outcome).start == attempt.start,
        attempt.failure is Some ==> attempt.advance(outcome).failure == attempt.failure,
        attempt.before_the_start() && attempt.start.len() > 0 ==> attempt.advance(
            outcome,
        ).before_the_start() || attempt.advance(outcome).starts_the_node(),
{
}

/// An attempt that has steps to start the node does not end
/// without having come to the first of them. Whatever the outcomes of its
/// steps, failures included, a finished attempt has tried to start the node.
pub proof fn lemma_finished_attempt_tried_to_start_the_node(
    stop: Seq<StepView>,
    work: Seq<PlannedStepView>,
    start: Seq<StepView>,
    outcomes: Seq<Option<FailureView>>,
)
    requires
        start.len() > 0,
        begin_text(stop, work, start).run(outcomes).current() is None,
    ensures
        exists|k: int|
            0 <= k <= outcomes.len() && #[trigger] begin_text(stop, work, start).run(
                outcomes.take(k),
            ).starts_the_node(),
{
    lemma_run_comes_to_the_start(stop, work, start, outcomes);
}

/// Whatever the outcomes, an attempt stays in order and keeps its three
/// lists of steps.
pub proof fn lemma_run_keeps_the_steps(
    stop: Seq<StepView>,
    work: Seq<PlannedStepView>,
    start: Seq<StepView>,
    outcomes: Seq<Option<FailureView>>,
)
    ensures
        begin_text(stop, work, start).run(outcomes).well_formed(),
        begin_text(stop, work, start).run(outcomes).stop == stop,
        begin_text(stop, work, start).run(outcomes).work == work,
        begin_text(stop, work, start).run(outcomes).start == start,
    decreases outcomes.len(),
{
    lemma_begin_is_well_formed(stop, work, start);
    if outcomes.len() > 0 {
        lemma_run_keeps_the_steps(stop, work, start, outcomes.drop_last());
        lemma_advance_keeps_order(
            begin_text(stop, work, start).run(outcomes.drop_last()),
            outcomes.last(),
        );
    }
}

/// After any outcomes, an attempt is in order, and it either has not come to
/// the start of the node yet or did come to its first step at some point.
proof fn lemma_run_comes_to_the_start(
    stop: Seq<StepView>,
    work: Seq<PlannedStepView>,
    start: Seq<StepView>,
    outcomes: Seq<Option<FailureView>>,
)
    requires
        start.len() > 0,
    ensures
        begin_text(stop, work, start).run(outcomes).well_formed(),
        begin_text(stop, work, start).run(outcomes).start == start,
        begin_text(stop, work, start).run(outcomes).before_the_start() || exists|k: int|
            0 <= k <= outcomes.len() && #[trigger] begin_text(stop, work, start).run(
                outcomes.take(k),
            ).starts_the_node(),
    decreases outcomes.len(),
{
    let fresh = begin_text(stop, work, start);
    lemma_begin_is_well_formed(stop, work, start);
    if outcomes.len() == 0 {
        assert(outcomes.take(0) == outcomes);
    } else {
        let front = outcomes.drop_last();
        lemma_run_comes_to_the_start(stop, work, start, front);
        let before = fresh.run(front);
        lemma_advance_keeps_order(before, outcomes.last());
        assert(outcomes.take(outcomes.len() as int) == outcomes);
        if before.before_the_start() {
            if fresh.run(outcomes).starts_the_node() {
                assert(fresh.run(outcomes.take(outcomes.len() as int)).starts_the_node());
            }
        } else {
            let k = choose|k: int|
                0 <= k <= front.len() && #[trigger] fresh.run(front.take(k)).starts_the_node();
            assert(front.take(k) == outcomes.take(k));
            assert(fresh.run(outcomes.take(k)).starts_the_node());
        }
    }
}

/// The failure that an attempt ends with is its
/// first one. A failure of the restart that follows does not take its place.
pub proof fn lemma_first_failure_is_final(
    attempt: SnapshotAttemptView,
    outcomes: Seq<Option<FailureView>>,
)
    requires
        attempt.well_formed(),
        attempt.failure is Some,
    ensures
        attempt.run(outcomes).well_formed(),
        attempt.run(outcomes).failure == attempt.failure,
    decreases outcomes.len(),
{
    if outcomes.len() > 0 {
        lemma_first_failure_is_final(attempt, outcomes.drop_last());
        lemma_advance_keeps_order(attempt.run(outcomes.drop_last()), outcomes.last());
    }
}

/// A failed step of the stop or of the work is the failure that the attempt
/// ends with, and no further step of the stop or of the work is performed.
pub proof fn lemma_failure_skips_the_work(attempt: SnapshotAttemptView, failure: FailureView)
    requires
        attempt.well_formed(),
        attempt.stage == Stage::Stopping || attempt.stage == Stage::Working,
    ensures
        attempt.advance(Some(failure)).failure == Some(failure),
        attempt.advance(Some(failure)).stage != Stage::Stopping,
        attempt.advance(Some(failure)).stage != Stage::Working,
        attempt.stage == Stage::Working ==> attempt.advance(Some(failure)).release
            == attempt.work[attempt.cursor].release,
{
}

/// A node that did not start ends the attempt: its monitor is not started.
pub proof fn lemma_failed_start_ends_the_attempt(attempt: SnapshotAttemptView, failure: FailureView)
    requires
        attempt.well_formed(),
        attempt.stage == Stage::Starting,
    ensures
        attempt.advance(Some(failure)).current() is None,
        attempt.advance(Some(failure)).result() is Some,
        attempt.advance(Some(failure)).result()->0 is Err,
{
}

/// The steps of an attempt in the order in which they are performed where
/// none fails: those that stop the node, those of the work, those that start
/// the node.
pub open spec fn all_steps(
    stop: Seq<StepView>,
    work: Seq<PlannedStepView>,
    start: Seq<StepView>,
) -> Seq<StepView> {
    stop + Seq::new(work.len(), |i: int| work[i].step) + start
}

/// `count` outcomes, each a success.
pub open spec fn successes(count: nat) -> Seq<Option<FailureView>> {
    Seq::new(count, |i: int| None::<FailureView>)
}

/// An attempt of which the first `done` steps have succeeded.
pub open spec fn after_successes(
    stop: Seq<StepView>,
    work: Seq<PlannedStepView>,
    start: Seq<StepView>,
    done: int,
) -> SnapshotAttemptView {
    let (stage, cursor) = if done < stop.len() {
        (Stage::Stopping, done)
    } else if done < stop.len() + work.len() {
        (Stage::Working, done - stop.len())
    } else if done < stop.len() + work.len() + start.len() {
        (Stage::Starting, done - stop.len() - work.len())
    } else {
        (Stage::Finished, 0)
    };
    SnapshotAttemptView {
        stop,
        work,
        start,
        stage,
        cursor,
        release: Seq::empty(),
        failure: None,
        restart_failure: None,
    }
}

/// After `done` successes an attempt stands at its step number `done`.
proof fn lemma_run_of_successes(
    stop: Seq<StepView>,
    work: Seq<PlannedStepView>,
    start: Seq<StepView>,
    done: nat,
)
    requires
        done <= stop.len() + work.len() + start.len(),
    ensures
        begin_text(stop, work, start).run(successes(done)) == after_successes(
            stop,
            work,
            start,
            done as int,
        ),
    decreases done,
{
    if done > 0 {
        let before = (done - 1) as nat;
        lemma_run_of_successes(stop, work, start, before);
        assert(successes(done).drop_last() == successes(before));
        assert(successes(done).last() == None::<FailureView>);
        let state = after_successes(stop, work, start, before as int);
        assert(state.current() is Some);
        assert(state.advance(None) == after_successes(stop, work, start, done as int));
    }
}

/// Where no step fails, every step of the attempt is
/// performed, none twice and none out of its turn, and the attempt ends with
/// success. The node is stopped before the work and started after it.
pub proof fn lemma_success_performs_every_step(
    stop: Seq<StepView>,
    work: Seq<PlannedStepView>,
    start: Seq<StepView>,
)
    ensures
        forall|done: nat|
            done < all_steps(stop, work, start).len() ==> (#[trigger] begin_text(
                stop,
                work,
                start,
            ).run(successes(done))).current() == Some(all_steps(stop, work, start)[done as int]),
        begin_text(stop, work, start).run(
            successes(all_steps(stop, work, start).len()),
        ).result() == Some(Ok::<(), FailureView>(())),
{
    let all = all_steps(stop, work, start);
    assert forall|done: nat| done < all.len() implies (#[trigger] begin_text(
        stop,
        work,
        start,
    ).run(successes(done))).current() == Some(all[done as int]) by {
        lemma_run_of_successes(stop, work, start, done);
    }
    lemma_run_of_successes(stop, work, start, all.len());
}

/// The order within the stop and within the start: the second step of
/// either is performed only after the first one has succeeded. The monitor
/// is not stopped after a node that did not stop, and not started against a
/// node that did not start.
pub proof fn lemma_second_step_follows_success(
    attempt: SnapshotAttemptView,
    outcome: Option<FailureView>,
)
    requires
        attempt.well_formed(),
        attempt.current() is Some,
        attempt.advance(outcome).cursor > 0,
        attempt.advance(outcome).stage == Stage::Stopping || attempt.advance(outcome).stage
            == Stage::Starting,
    ensures
        outcome is None,
        attempt.stage == attempt.advance(outcome).stage,
        attempt.cursor + 1 == attempt.advance(outcome).cursor,
{
}

} // verus!
