//! When a snapshot is taken. The scheduler asks whether a snapshot is due,
//! waits where it is not, lets one attempt run to its end where it is, and
//! gives up after a failure that waiting does not mend.

use crate::failure::{is_transient_failure, FailureView, TezedgeNodeControllerError};
use vstd::prelude::*;

verus! {

/// Whether a snapshot is due: the node answered, and either no attempt was
/// begun before or the last one was begun at least `frequency` seconds ago.
/// `elapsed` holds the seconds since the last attempt began.
pub open spec fn is_eligible(reachable: bool, elapsed: Option<u64>, frequency: u64) -> bool {
    reachable && match elapsed {
        Some(seconds) => seconds >= frequency,
        None => true,
    }
}

/// Whether a snapshot is due.
pub fn eligible(reachable: bool, elapsed: Option<u64>, frequency: u64) -> (r: bool)
    ensures
        r == is_eligible(reachable, elapsed, frequency),
{
    if !reachable {
        return false;
    }
    match elapsed {
        Some(seconds) => seconds >= frequency,
        None => true,
    }
}

/// No snapshot is due while the node does not answer,
/// however long ago the last attempt began, and also where none began yet.
pub proof fn lemma_unreachable_node_is_never_eligible(elapsed: Option<u64>, frequency: u64)
    ensures
        !is_eligible(false, elapsed, frequency),
{
}

/// How an attempt ended, as far as the scheduler cares.
#[derive(Clone, Copy, Debug, PartialEq, Eq, Structural)]
pub enum AttemptOutcome {
    /// The snapshots were made.
    Succeeded,
    /// The node did not answer: the scheduler goes on.
    Unreachable,
    /// Anything else went wrong: the scheduler stops.
    Failed,
}

/// How the scheduler takes the result of an attempt.
pub open spec fn classify_text(result: Result<(), FailureView>) -> AttemptOutcome {
    match result {
        Ok(_) => AttemptOutcome::Succeeded,
        Err(failure) => if is_transient_failure(failure) {
            AttemptOutcome::Unreachable
        } else {
            AttemptOutcome::Failed
        },
    }
}

/// How the scheduler takes the result of an attempt.
pub fn classify(result: &Result<(), TezedgeNodeControllerError>) -> (r: AttemptOutcome)
    ensures
        r == classify_text(
            match *result {
                Ok(_) => Ok(()),
                Err(failure) => Err(failure@),
            },
        ),
{
    match result {
        Ok(_) => AttemptOutcome::Succeeded,
        Err(failure) => if failure.is_transient() {
            AttemptOutcome::Unreachable
        } else {
            AttemptOutcome::Failed
        },
    }
}

/// Where the scheduler stands.
#[derive(Clone, Copy, Debug, PartialEq, Eq, Structural)]
pub enum SchedulerState {
    /// Between two rounds.
    Idle,
    /// Asking whether a snapshot is due.
    Checking,
    /// An attempt is under way.
    Snapshotting,
    /// The scheduler has ended.
    Stopped,
}

/// What the host reports to the scheduler.
#[derive(Clone, Copy, Debug, PartialEq, Eq, Structural)]
pub enum SchedulerEvent {
    /// A round begins; `running` is false once the service was told to end.
    Wake { running: bool },
    /// The answer to the question whether a snapshot is due.
    Eligibility { eligible: bool },
    /// The attempt has returned.
    AttemptReturned { outcome: AttemptOutcome },
}

/// What the host does next for the scheduler.
#[derive(Clone, Copy, Debug, PartialEq, Eq, Structural)]
pub enum SchedulerAction {
    /// Find out whether a snapshot is due, and report the answer.
    CheckEligibility,
    /// Wait `seconds`, then begin the next round.
    Sleep { seconds: u64 },
    /// Note the time, run one attempt to its end, and report how it ended.
    TakeSnapshot,
    /// Begin the next round at once.
    Proceed,
    /// Leave the loop.
    Exit,
    /// Nothing: the event does not belong to the state.
    Rest,
}

/// The state after `event` and what the host does then.
///
/// The flag that ends the service is looked at only when a round begins:
/// nothing interrupts an attempt that is under way. An attempt that found
/// the node unreachable is followed by the next round; any other failure
/// ends the scheduler.
pub open spec fn scheduler_next(state: SchedulerState, event: SchedulerEvent, check_interval: u64) -> (
    SchedulerState,
    SchedulerAction,
) {
    match (state, event) {
        (SchedulerState::Idle, SchedulerEvent::Wake { running }) => if running {
            (SchedulerState::Checking, SchedulerAction::CheckEligibility)
        } else {
            (SchedulerState::Stopped, SchedulerAction::Exit)
        },
        (SchedulerState::Checking, SchedulerEvent::Eligibility { eligible }) => if eligible {
            (SchedulerState::Snapshotting, SchedulerAction::TakeSnapshot)
        } else {
            (SchedulerState::Idle, SchedulerAction::Sleep { seconds: check_interval })
        },
        (SchedulerState::Snapshotting, SchedulerEvent::AttemptReturned { outcome }) => if outcome
            == AttemptOutcome::Failed {
            (SchedulerState::Stopped, SchedulerAction::Exit)
        } else {
            (SchedulerState::Idle, SchedulerAction::Proceed)
        },
        _ => (state, SchedulerAction::Rest),
    }
}

/// The state that the scheduler comes to from `state` by `events`.
pub open spec fn scheduler_run(state: SchedulerState, events: Seq<SchedulerEvent>, check_interval: u64) -> SchedulerState
    decreases events.len(),
{
    if events.len() == 0 {
        state
    } else {
        scheduler_next(
            scheduler_run(state, events.drop_last(), check_interval),
            events.last(),
            check_interval,
        ).0
    }
}

/// What the host is told to do on the event `events[at]`, after the events
/// before it.
pub open spec fn scheduler_action(events: Seq<SchedulerEvent>, at: int, check_interval: u64) -> SchedulerAction {
    scheduler_next(
        scheduler_run(SchedulerState::Idle, events.take(at), check_interval),
        events[at],
        check_interval,
    ).1
}

/// The loop that decides when a snapshot is taken.
pub struct SnapshotScheduler {
    pub state: SchedulerState,
    pub check_interval: u64,
}

impl SnapshotScheduler {
    /// A scheduler between two rounds that waits `check_interval` seconds
    /// where no snapshot is due.
    pub fn new(check_interval: u64) -> (r: SnapshotScheduler)
        ensures
            r.state == SchedulerState::Idle,
            r.check_interval == check_interval,
    {
        SnapshotScheduler { state: SchedulerState::Idle, check_interval }
    }

    /// Takes in `event` and says what the host does next.
    pub fn next(&mut self, event: SchedulerEvent) -> (r: SchedulerAction)
        ensures
            (final(self).state, r) == scheduler_next(
                old(self).state,
                event,
                old(self).check_interval,
            ),
            final(self).check_interval == old(self).check_interval,
    {
        match (self.state, event) {
            (SchedulerState::Idle, SchedulerEvent::Wake { running }) => {
                if running {
                    self.state = SchedulerState::Checking;
                    SchedulerAction::CheckEligibility
                } else {
                    self.state = SchedulerState::Stopped;
                    SchedulerAction::Exit
                }
            },
            (SchedulerState::Checking, SchedulerEvent::Eligibility { eligible }) => {
                if eligible {
                    self.state = SchedulerState::Snapshotting;
                    SchedulerAction::TakeSnapshot
                } else {
                    self.state = SchedulerState::Idle;
                    SchedulerAction::Sleep { seconds: self.check_interval }
                }
            },
            (SchedulerState::Snapshotting, SchedulerEvent::AttemptReturned { outcome }) => {
                match outcome {
                    AttemptOutcome::Failed => {
                        self.state = SchedulerState::Stopped;
                        SchedulerAction::Exit
                    },
                    _ => {
                        self.state = SchedulerState::Idle;
                        SchedulerAction::Proceed
                    },
                }
            },
            _ => SchedulerAction::Rest,
        }
    }

    /// Whether the scheduler has ended.
    pub fn is_stopped(&self) -> (r: bool)
        ensures
            r == (self.state == SchedulerState::Stopped),
    {
        match self.state {
            SchedulerState::Stopped => true,
            _ => false,
        }
    }
}

/// While no attempt returns, an attempt that was begun stays under way.
proof fn lemma_attempt_stays_in_flight(
    events: Seq<SchedulerEvent>,
    check_interval: u64,
    begun: int,
    later: int,
)
    requires
        0 <= begun < later <= events.len(),
        scheduler_action(events, begun, check_interval) == SchedulerAction::TakeSnapshot,
        forall|k: int| begun < k < later ==> !(#[trigger] events[k] is AttemptReturned),
    ensures
        scheduler_run(SchedulerState::Idle, events.take(later), check_interval)
            == SchedulerState::Snapshotting,
    decreases later - begun,
{
    let shown = events.take(later);
    assert(shown.drop_last() == events.take(later - 1));
    assert(shown.last() == events[later - 1]);
    if later - 1 > begun {
        lemma_attempt_stays_in_flight(events, check_interval, begun, later - 1);
    }
}

/// At most one attempt is under way: between two attempts that the
/// scheduler begins, the first of them has returned. Whatever the host
/// reports and in whatever order, the scheduler does not begin an attempt
/// while another has not returned.
pub proof fn lemma_at_most_one_attempt_in_flight(
    events: Seq<SchedulerEvent>,
    check_interval: u64,
    first: int,
    second: int,
)
    requires
        0 <= first < second < events.len(),
        scheduler_action(events, first, check_interval) == SchedulerAction::TakeSnapshot,
        scheduler_action(events, second, check_interval) == SchedulerAction::TakeSnapshot,
    ensures
        exists|k: int| first < k < second && #[trigger] events[k] is AttemptReturned,
{
    if forall|k: int| first < k < second ==> !(#[trigger] events[k] is AttemptReturned) {
        lemma_attempt_stays_in_flight(events, check_interval, first, second);
    }
}

/// An attempt is begun only on the answer that a snapshot is due.
pub proof fn lemma_attempt_needs_eligibility(
    state: SchedulerState,
    event: SchedulerEvent,
    check_interval: u64,
)
    requires
        scheduler_next(state, event, check_interval).1 == SchedulerAction::TakeSnapshot,
    ensures
        state == SchedulerState::Checking,
        event == (SchedulerEvent::Eligibility { eligible: true }),
{
}

/// A scheduler that has ended stays ended and asks for nothing more.
pub proof fn lemma_stopped_is_final(event: SchedulerEvent, check_interval: u64)
    ensures
        scheduler_next(SchedulerState::Stopped, event, check_interval) == (
            SchedulerState::Stopped,
            SchedulerAction::Rest,
        ),
{
}

} // verus!
