//! Sleep/wake coordination: classifying the host's sleep signal, and the
//! outer loop's decisions. The inhibitor lock is taken before a run starts
//! and released only after the run has finished its farewell and
//! disconnect, so the broker always sees the agent offline before the host
//! suspends; after a wake, a fresh run begins with a fresh discovery
//! publish. The bus and the lock itself live at the runtime's edge.

use vstd::prelude::*;
use crate::main_loop::StopReason;

verus! {

/// A host sleep-state notification.
#[derive(Clone, Copy, Debug, PartialEq, Eq, Structural)]
pub enum SleepEvent {
    PreparingSleep,
    WakingUp,
}

/// Classifies the sleep signal's flag: set means the host is about to
/// sleep, clear that it woke up.
pub fn sleep_event_of_signal(preparing: bool) -> (r: SleepEvent)
    ensures
        r == if preparing {
            SleepEvent::PreparingSleep
        } else {
            SleepEvent::WakingUp
        },
{
    if preparing {
        SleepEvent::PreparingSleep
    } else {
        SleepEvent::WakingUp
    }
}

/// Where the coordinator's outer loop stands.
#[derive(Clone, Copy, Debug, PartialEq, Eq, Structural)]
pub enum CoordState {
    Running,
    AwaitingWake,
    Finished,
}

/// What the coordinator tells the runtime to do, in order.
#[derive(Clone, Copy, Debug, PartialEq, Eq, Structural)]
pub enum CoordAction {
    AcquireLock,
    StartRun,
    ReleaseLock,
    AwaitWake,
    Exit,
}

/// What reaches the coordinator: a run completed for a reason, or the
/// awaited wake notification arrived.
#[derive(Clone, Copy, Debug, PartialEq, Eq, Structural)]
pub enum CoordEvent {
    RunEnded(StopReason),
    Wake,
}

/// One coordinator step. A run's end releases the lock, only then — after
/// the run's farewell and disconnect — and exits on shutdown or awaits the
/// wake on sleep; the wake starts a fresh run under a fresh lock. An event
/// that cannot occur in the state at hand changes nothing.
pub open spec fn coord_step(st: CoordState, ev: CoordEvent) -> (CoordState, Seq<CoordAction>) {
    match (st, ev) {
        (CoordState::Running, CoordEvent::RunEnded(StopReason::Shutdown)) => (
            CoordState::Finished,
            seq![CoordAction::ReleaseLock, CoordAction::Exit],
        ),
        (CoordState::Running, CoordEvent::RunEnded(StopReason::Sleep)) => (
            CoordState::AwaitingWake,
            seq![CoordAction::ReleaseLock, CoordAction::AwaitWake],
        ),
        (CoordState::AwaitingWake, CoordEvent::Wake) => (
            CoordState::Running,
            seq![CoordAction::AcquireLock, CoordAction::StartRun],
        ),
        _ => (st, Seq::empty()),
    }
}

/// The coordinator run over a whole event sequence: the final state and
/// every action ordered, after the initial lock acquisition and first run.
pub open spec fn coord_run(st: CoordState, events: Seq<CoordEvent>) -> (
    CoordState,
    Seq<CoordAction>,
)
    decreases events.len(),
{
    if events.len() == 0 {
        (st, Seq::empty())
    } else {
        let prev = coord_run(st, events.drop_last());
        let step = coord_step(prev.0, events.last());
        (step.0, prev.1 + step.1)
    }
}

/// The sleep coordinator's state.
pub struct SleepCoordinator {
    pub state: CoordState,
}

impl SleepCoordinator {
    /// Begins coordinating: the first run starts at once, under the
    /// inhibitor lock acquired first.
    pub fn begin() -> (r: (SleepCoordinator, Vec<CoordAction>))
        ensures
            r.0.state == CoordState::Running,
            r.1@ == seq![CoordAction::AcquireLock, CoordAction::StartRun],
    {
        let mut actions: Vec<CoordAction> = Vec::new();
        actions.push(CoordAction::AcquireLock);
        actions.push(CoordAction::StartRun);
        proof {
            assert(actions@ =~= seq![CoordAction::AcquireLock, CoordAction::StartRun]);
        }
        (SleepCoordinator { state: CoordState::Running }, actions)
    }

    /// Feeds one event through the coordinator.
    pub fn step(&mut self, event: CoordEvent) -> (r: Vec<CoordAction>)
        ensures
            final(self).state == coord_step(old(self).state, event).0,
            r@ == coord_step(old(self).state, event).1,
    {
        let mut out: Vec<CoordAction> = Vec::new();
        match (self.state, event) {
            (CoordState::Running, CoordEvent::RunEnded(StopReason::Shutdown)) => {
                self.state = CoordState::Finished;
                out.push(CoordAction::ReleaseLock);
                out.push(CoordAction::Exit);
            },
            (CoordState::Running, CoordEvent::RunEnded(StopReason::Sleep)) => {
                self.state = CoordState::AwaitingWake;
                out.push(CoordAction::ReleaseLock);
                out.push(CoordAction::AwaitWake);
            },
            (CoordState::AwaitingWake, CoordEvent::Wake) => {
                self.state = CoordState::Running;
                out.push(CoordAction::AcquireLock);
                out.push(CoordAction::StartRun);
            },
            _ => {},
        }
        proof {
            assert(out@ =~= coord_step(old(self).state, event).1);
        }
        out
    }
}

/// A sleep notification followed by the matching wake gives exactly the
/// promised sequence: the running run is stopped and, after its farewell,
/// the lock is released and the wake awaited; the wake then takes the lock
/// again and starts a fresh run — which begins, as every run does, with a
/// fresh discovery publish.
pub proof fn lemma_sleep_wake_cycle()
    ensures
        coord_run(
            CoordState::Running,
            seq![CoordEvent::RunEnded(StopReason::Sleep), CoordEvent::Wake],
        ) == (
            CoordState::Running,
            seq![
                CoordAction::ReleaseLock,
                CoordAction::AwaitWake,
                CoordAction::AcquireLock,
                CoordAction::StartRun,
            ],
        ),
{
    let evs = seq![CoordEvent::RunEnded(StopReason::Sleep), CoordEvent::Wake];
    let e1 = seq![CoordEvent::RunEnded(StopReason::Sleep)];
    assert(evs.drop_last() =~= e1);
    assert(e1.drop_last() =~= Seq::<CoordEvent>::empty());
    assert(coord_run(CoordState::Running, e1.drop_last()) == (
        CoordState::Running,
        Seq::<CoordAction>::empty(),
    ));
    assert(e1.last() == CoordEvent::RunEnded(StopReason::Sleep));
    assert(coord_run(CoordState::Running, e1).0 == CoordState::AwaitingWake);
    assert(coord_run(CoordState::Running, e1).1 =~= seq![
        CoordAction::ReleaseLock,
        CoordAction::AwaitWake,
    ]);
    assert(evs.last() == CoordEvent::Wake);
    assert(coord_run(CoordState::Running, evs).0 == CoordState::Running);
    assert(coord_run(CoordState::Running, evs).1 =~= seq![
        CoordAction::ReleaseLock,
        CoordAction::AwaitWake,
        CoordAction::AcquireLock,
        CoordAction::StartRun,
    ]);
}

/// Once the coordinator has exited for shutdown, nothing starts a run
/// again.
pub proof fn lemma_no_run_after_exit(events: Seq<CoordEvent>)
    ensures
        coord_run(CoordState::Finished, events).0 == CoordState::Finished,
        !coord_run(CoordState::Finished, events).1.contains(CoordAction::StartRun),
    decreases events.len(),
{
    if events.len() > 0 {
        lemma_no_run_after_exit(events.drop_last());
        let prev = coord_run(CoordState::Finished, events.drop_last());
        let step = coord_step(prev.0, events.last());
        assert forall|i: int| 0 <= i < (prev.1 + step.1).len() implies (prev.1 + step.1)[i]
            != CoordAction::StartRun by {
            if i < prev.1.len() {
                assert(!prev.1.contains(CoordAction::StartRun));
            }
        }
    }
}

} // verus!
