//! The order of a measurement, as a state machine.
//!
//! A measurement samples the process, spawns its workers, meets them at the
//! barrier, samples again while they are parked, meets them a second time to
//! let them finish, joins them and samples a last time. The machine decides
//! what comes next; a driver does it and reports what happened. Threads are
//! spawned and joined by the driver; samples and barrier waits can be done by
//! [`perform`].

use crate::snapshot::difference;
use crate::snapshot::difference_spec;
use crate::snapshot::sample_process;
use crate::snapshot::MeasureError;
use crate::snapshot::MemorySnapshot;
use crate::workload::RendezvousBarrier;
use vstd::prelude::*;

verus! {

/// What a measurement is waiting for.
#[derive(Clone, Copy, Debug, PartialEq, Eq, Structural)]
pub enum Phase {
    /// The sample taken before any worker exists.
    Baseline,
    /// The outcome of spawning one worker.
    Spawning,
    /// The first meeting at the barrier: every worker has done its work.
    FirstWait,
    /// The sample taken while every worker is parked.
    During,
    /// The second meeting at the barrier, which lets the workers finish.
    SecondWait,
    /// The outcome of joining one worker.
    Joining,
    /// The sample taken after every worker has been joined.
    After,
    /// The estimates have been reported.
    Finished,
    /// The measurement was given up.
    Failed,
}

/// What the driver is asked to do next.
#[derive(Clone, Copy, Debug, PartialEq, Eq)]
pub enum Action {
    /// Sample the memory of the process.
    Sample,
    /// Spawn one worker with a handle to the barrier.
    Spawn,
    /// Wait at the barrier.
    Wait,
    /// Join one worker.
    Join,
    /// The run is complete.
    Report {
        /// Cost per thread while all workers were parked.
        during: MemorySnapshot,
        /// Cost per thread that remained after all workers were joined.
        after: MemorySnapshot,
    },
    /// The run cannot go on.
    Abort(MeasureError),
}

/// What the driver reports back.
#[derive(Clone, Copy, Debug, PartialEq, Eq)]
pub enum Event {
    /// A sample was attempted; `None` where the host could not give one.
    Sampled(Option<MemorySnapshot>),
    /// A spawn was attempted; `true` where the worker runs.
    Spawned(bool),
    /// The wait at the barrier has returned.
    Released,
    /// A join was attempted; `true` where the worker ended without a panic.
    Joined(bool),
}

/// The state of one measurement.
#[derive(Clone, Copy, Debug, PartialEq, Eq)]
pub struct Measurement {
    /// Number of workers.
    pub threads: usize,
    /// What the measurement is waiting for.
    pub phase: Phase,
    /// Workers spawned so far while spawning, joined so far while joining,
    /// and 0 in every other phase.
    pub count: usize,
    /// The sample taken before any worker existed, once there is one.
    pub before: MemorySnapshot,
    /// The sample taken while every worker was parked, once there is one.
    pub during: MemorySnapshot,
}

/// The sample that stands in a measurement's fields until a real one arrives.
pub open spec fn no_sample() -> MemorySnapshot {
    MemorySnapshot { virtual_bytes: 0, physical_bytes: 0 }
}

/// The state in which a measurement with `threads` workers begins.
pub open spec fn initial(threads: usize) -> Measurement {
    Measurement {
        threads,
        phase: Phase::Baseline,
        count: 0,
        before: no_sample(),
        during: no_sample(),
    }
}

/// The state after `event` and the action it calls for.
pub open spec fn step_spec(m: Measurement, event: Event) -> (Measurement, Action) {
    match (m.phase, event) {
        (Phase::Baseline, Event::Sampled(Some(sample))) => (
            Measurement { phase: Phase::Spawning, before: sample, ..m },
            Action::Spawn,
        ),
        (Phase::Spawning, Event::Spawned(true)) => if m.count + 1 < m.threads {
            (Measurement { count: (m.count + 1) as usize, ..m }, Action::Spawn)
        } else {
            (Measurement { phase: Phase::FirstWait, count: 0, ..m }, Action::Wait)
        },
        (Phase::FirstWait, Event::Released) => (
            Measurement { phase: Phase::During, ..m },
            Action::Sample,
        ),
        (Phase::During, Event::Sampled(Some(sample))) => (
            Measurement { phase: Phase::SecondWait, during: sample, ..m },
            Action::Wait,
        ),
        (Phase::SecondWait, Event::Released) => (
            Measurement { phase: Phase::Joining, ..m },
            Action::Join,
        ),
        (Phase::Joining, Event::Joined(true)) => if m.count + 1 < m.threads {
            (Measurement { count: (m.count + 1) as usize, ..m }, Action::Join)
        } else {
            (Measurement { phase: Phase::After, count: 0, ..m }, Action::Sample)
        },
        (Phase::After, Event::Sampled(Some(sample))) => (
            Measurement { phase: Phase::Finished, ..m },
            Action::Report {
                during: difference_spec(m.during, m.before, m.threads as int),
                after: difference_spec(sample, m.before, m.threads as int),
            },
        ),
        (_, Event::Sampled(None)) => (
            Measurement { phase: Phase::Failed, count: 0, ..m },
            Action::Abort(MeasureError::SnapshotUnavailable),
        ),
        (_, Event::Spawned(_)) => (
            Measurement { phase: Phase::Failed, count: 0, ..m },
            Action::Abort(MeasureError::SpawnFailed),
        ),
        (_, _) => (
            Measurement { phase: Phase::Failed, count: 0, ..m },
            Action::Abort(MeasureError::JoinFailed),
        ),
    }
}

impl Measurement {
    /// The state is one that a measurement can be in: there is at least one
    /// worker, and the count is below the number of workers while spawning or
    /// joining and 0 otherwise.
    pub open spec fn wf(&self) -> bool {
        &&& self.threads >= 1
        &&& match self.phase {
            Phase::Spawning | Phase::Joining => self.count < self.threads,
            _ => self.count == 0,
        }
    }

    /// Whether `event` answers what the measurement is waiting for.
    pub open spec fn accepts(&self, event: Event) -> bool {
        match self.phase {
            Phase::Baseline | Phase::During | Phase::After => event is Sampled,
            Phase::Spawning => event is Spawned,
            Phase::FirstWait | Phase::SecondWait => event is Released,
            Phase::Joining => event is Joined,
            Phase::Finished | Phase::Failed => false,
        }
    }

    /// What the driver has been asked to do in this state; `None` once the
    /// run is over.
    pub open spec fn awaited(&self) -> Option<Action> {
        match self.phase {
            Phase::Baseline | Phase::During | Phase::After => Some(Action::Sample),
            Phase::Spawning => Some(Action::Spawn),
            Phase::FirstWait | Phase::SecondWait => Some(Action::Wait),
            Phase::Joining => Some(Action::Join),
            Phase::Finished | Phase::Failed => None,
        }
    }

    /// Begins a measurement with `threads` workers. The first thing to do is
    /// to sample the process.
    pub fn start(threads: usize) -> (begun: (Measurement, Action))
        requires
            threads >= 1,
        ensures
            begun.0 == initial(threads),
            begun.0.wf(),
            begun.1 == Action::Sample,
    {
        let none = MemorySnapshot { virtual_bytes: 0, physical_bytes: 0 };
        (
            Measurement { threads, phase: Phase::Baseline, count: 0, before: none, during: none },
            Action::Sample,
        )
    }

    /// Whether the run is over, with a report or with a failure.
    pub fn is_over(&self) -> (over: bool)
        ensures
            over == (self.phase == Phase::Finished || self.phase == Phase::Failed),
            over == (self.awaited() is None),
    {
        match self.phase {
            Phase::Finished | Phase::Failed => true,
            _ => false,
        }
    }

    /// Whether the state is one that a measurement can be in.
    pub fn is_well_formed(&self) -> (ok: bool)
        ensures
            ok == self.wf(),
    {
        self.threads >= 1 && match self.phase {
            Phase::Spawning | Phase::Joining => self.count < self.threads,
            _ => self.count == 0,
        }
    }

    /// Whether `event` answers what the measurement is waiting for.
    pub fn is_accepted(&self, event: &Event) -> (ok: bool)
        ensures
            ok == self.accepts(*event),
    {
        match self.phase {
            Phase::Baseline | Phase::During | Phase::After => match event {
                Event::Sampled(_) => true,
                _ => false,
            },
            Phase::Spawning => match event {
                Event::Spawned(_) => true,
                _ => false,
            },
            Phase::FirstWait | Phase::SecondWait => match event {
                Event::Released => true,
                _ => false,
            },
            Phase::Joining => match event {
                Event::Joined(_) => true,
                _ => false,
            },
            Phase::Finished | Phase::Failed => false,
        }
    }

    /// Like `advance`, for a caller that cannot promise that the event is the
    /// awaited one: an event that is not accepted, or a state that no
    /// measurement can be in, gives `None` and leaves the state as it is.
    pub fn try_advance(&mut self, event: Event) -> (action: Option<Action>)
        ensures
            old(self).wf() && old(self).accepts(event) ==> action is Some && (
                *final(self),
                action->0,
            ) == step_spec(*old(self), event) && final(self).wf(),
            !(old(self).wf() && old(self).accepts(event)) ==> action is None && *final(self)
                == *old(self),
    {
        if self.is_well_formed() && self.is_accepted(&event) {
            Some(self.advance(event))
        } else {
            None
        }
    }

    /// Takes in what the driver reports and says what to do next.
    pub fn advance(&mut self, event: Event) -> (action: Action)
        requires
            old(self).wf(),
            old(self).accepts(event),
        ensures
            (*final(self), action) == step_spec(*old(self), event),
            final(self).wf(),
            final(self).awaited() == match action {
                Action::Report { .. } | Action::Abort(_) => None::<Action>,
                other => Some(other),
            },
    {
        match (self.phase, event) {
            (Phase::Baseline, Event::Sampled(Some(sample))) => {
                self.phase = Phase::Spawning;
                self.before = sample;
                Action::Spawn
            },
            (Phase::Spawning, Event::Spawned(true)) => {
                if self.count + 1 < self.threads {
                    self.count = self.count + 1;
                    Action::Spawn
                } else {
                    self.phase = Phase::FirstWait;
                    self.count = 0;
                    Action::Wait
                }
            },
            (Phase::FirstWait, Event::Released) => {
                self.phase = Phase::During;
                Action::Sample
            },
            (Phase::During, Event::Sampled(Some(sample))) => {
                self.phase = Phase::SecondWait;
                self.during = sample;
                Action::Wait
            },
            (Phase::SecondWait, Event::Released) => {
                self.phase = Phase::Joining;
                Action::Join
            },
            (Phase::Joining, Event::Joined(true)) => {
                if self.count + 1 < self.threads {
                    self.count = self.count + 1;
                    Action::Join
                } else {
                    self.phase = Phase::After;
                    self.count = 0;
                    Action::Sample
                }
            },
            (Phase::After, Event::Sampled(Some(sample))) => {
                self.phase = Phase::Finished;
                Action::Report {
                    during: difference(self.during, self.before, self.threads),
                    after: difference(sample, self.before, self.threads),
                }
            },
            (_, Event::Sampled(None)) => {
                self.phase = Phase::Failed;
                self.count = 0;
                Action::Abort(MeasureError::SnapshotUnavailable)
            },
            (_, Event::Spawned(_)) => {
                self.phase = Phase::Failed;
                self.count = 0;
                Action::Abort(MeasureError::SpawnFailed)
            },
            (_, _) => {
                self.phase = Phase::Failed;
                self.count = 0;
                Action::Abort(MeasureError::JoinFailed)
            },
        }
    }
}

/// Does what `action` asks where that is a sample or a wait at `barrier`, and
/// gives the event to report. For every other action the result is `None`:
/// spawning and joining are the driver's, and a report or an abort ends the
/// run.
pub fn perform(action: Action, barrier: &RendezvousBarrier) -> (event: Option<Event>)
    ensures
        action is Sample ==> event is Some && event->0 is Sampled,
        action is Wait ==> event == Some(Event::Released),
        !(action is Sample || action is Wait) ==> event is None,
{
    match action {
        Action::Sample => Some(Event::Sampled(sample_process())),
        Action::Wait => {
            barrier.wait();
            Some(Event::Released)
        },
        _ => None,
    }
}

/// The state and the actions that result when `events` are taken in one after
/// the other, beginning in state `m`.
pub open spec fn replay(m: Measurement, events: Seq<Event>) -> (Measurement, Seq<Action>)
    decreases events.len(),
{
    if events.len() == 0 {
        (m, Seq::<Action>::empty())
    } else {
        let (before_last, actions) = replay(m, events.drop_last());
        let (state, action) = step_spec(before_last, events.last());
        (state, actions.push(action))
    }
}

/// What a driver reports while nothing goes wrong, with `threads` workers and
/// the three samples `before`, `during` and `after`: the first sample, a
/// spawn for each worker, the first meeting, the second sample, the second
/// meeting, a join for each worker and the last sample.
pub open spec fn successful_events(
    threads: nat,
    before: MemorySnapshot,
    during: MemorySnapshot,
    after: MemorySnapshot,
) -> Seq<Event> {
    Seq::new(
        2 * threads + 5,
        |i: int|
            if i == 0 {
                Event::Sampled(Some(before))
            } else if i <= threads {
                Event::Spawned(true)
            } else if i == threads + 1 {
                Event::Released
            } else if i == threads + 2 {
                Event::Sampled(Some(during))
            } else if i == threads + 3 {
                Event::Released
            } else if i <= 2 * threads + 3 {
                Event::Joined(true)
            } else {
                Event::Sampled(Some(after))
            },
    )
}

/// What the measurement asks for in answer to `successful_events`: a spawn
/// for each worker, a wait, a sample, a second wait, a join for each worker,
/// a last sample, and then the report of the two per-thread differences.
pub open spec fn successful_actions(
    threads: nat,
    before: MemorySnapshot,
    during: MemorySnapshot,
    after: MemorySnapshot,
) -> Seq<Action> {
    Seq::new(
        2 * threads + 5,
        |i: int|
            if i < threads {
                Action::Spawn
            } else if i == threads {
                Action::Wait
            } else if i == threads + 1 {
                Action::Sample
            } else if i == threads + 2 {
                Action::Wait
            } else if i < 2 * threads + 3 {
                Action::Join
            } else if i == 2 * threads + 3 {
                Action::Sample
            } else {
                Action::Report {
                    during: difference_spec(during, before, threads as int),
                    after: difference_spec(after, before, threads as int),
                }
            },
    )
}

/// The state that a successful run is in after its first `k` events.
pub open spec fn reached(
    threads: usize,
    before: MemorySnapshot,
    during: MemorySnapshot,
    after: MemorySnapshot,
    k: int,
) -> Measurement {
    replay(initial(threads), successful_events(threads as nat, before, during, after).take(k)).0
}

/// The state of a successful run after its first `k` events, written out.
spec fn state_after(
    threads: usize,
    before: MemorySnapshot,
    during: MemorySnapshot,
    k: int,
) -> Measurement {
    let n = threads as int;
    Measurement {
        threads,
        phase: if k == 0 {
            Phase::Baseline
        } else if k <= n {
            Phase::Spawning
        } else if k == n + 1 {
            Phase::FirstWait
        } else if k == n + 2 {
            Phase::During
        } else if k == n + 3 {
            Phase::SecondWait
        } else if k <= 2 * n + 3 {
            Phase::Joining
        } else if k == 2 * n + 4 {
            Phase::After
        } else {
            Phase::Finished
        },
        count: if 1 <= k <= n {
            (k - 1) as usize
        } else if n + 4 <= k <= 2 * n + 3 {
            (k - n - 4) as usize
        } else {
            0
        },
        before: if k == 0 {
            no_sample()
        } else {
            before
        },
        during: if k <= n + 2 {
            no_sample()
        } else {
            during
        },
    }
}

/// The first `k` events of a successful run lead to `state_after` and call
/// for the first `k` of its actions.
proof fn lemma_successful_prefix(
    threads: usize,
    before: MemorySnapshot,
    during: MemorySnapshot,
    after: MemorySnapshot,
    k: int,
)
    requires
        threads >= 1,
        0 <= k <= 2 * threads + 5,
    ensures
        replay(
            initial(threads),
            successful_events(threads as nat, before, during, after).take(k),
        ) == (
            state_after(threads, before, during, k),
            successful_actions(threads as nat, before, during, after).take(k),
        ),
        state_after(threads, before, during, k).wf(),
        k < 2 * threads + 5 ==> state_after(threads, before, during, k).accepts(
            successful_events(threads as nat, before, during, after)[k],
        ),
    decreases k,
{
    let events = successful_events(threads as nat, before, during, after);
    let actions = successful_actions(threads as nat, before, during, after);
    if k == 0 {
        assert(events.take(0).len() == 0);
        assert(actions.take(0) =~= Seq::<Action>::empty());
    } else {
        lemma_successful_prefix(threads, before, during, after, k - 1);
        assert(events.take(k).drop_last() =~= events.take(k - 1));
        assert(events.take(k).last() == events[k - 1]);
        assert(actions.take(k) =~= actions.take(k - 1).push(actions[k - 1]));
        assert(step_spec(state_after(threads, before, during, k - 1), events[k - 1]) == (
            state_after(threads, before, during, k),
            actions[k - 1],
        ));
    }
}

/// A run in which nothing goes wrong asks for exactly this, in this order: a
/// sample, a spawn for each worker, a wait, a sample, a wait, a join for each
/// worker and a sample. It ends in `Finished` with the report of the growth
/// per thread from the first sample to the second and from the first to the
/// third. Every event on the way is one that the measurement accepts.
pub proof fn lemma_successful_run(
    threads: usize,
    before: MemorySnapshot,
    during: MemorySnapshot,
    after: MemorySnapshot,
)
    requires
        threads >= 1,
    ensures
        initial(threads).awaited() == Some(Action::Sample),
        replay(initial(threads), successful_events(threads as nat, before, during, after)) == (
            Measurement { threads, phase: Phase::Finished, count: 0, before, during },
            successful_actions(threads as nat, before, during, after),
        ),
        forall|k: int|
            0 <= k < 2 * threads + 5 ==> {
                &&& (#[trigger] reached(threads, before, during, after, k)).wf()
                &&& reached(threads, before, during, after, k).accepts(
                    successful_events(threads as nat, before, during, after)[k],
                )
            },
{
    let events = successful_events(threads as nat, before, during, after);
    let actions = successful_actions(threads as nat, before, during, after);
    let all = 2 * threads + 5;
    lemma_successful_prefix(threads, before, during, after, all);
    assert(events.take(all) =~= events);
    assert(actions.take(all) =~= actions);
    assert forall|k: int| 0 <= k < all implies {
        &&& (#[trigger] reached(threads, before, during, after, k)).wf()
        &&& reached(threads, before, during, after, k).accepts(events[k])
    } by {
        lemma_successful_prefix(threads, before, during, after, k);
    }
}

/// A measurement is given up exactly when the driver reports a failure, and
/// the error names what failed: a sample that could not be taken, a worker
/// that could not be spawned, a worker that could not be joined.
pub proof fn lemma_abort_exactly_on_failure(m: Measurement, event: Event)
    requires
        m.wf(),
        m.accepts(event),
    ensures
        step_spec(m, event).1 == Action::Abort(MeasureError::SnapshotUnavailable) <==> event
            == Event::Sampled(None),
        step_spec(m, event).1 == Action::Abort(MeasureError::SpawnFailed) <==> event
            == Event::Spawned(false),
        step_spec(m, event).1 == Action::Abort(MeasureError::JoinFailed) <==> event
            == Event::Joined(false),
        step_spec(m, event).0.phase == Phase::Failed <==> step_spec(m, event).1 is Abort,
        step_spec(m, event).0.phase == Phase::Finished <==> step_spec(m, event).1 is Report,
        step_spec(m, event).1 is Report <==> m.phase == Phase::After && event
            != Event::Sampled(None),
{
}

/// The estimates of a report are never negative, however the samples lie:
/// each is the growth since the first sample shared among the workers, and 0
/// where the later sample reads less than the first.
pub proof fn lemma_report_is_never_negative(m: Measurement, last: MemorySnapshot)
    requires
        m.wf(),
        m.phase == Phase::After,
    ensures
        step_spec(m, Event::Sampled(Some(last))).1 == (Action::Report {
            during: difference_spec(m.during, m.before, m.threads as int),
            after: difference_spec(last, m.before, m.threads as int),
        }),
        0 <= difference_spec(m.during, m.before, m.threads as int).virtual_bytes
            <= m.during.virtual_bytes,
        0 <= difference_spec(m.during, m.before, m.threads as int).physical_bytes
            <= m.during.physical_bytes,
        0 <= difference_spec(last, m.before, m.threads as int).virtual_bytes
            <= last.virtual_bytes,
        0 <= difference_spec(last, m.before, m.threads as int).physical_bytes
            <= last.physical_bytes,
{
    crate::snapshot::lemma_difference_never_underflows(m.during, m.before, m.threads as int);
    crate::snapshot::lemma_difference_never_underflows(last, m.before, m.threads as int);
}

} // verus!
