//! The flusher: a bounded poll-and-drain state machine.
//!
//! Native startup and host-runtime startup are not ordered, so the flusher
//! polls the handle cell on a fixed interval.  When readiness is observed
//! it drains the pending queue once and stops; if readiness never arrives
//! within the attempt bound it gives up for good.  The flusher starts at
//! most once per bridge: the first start request wins, every later one is a
//! no-op.
//!
//! The struct here is the decision core alone.  The embedding owns the
//! background thread and the clock: each time its loop wakes up it reports
//! the readiness observation to the bridge and performs whatever delivery
//! batch comes back.

use vstd::prelude::*;

verus! {

/// How many times the flusher polls for readiness before giving up.
pub const MAX_POLL_ATTEMPTS: u32 = 150;

/// How long the embedding should wait between two polls, in milliseconds.
pub const POLL_INTERVAL_MS: u64 = 100;

/// Where the flusher stands in its life cycle.
///
/// `Idle` before the first start request and again after a successful
/// drain; `Polling` while it waits for readiness; `Draining` while a
/// drained batch is being delivered; `GivenUp` once the attempt bound was
/// exhausted, with no way back.
#[derive(Clone, Copy, Debug, PartialEq, Eq, Structural)]
pub enum FlusherPhase {
    Idle,
    Polling,
    Draining,
    GivenUp,
}

/// The flusher's decision state: the run-once guard, the phase, and how
/// many readiness polls have missed so far.
pub struct Flusher {
    /// Whether a start request has ever been accepted (the run-once guard).
    pub started: bool,
    /// The current phase.
    pub phase: FlusherPhase,
    /// How many polls have found the handle cell not ready.
    pub attempts: u32,
}

impl Flusher {
    /// The states the flusher can actually be in: the attempt counter never
    /// passes its bound, nothing happens before the first start, polling
    /// still has attempts left, and giving up consumed the whole budget.
    pub open spec fn wf(&self) -> bool {
        &&& self.attempts <= MAX_POLL_ATTEMPTS
        &&& !self.started ==> self.phase is Idle && self.attempts == 0
        &&& self.phase is Idle || self.phase is Draining ==> self.attempts == 0
        &&& self.phase is Polling ==> self.started && self.attempts < MAX_POLL_ATTEMPTS
        &&& self.phase is GivenUp ==> self.started && self.attempts == MAX_POLL_ATTEMPTS
    }

    /// A fresh flusher: never started, idle.
    pub fn new() -> (f: Flusher)
        ensures
            f.wf(),
            !f.started,
            f.phase is Idle,
            f.attempts == 0,
    {
        Flusher { started: false, phase: FlusherPhase::Idle, attempts: 0 }
    }

    /// Requests a start.  The first request flips the run-once guard and
    /// enters `Polling`; every later request changes nothing.  Returns
    /// whether this call was the one that started the flusher.
    pub fn start(&mut self) -> (spawned: bool)
        requires
            old(self).wf(),
        ensures
            final(self).wf(),
            (*final(self), spawned) == start_spec(*old(self)),
    {
        if self.started {
            false
        } else {
            self.started = true;
            self.phase = FlusherPhase::Polling;
            true
        }
    }

    /// Records one poll that found the handle cell not ready.  Returns
    /// `true` when this miss exhausted the attempt budget, moving the
    /// flusher to `GivenUp`.
    pub fn note_not_ready(&mut self) -> (gave_up: bool)
        requires
            old(self).wf(),
            old(self).phase is Polling,
        ensures
            final(self).wf(),
            *final(self) == poll_miss(*old(self)),
            gave_up == (final(self).phase is GivenUp),
            final(self).attempts == old(self).attempts + 1,
    {
        self.attempts = self.attempts + 1;
        if self.attempts == MAX_POLL_ATTEMPTS {
            self.phase = FlusherPhase::GivenUp;
            true
        } else {
            false
        }
    }

    /// Records one poll that found the handle cell ready: the flusher moves
    /// to `Draining` and will make no further polls.
    pub fn note_ready(&mut self)
        requires
            old(self).wf(),
            old(self).phase is Polling,
        ensures
            final(self).wf(),
            final(self).phase is Draining,
            final(self).started == old(self).started,
            final(self).attempts == 0,
    {
        self.phase = FlusherPhase::Draining;
        self.attempts = 0;
    }

    /// Marks the delivery of a drained batch as finished: the flusher
    /// returns to `Idle` and stays there; delivery success ends the
    /// polling loop early.
    pub fn drain_complete(&mut self)
        requires
            old(self).wf(),
            old(self).phase is Draining,
        ensures
            final(self).wf(),
            final(self).phase is Idle,
            final(self).started == old(self).started,
            final(self).attempts == 0,
    {
        self.phase = FlusherPhase::Idle;
    }
}

/// The start request as a state transformer: what the state becomes and
/// whether the caller was the one that started the loop.
pub open spec fn start_spec(f: Flusher) -> (Flusher, bool) {
    if f.started {
        (f, false)
    } else {
        (Flusher { started: true, phase: FlusherPhase::Polling, attempts: f.attempts }, true)
    }
}

/// One not-ready poll as a state transformer.  Outside `Polling` a miss
/// changes nothing: an idle, draining or given-up flusher polls no more.
pub open spec fn poll_miss(f: Flusher) -> Flusher {
    if f.phase is Polling {
        Flusher {
            started: f.started,
            phase: if f.attempts + 1 == MAX_POLL_ATTEMPTS {
                FlusherPhase::GivenUp
            } else {
                FlusherPhase::Polling
            },
            attempts: (f.attempts + 1) as u32,
        }
    } else {
        f
    }
}

/// `n` not-ready polls in a row.
pub open spec fn poll_miss_n(f: Flusher, n: nat) -> Flusher
    decreases n,
{
    if n == 0 {
        f
    } else {
        poll_miss_n(poll_miss(f), (n - 1) as nat)
    }
}

/// Requesting a start twice yields exactly one polling loop: the second
/// request observes the run-once guard, reports that it spawned nothing,
/// and leaves the state of the first start untouched.
pub proof fn lemma_idempotent_start(f: Flusher)
    requires
        f.wf(),
    ensures
        start_spec(f).1 == !f.started,
        start_spec(start_spec(f).0).0 == start_spec(f).0,
        !start_spec(start_spec(f).0).1,
{
}

/// Giving up is final: no later poll moves the flusher anywhere else, so
/// no delivery is ever initiated after the bound.
pub proof fn lemma_give_up_is_final(f: Flusher)
    requires
        f.phase is GivenUp,
    ensures
        poll_miss(f) == f,
{
}

/// Bounded give-up: if the handle cell never becomes ready, the flusher
/// reaches `GivenUp` as soon as its attempt budget is spent, and every
/// poll after that changes nothing.
pub proof fn lemma_bounded_give_up(f: Flusher, n: nat)
    requires
        f.wf(),
        f.phase is Polling || f.phase is GivenUp,
        f.attempts + n >= MAX_POLL_ATTEMPTS,
    ensures
        poll_miss_n(f, n).wf(),
        poll_miss_n(f, n).phase is GivenUp,
    decreases n,
{
    if f.phase is GivenUp {
        lemma_given_up_absorbs(f, n);
    } else if n > 0 {
        lemma_bounded_give_up(poll_miss(f), (n - 1) as nat);
    }
}

/// Polling a given-up flusher any number of times changes nothing.
pub proof fn lemma_given_up_absorbs(f: Flusher, n: nat)
    requires
        f.phase is GivenUp,
    ensures
        poll_miss_n(f, n) == f,
    decreases n,
{
    if n > 0 {
        lemma_given_up_absorbs(poll_miss(f), (n - 1) as nat);
    }
}

} // verus!
