//! The bridge: one object owning the handle cell, the pending queue, the
//! callback registry and the flusher.
//!
//! The embedding constructs one bridge, shares it behind its own
//! mutual-exclusion primitive, and drives it from three sides: native
//! callers send commands and register callbacks, the host process installs
//! the runtime handle when it becomes available, and one background loop
//! polls on the flusher's behalf.  Every method is one short step from
//! plain values to plain values; whatever must actually touch the host
//! runtime is handed back to the caller as an outcome to perform.

use vstd::prelude::*;

use crate::flusher::Flusher;
use crate::flusher::poll_miss;
use crate::flusher::start_spec;
use crate::handle_cell::HandleCell;
use crate::queue::PendingQueue;
use crate::queue::drain_spec;
use crate::registry::CallbackRegistry;

verus! {

/// Enqueueing one payload behind the ones already waiting.
pub open spec fn send_queued(pending: Seq<Seq<char>>, p: Seq<char>) -> Seq<Seq<char>> {
    pending.push(p)
}

/// Enqueueing a whole series of payloads, in order.
pub open spec fn send_all_queued(pending: Seq<Seq<char>>, ps: Seq<Seq<char>>) -> Seq<Seq<char>>
    decreases ps.len(),
{
    if ps.len() == 0 {
        pending
    } else {
        send_all_queued(send_queued(pending, ps.first()), ps.drop_first())
    }
}

/// What a send request asks the caller to do: hand the payload to the
/// transport now, or nothing — the payload is parked until the flusher
/// delivers it.
pub enum SendOutcome {
    /// The runtime is ready: deliver this payload through the transport.
    Deliver(String),
    /// The runtime is not ready yet: the payload joined the pending queue.
    Queued,
}

/// What one flusher poll asks the caller to do.
pub enum FlushTick {
    /// Readiness was observed: deliver these payloads through the
    /// transport, in this order, then report back with
    /// [`Bridge::drain_complete`].
    Deliver(Vec<String>),
    /// Not ready yet: poll again after the configured interval.
    Retry,
    /// Not ready, and the attempt budget is spent: stop polling for good.
    GiveUp,
    /// The flusher is not polling (never started, already delivering, done,
    /// or given up): do nothing.
    Inactive,
}

/// The bridge core: handle cell, pending queue, callback registry and
/// flusher, owned together so their interplay can be stated and checked.
///
/// `H` is the embedding's handler representation; the bridge stores and
/// returns handlers but never calls them.
pub struct Bridge<H> {
    cell: HandleCell,
    queue: PendingQueue,
    registry: CallbackRegistry<H>,
    flusher: Flusher,
}

impl<H> Bridge<H> {
    /// The runtime handle, once installed.
    pub closed spec fn handle(&self) -> Option<u64> {
        self.cell.handle()
    }

    /// Readiness: a handle is present.
    pub open spec fn ready(&self) -> bool {
        self.handle() is Some
    }

    /// The queued payloads, oldest first.
    pub closed spec fn pending(&self) -> Seq<Seq<char>> {
        self.queue@
    }

    /// The registered callbacks.
    pub closed spec fn callbacks(&self) -> Map<Seq<char>, H> {
        self.registry@
    }

    /// The flusher's decision state.
    pub closed spec fn flusher_state(&self) -> Flusher {
        self.flusher
    }

    /// Internal consistency of the registry; its detail stays private.
    pub closed spec fn registry_wf(&self) -> bool {
        self.registry.wf()
    }

    /// Internal consistency of the parts.  The flusher's side is public:
    /// callers of [`Bridge::poll_tick`] reason about attempt counts.
    pub open spec fn wf(&self) -> bool {
        self.registry_wf() && self.flusher_state().wf()
    }

    /// A fresh bridge: not ready, nothing pending, nothing registered,
    /// flusher never started.
    pub fn new() -> (b: Bridge<H>)
        ensures
            b.wf(),
            !b.ready(),
            b.pending() == Seq::<Seq<char>>::empty(),
            b.callbacks() == Map::<Seq<char>, H>::empty(),
            !b.flusher_state().started,
            b.flusher_state().phase is Idle,
            b.flusher_state().attempts == 0,
    {
        Bridge {
            cell: HandleCell::new(),
            queue: PendingQueue::new(),
            registry: CallbackRegistry::new(),
            flusher: Flusher::new(),
        }
    }

    /// Installs the runtime handle.  The first installation wins and
    /// returns `true`; later ones change nothing.  Queue, callbacks and
    /// flusher are untouched either way — delivery of what was queued is
    /// the flusher's job.
    pub fn set_handle(&mut self, handle: u64) -> (installed: bool)
        requires
            old(self).wf(),
        ensures
            final(self).wf(),
            installed == (old(self).handle() is None),
            final(self).handle() == if old(self).handle() is None {
                Some(handle)
            } else {
                old(self).handle()
            },
            final(self).pending() == old(self).pending(),
            final(self).callbacks() == old(self).callbacks(),
            final(self).flusher_state() == old(self).flusher_state(),
    {
        self.cell.set(handle)
    }

    /// Non-blocking readiness query.
    pub fn is_ready(&self) -> (r: bool)
        ensures
            r == self.ready(),
    {
        self.cell.is_ready()
    }

    /// The installed handle, for the one transport call the caller is
    /// about to make; no long-lived reference leaves the cell.
    pub fn handle_for_call(&self) -> (h: Option<u64>)
        ensures
            h == self.handle(),
    {
        self.cell.get()
    }

    /// Registers `handler` under `id`, replacing any earlier handler.
    pub fn register_callback(&mut self, id: String, handler: H)
        requires
            old(self).wf(),
        ensures
            final(self).wf(),
            final(self).callbacks() == old(self).callbacks().insert(id@, handler),
            final(self).pending() == old(self).pending(),
            final(self).handle() == old(self).handle(),
            final(self).flusher_state() == old(self).flusher_state(),
    {
        self.registry.register_callback(id, handler);
    }

    /// Unregisters whatever is stored under `id`; a no-op if nothing is.
    pub fn unregister_callback(&mut self, id: &str)
        requires
            old(self).wf(),
        ensures
            final(self).wf(),
            final(self).callbacks() == old(self).callbacks().remove(id@),
            final(self).pending() == old(self).pending(),
            final(self).handle() == old(self).handle(),
            final(self).flusher_state() == old(self).flusher_state(),
    {
        self.registry.unregister_callback(id);
    }

    /// The reverse entry point's routing step: the handler registered
    /// under `id`, if any.  `None` means the reply is dropped silently —
    /// the host cannot tell "handled" from "ignored", by design.  The
    /// embedding calls the returned handler with the payload exactly once,
    /// after releasing its bridge lock.
    pub fn on_message_from_host<'a>(&'a self, id: &str) -> (h: Option<&'a H>)
        requires
            self.wf(),
        ensures
            match h {
                Some(f) => self.callbacks().contains_key(id@) && *f == self.callbacks()[id@],
                None => !self.callbacks().contains_key(id@),
            },
    {
        self.registry.invoke(id)
    }

    /// The send path.  With the runtime ready the payload goes straight
    /// out; otherwise it is enqueued, to be delivered by the flusher in
    /// send order once readiness arrives.
    pub fn send_command(&mut self, payload: String) -> (outcome: SendOutcome)
        requires
            old(self).wf(),
        ensures
            final(self).wf(),
            final(self).handle() == old(self).handle(),
            final(self).callbacks() == old(self).callbacks(),
            final(self).flusher_state() == old(self).flusher_state(),
            old(self).ready() ==> outcome == SendOutcome::Deliver(payload) && final(self).pending()
                == old(self).pending(),
            !old(self).ready() ==> outcome == SendOutcome::Queued && final(self).pending()
                == send_queued(old(self).pending(), payload@),
    {
        if self.cell.is_ready() {
            SendOutcome::Deliver(payload)
        } else {
            self.queue.enqueue(payload);
            SendOutcome::Queued
        }
    }

    /// Requests a flusher start.  Exactly the first request anywhere
    /// reports `true`; the embedding spawns its polling loop for that one
    /// and ignores the rest.
    pub fn start_flusher(&mut self) -> (spawned: bool)
        requires
            old(self).wf(),
        ensures
            final(self).wf(),
            (final(self).flusher_state(), spawned) == start_spec(old(self).flusher_state()),
            final(self).pending() == old(self).pending(),
            final(self).callbacks() == old(self).callbacks(),
            final(self).handle() == old(self).handle(),
    {
        self.flusher.start()
    }

    /// One wake-up of the polling loop.  Only a polling flusher that
    /// observes readiness ever yields a delivery batch: the whole queue,
    /// in order, leaving it empty.  A miss either schedules a retry or,
    /// once the budget is spent, gives up; after that — and in every
    /// non-polling phase — the tick does nothing, so no transport call is
    /// ever initiated past the bound.
    pub fn poll_tick(&mut self) -> (t: FlushTick)
        requires
            old(self).wf(),
        ensures
            final(self).wf(),
            final(self).handle() == old(self).handle(),
            final(self).callbacks() == old(self).callbacks(),
            t matches FlushTick::Deliver(batch) ==> old(self).flusher_state().phase is Polling
                && old(self).ready(),
            old(self).flusher_state().phase is Polling && old(self).ready() ==> {
                &&& t matches FlushTick::Deliver(batch) && batch.deep_view() == drain_spec(
                    old(self).pending(),
                ).0
                &&& final(self).pending() == drain_spec(old(self).pending()).1
                &&& final(self).flusher_state().phase is Draining
            },
            old(self).flusher_state().phase is Polling && !old(self).ready() ==> {
                &&& final(self).pending() == old(self).pending()
                &&& final(self).flusher_state() == poll_miss(old(self).flusher_state())
                &&& t == (if poll_miss(old(self).flusher_state()).phase is GivenUp {
                    FlushTick::GiveUp
                } else {
                    FlushTick::Retry
                })
            },
            !(old(self).flusher_state().phase is Polling) ==> *final(self) == *old(self) && t
                == FlushTick::Inactive,
    {
        match self.flusher.phase {
            crate::flusher::FlusherPhase::Polling => {
                if self.cell.is_ready() {
                    self.flusher.note_ready();
                    let batch = self.queue.drain_all();
                    FlushTick::Deliver(batch)
                } else {
                    let gave_up = self.flusher.note_not_ready();
                    if gave_up {
                        FlushTick::GiveUp
                    } else {
                        FlushTick::Retry
                    }
                }
            },
            _ => FlushTick::Inactive,
        }
    }

    /// An explicit flush request, outside the flusher's schedule: with
    /// the runtime ready, the whole queue is drained for delivery, in
    /// order — also after the flusher has given up, which is the one way
    /// commands stuck behind a missed readiness window still get out.
    /// Without readiness nothing happens; nothing is lost either way.
    pub fn flush_pending(&mut self) -> (batch: Option<Vec<String>>)
        requires
            old(self).wf(),
        ensures
            final(self).wf(),
            final(self).handle() == old(self).handle(),
            final(self).callbacks() == old(self).callbacks(),
            final(self).flusher_state() == old(self).flusher_state(),
            old(self).ready() ==> (batch matches Some(b) && b.deep_view() == drain_spec(
                old(self).pending(),
            ).0 && final(self).pending() == drain_spec(old(self).pending()).1),
            !old(self).ready() ==> batch is None && final(self).pending() == old(self).pending(),
    {
        if self.cell.is_ready() {
            Some(self.queue.drain_all())
        } else {
            None
        }
    }

    /// Reports that the batch from the last [`FlushTick::Deliver`] has
    /// been handed to the transport in full: the flusher's work is done.
    pub fn drain_complete(&mut self)
        requires
            old(self).wf(),
            old(self).flusher_state().phase is Draining,
        ensures
            final(self).wf(),
            final(self).flusher_state().phase is Idle,
            final(self).pending() == old(self).pending(),
            final(self).callbacks() == old(self).callbacks(),
            final(self).handle() == old(self).handle(),
    {
        self.flusher.drain_complete();
    }
}

/// Queueing before readiness loses and reorders nothing: sending any
/// series of payloads while the handle cell is unset parks exactly that
/// series, in send order, behind whatever was already waiting; the drain
/// that runs once readiness is observed yields all of them in that order
/// and leaves the queue empty.
pub proof fn lemma_queueing_before_ready(pending: Seq<Seq<char>>, ps: Seq<Seq<char>>)
    ensures
        send_all_queued(pending, ps) == pending + ps,
        drain_spec(send_all_queued(pending, ps)).0 == pending + ps,
        drain_spec(send_all_queued(pending, ps)).1.len() == 0,
    decreases ps.len(),
{
    if ps.len() == 0 {
        assert(pending + ps =~= pending);
    } else {
        lemma_queueing_before_ready(send_queued(pending, ps.first()), ps.drop_first());
        assert(pending.push(ps.first()) + ps.drop_first() =~= pending + ps);
    }
}

} // verus!
