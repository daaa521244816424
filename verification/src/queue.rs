//! The pending queue: an ordered buffer of not-yet-delivered command
//! payloads.
//!
//! Commands sent while the runtime handle is not yet available are parked
//! here and later taken out, all at once and in enqueue order, by the
//! flusher.

use vstd::prelude::*;

verus! {

/// What draining leaves behind: the whole prior contents go out in order,
/// and the queue is empty afterwards.
pub open spec fn drain_spec(q: Seq<Seq<char>>) -> (Seq<Seq<char>>, Seq<Seq<char>>) {
    (q, Seq::<Seq<char>>::empty())
}

/// An ordered, exclusively-owned buffer of serialized command payloads.
///
/// Its view is the sequence of queued payloads, oldest first.
pub struct PendingQueue {
    items: Vec<String>,
}

impl View for PendingQueue {
    type V = Seq<Seq<char>>;

    closed spec fn view(&self) -> Seq<Seq<char>> {
        self.items.deep_view()
    }
}

impl PendingQueue {
    /// A fresh, empty queue.
    pub fn new() -> (q: PendingQueue)
        ensures
            q@ == Seq::<Seq<char>>::empty(),
    {
        let q = PendingQueue { items: Vec::new() };
        proof {
            assert(q@ =~= Seq::<Seq<char>>::empty());
        }
        q
    }

    /// How many payloads are waiting.
    pub fn len(&self) -> (n: usize)
        ensures
            n == self@.len(),
    {
        self.items.len()
    }

    /// Appends a payload at the tail; order of earlier entries is untouched.
    pub fn enqueue(&mut self, payload: String)
        ensures
            final(self)@ == old(self)@.push(payload@),
    {
        self.items.push(payload);
        proof {
            assert(final(self)@ =~= old(self)@.push(payload@));
        }
    }

    /// Atomically empties the queue, returning its prior contents in the
    /// original order.  An empty queue yields an empty batch, not an error.
    pub fn drain_all(&mut self) -> (batch: Vec<String>)
        ensures
            batch.deep_view() == drain_spec(old(self)@).0,
            final(self)@ == drain_spec(old(self)@).1,
    {
        let mut batch: Vec<String> = Vec::new();
        core::mem::swap(&mut self.items, &mut batch);
        proof {
            assert(final(self)@ =~= Seq::<Seq<char>>::empty());
        }
        batch
    }
}

/// Two flush attempts racing over the same queue never both receive a
/// command: the first drain takes the whole contents, the second finds the
/// queue empty, and together they yield each queued command exactly once.
pub proof fn lemma_no_double_delivery(q: Seq<Seq<char>>)
    ensures
        drain_spec(q).0 + drain_spec(drain_spec(q).1).0 == q,
        drain_spec(drain_spec(q).1).0.len() == 0,
{
    assert(drain_spec(q).0 + drain_spec(drain_spec(q).1).0 =~= q);
}

} // verus!
