//! The host-side inbox, modelled on the native side.
//!
//! When an envelope reaches the host runtime before any listener has been
//! installed there, the host parks it in a local pending list and replays
//! the list, in arrival order, once a listener arrives.  The delivery
//! script in [`crate::codec`] is what effects this behaviour inside the
//! host; this model states it, so the queue-or-dispatch decision is
//! checked logic rather than folklore about the script.

use vstd::prelude::*;

verus! {

/// The host's queue-or-dispatch state: whether a listener is installed,
/// and the envelopes parked while none was.
pub struct HostInbox {
    listener_installed: bool,
    queued: Vec<String>,
}

impl HostInbox {
    /// Whether a listener is installed.
    pub closed spec fn listener_installed_view(&self) -> bool {
        self.listener_installed
    }

    /// The parked envelopes, oldest first.
    pub closed spec fn queued_view(&self) -> Seq<Seq<char>> {
        self.queued.deep_view()
    }

    /// A fresh inbox: no listener, nothing parked.
    pub fn new() -> (b: HostInbox)
        ensures
            !b.listener_installed_view(),
            b.queued_view() == Seq::<Seq<char>>::empty(),
    {
        let b = HostInbox { listener_installed: false, queued: Vec::new() };
        proof {
            assert(b.queued_view() =~= Seq::<Seq<char>>::empty());
        }
        b
    }

    /// One envelope arrives.  With a listener installed it is handed
    /// straight back for dispatch; without one it is parked behind the
    /// envelopes already waiting.
    pub fn receive(&mut self, envelope: String) -> (dispatch_now: Option<String>)
        ensures
            final(self).listener_installed_view() == old(self).listener_installed_view(),
            old(self).listener_installed_view() ==> dispatch_now == Some(envelope) && final(self).queued_view()
                == old(self).queued_view(),
            !old(self).listener_installed_view() ==> dispatch_now is None && final(self).queued_view()
                == old(self).queued_view().push(envelope@),
    {
        if self.listener_installed {
            Some(envelope)
        } else {
            let ghost q0 = self.queued.deep_view();
            self.queued.push(envelope);
            proof {
                assert(self.queued.deep_view() =~= q0.push(envelope@));
            }
            None
        }
    }

    /// A listener is installed: every parked envelope comes back, in
    /// arrival order, for replay through that listener, and the pending
    /// list is empty afterwards.
    pub fn install_listener(&mut self) -> (replay: Vec<String>)
        ensures
            final(self).listener_installed_view(),
            replay.deep_view() == old(self).queued_view(),
            final(self).queued_view() == Seq::<Seq<char>>::empty(),
    {
        self.listener_installed = true;
        let mut replay: Vec<String> = Vec::new();
        core::mem::swap(&mut self.queued, &mut replay);
        proof {
            assert(final(self).queued_view() =~= Seq::<Seq<char>>::empty());
        }
        replay
    }
}

} // verus!
