//! The handle cell: a set-once container for the host-runtime handle.
//!
//! The host process supplies the runtime handle on its own schedule, which
//! may be before or after the native side starts sending commands.  The
//! cell therefore admits exactly one installation; every later attempt is a
//! no-op, not an error.  Readiness is derived from whether the handle is
//! present and moves from not-ready to ready exactly once, never back.
//!
//! The handle itself is opaque to the bridge: the cell stores the plain
//! identifier under which the embedding registered the real resource, and
//! every use outside this crate is a short-lived lookup through it.

use vstd::prelude::*;

verus! {

/// A set-once cell holding the host-runtime handle, if it has arrived.
pub struct HandleCell {
    handle: Option<u64>,
}

impl HandleCell {
    /// The stored handle; `None` while the host has not supplied one.
    pub closed spec fn handle(&self) -> Option<u64> {
        self.handle
    }

    /// Readiness is exactly "a handle is present".
    pub open spec fn is_ready_spec(&self) -> bool {
        self.handle() is Some
    }

    /// A fresh cell in the not-ready state.
    pub fn new() -> (c: HandleCell)
        ensures
            c.handle() is None,
    {
        HandleCell { handle: None }
    }

    /// Installs the handle.  The first call succeeds and returns `true`;
    /// every later call leaves the stored handle untouched and returns
    /// `false`.  Once ready, the cell stays ready with the same handle.
    pub fn set(&mut self, handle: u64) -> (installed: bool)
        ensures
            installed == (old(self).handle() is None),
            final(self).handle() == if old(self).handle() is None {
                Some(handle)
            } else {
                old(self).handle()
            },
    {
        match self.handle {
            None => {
                self.handle = Some(handle);
                true
            },
            Some(_) => false,
        }
    }

    /// The current handle, without blocking and without consuming it.
    pub fn get(&self) -> (r: Option<u64>)
        ensures
            r == self.handle(),
    {
        self.handle
    }

    /// Non-blocking readiness query.
    pub fn is_ready(&self) -> (r: bool)
        ensures
            r == self.is_ready_spec(),
    {
        self.handle.is_some()
    }
}

} // verus!
