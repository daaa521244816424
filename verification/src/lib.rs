//! A native-to-host-runtime command bridge.
//!
//! A native component and an embedded script runtime initialize on
//! independent schedules.  This library provides the pieces that make
//! command delivery race-free anyway: a set-once [`handle_cell::HandleCell`]
//! for the runtime handle, a FIFO [`queue::PendingQueue`] for commands sent
//! before the runtime is ready, a [`registry::CallbackRegistry`] routing
//! replies back to their callers, a bounded-retry [`flusher::Flusher`] state
//! machine, and the [`codec`] that frames command payloads for the wire.
//!
//! The platform transports themselves (the "evaluate this string in the
//! runtime" primitives) are collaborators outside this crate; the bridge
//! hands every delivery decision to its caller as a plain value.

pub mod bridge;
pub mod client;
pub mod codec;
pub mod flusher;
pub mod handle_cell;
pub mod ident;
pub mod inbox;
pub mod queue;
pub mod registry;
