//! A single-threaded network reactor and the bridge that lets another thread
//! drive it through two bounded queues.
//!
//! The crate holds the decisions only. Every call into the native I/O layer is
//! described by a [`native::Command`] that the embedding program carries out,
//! and everything the native layer reports comes in as plain values.
//!
//! - [`event`]: the events of a channel and the events of the bridge.
//! - [`native`]: commands for the native layer, and what it reports.
//! - [`channel`]: one connection or listener.
//! - [`reactor`]: the event loop and the registry of a thread's channels.
//! - [`queue`]: the bounded mailbox.
//! - [`bridge`]: the two mailboxes and the worker's handling of requests and
//!   channel events.

pub mod bridge;
pub mod channel;
pub mod event;
pub mod native;
pub mod queue;
pub mod reactor;
