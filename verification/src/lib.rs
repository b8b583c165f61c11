//! The verified core of a lightweight in-process actor runtime.
//!
//! The crate holds the decisions of the actor loop as plain, synchronous
//! functions with contracts: the two-lane bounded mailbox ([`mailbox`]), the
//! kill switch ([`kill_switch`]), the progress beacon ([`progress`]), the
//! per-actor context ([`actor_context`]) and the lifecycle that leads an
//! actor from `initialize` through its receive cycles to `finalize`
//! ([`async_actor`]). A driver performs the waiting (yielding, sleeping on an
//! idle mailbox, the handlers themselves) and reports back what happened.
//!
//! What holds of every run is stated and proved in [`history`], for the loop
//! alone, and in [`system`], for the loop among its senders.
//!
//! Two boundary helpers live beside the core: host addressing ([`net`]) and
//! the counters that components declare ([`metrics`], [`counters`]).

pub mod actor;
pub mod actor_context;
pub mod async_actor;
pub mod counters;
pub mod history;
pub mod kill_switch;
pub mod mailbox;
pub mod metrics;
pub mod net;
pub mod progress;
pub mod system;
