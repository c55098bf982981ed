//! A minimal test-suite execution engine.
//!
//! The crate is built from three layers, leaves first:
//! - ordered first-in-first-out queues ([`queue`], [`queues`]), the
//!   foundational data structure, each with a `Seq` view and full
//!   first-in-first-out contracts;
//! - callable abstractions ([`procedures`]) and the wrapped fallible
//!   procedure that stands for one test ([`test`]);
//! - the suite types that aggregate hooks and tests ([`suit_context`],
//!   [`draft`]) and the processor that drives a sealed suite through its
//!   deterministic lifecycle and collects per-test failures
//!   ([`suit_processor`]).

pub mod draft;
pub mod extension_traits;
pub mod procedures;
pub mod queue;
pub mod queues;
pub mod schedule;
pub mod suit_context;
pub mod suit_processor;
pub mod test_error;
