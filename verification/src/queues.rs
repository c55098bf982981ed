//! First-in-first-out queues over different backing stores.
//!
//! [`fifo::FIFOQueue`] is backed by a `VecDeque`, so both ends are cheap;
//! [`vec_fifo::VFIFOQueue`] is backed by a plain `Vec` and shifts on
//! dequeue. Both satisfy the same first-in-first-out contracts.

pub mod fifo;
pub mod vec_fifo;

pub use fifo::FIFOQueue;
pub use vec_fifo::VFIFOQueue;
