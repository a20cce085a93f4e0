//! Memory management and cooperative task scheduling for a freestanding
//! kernel: a bump allocator that backs the global-allocator contract, a
//! placeholder allocator for early boot, and a single-CPU executor that
//! multiplexes resumable computations over a bounded ready queue.

pub mod bump;
pub mod console;
pub mod dummy;
pub mod executor;
pub mod queue;
pub mod task;
