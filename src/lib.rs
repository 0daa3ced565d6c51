//! Primitives for writing memory-model litmus tests: a word of memory shared
//! between threads with relaxed, non-torn reads and writes, a release store,
//! and a full barrier.
//!
//! The values that reads return depend on other threads and on the
//! hardware's memory model, so the contracts here state only what holds
//! within one call: no operation panics, and a cell records the word it was
//! constructed with.

mod shared_mem;

pub use shared_mem::SharedMem;
