//! Fundamental synchronization primitives, verified as single-owner state
//! machines: a reference-counted shared-ownership block, a family of one-shot
//! message channels, and a spin lock with a guard discipline.
//!
//! A running system implements these primitives over atomic memory operations;
//! what makes them correct is a protocol on a handful of flags and counters.
//! This crate states that protocol as contracts on plain data and proves that
//! every operation, and every interleaving of complete operations, respects
//! it: the payload of a shared block is finalized exactly once, a channel slot
//! is written once and read at most once, and increments under the lock are
//! never lost.

pub mod arc;
pub mod channel;
pub mod spin_lock;
