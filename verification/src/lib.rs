//! Verified core of a cross-platform futex (`Atomics.wait` / `Atomics.notify`)
//! library for ECMAScript shared memory.
//!
//! The blocking parts (syscalls, mutexes, condition variables) live outside
//! this crate; what is here are the decisions they take: which table entry an
//! address maps to, how an entry's waiter bookkeeping changes when a thread
//! starts or stops waiting, whom a notification wakes and what it reports, and
//! how the raw results of the platform wait/wake primitives are read.

use vstd::prelude::*;

pub mod condvar_table;
pub mod outcome;

verus! {

/// Why a wait returned without being woken by a notification.
#[derive(Debug, Clone, Copy, PartialEq, Eq, Structural)]
pub enum FutexError {
    /// The value was not equal and no sleep was performed.
    NotEqual,
    /// Timeout fired.
    Timeout,
    /// An unknown error occurred.
    Unknown,
}

} // verus!
