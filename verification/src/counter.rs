//! A counter that hands out each number once.

use std::sync::atomic::AtomicU64;
use std::sync::atomic::Ordering;
use vstd::prelude::*;

verus! {

/// Thread-safe monotonically-incrementing counter.
pub struct MonoCounter(AtomicU64);

impl MonoCounter {
    /// A counter whose first number is 0.
    pub fn new() -> Self {
        MonoCounter(AtomicU64::new(0))
    }

    /// Hands out the current number and moves the counter on by one, in one step.
    pub fn next(&self) -> u64 {
        self.0.fetch_add(1, Ordering::SeqCst)
    }
}

} // verus!
