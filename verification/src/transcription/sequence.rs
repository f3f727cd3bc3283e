use std::sync::atomic::{AtomicU64, Ordering};
use std::sync::Arc;
use vstd::prelude::*;

verus! {

/// A counter shared by every accumulator of a process, so that transcript
/// updates from all workers carry increasing sequence numbers.
#[derive(Clone)]
pub struct SequenceCounter {
    counter: Arc<AtomicU64>,
}

impl SequenceCounter {
    /// A counter whose first number is 0.
    pub fn new() -> Self {
        SequenceCounter { counter: Arc::new(AtomicU64::new(0)) }
    }

    /// Take the next number. Other holders of the counter take numbers
    /// concurrently, so nothing is stated of the value.
    pub fn next(&self) -> u64 {
        self.counter.fetch_add(1, Ordering::SeqCst)
    }
}

} // verus!
