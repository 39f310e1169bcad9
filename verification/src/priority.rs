use vstd::prelude::*;

verus! {

/// Fan-out policy of an event.
///
/// `High` notifies every subscriber concurrently inside a single run, so an
/// emission occupies exactly one serialization slot of the bus. `Low` splits
/// the subscriber list into batches of at most [`BATCH_SIZE`] and submits one
/// run per batch, bounding how many callbacks are started at once.
#[derive(Clone, Copy, PartialEq, Eq, Structural, Debug)]
pub enum Priority {
    Low,
    High,
}

/// Largest number of subscribers notified by one run of a `Low`-priority
/// emission.
pub const BATCH_SIZE: usize = 20;

/// How many runs one emission over `n` subscribers submits to the bus:
/// always one for `High`, one per started batch for `Low`.
pub open spec fn run_count(n: nat, p: Priority) -> nat {
    match p {
        Priority::High => 1,
        Priority::Low => (((n + BATCH_SIZE) - 1) / (BATCH_SIZE as int)) as nat,
    }
}

} // verus!
