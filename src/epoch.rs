use vstd::prelude::*;

use std::sync::atomic::{AtomicUsize, Ordering};
use std::sync::Arc;

verus! {

/// A shared, monotonically increasing counter used only as a cancellation
/// signal. This handle is its only writer: it cannot be cloned, and other
/// parties get read-only `EpochReader`s. Its value is therefore the number
/// of bumps made through this handle, which `count` records.
pub struct EpochCounter {
    cell: Arc<AtomicUsize>,
    bumps: Ghost<nat>,
}

/// A read-only handle on an `EpochCounter`'s value.
pub struct EpochReader {
    cell: Arc<AtomicUsize>,
}

/// The value held before a bump from `count`, and the count after it.
pub open spec fn bump_from(count: nat) -> (usize, nat) {
    (count as usize, count + 1)
}

impl EpochCounter {
    /// The bumps made so far, which is the counter's value.
    pub closed spec fn count(&self) -> nat {
        self.bumps@
    }

    /// A fresh counter at zero.
    pub fn new() -> (c: EpochCounter)
        ensures
            c.count() == 0,
    {
        EpochCounter { cell: Arc::new(AtomicUsize::new(0)), bumps: Ghost(0) }
    }

    /// A read-only handle on the same counter.
    pub fn reader(&self) -> (r: EpochReader) {
        EpochReader { cell: self.cell.clone() }
    }

    /// Relies on AtomicUsize::fetch_add: atomically adds one and returns the
    /// value held just before. As this handle is the only writer, that value
    /// is the number of earlier bumps.
    #[verifier::external_body]
    pub fn bump(&mut self) -> (previous: usize)
        requires
            old(self).count() < usize::MAX,
        ensures
            previous == bump_from(old(self).count()).0,
            final(self).count() == bump_from(old(self).count()).1,
    {
        self.cell.fetch_add(1, Ordering::Relaxed)
    }
}

impl EpochReader {
    /// The counter's current value. Bumps may land at any moment, so
    /// nothing is promised of it.
    pub fn snapshot(&self) -> (current: usize) {
        self.cell.load(Ordering::Relaxed)
    }
}

/// The first bump of a fresh counter returns zero.
pub proof fn first_bump_returns_zero()
    ensures
        bump_from(0).0 == 0,
{
}

/// Successive bumps return distinct, strictly increasing values: the second
/// of two bumps from `count` returns one more than the first.
pub proof fn successive_bumps_increase(count: nat)
    requires
        count + 1 < usize::MAX,
    ensures
        bump_from(count).0 < bump_from(bump_from(count).1).0,
        bump_from(bump_from(count).1).0 == bump_from(count).0 + 1,
{
}

} // verus!
