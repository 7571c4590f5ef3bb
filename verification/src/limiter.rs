//! A counting concurrency limiter of fixed capacity.
//!
//! Every scan task must hold one permit while it touches the network; the
//! limiter hands out at most its capacity at a time, so no more than that
//! many probes are ever mid-flight. Acquiring takes a permit when one is
//! available; releasing returns it. The well-formedness invariant keeps
//! the count of outstanding permits within the capacity at every step.

use vstd::prelude::*;

verus! {

/// A counting resource of fixed capacity: the scan's sole shared state.
pub struct Limiter {
    capacity: usize,
    available: usize,
}

impl Limiter {
    /// The fixed number of permits the limiter was created with.
    pub closed spec fn cap(self) -> nat {
        self.capacity as nat
    }

    /// How many permits are free right now.
    pub closed spec fn avail(self) -> nat {
        self.available as nat
    }

    /// How many permits are held by tasks right now.
    pub open spec fn in_use(self) -> nat
        recommends
            self.wf(),
    {
        (self.cap() - self.avail()) as nat
    }

    /// Never more permits free than the capacity, so never more holders
    /// than the capacity either.
    pub open spec fn wf(self) -> bool {
        self.avail() <= self.cap()
    }

    /// A fresh limiter has every permit free.
    pub fn new(capacity: usize) -> (r: Limiter)
        ensures
            r.wf(),
            r.cap() == capacity,
            r.avail() == capacity,
    {
        Limiter { capacity, available: capacity }
    }

    /// Takes one permit when one is free; reports whether it did. On
    /// failure the limiter is unchanged.
    pub fn try_acquire(&mut self) -> (r: bool)
        requires
            old(self).wf(),
        ensures
            final(self).wf(),
            final(self).cap() == old(self).cap(),
            r == (old(self).avail() > 0),
            r ==> final(self).avail() == old(self).avail() - 1,
            !r ==> final(self).avail() == old(self).avail(),
    {
        if self.available > 0 {
            self.available = self.available - 1;
            true
        } else {
            false
        }
    }

    /// Returns one held permit. A task releases exactly the permit it
    /// acquired, so there is always a permit outstanding to return.
    pub fn release(&mut self)
        requires
            old(self).wf(),
            old(self).avail() < old(self).cap(),
        ensures
            final(self).wf(),
            final(self).cap() == old(self).cap(),
            final(self).avail() == old(self).avail() + 1,
    {
        self.available = self.available + 1;
    }

    /// How many permits are free, for a caller checking that a finished
    /// scan returned every permit.
    pub fn permits(&self) -> (r: usize)
        ensures
            r == self.avail(),
    {
        self.available
    }

    /// The fixed capacity.
    pub fn max_permits(&self) -> (r: usize)
        ensures
            r == self.cap(),
    {
        self.capacity
    }
}

/// At no point do more tasks hold a permit than the configured capacity:
/// a well-formed limiter bounds its holders by its capacity.
pub proof fn lemma_holders_bounded(l: Limiter)
    requires
        l.wf(),
    ensures
        l.in_use() <= l.cap(),
{
}

} // verus!
