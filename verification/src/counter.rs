//! A counter of clicks.

use vstd::prelude::*;

verus! {

/// A count that only goes up.
pub struct Counter {
    count: u32,
}

impl View for Counter {
    type V = nat;

    closed spec fn view(&self) -> nat {
        self.count as nat
    }
}

impl Counter {
    /// A counter that stands at `count`.
    pub fn new(count: u32) -> (counter: Counter)
        ensures
            counter@ == count,
    {
        Counter { count }
    }

    /// The count.
    pub fn count(&self) -> (count: u32)
        ensures
            count == self@,
    {
        self.count
    }

    /// Counts one more.
    pub fn increment(&mut self)
        requires
            old(self)@ < u32::MAX,
        ensures
            final(self)@ == old(self)@ + 1,
    {
        self.count += 1;
    }
}

} // verus!
