//! A monotonically increasing counter, used to tag change generations.

use vstd::prelude::*;

verus! {

/// Counts how many times an event has happened; starts at zero.
#[derive(Debug)]
pub struct Counter {
    pub count: usize,
}

impl Counter {
    pub fn new() -> (r: Self)
        ensures
            r.count == 0,
    {
        Self { count: 0 }
    }

    /// Advances the counter and returns the new value.
    pub fn count(&mut self) -> (r: usize)
        requires
            old(self).count < usize::MAX,
        ensures
            final(self).count == old(self).count + 1,
            r == final(self).count,
    {
        self.count = self.count + 1;
        self.count
    }
}

} // verus!
