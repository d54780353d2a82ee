use vstd::prelude::*;

verus! {

/// A counter that yields the numbers 1 through 5, one per call to `next`,
/// and `None` ever after.
pub struct Counter {
    count: u32,
}

impl View for Counter {
    type V = u32;

    closed spec fn view(&self) -> u32 {
        self.count
    }
}

impl Counter {
    /// Creates a counter that has yielded nothing yet.
    pub fn new() -> (c: Counter)
        ensures
            c@ == 0,
    {
        Counter { count: 0 }
    }

    /// Yields the next number: `Some(n)` for the first five calls, counting
    /// up from 1, then `None` forever.
    pub fn next(&mut self) -> (r: Option<u32>)
        ensures
            old(self)@ < 5 ==> final(self)@ == old(self)@ + 1 && r == Some(final(self)@),
            old(self)@ >= 5 ==> final(self)@ == old(self)@ && r is None,
    {
        if self.count < 5 {
            self.count += 1;
            Some(self.count)
        } else {
            None
        }
    }
}

} // verus!
