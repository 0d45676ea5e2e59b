use vstd::prelude::*;

verus! {

/// A buffer of 32-bit atomic counters that shader programs increment; the
/// buffer object itself lives with the graphics context.
pub struct AtomicCounterBuffer {
    length: usize,
}

impl AtomicCounterBuffer {
    /// The number of counters.
    pub closed spec fn spec_length(&self) -> usize {
        self.length
    }

    /// A buffer of `length` counters.
    pub fn new(length: usize) -> (r: Self)
        ensures
            r.spec_length() == length,
    {
        AtomicCounterBuffer { length }
    }

    /// The number of counters.
    pub fn length(&self) -> (r: usize)
        ensures
            r == self.spec_length(),
    {
        self.length
    }

    /// The values the counters start at: one zero per counter.
    pub fn initial_counters(&self) -> (r: Vec<u32>)
        ensures
            r@ == Seq::new(self.spec_length() as nat, |i: int| 0u32),
    {
        let mut r: Vec<u32> = Vec::new();
        while r.len() < self.length
            invariant
                r.len() <= self.length,
                forall|i: int| 0 <= i < r.len() ==> r[i] == 0u32,
            decreases self.length - r.len(),
        {
            r.push(0);
        }
        assert(r@ =~= Seq::new(self.spec_length() as nat, |i: int| 0u32));
        r
    }
}

} // verus!
