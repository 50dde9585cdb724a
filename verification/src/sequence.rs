//! A sequence counter for generating distinct test-data values (usernames,
//! emails); the counter is explicit state handed to the callers.

use vstd::prelude::*;

verus! {

/// A counter handing out consecutive values, starting at 1.
pub struct SequenceCounter {
    pub next: u64,
}

impl SequenceCounter {
    /// A fresh counter, whose first value will be 1.
    pub fn new() -> (r: Self)
        ensures
            r.next == 1,
    {
        SequenceCounter { next: 1 }
    }
}

/// Winds a counter back to its starting state.
pub fn reset_sequence(c: &mut SequenceCounter)
    ensures
        final(c).next == 1,
{
    c.next = 1;
}

/// Hands out the next value and advances the counter.
pub fn next_sequence(c: &mut SequenceCounter) -> (r: u64)
    requires
        old(c).next < u64::MAX,
    ensures
        r == old(c).next,
        final(c).next == old(c).next + 1,
{
    let r = c.next;
    c.next = c.next + 1;
    r
}

} // verus!
