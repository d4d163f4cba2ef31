//! The identifier generator shared by every entity type.

use vstd::prelude::*;

verus! {

/// One counter for all entity types: each issued id is the counter's value,
/// after which the counter moves on by one, so no id is ever issued twice.
pub struct IdGenerator {
    next: u64,
}

impl View for IdGenerator {
    type V = u64;

    /// The id that the next call will issue.
    closed spec fn view(&self) -> u64 {
        self.next
    }
}

impl IdGenerator {
    /// A fresh counter starts at zero.
    pub fn new() -> (r: IdGenerator)
        ensures
            r@ == 0,
    {
        IdGenerator { next: 0 }
    }

    /// The id that the next call of `next_id` will issue.
    pub fn peek(&self) -> (r: u64)
        ensures
            r == self@,
    {
        self.next
    }

    /// Issues the current value and advances the counter by one.
    pub fn next_id(&mut self) -> (r: u64)
        requires
            old(self)@ < u64::MAX,
        ensures
            r == old(self)@,
            final(self)@ == old(self)@ + 1,
    {
        let r = self.next;
        self.next = self.next + 1;
        r
    }
}

} // verus!
