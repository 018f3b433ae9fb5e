//! Write-once cells: the only shape in which process-wide state is kept.

use vstd::prelude::*;

verus! {

/// A cell that takes the first value committed to it and keeps it for good.
pub struct WriteOnce<T> {
    slot: Option<T>,
}

impl<T> View for WriteOnce<T> {
    type V = Option<T>;

    closed spec fn view(&self) -> Option<T> {
        self.slot
    }
}

impl<T> WriteOnce<T> {
    /// An empty cell.
    pub fn new() -> (r: Self)
        ensures
            r@ is None,
    {
        WriteOnce { slot: None }
    }

    /// Stores `value` if the cell is still empty; returns whether it did.
    pub fn commit(&mut self, value: T) -> (stored: bool)
        ensures
            stored == (old(self)@ is None),
            final(self)@ == (if stored { Some(value) } else { old(self)@ }),
    {
        if self.slot.is_none() {
            self.slot = Some(value);
            true
        } else {
            false
        }
    }

    /// The committed value, if any.
    pub fn get(&self) -> (r: Option<&T>)
        ensures
            r is Some <==> self@ is Some,
            r is Some ==> *r->0 == self@->0,
    {
        match &self.slot {
            Some(v) => Some(v),
            None => None,
        }
    }
}

/// A flag that can be claimed once; every later claim is refused.
pub struct OnceFlag {
    claimed: bool,
}

impl View for OnceFlag {
    type V = bool;

    closed spec fn view(&self) -> bool {
        self.claimed
    }
}

impl OnceFlag {
    /// A flag nobody has claimed.
    pub fn new() -> (r: Self)
        ensures
            !r@,
    {
        OnceFlag { claimed: false }
    }

    /// Claims the flag; true only for the first claim.
    pub fn claim(&mut self) -> (first: bool)
        ensures
            first == !old(self)@,
            final(self)@,
    {
        let first = !self.claimed;
        self.claimed = true;
        first
    }

    /// Whether the flag has been claimed.
    pub fn is_claimed(&self) -> (r: bool)
        ensures
            r == self@,
    {
        self.claimed
    }
}

} // verus!
