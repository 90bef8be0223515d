//! The guarded cell.

use crate::critsect::CritSect;
use vstd::prelude::*;

verus! {

/// A value that is read through a shared reference only against a
/// [`CritSect`] token, and changed only through an exclusive reference.
///
/// The cell keeps no lock and no flag: exclusion comes from the token and from
/// the borrow rules, so the cell's only content is the value, which is also
/// its view.
pub struct Mutex<T> {
    inner: T,
}

impl<T> View for Mutex<T> {
    type V = T;

    closed spec fn view(&self) -> T {
        self.inner
    }
}

impl<T> Mutex<T> {
    /// The cell that holds `val`.
    pub closed spec fn spec_new(val: T) -> Self {
        Mutex { inner: val }
    }

    /// The value that unwrapping the cell gives.
    pub open spec fn spec_intoinner(self) -> T {
        self@
    }

    /// The value that a shared read against the token `cs` sees.
    pub open spec fn spec_borrow(&self, cs: CritSect<'_>) -> T {
        self@
    }

    /// The cell once `val` has been stored in it through its exclusive borrow.
    pub closed spec fn with_value(self, val: T) -> Self {
        Mutex { inner: val }
    }

    /// Wraps `val`.
    #[verifier::when_used_as_spec(spec_new)]
    pub fn new(val: T) -> (cell: Self)
        ensures
            cell == Self::spec_new(val),
            cell@ == val,
    {
        Mutex { inner: val }
    }

    /// Exclusive access to the value. No token is asked for: the exclusive
    /// reference to the cell already rules out every other reader and writer.
    /// The reference starts at the cell's value, and what it holds when it is
    /// given up is what the cell holds from then on.
    pub fn getmut(&mut self) -> (value: &mut T)
        ensures
            *value == old(self)@,
            final(self)@ == *final(value),
            *final(self) == old(self).with_value(*final(value)),
    {
        &mut self.inner
    }

    /// Gives the value back and ends the cell.
    #[verifier::when_used_as_spec(spec_intoinner)]
    pub fn intoinner(self) -> (value: T)
        ensures
            value == self@,
            value == self.spec_intoinner(),
    {
        self.inner
    }

    /// Shared access to the value for as long as the critical section of `cs`
    /// lasts. The value read is the cell's, whichever token is presented.
    pub fn borrow<'cs>(&'cs self, cs: CritSect<'cs>) -> (value: &'cs T)
        ensures
            *value == self@,
            *value == self.spec_borrow(cs),
    {
        &self.inner
    }

    /// A cell is its value and nothing more: two cells with the same view are
    /// the same cell.
    pub proof fn lemma_view_is_all(a: Self, b: Self)
        requires
            a@ == b@,
        ensures
            a == b,
    {
    }

    /// Wrapping a value and unwrapping the cell gives the value back.
    pub proof fn lemma_new_then_intoinner(val: T)
        ensures
            Self::new(val).intoinner() == val,
            Self::spec_new(val)@ == val,
    {
    }

    /// A value stored through the exclusive borrow is the value that
    /// unwrapping the cell returns, whatever the cell held before; the cell is
    /// then the one that wrapping that value would have made.
    pub proof fn lemma_store_then_intoinner(cell: Self, val: T)
        ensures
            cell.with_value(val).intoinner() == val,
            cell.with_value(val)@ == val,
            cell.with_value(val) == Self::spec_new(val),
    {
    }

    /// Any two tokens read the same value from a cell that has not changed in
    /// between: the value the cell holds.
    pub proof fn lemma_tokens_read_alike(cell: Self, a: CritSect<'_>, b: CritSect<'_>)
        ensures
            cell.spec_borrow(a) == cell.spec_borrow(b),
            cell.spec_borrow(a) == cell@,
    {
    }
}

} // verus!
