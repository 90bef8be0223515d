//! The critical-section token.

use core::marker::PhantomData;
use vstd::prelude::*;

verus! {

/// Evidence that the code holding it runs inside a critical section, that is
/// with interrupts and preemption disabled, for the whole of `'cs`.
///
/// The token has no size and no state: every token equals every other, and a
/// copy proves exactly what the token it was copied from proves.
#[derive(Clone, Copy, Debug)]
pub struct CritSect<'cs> {
    _0: PhantomData<&'cs ()>,
}

impl<'cs> CritSect<'cs> {
    /// The one value that the type has.
    pub closed spec fn token() -> Self {
        CritSect { _0: PhantomData }
    }

    /// Creates a token for a critical section that lasts for `'cs`.
    ///
    /// The caller answers for the claim the token makes: interrupts and
    /// preemption are disabled now and stay disabled until `'cs` ends. Nothing
    /// here disables them and nothing can test whether they are; a token made
    /// while they are enabled lets a shared read race with an interrupt
    /// handler. Only the code that masks and unmasks interrupts should call
    /// this.
    #[inline(always)]
    pub fn new() -> (cs: Self)
        ensures
            cs == Self::token(),
    {
        CritSect { _0: PhantomData }
    }

    /// Tokens carry no state, so any two of them are equal, whatever critical
    /// section each was made for.
    pub proof fn lemma_tokens_equal(a: CritSect<'_>, b: CritSect<'_>)
        ensures
            a == b,
            a == CritSect::token(),
    {
    }
}

} // verus!
