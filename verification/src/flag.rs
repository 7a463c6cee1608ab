//! The cancellation flag.

use vstd::prelude::*;

verus! {

/// A cancellation flag.
///
/// A reader and the handles that cancel it share one flag. It only moves from
/// false to true, so whoever once saw it set will see it set for good.
#[derive(Debug, PartialEq, Eq, Structural)]
pub struct CancelFlag {
    canceled: bool,
}

impl Default for CancelFlag {
    /// A flag that is not set.
    fn default() -> (flag: CancelFlag)
        ensures
            !flag@,
    {
        CancelFlag { canceled: false }
    }
}

impl View for CancelFlag {
    type V = bool;

    /// Whether the flag is set.
    closed spec fn view(&self) -> bool {
        self.canceled
    }
}

impl CancelFlag {
    /// Report whether the flag is set.
    pub fn is_canceled(&self) -> (canceled: bool)
        ensures
            canceled == self@,
    {
        self.canceled
    }

    /// Set the flag and report whether this call was the one that set it.
    ///
    /// Returns `true` only on the false-to-true transition, so a caller can act
    /// once no matter how many times cancel runs.
    pub fn set_canceled(&mut self) -> (first: bool)
        ensures
            final(self)@,
            first == !old(self)@,
    {
        let first = !self.canceled;
        self.canceled = true;
        first
    }
}

/// Flags that are both set or both not set are the same.
pub proof fn lemma_same_flag(a: CancelFlag, b: CancelFlag)
    requires
        a@ == b@,
    ensures
        a == b,
{
}

} // verus!
