//! What every cancelable reader does.

use crate::canceler::{cancel_starts, Canceler};
use crate::error::Canceled;
use crate::step::{CancelStep, CloseStep, Failure, ReadStep};
use vstd::prelude::*;

verus! {

/// A reader whose reads can be canceled without consuming data.
///
/// The reader stands for operating system resources that the program holds. Drop
/// them as [`close`](CancelReader::close) says to surface any teardown error.
pub trait CancelReader {
    /// Whether this is the kind of canceler that the reader came with.
    spec fn belongs(&self, canceler: Canceler) -> bool;

    /// Whether the reader, with its canceler in this state, is still in service.
    spec fn serves(&self, canceler: Canceler) -> bool;

    /// Whether the reader, with its canceler in this state, has nothing left to release.
    spec fn released(&self, canceler: Canceler) -> bool;

    /// Begin to read into a buffer of `len` bytes.
    ///
    /// On a canceled reader the read ends at once and touches nothing.
    fn read<E>(&self, canceler: &Canceler, len: usize) -> (step: ReadStep<E>)
        requires
            self.belongs(*canceler),
        ensures
            canceler.canceled() ==> step == ReadStep::<E>::Return(Err(Failure::Canceled(Canceled))),
            !self.serves(*canceler) ==> step matches ReadStep::Return(Err(_)),
            step matches ReadStep::Return(Ok(n)) ==> n == 0 && len == 0,
            !(step is DrainCancel),
    ;

    /// Cancel ongoing and future reads, with the effect and the result that a cancel
    /// through a handle has.
    ///
    /// The fallback backend always reports `false`. A file backend reports `true`
    /// when the wake signal was delivered. Windows reports `false` when it cannot
    /// rendezvous with a wedged read within 100 milliseconds.
    fn cancel(&self, canceler: &mut Canceler) -> (step: CancelStep)
        requires
            self.belongs(*old(canceler)),
        ensures
            self.belongs(*final(canceler)),
            final(canceler).canceled(),
            cancel_starts(old(canceler).inner, final(canceler).inner, step),
            !self.serves(*old(canceler)) ==> step == CancelStep::Done(false),
    ;

    /// Release the reader's resources and report the first teardown error.
    ///
    /// Calling it twice is safe.
    fn close(&mut self, canceler: &mut Canceler) -> (step: CloseStep)
        requires
            old(self).belongs(*old(canceler)),
        ensures
            final(self).belongs(*final(canceler)),
            final(self).released(*final(canceler)),
            final(canceler).canceled() == old(canceler).canceled(),
            old(self).released(*old(canceler)) ==> step == CloseStep::Done(Ok(())),
    ;
}

} // verus!
