//! The fallback backend.
//!
//! Used for readers without a raw file descriptor and for targets without a
//! readiness backend. It cannot interrupt a read that is already running. A
//! cancel flips a flag and reports `false`. Future reads return a cancellation at
//! once and consume no data.

use crate::canceler::Canceler;
use crate::error::Canceled;
use crate::flag::CancelFlag;
use crate::reader::CancelReader;
use crate::step::{CancelStep, CloseStep, Failure, ReadStep};
use vstd::prelude::*;

verus! {

/// A reader that cannot cancel an ongoing read.
///
/// A cancel always reports `false`. After it, new reads return a cancellation and
/// consume no data.
#[derive(Debug)]
pub struct FallbackCancelReader<R> {
    /// The input.
    pub reader: R,
}

/// Wrap any reader in the fallback backend.
///
/// This never fails. It returns the reader with what cancels it.
pub fn new_fallback_cancel_reader<R>(reader: R) -> (wrapped: (FallbackCancelReader<R>, Canceler))
    ensures
        wrapped.0.reader == reader,
        wrapped.1.inner is Fallback,
        !wrapped.1.canceled(),
{
    (FallbackCancelReader { reader }, Canceler::fallback(CancelFlag::default()))
}

/// How a read begins when the flag is `canceled`.
pub open spec fn read_starts<E>(canceled: bool) -> ReadStep<E> {
    if canceled {
        ReadStep::Return(Err(Failure::Canceled(Canceled)))
    } else {
        ReadStep::ReadInput
    }
}

/// How a read ends whose input returned `result`, when the flag is `canceled`: a
/// cancellation wins over whatever the input returned.
pub open spec fn settled<E>(canceled: bool, result: Result<usize, E>) -> Result<usize, Failure<E>> {
    if canceled {
        Err(Failure::Canceled(Canceled))
    } else {
        match result {
            Ok(n) => Ok(n),
            Err(err) => Err(Failure::Outside(err)),
        }
    }
}

impl<R> FallbackCancelReader<R> {
    /// End a read whose input was read with this result.
    ///
    /// A blocking input may have sat in that read while another thread canceled.
    /// Surface the cancellation even though the read already ran.
    pub fn input_read<E>(&self, canceler: &Canceler, result: Result<usize, E>) -> (returned: Result<
        usize,
        Failure<E>,
    >)
        ensures
            returned == settled(canceler.canceled(), result),
    {
        if canceler.is_canceled() {
            return Err(Failure::Canceled(Canceled));
        }
        match result {
            Ok(n) => Ok(n),
            Err(err) => Err(Failure::Outside(err)),
        }
    }
}

impl<R> CancelReader for FallbackCancelReader<R> {
    open spec fn belongs(&self, canceler: Canceler) -> bool {
        canceler.inner is Fallback
    }

    open spec fn serves(&self, canceler: Canceler) -> bool {
        true
    }

    open spec fn released(&self, canceler: Canceler) -> bool {
        true
    }

    fn read<E>(&self, canceler: &Canceler, len: usize) -> (step: ReadStep<E>)
        ensures
            step == read_starts::<E>(canceler.canceled()),
            step is ReadInput <==> !canceler.canceled(),
    {
        if canceler.is_canceled() {
            return ReadStep::Return(Err(Failure::Canceled(Canceled)));
        }
        ReadStep::ReadInput
    }

    fn cancel(&self, canceler: &mut Canceler) -> (step: CancelStep)
        ensures
            step == CancelStep::Done(false),
    {
        canceler.cancel()
    }

    fn close(&mut self, canceler: &mut Canceler) -> (step: CloseStep)
        ensures
            *final(self) == *old(self),
            *final(canceler) == *old(canceler),
            step == CloseStep::Done(Ok(())),
    {
        CloseStep::Done(Ok(()))
    }
}

} // verus!
