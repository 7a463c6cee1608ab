//! What cancels a reader.

use crate::flag::CancelFlag;
use crate::step::CancelStep;
use crate::unix;
use crate::windows;
use vstd::prelude::*;

verus! {

/// The cancellation state of each backend.
#[derive(Debug)]
pub enum CancelerInner {
    Fallback(CancelFlag),
    Unix(unix::CancelState),
    Windows(windows::CancelState),
}

/// What cancels a reader: the state that the reader shares with every handle that
/// may cancel it, also while it reads.
///
/// A reader comes with one. The program shares it between threads, under a lock,
/// and lends it to each operation of the reader for as long as the operation
/// decides, not while it blocks.
#[derive(Debug)]
pub struct Canceler {
    pub inner: CancelerInner,
}

/// How a cancel begins on the state `before`, and the state it leaves.
pub open spec fn cancel_starts(
    before: CancelerInner,
    after: CancelerInner,
    step: CancelStep,
) -> bool {
    match before {
        CancelerInner::Fallback(_) => {
            &&& after matches CancelerInner::Fallback(flag)
            &&& flag@
            &&& step == CancelStep::Done(false)
        },
        CancelerInner::Unix(old_state) => {
            after matches CancelerInner::Unix(new_state) && unix::cancel_leads(
                old_state,
                new_state,
                step,
            )
        },
        CancelerInner::Windows(old_state) => {
            after matches CancelerInner::Windows(new_state) && windows::cancel_leads(
                old_state,
                new_state,
                step,
            )
        },
    }
}

impl Canceler {
    /// Whether the reader is canceled.
    pub open spec fn canceled(self) -> bool {
        match self.inner {
            CancelerInner::Fallback(flag) => flag@,
            CancelerInner::Unix(state) => state.canceled(),
            CancelerInner::Windows(state) => state.canceled(),
        }
    }

    /// Whether the reader shares with its handles that it is closed, as a Unix reader
    /// does.
    pub open spec fn closed(self) -> bool {
        match self.inner {
            CancelerInner::Fallback(_) => false,
            CancelerInner::Unix(state) => state.closed(),
            CancelerInner::Windows(_) => false,
        }
    }

    /// What cancels a reader of the fallback backend.
    pub fn fallback(flag: CancelFlag) -> (canceler: Canceler)
        ensures
            canceler.inner == CancelerInner::Fallback(flag),
    {
        Canceler { inner: CancelerInner::Fallback(flag) }
    }

    /// Report whether the reader is canceled.
    pub fn is_canceled(&self) -> (canceled: bool)
        ensures
            canceled == self.canceled(),
    {
        match &self.inner {
            CancelerInner::Fallback(flag) => flag.is_canceled(),
            CancelerInner::Unix(state) => state.is_canceled(),
            CancelerInner::Windows(state) => state.is_canceled(),
        }
    }

    /// Report whether the reader shares with its handles that it is closed.
    pub fn is_closed(&self) -> (closed: bool)
        ensures
            closed == self.closed(),
    {
        match &self.inner {
            CancelerInner::Fallback(_) => false,
            CancelerInner::Unix(state) => state.is_closed(),
            CancelerInner::Windows(_) => false,
        }
    }

    /// Cancel the reader.
    ///
    /// The fallback backend is done at once and always reports `false`.
    pub fn cancel(&mut self) -> (step: CancelStep)
        ensures
            final(self).canceled(),
            cancel_starts(old(self).inner, final(self).inner, step),
    {
        match &mut self.inner {
            CancelerInner::Fallback(flag) => {
                flag.set_canceled();
                CancelStep::Done(false)
            },
            CancelerInner::Unix(state) => state.cancel(),
            CancelerInner::Windows(state) => state.cancel(),
        }
    }
}

} // verus!
