//! What a reader asks of the program around it.
//!
//! The readers of this library decide and the program around them acts: it
//! blocks, reads, writes and closes. Each operation of a reader starts with a
//! call that returns a step. The program does what the step says and reports
//! what came of it with the call that the step names, until the step is a
//! final one.

use crate::error::{other_error, Canceled, ErrorNode, IoError};
use vstd::prelude::*;

verus! {

/// Why an operation failed.
///
/// `E` is the error type of the program's system calls. The library hands such
/// an error on and never looks inside.
#[derive(Debug, PartialEq)]
pub enum Failure<E> {
    /// The reader was canceled.
    Canceled(Canceled),
    /// A system call failed, and its error is passed on unchanged.
    Outside(E),
    /// An error that is only a text.
    Message(String),
}

/// The next step of a read.
#[derive(Debug, PartialEq)]
pub enum ReadStep<E> {
    /// The read is over: hand this result to its caller.
    Return(Result<usize, Failure<E>>),
    /// Block until the input or the cancel signal is ready and report with
    /// `waited`.
    Wait,
    /// Read one byte from the cancel pipe and report with `drained`.
    DrainCancel,
    /// Read the input into the caller's buffer and report with `input_read`.
    ReadInput,
}

/// The next step of a cancel.
#[derive(Debug, PartialEq, Eq)]
pub enum CancelStep {
    /// The cancel is over. `true` says that it succeeded.
    Done(bool),
    /// Write this byte to the cancel pipe and report with `wake_written`.
    WriteWake(u8),
    /// Block until the rendezvous slot is freed, at most this many milliseconds
    /// longer, and try again with `rendezvous`.
    AwaitSlot(u64),
    /// Set the cancel event and report with `event_set`.
    SetEvent,
    /// Block until the rendezvous slot is filled and try again with `leave`.
    AwaitToken,
}

/// The next step of a close.
#[derive(Debug, PartialEq, Eq)]
pub enum CloseStep {
    /// The close is over: hand this result to its caller.
    Done(Result<(), String>),
    /// Drop the descriptors that the reader holds, which reports no error, and
    /// return success.
    Release,
    /// Close the cancel event and report with `event_closed`.
    CloseEvent,
    /// Set this console mode and report with `console_reset`.
    ResetConsole(u32),
    /// Close the console handle and report with `console_closed`.
    CloseConsole,
}

/// The I/O error that stands for a failure.
pub open spec fn failure_io(failure: Failure<IoError>) -> IoError {
    match failure {
        Failure::Canceled(canceled) => other_error(ErrorNode::Canceled(canceled)),
        Failure::Outside(err) => err,
        Failure::Message(text) => other_error(ErrorNode::Foreign { text, source: None }),
    }
}

impl Failure<IoError> {
    /// The failure as an I/O error: a cancellation wrapped once, an outside
    /// error as it is, a text as a custom error.
    pub fn into_io(self) -> (err: IoError)
        ensures
            err == failure_io(self),
    {
        match self {
            Failure::Canceled(canceled) => IoError::from(canceled),
            Failure::Outside(err) => err,
            Failure::Message(text) => IoError::other(ErrorNode::Foreign { text, source: None }),
        }
    }
}

} // verus!
