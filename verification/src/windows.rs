//! The Windows backend.
//!
//! It opens the console input in overlapped mode, sets a raw console mode, and
//! waits on the console handle plus a cancel event. A read that wins the wait
//! runs an overlapped read and blocks for its result. A cancel sets the event to
//! wake the wait.
//!
//! Only a reader that shares stdin's handle is cancelable. Everything else uses
//! the fallback.
//!
//! A cancel and the overlapped read rendezvous through a capacity-one channel.
//! The read fills the slot right before it blocks. The cancel competes for the
//! slot and gives up after 100 milliseconds. A read wedged in its overlapped
//! result never frees the slot, so the cancel times out and returns `false`.

pub mod setup;

use crate::canceler::Canceler;
use crate::chan::{lemma_same_chan, receives, sends, Chan1, SendStep};
use crate::error::Canceled;
use crate::flag::{lemma_same_flag, CancelFlag};
use crate::reader::CancelReader;
use crate::step::{CancelStep, CloseStep, Failure, ReadStep};
use crate::text::join;
use vstd::prelude::*;

verus! {

/// How long a cancel competes for the rendezvous slot, in milliseconds.
pub const RENDEZVOUS_MILLIS: u64 = 100;

/// The wait ended with the first handle.
pub const WAIT_OBJECT_0: u32 = 0;

/// The wait ended with the first handle, a mutex that its owner abandoned.
pub const WAIT_ABANDONED: u32 = 128;

/// The wait timed out.
pub const WAIT_TIMEOUT: u32 = 258;

/// The wait failed.
pub const WAIT_FAILED: u32 = 4294967295;

/// An overlapped operation was started and is not over.
pub const ERROR_IO_PENDING: u32 = 997;

/// Console mode: the extended flags are meant.
pub const ENABLE_EXTENDED_FLAGS: u32 = 128;

/// Console mode: typed text is inserted.
pub const ENABLE_INSERT_MODE: u32 = 32;

/// Console mode: the mouse selects text.
pub const ENABLE_QUICK_EDIT_MODE: u32 = 64;

/// Console mode: input arrives as terminal sequences.
pub const ENABLE_VIRTUAL_TERMINAL_INPUT: u32 = 512;

/// The handle that stands for no object.
pub const INVALID_HANDLE_VALUE: isize = -1;

/// Whether a system call that reports with a number succeeded.
pub open spec fn succeeded(result: i32) -> bool {
    result != 0
}

/// The console mode of a reader: these four flags and no other.
pub open spec fn raw_console_mode() -> u32 {
    ENABLE_EXTENDED_FLAGS | ENABLE_INSERT_MODE | ENABLE_QUICK_EDIT_MODE
        | ENABLE_VIRTUAL_TERMINAL_INPUT
}

/// The cancellation state that a reader shares with the handles that cancel it.
#[derive(Debug)]
pub struct CancelState {
    flag: CancelFlag,
    signal: Chan1,
}

/// How a cancel goes on that competes for the slot: it takes an empty slot, and
/// waits for a full one as long as there is time.
pub open spec fn rendezvous_step(full: bool, waited: u64) -> CancelStep {
    if !full {
        CancelStep::SetEvent
    } else if waited < RENDEZVOUS_MILLIS {
        CancelStep::AwaitSlot((RENDEZVOUS_MILLIS - waited) as u64)
    } else {
        CancelStep::Done(false)
    }
}

/// How a cancel begins on the state `before`, and the state it leaves: the flag is set,
/// and the cancel competes for the slot.
pub open spec fn cancel_leads(before: CancelState, after: CancelState, step: CancelStep) -> bool {
    &&& after.canceled()
    &&& sends(before.full(), after.full(), step is SetEvent)
    &&& step == rendezvous_step(before.full(), 0)
}

/// States that agree on what can be told of them are the same.
pub proof fn lemma_same_state(a: CancelState, b: CancelState)
    requires
        a.canceled() == b.canceled(),
        a.full() == b.full(),
    ensures
        a == b,
{
    lemma_same_flag(a.flag, b.flag);
    lemma_same_chan(a.signal, b.signal);
}

/// How a cancel competes for the slot on the state `before`, `waited` milliseconds
/// after it began to, and the state it leaves.
pub open spec fn rendezvous_leads(
    before: CancelState,
    after: CancelState,
    waited: u64,
    step: CancelStep,
) -> bool {
    &&& after.canceled() == before.canceled()
    &&& sends(before.full(), after.full(), step is SetEvent)
    &&& step == rendezvous_step(before.full(), waited)
}

/// How a cancel ends by emptying the slot on the state `before`, and the state it
/// leaves.
pub open spec fn leave_leads(before: CancelState, after: CancelState, step: CancelStep) -> bool {
    &&& after.canceled() == before.canceled()
    &&& receives(before.full(), after.full(), step == CancelStep::Done(true))
    &&& step == if before.full() {
        CancelStep::Done(true)
    } else {
        CancelStep::AwaitToken
    }
}

/// How a cancel goes on after setting the cancel event returned `result`, on the state
/// `before`, and the state it leaves. A failure leaves the slot full.
pub open spec fn event_set_leads(
    before: CancelState,
    after: CancelState,
    result: i32,
    step: CancelStep,
) -> bool {
    &&& after.canceled() == before.canceled()
    &&& after.full() == (before.full() && !succeeded(result))
    &&& step == if !succeeded(result) {
        CancelStep::Done(false)
    } else if before.full() {
        CancelStep::Done(true)
    } else {
        CancelStep::AwaitToken
    }
}

impl CancelState {
    /// Whether the reader is canceled.
    pub closed spec fn canceled(self) -> bool {
        self.flag@
    }

    /// Whether the rendezvous slot is full.
    pub closed spec fn full(self) -> bool {
        self.signal@
    }

    /// The state of a reader that nobody canceled yet and that is not reading.
    pub fn new() -> (state: CancelState)
        ensures
            !state.canceled(),
            !state.full(),
    {
        CancelState { flag: CancelFlag::default(), signal: Chan1::new() }
    }

    /// Report whether the reader is canceled.
    pub fn is_canceled(&self) -> (canceled: bool)
        ensures
            canceled == self.canceled(),
    {
        self.flag.is_canceled()
    }

    /// Cancel the reader: set the flag and compete for the slot.
    pub fn cancel(&mut self) -> (step: CancelStep)
        ensures
            cancel_leads(*old(self), *final(self), step),
    {
        self.flag.set_canceled();
        self.rendezvous(0)
    }

    /// Compete for the slot once more, `waited` milliseconds after the cancel
    /// began to.
    pub fn rendezvous(&mut self, waited: u64) -> (step: CancelStep)
        ensures
            rendezvous_leads(*old(self), *final(self), waited, step),
    {
        match self.signal.send_timeout(RENDEZVOUS_MILLIS, waited) {
            SendStep::Sent => CancelStep::SetEvent,
            SendStep::Wait(millis) => CancelStep::AwaitSlot(millis),
            // The read is wedged in its overlapped result after a spurious wake.
            // It cannot be canceled.
            SendStep::TimedOut => CancelStep::Done(false),
        }
    }

    /// Go on after setting the cancel event returned this, zero where it failed. A
    /// failure leaves the slot full.
    pub fn event_set(&mut self, result: i32) -> (step: CancelStep)
        ensures
            event_set_leads(*old(self), *final(self), result, step),
    {
        if result == 0 {
            return CancelStep::Done(false);
        }
        self.leave()
    }

    /// Empty the slot at the end of a cancel.
    pub fn leave(&mut self) -> (step: CancelStep)
        ensures
            leave_leads(*old(self), *final(self), step),
    {
        if self.signal.recv() {
            CancelStep::Done(true)
        } else {
            CancelStep::AwaitToken
        }
    }

    /// Fill the slot for a read. Returns `false` where it is full already: block
    /// until it is freed and try again.
    pub fn send(&mut self) -> (sent: bool)
        ensures
            final(self).canceled() == old(self).canceled(),
            sends(old(self).full(), final(self).full(), sent),
    {
        self.signal.send()
    }

    /// Empty the slot after a read. Returns `false` where it is empty already:
    /// block until it is filled and try again.
    pub fn recv(&mut self) -> (received: bool)
        ensures
            final(self).canceled() == old(self).canceled(),
            receives(old(self).full(), final(self).full(), received),
    {
        self.signal.recv()
    }
}

/// Restores the original console mode on close.
#[derive(Debug, Clone, Copy, PartialEq, Eq, Structural)]
pub struct ConsoleReset {
    original_mode: u32,
}

impl ConsoleReset {
    /// What restores the given console mode.
    pub(crate) fn to(original_mode: u32) -> (reset: ConsoleReset)
        ensures
            reset@ == original_mode,
    {
        ConsoleReset { original_mode }
    }
}

impl View for ConsoleReset {
    type V = u32;

    /// The original console mode.
    closed spec fn view(&self) -> u32 {
        self.original_mode
    }
}

/// The outcome of a readiness wait.
#[derive(Debug, Clone, Copy, PartialEq, Eq, Structural)]
pub enum WaitOutcome {
    Ready,
    Canceled,
}

/// A reader of the console.
#[derive(Debug)]
pub struct WinCancelReader {
    reset_console: Option<ConsoleReset>,
    closed: bool,
}

/// What a [`WinCancelReader`] knows.
pub ghost struct WinView {
    /// The console mode to restore, until that was asked for.
    pub reset_console: Option<u32>,
    pub closed: bool,
}

impl View for WinCancelReader {
    type V = WinView;

    closed spec fn view(&self) -> WinView {
        WinView {
            reset_console: match self.reset_console {
                Some(reset) => Some(reset@),
                None => None,
            },
            closed: self.closed,
        }
    }
}

/// The next step of an overlapped read.
#[derive(Debug, PartialEq)]
pub enum AsyncStep<E> {
    /// Create an event for the read and report with `event_created`.
    CreateEvent,
    /// Start an overlapped read of this many bytes and report with `read_started`.
    StartRead(u32),
    /// Close the read's event and return this error.
    Abandon(Failure<E>),
    /// Fill the rendezvous slot with [`CancelState::send`], block for the overlapped
    /// result, close the read's event, and report with `read_finished`.
    Finish,
    /// Empty the rendezvous slot with [`CancelState::recv`] and return this many
    /// bytes.
    Leave(usize),
    /// The read is over: hand this result to its caller.
    Return(Result<usize, Failure<E>>),
}

/// What a wait on the console and the cancel event says, where `last_error` is the
/// text of the system's last error.
pub open spec fn wait_says(event: u32, last_error: Seq<char>, said: Result<WaitOutcome, String>) -> bool {
    if event == WAIT_OBJECT_0 {
        said == Ok::<WaitOutcome, String>(WaitOutcome::Ready)
    } else if event == WAIT_OBJECT_0 + 1 {
        said == Ok::<WaitOutcome, String>(WaitOutcome::Canceled)
    } else {
        said matches Err(text) && text@ == if WAIT_ABANDONED <= event < WAIT_ABANDONED + 2 {
            "abandoned"@
        } else if event == WAIT_TIMEOUT {
            "timeout"@
        } else if event == WAIT_FAILED {
            "failed"@
        } else {
            "unexpected error: "@ + last_error
        }
    }
}

/// How a read begins when the flag is `canceled`.
pub open spec fn read_starts<E>(canceled: bool) -> ReadStep<E> {
    if canceled {
        ReadStep::Return(Err(Failure::Canceled(Canceled)))
    } else {
        ReadStep::Wait
    }
}

/// How a read goes on after a wait, when the flag is `canceled`.
pub open spec fn wait_leads<E>(canceled: bool, wait: Result<WaitOutcome, String>) -> ReadStep<E> {
    match wait {
        Err(text) => ReadStep::Return(Err(Failure::Message(text))),
        Ok(WaitOutcome::Canceled) => ReadStep::Return(Err(Failure::Canceled(Canceled))),
        Ok(WaitOutcome::Ready) => if canceled {
            ReadStep::Return(Err(Failure::Canceled(Canceled)))
        } else {
            ReadStep::ReadInput
        },
    }
}

/// How an overlapped read into `len` bytes goes on after creating its event returned this
/// handle, null where it failed, and `last_error` is the text of the system's last error.
pub open spec fn event_created_leads<E>(
    len: usize,
    event: isize,
    last_error: Seq<char>,
    step: AsyncStep<E>,
) -> bool {
    if event == 0 {
        step matches AsyncStep::Return(Err(Failure::Message(text))) && text@ == "create event: "@
            + last_error
    } else {
        step == AsyncStep::<E>::StartRead(len as u32)
    }
}

/// How an overlapped read goes on after starting it returned `result`, where the system's
/// last error has this code and is `err` in the program's terms. One that is pending is
/// as good as one that completed.
pub open spec fn read_started_leads<E>(result: i32, code: u32, err: E) -> AsyncStep<E> {
    if succeeded(result) || code == ERROR_IO_PENDING {
        AsyncStep::Finish
    } else {
        AsyncStep::Abandon(Failure::Outside(err))
    }
}

/// How an overlapped read of `n` bytes ends after asking for its result returned this.
pub open spec fn read_finished_leads<E>(result: i32, n: u32) -> AsyncStep<E> {
    if succeeded(result) {
        AsyncStep::Leave(n as usize)
    } else {
        AsyncStep::Return(Ok(n as usize))
    }
}

/// How a close goes on after closing the cancel event returned `result`, on a reader in
/// state `before`, and the state it leaves.
pub open spec fn event_closed_leads(
    before: WinView,
    after: WinView,
    result: i32,
    last_error: Seq<char>,
    step: CloseStep,
) -> bool {
    if succeeded(result) {
        &&& after == WinView { reset_console: None, ..before }
        &&& step == match before.reset_console {
            Some(mode) => CloseStep::ResetConsole(mode),
            None => CloseStep::CloseConsole,
        }
    } else {
        &&& after == before
        &&& step matches CloseStep::Done(Err(text))
        &&& text@ == "closing cancel event handle: "@ + last_error
    }
}

/// How a close begins on a reader in state `before`, and the state it leaves.
pub open spec fn close_starts(before: WinView, after: WinView, step: CloseStep) -> bool {
    &&& after == WinView { closed: true, ..before }
    &&& step == if before.closed {
        CloseStep::Done(Ok(()))
    } else {
        CloseStep::CloseEvent
    }
}

impl WinCancelReader {
    /// Put a reader together whose console mode is to be restored.
    pub(crate) fn assemble(reset: ConsoleReset) -> (reader: WinCancelReader)
        ensures
            reader@ == (WinView { reset_console: Some(reset@), closed: false }),
    {
        WinCancelReader { reset_console: Some(reset), closed: false }
    }

    /// What a wait on the console handle and the cancel event, in this order, says.
    pub fn wait(&self, event: u32, last_error: &str) -> (said: Result<WaitOutcome, String>)
        ensures
            wait_says(event, last_error@, said),
    {
        if event == WAIT_OBJECT_0 + 1 {
            return Ok(WaitOutcome::Canceled);
        }
        if event == WAIT_OBJECT_0 {
            return Ok(WaitOutcome::Ready);
        }
        if WAIT_ABANDONED <= event && event < WAIT_ABANDONED + 2 {
            return Err(String::from_str("abandoned"));
        }
        if event == WAIT_TIMEOUT {
            return Err(String::from_str("timeout"));
        }
        if event == WAIT_FAILED {
            return Err(String::from_str("failed"));
        }
        Err(join("unexpected error: ", last_error))
    }

    /// Go on after a wait.
    pub fn waited<E>(&self, canceler: &Canceler, wait: Result<WaitOutcome, String>) -> (step:
        ReadStep<E>)
        ensures
            step == wait_leads::<E>(canceler.canceled(), wait),
    {
        match wait {
            Err(text) => return ReadStep::Return(Err(Failure::Message(text))),
            Ok(WaitOutcome::Canceled) => return ReadStep::Return(Err(Failure::Canceled(Canceled))),
            Ok(WaitOutcome::Ready) => {},
        }
        if canceler.is_canceled() {
            return ReadStep::Return(Err(Failure::Canceled(Canceled)));
        }
        ReadStep::ReadInput
    }

    /// Begin to read the console.
    ///
    /// The read fills the rendezvous slot right before it blocks.
    pub fn read_async<E>(&self) -> (step: AsyncStep<E>)
        ensures
            step == AsyncStep::<E>::CreateEvent,
    {
        AsyncStep::CreateEvent
    }

    /// Go on after creating the event for a read into `len` bytes returned this handle,
    /// null where it failed with this text.
    pub fn event_created<E>(&self, len: usize, event: isize, last_error: &str) -> (step: AsyncStep<
        E,
    >)
        ensures
            event_created_leads(len, event, last_error@, step),
    {
        if event == 0 {
            return AsyncStep::Return(Err(Failure::Message(join("create event: ", last_error))));
        }
        AsyncStep::StartRead(
            #[verifier::truncate]
            (len as u32),
        )
    }

    /// Go on after starting the overlapped read returned this, zero where it did not
    /// complete at once. The system's last error has this code and is `err` in the
    /// program's terms.
    pub fn read_started<E>(&self, result: i32, code: u32, err: E) -> (step: AsyncStep<E>)
        ensures
            step == read_started_leads(result, code, err),
    {
        if result == 0 && code != ERROR_IO_PENDING {
            return AsyncStep::Abandon(Failure::Outside(err));
        }
        AsyncStep::Finish
    }

    /// Go on after asking for the overlapped result returned this, zero where it failed,
    /// and `n` bytes were read.
    ///
    /// A failure is swallowed and leaves the slot filled, which is what makes a
    /// competing cancel time out.
    pub fn read_finished<E>(&self, result: i32, n: u32) -> (step: AsyncStep<E>)
        ensures
            step == read_finished_leads::<E>(result, n),
    {
        if result == 0 {
            return AsyncStep::Return(Ok(n as usize));
        }
        AsyncStep::Leave(n as usize)
    }

    /// Go on after closing the cancel event returned this, zero where it failed with this
    /// text.
    pub fn event_closed(&mut self, result: i32, last_error: &str) -> (step: CloseStep)
        ensures
            event_closed_leads(old(self)@, final(self)@, result, last_error@, step),
    {
        if result == 0 {
            return CloseStep::Done(Err(join("closing cancel event handle: ", last_error)));
        }
        match self.reset_console.take() {
            Some(reset) => CloseStep::ResetConsole(reset.original_mode),
            None => CloseStep::CloseConsole,
        }
    }

    /// Go on after restoring the console mode returned this, zero where it failed with
    /// this text.
    pub fn console_reset(&self, result: i32, last_error: &str) -> (step: CloseStep)
        ensures
            if succeeded(result) {
                step == CloseStep::CloseConsole
            } else {
                step matches CloseStep::Done(Err(text)) && text@ == "reset console mode: "@
                    + last_error@
            },
    {
        if result == 0 {
            return CloseStep::Done(Err(join("reset console mode: ", last_error)));
        }
        CloseStep::CloseConsole
    }

    /// Go on after closing the console handle returned this, zero where it failed.
    pub fn console_closed(&self, result: i32) -> (step: CloseStep)
        ensures
            if succeeded(result) {
                step == CloseStep::Done(Ok(()))
            } else {
                step matches CloseStep::Done(Err(text)) && text@ == "closing CONIN$"@
            },
    {
        if result == 0 {
            return CloseStep::Done(Err(String::from_str("closing CONIN$")));
        }
        CloseStep::Done(Ok(()))
    }
}

impl CancelReader for WinCancelReader {
    open spec fn belongs(&self, canceler: Canceler) -> bool {
        canceler.inner is Windows
    }

    open spec fn serves(&self, canceler: Canceler) -> bool {
        true
    }

    open spec fn released(&self, canceler: Canceler) -> bool {
        self@.closed
    }

    fn read<E>(&self, canceler: &Canceler, len: usize) -> (step: ReadStep<E>)
        ensures
            step == read_starts::<E>(canceler.canceled()),
            step is Wait <==> !canceler.canceled(),
    {
        if canceler.is_canceled() {
            return ReadStep::Return(Err(Failure::Canceled(Canceled)));
        }
        ReadStep::Wait
    }

    fn cancel(&self, canceler: &mut Canceler) -> (step: CancelStep) {
        canceler.cancel()
    }

    fn close(&mut self, canceler: &mut Canceler) -> (step: CloseStep)
        ensures
            *final(canceler) == *old(canceler),
            close_starts(old(self)@, final(self)@, step),
    {
        if self.closed {
            return CloseStep::Done(Ok(()));
        }
        self.closed = true;
        CloseStep::CloseEvent
    }
}

} // verus!
