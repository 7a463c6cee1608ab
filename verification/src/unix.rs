//! The Unix backends: epoll on Linux, kqueue on macOS and the BSDs, select on
//! Solaris.
//!
//! Each backend watches the input and the read end of a self-pipe with a
//! readiness primitive. A read blocks until one of them is ready. When the
//! cancel pipe fires, the read drains one byte and returns a cancellation. When
//! the input fires, the read reads it, which no longer blocks because data is
//! ready.
//!
//! A cancel writes one byte to the pipe to wake the wait.

pub mod setup;

use crate::canceler::{Canceler, CancelerInner};
use crate::error::Canceled;
use crate::fd_set::{element_bits, FdSet, LARGEST_FD_SETSIZE};
use crate::flag::{lemma_same_flag, CancelFlag};
use crate::reader::CancelReader;
use crate::step::{CancelStep, CloseStep, Failure, ReadStep};
use crate::text::{decimal, decimal_text, join};
use vstd::prelude::*;

verus! {

/// The byte that a cancel writes to the cancel pipe, an ASCII `c`.
pub const WAKE_BYTE: u8 = 99;

/// The cancellation state that a reader shares with the handles that cancel it.
///
/// Whoever cancels holds the state alone from [`CancelState::cancel`] to
/// [`CancelState::wake_written`].
#[derive(Debug)]
pub struct CancelState {
    flag: CancelFlag,
    delivered: bool,
    closed: bool,
}

/// How a cancel begins on the state `before`, and the state it leaves.
pub open spec fn cancel_leads(before: CancelState, after: CancelState, step: CancelStep) -> bool {
    &&& after.canceled()
    &&& after.delivered() == before.delivered()
    &&& after.closed() == before.closed()
    &&& step == if before.closed() {
        CancelStep::Done(false)
    } else if before.canceled() {
        CancelStep::Done(before.delivered())
    } else {
        CancelStep::WriteWake(WAKE_BYTE)
    }
}

/// How a cancel ends after the wake byte was written, or failed to be, on the state
/// `before`, and the state it leaves.
pub open spec fn wake_leads(
    before: CancelState,
    after: CancelState,
    written: bool,
    step: CancelStep,
) -> bool {
    &&& after.canceled() == before.canceled()
    &&& after.delivered() == written
    &&& after.closed() == before.closed()
    &&& step == CancelStep::Done(written)
}

/// How a close goes on the state `before`, and the state it leaves.
pub open spec fn close_leads(before: CancelState, after: CancelState, step: CloseStep) -> bool {
    &&& after.canceled() == before.canceled()
    &&& after.delivered() == before.delivered()
    &&& after.closed()
    &&& step == if before.closed() {
        CloseStep::Done(Ok(()))
    } else {
        CloseStep::Release
    }
}

/// States that agree on what can be told of them are the same.
pub proof fn lemma_same_state(a: CancelState, b: CancelState)
    requires
        a.canceled() == b.canceled(),
        a.delivered() == b.delivered(),
        a.closed() == b.closed(),
    ensures
        a == b,
{
    lemma_same_flag(a.flag, b.flag);
}

impl CancelState {
    /// Whether the reader is canceled.
    pub closed spec fn canceled(self) -> bool {
        self.flag@
    }

    /// Whether the wake byte went into the cancel pipe.
    pub closed spec fn delivered(self) -> bool {
        self.delivered
    }

    /// Whether the reader is closed.
    pub closed spec fn closed(self) -> bool {
        self.closed
    }

    /// The state of an open reader that nobody canceled yet.
    pub fn new() -> (state: CancelState)
        ensures
            !state.canceled(),
            !state.delivered(),
            !state.closed(),
    {
        CancelState { flag: CancelFlag::default(), delivered: false, closed: false }
    }

    /// Report whether the reader is canceled.
    pub fn is_canceled(&self) -> (canceled: bool)
        ensures
            canceled == self.canceled(),
    {
        self.flag.is_canceled()
    }

    /// Report whether the reader is closed.
    pub fn is_closed(&self) -> (closed: bool)
        ensures
            closed == self.closed(),
    {
        self.closed
    }

    /// Cancel the reader.
    ///
    /// The first call asks for the wake byte. A later one writes nothing, since
    /// bytes that nobody drains would fill the pipe and block the cancel. It
    /// reports at once whether the wake byte was delivered. On a closed reader there
    /// is nothing to wake, and the cancel reports failure.
    pub fn cancel(&mut self) -> (step: CancelStep)
        ensures
            cancel_leads(*old(self), *final(self), step),
    {
        let first = self.flag.set_canceled();
        if self.closed {
            return CancelStep::Done(false);
        }
        if first {
            CancelStep::WriteWake(WAKE_BYTE)
        } else {
            CancelStep::Done(self.delivered)
        }
    }

    /// Close the reader. Only the first call has something to release.
    pub fn close(&mut self) -> (step: CloseStep)
        ensures
            close_leads(*old(self), *final(self), step),
    {
        if self.closed {
            return CloseStep::Done(Ok(()));
        }
        self.closed = true;
        CloseStep::Release
    }

    /// Go on after the wake byte was written, or failed to be.
    pub fn wake_written(&mut self, written: bool) -> (step: CancelStep)
        ensures
            wake_leads(*old(self), *final(self), written, step),
    {
        self.delivered = written;
        CancelStep::Done(written)
    }
}

/// Which readiness primitive backs a reader.
#[derive(Debug, Clone, Copy, PartialEq, Eq, Structural)]
pub enum Kind {
    Epoll,
    Kqueue,
    /// `select`, which works on a set of fixed size: descriptors at or above
    /// `fd_setsize` do not fit.
    Select { fd_setsize: i32 },
}

/// What a [`Backend`] knows.
pub ghost struct BackendView {
    /// The input's descriptor.
    pub input: i32,
    /// The descriptor of the cancel pipe's read end.
    pub cancel: i32,
    pub kind: Kind,
}

/// A reader that waits for its input and for the cancel pipe.
#[derive(Debug)]
pub struct Backend {
    input: i32,
    cancel: i32,
    kind: Kind,
}

impl View for Backend {
    type V = BackendView;

    closed spec fn view(&self) -> BackendView {
        BackendView { input: self.input, cancel: self.cancel, kind: self.kind }
    }
}

/// The system call that a wait consists of.
pub enum WaitCall {
    /// Wait on the epoll instance.
    Epoll,
    /// Wait on the kernel queue for either descriptor to become readable.
    Kqueue { input: i32, cancel: i32 },
    /// Call `select` with this set of descriptors to read from.
    Select { nfds: i32, readfds: FdSet },
    /// The descriptors do not fit into a set: go on with this failed wait. The
    /// descriptors of a reader that was built do fit, so [`Backend::wait`] never says
    /// this.
    Refused(String),
}

/// Why the system call of a wait failed.
#[derive(Debug, PartialEq)]
pub enum WaitFault<E> {
    /// A signal interrupted it.
    Interrupted,
    /// Any other error.
    Failed(E),
}

/// One event of a kernel queue.
#[derive(Debug, Clone, Copy, PartialEq, Eq, Structural)]
pub enum KqueueEvent {
    /// This descriptor is readable.
    Read(i32),
    /// An event of another kind.
    Other,
}

/// What came of a wait.
#[derive(Debug, PartialEq)]
pub enum Wait<E> {
    /// A signal interrupted it: wait again.
    Again,
    /// The input is ready.
    Ready,
    /// The cancel pipe fired.
    Canceled,
    /// The wait reported no descriptor.
    Unknown,
    /// The wait failed.
    Failed(Failure<E>),
}

/// The number of descriptors to hand to `select`: one more than the larger of the
/// two, unless that one does not fit into a set.
pub fn select_nfds(reader_fd: i32, abort_fd: i32, fd_setsize: i32) -> (nfds: Result<i32, String>)
    ensures
        ({
            let max_fd = if reader_fd >= abort_fd { reader_fd } else { abort_fd };
            if max_fd < fd_setsize {
                nfds == Ok::<i32, String>((max_fd + 1) as i32)
            } else {
                nfds matches Err(text) && text@ == "cannot select on file descriptor "@ + decimal_text(
                    max_fd as int,
                ) + " which is larger than 1024"@
            }
        }),
{
    let max_fd: i32 = if reader_fd >= abort_fd {
        reader_fd
    } else {
        abort_fd
    };
    if max_fd >= fd_setsize {
        let head = join("cannot select on file descriptor ", decimal(max_fd).as_str());
        return Err(join(head.as_str(), " which is larger than 1024"));
    }
    Ok(max_fd + 1)
}

/// What a wait that reported events says, where `fired` tells whether the cancel
/// pipe is among them and `some` whether there is any. The cancel pipe wins.
pub open spec fn reported<E>(fired: bool, some: bool) -> Wait<E> {
    if fired {
        Wait::Canceled
    } else if some {
        Wait::Ready
    } else {
        Wait::Unknown
    }
}

/// What a wait says whose system call failed: only a signal makes it wait again.
pub open spec fn faulted<E>(fault: WaitFault<E>) -> Wait<E> {
    match fault {
        WaitFault::Interrupted => Wait::Again,
        WaitFault::Failed(err) => Wait::Failed(Failure::Outside(err)),
    }
}

/// How a read begins when the flag is `canceled` and the reader is `closed` or not, into
/// a buffer of `len` bytes.
pub open spec fn read_starts<E>(
    canceled: bool,
    closed: bool,
    len: nat,
    step: ReadStep<E>,
) -> bool {
    if canceled {
        step == ReadStep::<E>::Return(Err(Failure::Canceled(Canceled)))
    } else if closed {
        step matches ReadStep::Return(Err(Failure::Message(text))) && text@ == "reader is closed"@
    } else if len == 0 {
        step == ReadStep::<E>::Return(Ok(0))
    } else {
        step == ReadStep::<E>::Wait
    }
}

/// How a read goes on after a wait, when the flag is `canceled`.
pub open spec fn wait_leads<E>(canceled: bool, wait: Wait<E>, step: ReadStep<E>) -> bool {
    match wait {
        Wait::Again => step == ReadStep::<E>::Wait,
        Wait::Ready => step == if canceled {
            ReadStep::<E>::Return(Err(Failure::Canceled(Canceled)))
        } else {
            ReadStep::<E>::ReadInput
        },
        Wait::Canceled => step == ReadStep::<E>::DrainCancel,
        Wait::Unknown => step matches ReadStep::Return(Err(Failure::Message(text))) && text@
            == "unknown error"@,
        Wait::Failed(failure) => step == ReadStep::<E>::Return(Err(failure)),
    }
}

/// How a read goes on after the cancel pipe was drained, or failed to be.
pub open spec fn drain_leads<E>(drained: Result<(), String>, step: ReadStep<E>) -> bool {
    match drained {
        Ok(()) => step == ReadStep::<E>::Return(Err(Failure::Canceled(Canceled))),
        Err(detail) => step matches ReadStep::Return(Err(Failure::Message(text))) && text@
            == "reading cancel signal: "@ + detail@,
    }
}

/// How a read ends after the input was read: with what that read returned.
pub open spec fn input_leads<E>(result: Result<usize, E>, step: ReadStep<E>) -> bool {
    match result {
        Ok(n) => step == ReadStep::<E>::Return(Ok(n)),
        Err(err) => step == ReadStep::<E>::Return(Err(Failure::Outside(err))),
    }
}

/// Whether a number is among others.
fn contains_u64(items: &Vec<u64>, wanted: u64) -> (found: bool)
    ensures
        found == items@.contains(wanted),
{
    for i in 0..items.len()
        invariant
            forall|j: int| 0 <= j < i ==> items@[j] != wanted,
    {
        if items[i] == wanted {
            return true;
        }
    }
    false
}

/// Whether a descriptor is among others.
fn contains_fd(fds: &Vec<i32>, wanted: i32) -> (found: bool)
    ensures
        found == fds@.contains(wanted),
{
    for i in 0..fds.len()
        invariant
            forall|j: int| 0 <= j < i ==> fds@[j] != wanted,
    {
        if fds[i] == wanted {
            return true;
        }
    }
    false
}

/// Whether an event is among others.
fn contains_event(events: &Vec<KqueueEvent>, wanted: KqueueEvent) -> (found: bool)
    ensures
        found == events@.contains(wanted),
{
    for i in 0..events.len()
        invariant
            forall|j: int| 0 <= j < i ==> events@[j] != wanted,
    {
        if events[i] == wanted {
            return true;
        }
    }
    false
}

impl Backend {
    /// Both descriptors of a select backend fit into a set.
    #[verifier::type_invariant]
    spec fn fits(self) -> bool {
        self.kind matches Kind::Select { fd_setsize } ==> {
            &&& self.input < fd_setsize
            &&& self.cancel < fd_setsize
            &&& fd_setsize <= LARGEST_FD_SETSIZE
        }
    }

    /// Put a reader together from its input, its cancel pipe and its primitive.
    pub(crate) fn assemble(input: i32, cancel: i32, kind: Kind) -> (reader: Backend)
        requires
            kind matches Kind::Select { fd_setsize } ==> input < fd_setsize && cancel < fd_setsize
                && fd_setsize <= LARGEST_FD_SETSIZE,
        ensures
            reader@ == (BackendView { input, cancel, kind }),
    {
        Backend { input, cancel, kind }
    }

    /// The system call that blocks until the input or the cancel pipe is ready.
    ///
    /// A set of descriptors has no place for a negative one.
    pub fn wait(&self) -> (call: WaitCall)
        requires
            self@.kind is Select ==> 0 <= self@.input && 0 <= self@.cancel,
        ensures
            match self@.kind {
                Kind::Epoll => call == WaitCall::Epoll,
                Kind::Kqueue => call == (WaitCall::Kqueue {
                    input: self@.input,
                    cancel: self@.cancel,
                }),
                Kind::Select { fd_setsize } => {
                    &&& call matches WaitCall::Select { nfds, readfds }
                    &&& nfds == 1 + if self@.input >= self@.cancel {
                        self@.input
                    } else {
                        self@.cancel
                    }
                    &&& readfds.wf()
                    &&& nfds <= readfds.room() < nfds + element_bits()
                    &&& readfds@ == set![self@.input as int, self@.cancel as int]
                },
            },
    {
        proof {
            use_type_invariant(self);
        }
        match self.kind {
            Kind::Epoll => WaitCall::Epoll,
            Kind::Kqueue => WaitCall::Kqueue { input: self.input, cancel: self.cancel },
            Kind::Select { fd_setsize } => {
                match select_nfds(self.input, self.cancel, fd_setsize) {
                    Err(text) => WaitCall::Refused(text),
                    Ok(nfds) => {
                        let mut readfds = FdSet::with_room(2, nfds);
                        readfds.insert(self.input);
                        readfds.insert(self.cancel);
                        assert(readfds@ =~= set![self.input as int, self.cancel as int]);
                        WaitCall::Select { nfds, readfds }
                    },
                }
            },
        }
    }

    /// What came of a wait on the epoll instance, which reported the data of
    /// these events.
    ///
    /// Each descriptor is registered with its own number as data.
    pub fn wait_epoll<E>(&self, reply: Result<Vec<u64>, WaitFault<E>>) -> (wait: Wait<E>)
        ensures
            wait == match reply {
                Ok(events) => reported::<E>(
                    events@.contains(self@.cancel as u64),
                    events@.len() > 0,
                ),
                Err(fault) => faulted(fault),
            },
    {
        match reply {
            Ok(events) => {
                if contains_u64(&events, self.cancel as u64) {
                    Wait::Canceled
                } else if events.len() > 0 {
                    Wait::Ready
                } else {
                    Wait::Unknown
                }
            },
            Err(WaitFault::Interrupted) => Wait::Again,
            Err(WaitFault::Failed(err)) => Wait::Failed(Failure::Outside(err)),
        }
    }

    /// What came of a wait on the kernel queue, which reported these events.
    pub fn wait_kqueue<E>(&self, reply: Result<Vec<KqueueEvent>, WaitFault<E>>) -> (wait: Wait<E>)
        ensures
            wait == match reply {
                Ok(events) => reported::<E>(
                    events@.contains(KqueueEvent::Read(self@.cancel)),
                    events@.len() > 0,
                ),
                Err(fault) => faulted(fault),
            },
    {
        match reply {
            Ok(events) => {
                if contains_event(&events, KqueueEvent::Read(self.cancel)) {
                    Wait::Canceled
                } else if events.len() > 0 {
                    Wait::Ready
                } else {
                    Wait::Unknown
                }
            },
            Err(WaitFault::Interrupted) => Wait::Again,
            Err(WaitFault::Failed(err)) => Wait::Failed(Failure::Outside(err)),
        }
    }

    /// What came of a `select`, which left these descriptors in the set.
    pub fn wait_select<E>(&self, reply: Result<FdSet, WaitFault<E>>) -> (wait: Wait<E>)
        requires
            reply matches Ok(readfds) ==> readfds.wf(),
        ensures
            wait == match reply {
                Ok(readfds) => reported::<E>(
                    readfds@.contains(self@.cancel as int),
                    readfds@.contains(self@.input as int),
                ),
                Err(fault) => faulted(fault),
            },
    {
        match reply {
            Ok(readfds) => {
                let ready = readfds.members();
                if contains_fd(&ready, self.cancel) {
                    Wait::Canceled
                } else if contains_fd(&ready, self.input) {
                    Wait::Ready
                } else {
                    Wait::Unknown
                }
            },
            Err(WaitFault::Interrupted) => Wait::Again,
            Err(WaitFault::Failed(err)) => Wait::Failed(Failure::Outside(err)),
        }
    }

    /// Go on after a wait.
    ///
    /// A cancel wins even when the input is ready at the same time: the read then
    /// ends without touching the input.
    pub fn waited<E>(&self, canceler: &Canceler, wait: Wait<E>) -> (step: ReadStep<E>)
        ensures
            wait_leads(canceler.canceled(), wait, step),
    {
        match wait {
            Wait::Again => ReadStep::Wait,
            Wait::Ready => {
                if canceler.is_canceled() {
                    return ReadStep::Return(Err(Failure::Canceled(Canceled)));
                }
                ReadStep::ReadInput
            },
            Wait::Canceled => ReadStep::DrainCancel,
            Wait::Unknown => ReadStep::Return(
                Err(Failure::Message(String::from_str("unknown error"))),
            ),
            Wait::Failed(failure) => ReadStep::Return(Err(failure)),
        }
    }

    /// Go on after one byte was read from the cancel pipe, or the read of it failed
    /// with this text.
    pub fn drained<E>(&self, drained: Result<(), String>) -> (step: ReadStep<E>)
        ensures
            drain_leads(drained, step),
    {
        match drained {
            Ok(()) => ReadStep::Return(Err(Failure::Canceled(Canceled))),
            Err(detail) => ReadStep::Return(
                Err(Failure::Message(join("reading cancel signal: ", detail.as_str()))),
            ),
        }
    }

    /// Go on after the input was read with this result.
    pub fn input_read<E>(&self, result: Result<usize, E>) -> (step: ReadStep<E>)
        ensures
            input_leads(result, step),
    {
        match result {
            Ok(n) => ReadStep::Return(Ok(n)),
            Err(err) => ReadStep::Return(Err(Failure::Outside(err))),
        }
    }
}

impl CancelReader for Backend {
    open spec fn belongs(&self, canceler: Canceler) -> bool {
        canceler.inner is Unix
    }

    open spec fn serves(&self, canceler: Canceler) -> bool {
        !canceler.closed()
    }

    open spec fn released(&self, canceler: Canceler) -> bool {
        canceler.closed()
    }

    fn read<E>(&self, canceler: &Canceler, len: usize) -> (step: ReadStep<E>)
        ensures
            read_starts(canceler.canceled(), canceler.closed(), len as nat, step),
            step is Wait <==> !canceler.canceled() && !canceler.closed() && len > 0,
            step is Wait || step is Return,
    {
        if canceler.is_canceled() {
            return ReadStep::Return(Err(Failure::Canceled(Canceled)));
        }
        if canceler.is_closed() {
            return ReadStep::Return(
                Err(Failure::Message(String::from_str("reader is closed"))),
            );
        }
        if len == 0 {
            return ReadStep::Return(Ok(0));
        }
        ReadStep::Wait
    }

    fn cancel(&self, canceler: &mut Canceler) -> (step: CancelStep) {
        canceler.cancel()
    }

    fn close(&mut self, canceler: &mut Canceler) -> (step: CloseStep)
        ensures
            *final(self) == *old(self),
            close_leads(old(canceler).inner->Unix_0, final(canceler).inner->Unix_0, step),
    {
        match &mut canceler.inner {
            CancelerInner::Unix(state) => state.close(),
            _ => CloseStep::Done(Ok(())),
        }
    }
}

} // verus!
