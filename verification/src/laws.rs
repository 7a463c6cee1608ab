//! What holds of the readers as a whole.
//!
//! A run of an operation is written as the sequence of its steps and the sequence
//! of what the program reported between them.

pub mod building;
pub mod canceling;
pub mod closing;
pub mod errors;
pub mod operations;
pub mod reading;
pub mod texts;

use crate::canceler::{cancel_starts, Canceler, CancelerInner};
use crate::chan::{receives, sends};
use crate::error::{
    holds_cancellation, io_kind, io_text, node_holds_cancellation, node_text, Canceled, ErrorKind,
    ErrorNode, IoError,
};
use crate::flag::lemma_same_flag;
use crate::input::{Named, RawDescriptor, RawInput};
use crate::step::{failure_io, CancelStep, CloseStep, Failure, ReadStep};
use crate::unix;
use crate::unix::setup::{
    cancel_watched_leads, created_leads, hands_out, input_watched_leads, kind_for, piped_leads,
    setup_starts, SetupStep, SetupView, UnixPlatform,
};
use crate::unix::{Kind, Wait, WaitFault};
use crate::windows;
use crate::windows::{WaitOutcome, WinView, RENDEZVOUS_MILLIS};
use crate::{routed, NewReader, Platform};
use vstd::prelude::*;

verus! {

/// What the program reported between two steps of a read of a Unix backend.
pub ghost enum ReadMove<E> {
    /// What came of a wait, and whether the flag was set by then.
    Waited { canceled: bool, wait: Wait<E> },
    /// What came of draining the cancel pipe.
    Drained(Result<(), String>),
    /// What reading the input returned.
    InputRead(Result<usize, E>),
}

/// Whether a report fits the step before it and leads to the step after it.
pub open spec fn move_leads<E>(from: ReadStep<E>, made: ReadMove<E>, to: ReadStep<E>) -> bool {
    match made {
        ReadMove::Waited { canceled, wait } => from is Wait && unix::wait_leads(canceled, wait, to),
        ReadMove::Drained(drained) => from is DrainCancel && unix::drain_leads(drained, to),
        ReadMove::InputRead(result) => from is ReadInput && unix::input_leads(result, to),
    }
}

/// A run of a read of a Unix backend, from its beginning on, when the reader was
/// `canceled` or `closed` or neither.
pub open spec fn is_read<E>(
    canceled: bool,
    closed: bool,
    len: nat,
    steps: Seq<ReadStep<E>>,
    moves: Seq<ReadMove<E>>,
) -> bool {
    &&& steps.len() == moves.len() + 1
    &&& unix::read_starts(canceled, closed, len, steps[0])
    &&& forall|i: int| #![trigger moves[i]]
        0 <= i < moves.len() ==> move_leads(steps[i], moves[i], steps[i + 1])
}

/// The flag, once seen set during a read, is seen set for the rest of it.
pub open spec fn flag_keeps<E>(moves: Seq<ReadMove<E>>) -> bool {
    forall|i: int, j: int| #![trigger moves[i], moves[j]]
        0 <= i <= j < moves.len() && moves[i] is Waited && moves[i]->canceled && moves[j] is Waited
            ==> moves[j]->canceled
}

/// An abort consumes no input: a read of a Unix backend that returns a cancellation
/// has not read the input.
pub proof fn law_abort_consumes_nothing<E>(
    canceled: bool,
    closed: bool,
    len: nat,
    steps: Seq<ReadStep<E>>,
    moves: Seq<ReadMove<E>>,
)
    requires
        is_read(canceled, closed, len, steps, moves),
        steps.last() == ReadStep::<E>::Return(Err(Failure::Canceled(Canceled))),
    ensures
        forall|i: int| 0 <= i < steps.len() ==> !(#[trigger] steps[i] is ReadInput),
{
    assert forall|i: int| 0 <= i < steps.len() implies !(#[trigger] steps[i] is ReadInput) by {
        if steps[i] is ReadInput {
            assert(move_leads(steps[i], moves[i], steps[i + 1]));
            if i + 1 < moves.len() {
                assert(move_leads(steps[i + 1], moves[i + 1], steps[i + 2]));
            }
        }
    }
}

/// A cancel wins even when the input is ready: once a wait of a read ended with the
/// flag set, the read does not read the input.
pub proof fn law_cancel_wins<E>(
    canceled: bool,
    closed: bool,
    len: nat,
    steps: Seq<ReadStep<E>>,
    moves: Seq<ReadMove<E>>,
    k: int,
)
    requires
        is_read(canceled, closed, len, steps, moves),
        flag_keeps(moves),
        0 <= k < moves.len(),
        moves[k] is Waited,
        moves[k]->canceled,
    ensures
        forall|i: int|
            k < i < steps.len() ==> !(#[trigger] steps[i] is ReadInput) && !(
            steps[i] matches ReadStep::Return(Ok(_))),
{
    assert forall|i: int| k < i < steps.len() implies !(#[trigger] steps[i] is ReadInput) && !(
    steps[i] matches ReadStep::Return(Ok(_))) by {
        assert(move_leads(steps[i - 1], moves[i - 1], steps[i - 1 + 1]));
        if i - 1 > k {
            assert(move_leads(steps[i - 2], moves[i - 2], steps[i - 2 + 1]));
        }
        let at_k = moves[k];
    }
}

/// A read of a Unix backend that read the input returns what that read returned.
pub proof fn law_input_passes_through<E>(
    canceled: bool,
    closed: bool,
    len: nat,
    steps: Seq<ReadStep<E>>,
    moves: Seq<ReadMove<E>>,
    k: int,
)
    requires
        is_read(canceled, closed, len, steps, moves),
        0 <= k < moves.len(),
        moves[k] is InputRead,
    ensures
        k == moves.len() - 1,
        unix::input_leads(moves[k]->InputRead_0, steps.last()),
        moves[k]->InputRead_0 matches Ok(n) ==> steps.last() == ReadStep::<E>::Return(Ok(n)),
        moves[k]->InputRead_0 matches Err(err) ==> steps.last() == ReadStep::<E>::Return(
            Err(Failure::Outside(err)),
        ),
        !closed && !canceled && len > 0,
{
    assert(move_leads(steps[k], moves[k], steps[k + 1]));
    if k + 1 < moves.len() {
        assert(move_leads(steps[k + 1], moves[k + 1], steps[k + 2]));
    }
    if moves.len() > 0 {
        assert(move_leads(steps[0], moves[0], steps[1]));
    }
}

/// An abort consumes no input on Windows either: once a read is past the wait and reads
/// the console, none of the steps that follow ends it with a cancellation.
pub proof fn law_windows_abort_consumes_nothing<E>(
    len: usize,
    event: isize,
    last_error: Seq<char>,
    begun: windows::AsyncStep<E>,
    started: i32,
    code: u32,
    err: E,
    done: i32,
    n: u32,
)
    requires
        windows::event_created_leads(len, event, last_error, begun),
    ensures
        !ends_canceled(begun),
        !ends_canceled(windows::read_started_leads(started, code, err)),
        !ends_canceled(windows::read_finished_leads::<E>(done, n)),
{
}

/// Whether a step ends an overlapped read with a cancellation.
pub open spec fn ends_canceled<E>(step: windows::AsyncStep<E>) -> bool {
    ||| step matches windows::AsyncStep::Return(Err(Failure::Canceled(_)))
    ||| step matches windows::AsyncStep::Abandon(Failure::Canceled(_))
}

/// A signal that interrupts a wait does not end the read.
pub proof fn law_signal_waits_again<E>(canceled: bool, step: ReadStep<E>)
    requires
        unix::wait_leads(canceled, unix::faulted::<E>(WaitFault::Interrupted), step),
    ensures
        step is Wait,
{
}

/// After a cancel every new read returns a cancellation at once, whatever the backend and
/// whether the reader is open or closed, and a wait that ends thereafter does not lead to the input.
pub proof fn law_cancel_stops_reads<E>(before: Canceler, after: Canceler, cancel: CancelStep)
    requires
        cancel_starts(before.inner, after.inner, cancel),
    ensures
        after.canceled(),
        crate::fallback::read_starts::<E>(after.canceled()) == ReadStep::<E>::Return(
            Err(Failure::Canceled(Canceled)),
        ),
        windows::read_starts::<E>(after.canceled()) == ReadStep::<E>::Return(
            Err(Failure::Canceled(Canceled)),
        ),
        forall|closed: bool, len: nat, step: ReadStep<E>| #[trigger]
            unix::read_starts(after.canceled(), closed, len, step) ==> step
                == ReadStep::<E>::Return(Err(Failure::Canceled(Canceled))),
        forall|wait: Wait<E>, step: ReadStep<E>| #[trigger]
            unix::wait_leads(after.canceled(), wait, step) ==> !(step is ReadInput),
        forall|wait: Result<WaitOutcome, String>| !(#[trigger]
            windows::wait_leads::<E>(after.canceled(), wait) is ReadInput),
{
}

/// Whether a close of a Unix reader leads from one state to another.
pub open spec fn closes(before: unix::CancelState, after: unix::CancelState) -> bool {
    exists|step: CloseStep| unix::close_leads(before, after, step)
}

/// Any operation that changes what cancels a reader.
pub open spec fn canceler_moves(before: Canceler, after: Canceler) -> bool {
    ||| exists|step: CancelStep| cancel_starts(before.inner, after.inner, step)
    ||| match (before.inner, after.inner) {
        (CancelerInner::Unix(b), CancelerInner::Unix(a)) => {
            ||| exists|written: bool, step: CancelStep| unix::wake_leads(b, a, written, step)
            ||| closes(b, a)
        },
        (CancelerInner::Windows(b), CancelerInner::Windows(a)) => {
            ||| exists|waited: u64, step: CancelStep| windows::rendezvous_leads(b, a, waited, step)
            ||| exists|result: i32, step: CancelStep|
                windows::event_set_leads(b, a, result, step)
            ||| exists|step: CancelStep| windows::leave_leads(b, a, step)
            ||| exists|sent: bool|
                #[trigger] sends(b.full(), a.full(), sent) && a.canceled() == b.canceled()
            ||| exists|received: bool|
                #[trigger] receives(b.full(), a.full(), received) && a.canceled() == b.canceled()
        },
        _ => false,
    }
}

/// A cancel is for good: whatever is done to what cancels a reader, a reader that is
/// canceled stays canceled.
pub proof fn law_canceled_for_good(states: Seq<Canceler>, i: int, j: int)
    requires
        forall|k: int|
            #![trigger states[k]]
            0 <= k < states.len() - 1 ==> canceler_moves(states[k], states[k + 1]),
        0 <= i <= j < states.len(),
        states[i].canceled(),
    ensures
        states[j].canceled(),
    decreases j - i,
{
    if i < j {
        law_canceled_for_good(states, i, j - 1);
        assert(canceler_moves(states[j - 1], states[j - 1 + 1]));
    }
}

/// A cancel of the fallback backend always reports `false`, and the next one meets
/// the fallback again.
pub proof fn law_fallback_cancel_reports_false(before: Canceler, after: Canceler, step: CancelStep)
    requires
        before.inner is Fallback,
        cancel_starts(before.inner, after.inner, step),
    ensures
        step == CancelStep::Done(false),
        after.inner is Fallback,
{
}

/// However often an open Unix reader is canceled, only the first cancel writes to the
/// cancel pipe, and every later one reports what came of that, or `false` once the reader
/// is closed.
///
/// `states` are the states in which the cancels begin, `begun` those after each cancel
/// began, `ended` those after it was over, `written` says whether a write would succeed,
/// and `results` are the steps with which the cancels end. The reader may be closed
/// between two cancels.
pub proof fn law_wake_byte_written_once(
    states: Seq<unix::CancelState>,
    begun: Seq<unix::CancelState>,
    ended: Seq<unix::CancelState>,
    steps: Seq<CancelStep>,
    written: Seq<bool>,
    results: Seq<CancelStep>,
    k: int,
)
    requires
        states.len() == steps.len() + 1,
        begun.len() == steps.len(),
        ended.len() == steps.len(),
        written.len() == steps.len(),
        results.len() == steps.len(),
        !states[0].canceled(),
        !states[0].closed(),
        forall|i: int|
            #![trigger steps[i]]
            0 <= i < steps.len() ==> {
                &&& cancel_starts(
                    CancelerInner::Unix(states[i]),
                    CancelerInner::Unix(begun[i]),
                    steps[i],
                )
                &&& if steps[i] is WriteWake {
                    unix::wake_leads(begun[i], ended[i], written[i], results[i])
                } else {
                    ended[i] == begun[i] && results[i] == steps[i]
                }
                &&& states[i + 1] == ended[i] || closes(ended[i], states[i + 1])
            },
        0 <= k < steps.len(),
    ensures
        steps[k] == if k == 0 {
            CancelStep::WriteWake(99)
        } else if states[k].closed() {
            CancelStep::Done(false)
        } else {
            CancelStep::Done(written[0])
        },
        results[k] == CancelStep::Done(written[0] && !states[k].closed()),
        states[k + 1].canceled(),
        states[k + 1].delivered() == written[0],
    decreases k,
{
    if k > 0 {
        law_wake_byte_written_once(states, begun, ended, steps, written, results, k - 1);
    }
    let cancel = steps[k];
}

/// Closing a Unix reader twice is safe: the second close changes nothing and reports
/// success.
pub proof fn law_second_close_succeeds(
    before: unix::CancelState,
    closed: unix::CancelState,
    after: unix::CancelState,
    first: CloseStep,
    second: CloseStep,
)
    requires
        unix::close_leads(before, closed, first),
        unix::close_leads(closed, after, second),
    ensures
        after == closed,
        second == CloseStep::Done(Ok(())),
{
    unix::lemma_same_state(after, closed);
}

/// Closing a Windows reader twice is safe, whatever came of the first close: the second
/// one changes nothing and reports success.
pub proof fn law_windows_second_close_succeeds(
    before: WinView,
    closing: WinView,
    result: i32,
    last_error: Seq<char>,
    closed: WinView,
    after: WinView,
    first: CloseStep,
    next: CloseStep,
    second: CloseStep,
)
    requires
        windows::close_starts(before, closing, first),
        windows::event_closed_leads(closing, closed, result, last_error, next),
        windows::close_starts(closed, after, second),
    ensures
        after == closed,
        second == CloseStep::Done(Ok(())),
{
}

/// A read of a closed Unix reader fails at once: with a cancellation where the reader is
/// canceled, before the close or after it, and else because it is closed.
pub proof fn law_closed_reader_fails<E>(
    before: unix::CancelState,
    after: unix::CancelState,
    close: CloseStep,
    canceled: bool,
    len: nat,
    step: ReadStep<E>,
)
    requires
        unix::close_leads(before, after, close),
        before.canceled() ==> canceled,
        unix::read_starts(canceled, after.closed(), len, step),
    ensures
        if canceled {
            step == ReadStep::<E>::Return(Err(Failure::Canceled(Canceled)))
        } else {
            step matches ReadStep::Return(Err(Failure::Message(text))) && text@
                == "reader is closed"@
        },
{
}

/// A cancel of a closed Unix reader writes nothing, reports `false` and still marks the
/// reader canceled.
pub proof fn law_closed_reader_cancel_reports_false(
    before: unix::CancelState,
    closed: unix::CancelState,
    after: unix::CancelState,
    close: CloseStep,
    cancel: CancelStep,
)
    requires
        unix::close_leads(before, closed, close),
        cancel_starts(CancelerInner::Unix(closed), CancelerInner::Unix(after), cancel),
    ensures
        cancel == CancelStep::Done(false),
        after.canceled(),
        after.closed(),
{
}

/// A handle cancels like its reader, whatever the backend and whether the reader is open
/// or closed: from one state, two cancels begin with the same step and leave the same
/// state, one through the reader and one through the handle too.
pub proof fn law_handle_cancels_like_reader(
    before: Canceler,
    by_reader: Canceler,
    reader_step: CancelStep,
    by_handle: Canceler,
    handle_step: CancelStep,
)
    requires
        cancel_starts(before.inner, by_reader.inner, reader_step),
        cancel_starts(before.inner, by_handle.inner, handle_step),
    ensures
        reader_step == handle_step,
        by_reader == by_handle,
{
    match before.inner {
        CancelerInner::Fallback(_) => {
            lemma_same_flag(by_reader.inner->Fallback_0, by_handle.inner->Fallback_0);
        },
        CancelerInner::Unix(_) => {
            unix::lemma_same_state(by_reader.inner->Unix_0, by_handle.inner->Unix_0);
        },
        CancelerInner::Windows(_) => {
            windows::lemma_same_state(by_reader.inner->Windows_0, by_handle.inner->Windows_0);
        },
    }
}

/// What the program reported between two steps of building a Unix backend.
pub ghost enum SetupMove<E> {
    Created(Result<(), E>),
    Piped(Result<i32, E>),
    InputWatched(bool),
    CancelWatched(bool),
}

/// Whether a report fits the step before it and leads to the step after it, where
/// the cancel pipe's read end is `cancel`.
pub open spec fn setup_leads<E>(
    setup: SetupView,
    cancel: i32,
    from: SetupStep<E>,
    made: SetupMove<E>,
    to: SetupStep<E>,
) -> bool {
    match made {
        SetupMove::Created(created) => {
            &&& from is CreateEpoll || from is CreateKqueue
            &&& to == created_leads(created)
        },
        SetupMove::Piped(piped) => {
            &&& from is MakePipe
            &&& piped matches Ok(fd) ==> fd == cancel
            &&& piped_leads(setup, piped, to)
        },
        SetupMove::InputWatched(watched) => {
            &&& from is WatchInput
            &&& input_watched_leads(cancel, watched, to)
        },
        SetupMove::CancelWatched(watched) => {
            &&& from is WatchCancel
            &&& cancel_watched_leads(setup, cancel, watched, to)
        },
    }
}

/// A run of building a Unix backend, from its beginning on.
pub open spec fn is_setup<E>(
    setup: SetupView,
    cancel: i32,
    steps: Seq<SetupStep<E>>,
    moves: Seq<SetupMove<E>>,
) -> bool {
    &&& steps.len() == moves.len() + 1
    &&& steps[0] == setup_starts::<E>(setup)
    &&& forall|i: int| #![trigger moves[i]]
        0 <= i < moves.len() ==> setup_leads(setup, cancel, steps[i], moves[i], steps[i + 1])
}

/// Whether a step asks for what belongs to the reader that is being built: its own
/// readiness primitive, and its own two descriptors to watch, each with its number as
/// event data.
pub open spec fn asks_rightly<E>(setup: SetupView, cancel: i32, step: SetupStep<E>) -> bool {
    &&& step is CreateEpoll ==> setup.kind is Epoll
    &&& step is CreateKqueue ==> setup.kind is Kqueue
    &&& step matches SetupStep::WatchInput { fd, data } ==> setup.kind is Epoll && fd == setup.input
        && data == fd as u64
    &&& step matches SetupStep::WatchCancel { fd, data } ==> setup.kind is Epoll && fd == cancel
        && data == fd as u64
}

/// Building a Unix backend ends in one of these ways.
///
/// Only `select` falls back, and only where one of the two descriptors does not fit
/// into a set. A reader that is handed out is open, uncanceled and watches the
/// input and the cancel pipe, and with `select` both descriptors fit.
pub proof fn law_setup_outcomes<E>(
    setup: SetupView,
    cancel: i32,
    steps: Seq<SetupStep<E>>,
    moves: Seq<SetupMove<E>>,
    k: int,
)
    requires
        is_setup(setup, cancel, steps, moves),
        0 <= k < steps.len(),
    ensures
        asks_rightly(setup, cancel, steps[k]),
        steps[k] is Fallback ==> (setup.kind matches Kind::Select { fd_setsize } && (setup.input
            >= fd_setsize || cancel >= fd_setsize)),
        steps[k] is Ready ==> hands_out(setup, cancel, steps[k]),
        steps[k] is Ready ==> (setup.kind matches Kind::Select { fd_setsize } ==> setup.input
            < fd_setsize && cancel < fd_setsize),
    decreases k,
{
    if k > 0 {
        law_setup_outcomes(setup, cancel, steps, moves, k - 1);
        assert(setup_leads(setup, cancel, steps[k - 1], moves[k - 1], steps[k - 1 + 1]));
    }
}

/// How many system calls are left from a step on until the reader is handed out.
pub open spec fn calls_left<E>(setup: SetupView, step: SetupStep<E>) -> nat {
    match step {
        SetupStep::CreateEpoll => 4,
        SetupStep::CreateKqueue => 2,
        SetupStep::MakePipe => if setup.kind is Epoll {
            3
        } else {
            1
        },
        SetupStep::WatchInput { .. } => 2,
        SetupStep::WatchCancel { .. } => 1,
        SetupStep::Ready(..) => 0,
        SetupStep::Fallback => 0,
        SetupStep::Fail(_) => 0,
    }
}

/// Building a Unix backend succeeds where every system call does and, with
/// `select`, both descriptors fit into a set.
pub proof fn law_setup_succeeds<E>(
    setup: SetupView,
    cancel: i32,
    steps: Seq<SetupStep<E>>,
    moves: Seq<SetupMove<E>>,
    k: int,
)
    requires
        is_setup(setup, cancel, steps, moves),
        forall|i: int|
            0 <= i < moves.len() ==> match #[trigger] moves[i] {
                SetupMove::Created(created) => created is Ok,
                SetupMove::Piped(piped) => piped is Ok,
                SetupMove::InputWatched(watched) => watched,
                SetupMove::CancelWatched(watched) => watched,
            },
        setup.kind matches Kind::Select { fd_setsize } ==> setup.input < fd_setsize && cancel
            < fd_setsize,
        0 <= k < steps.len(),
    ensures
        !(steps[k] is Fallback),
        !(steps[k] is Fail),
        calls_left(setup, steps[k]) + k == calls_left(setup, steps[0]),
        k == calls_left(setup, steps[0]) ==> hands_out(setup, cancel, steps[k]),
    decreases k,
{
    if k > 0 {
        law_setup_succeeds(setup, cancel, steps, moves, k - 1);
        assert(setup_leads(setup, cancel, steps[k - 1], moves[k - 1], steps[k - 1 + 1]));
        let made = moves[k - 1];
        law_setup_outcomes(setup, cancel, steps, moves, k);
        law_setup_outcomes(setup, cancel, steps, moves, k - 1);
    }
}

/// On macOS and the BSDs an input named `/dev/tty` waits with `select` and any other
/// with kqueue. Elsewhere the name does not matter.
pub proof fn law_dev_tty_uses_select(name: Seq<char>, fd_setsize: i32)
    ensures
        kind_for(UnixPlatform::Bsd, "/dev/tty"@, fd_setsize) == (Kind::Select { fd_setsize }),
        name != "/dev/tty"@ ==> kind_for(UnixPlatform::Bsd, name, fd_setsize) == Kind::Kqueue,
        kind_for(UnixPlatform::Linux, name, fd_setsize) == Kind::Epoll,
        kind_for(UnixPlatform::Solaris, name, fd_setsize) == (Kind::Select { fd_setsize }),
{
}

/// An input tagged with the name `/dev/tty` routes to `select` on macOS and the BSDs, with
/// the descriptor of the input itself.
pub proof fn law_tagged_terminal_uses_select<R: RawInput, E>(
    tagged: &Named<R>,
    fd_setsize: i32,
    raw: RawDescriptor,
    name: &str,
    begun: NewReader<E>,
)
    requires
        tagged.name@ == "/dev/tty"@,
        call_ensures(<Named<R> as RawInput>::raw, (tagged,), raw),
        call_ensures(<Named<R> as RawInput>::name, (tagged,), name),
        routed(Platform::Unix { flavor: UnixPlatform::Bsd, fd_setsize }, raw, name@, begun),
    ensures
        call_ensures(R::raw, (&tagged.inner,), raw),
        raw matches RawDescriptor::Fd(fd) ==> (begun matches NewReader::Unix(setup, step) && setup@
            == (SetupView { input: fd, kind: Kind::Select { fd_setsize } })),
{
}

/// The data that a descriptor is registered with tells the input from the cancel
/// pipe: an event of the one is never taken for one of the other.
pub proof fn law_event_data_identifies<E>(input: i32, cancel: i32)
    requires
        0 <= input,
        0 <= cancel,
        input != cancel,
    ensures
        unix::reported::<E>(
            seq![input as u64].contains(cancel as u64),
            seq![input as u64].len() > 0,
        ) == Wait::<E>::Ready,
        unix::reported::<E>(
            seq![cancel as u64].contains(cancel as u64),
            seq![cancel as u64].len() > 0,
        ) == Wait::<E>::Canceled,
        unix::reported::<E>(
            seq![input as u64, cancel as u64].contains(cancel as u64),
            seq![input as u64, cancel as u64].len() > 0,
        ) == Wait::<E>::Canceled,
{
    assert(seq![cancel as u64][0] == cancel as u64);
    assert(seq![input as u64, cancel as u64][1] == cancel as u64);
}

/// As long as a wedged read keeps the rendezvous slot full, a Windows cancel neither
/// sets the event nor reports success: it waits for 100 milliseconds in all and then
/// reports `false`.
pub proof fn law_wedged_read_defeats_cancel(waited: u64)
    ensures
        !(windows::rendezvous_step(true, waited) is SetEvent),
        windows::rendezvous_step(true, waited) == CancelStep::Done(false) <==> waited
            >= RENDEZVOUS_MILLIS,
        waited < RENDEZVOUS_MILLIS ==> windows::rendezvous_step(true, waited)
            == CancelStep::AwaitSlot((RENDEZVOUS_MILLIS - waited) as u64),
{
}

/// A Windows cancel that finds the slot free and sets the event succeeds and leaves
/// the slot free for the next one.
pub proof fn law_free_slot_cancel_succeeds(
    before: windows::CancelState,
    begun: windows::CancelState,
    after: windows::CancelState,
    result: i32,
    first: CancelStep,
    last: CancelStep,
)
    requires
        !before.full(),
        cancel_starts(
            CancelerInner::Windows(before),
            CancelerInner::Windows(begun),
            first,
        ),
        windows::event_set_leads(begun, after, result, last),
        windows::succeeded(result),
    ensures
        first == CancelStep::SetEvent,
        last == CancelStep::Done(true),
        after.canceled(),
        !after.full(),
{
}

/// The console mode that a close restores is the one that was read when the reader
/// was built.
pub proof fn law_console_mode_restored(
    original_mode: u32,
    results: Seq<i32>,
    event: isize,
    last_error: Seq<char>,
    read: windows::setup::SetupStep,
    set: windows::setup::SetupStep,
    flushed: windows::setup::SetupStep,
    built: windows::setup::SetupStep,
    closing: WinView,
    event_closed: WinView,
    close: CloseStep,
    reset: CloseStep,
)
    requires
        results.len() == 4,
        forall|i: int| 0 <= i < 4 ==> windows::succeeded(#[trigger] results[i]),
        event != 0,
        windows::setup::mode_read_leads(results[0], original_mode, last_error, read),
        windows::setup::mode_set_leads(read->SetConsoleMode_reset, results[1], last_error, set),
        windows::setup::flushed_leads(set->FlushConsole_reset, results[2], last_error, flushed),
        windows::setup::event_created_leads(flushed->CreateEvent_reset, event, last_error, built),
        windows::close_starts(built->Ready_0@, closing, close),
        windows::event_closed_leads(closing, event_closed, results[3], last_error, reset),
    ensures
        close == CloseStep::CloseEvent,
        reset == CloseStep::ResetConsole(original_mode),
{
}

/// A cancellation that a backend returns is an I/O error of no special kind whose text is
/// `read canceled` and whose inner value is the cancellation.
pub proof fn law_cancellation_wrapped_once(canceled: Canceled)
    ensures
        io_kind(failure_io(Failure::Canceled(canceled))) == ErrorKind::Other,
        io_text(failure_io(Failure::Canceled(canceled))) == "read canceled"@,
        failure_io(Failure::Canceled(canceled)) matches IoError::Custom { kind, inner } && *inner
            == ErrorNode::Canceled(canceled),
{
    reveal_with_fuel(io_text, 2);
    reveal_with_fuel(node_text, 2);
}

/// A cancellation that a backend returns is recognized, and of the other failures
/// only an outside error that holds a cancellation itself.
pub proof fn law_cancellation_recognized(failure: Failure<IoError>)
    ensures
        holds_cancellation(failure_io(failure)) == match failure {
            Failure::Canceled(_) => true,
            Failure::Outside(err) => holds_cancellation(err),
            Failure::Message(_) => false,
        },
{
    reveal_with_fuel(node_holds_cancellation, 2);
}

/// An I/O error wrapped in further I/O errors of these kinds, the last one outermost.
pub open spec fn wrapped(err: IoError, kinds: Seq<ErrorKind>) -> IoError
    decreases kinds.len(),
{
    if kinds.len() == 0 {
        err
    } else {
        IoError::Custom {
            kind: kinds.last(),
            inner: Box::new(ErrorNode::Io(wrapped(err, kinds.drop_last()))),
        }
    }
}

/// Wrapping an error in I/O errors to any depth, or as the source of another error,
/// neither hides a cancellation nor makes one up.
pub proof fn law_wrapping_keeps_cancellation(
    err: IoError,
    kinds: Seq<ErrorKind>,
    text: String,
    node: ErrorNode,
)
    ensures
        holds_cancellation(wrapped(err, kinds)) == holds_cancellation(err),
        node_holds_cancellation(ErrorNode::Foreign { text, source: Some(Box::new(node)) })
            == node_holds_cancellation(node),
    decreases kinds.len(),
{
    if kinds.len() > 0 {
        law_wrapping_keeps_cancellation(err, kinds.drop_last(), text, node);
        reveal_with_fuel(holds_cancellation, 2);
        reveal_with_fuel(node_holds_cancellation, 2);
    }
}

/// One use of the rendezvous slot by a party, a read or a cancel.
pub ghost enum SlotUse {
    /// The party tries to fill the slot.
    Fill(nat),
    /// The party, which filled the slot, empties it.
    Empty(nat),
}

/// The party that holds the slot after the first `n` uses: it filled the slot and has
/// not emptied it.
pub open spec fn slot_holder(uses: Seq<SlotUse>, n: nat) -> Option<nat>
    decreases n,
{
    if n == 0 {
        None
    } else {
        let before = slot_holder(uses, (n - 1) as nat);
        match uses[n - 1] {
            SlotUse::Fill(party) => if before is None {
                Some(party)
            } else {
                before
            },
            SlotUse::Empty(_) => None,
        }
    }
}

/// Whether only the party that holds the slot empties it. A party that never does, a
/// wedged read, holds it for good.
pub open spec fn slot_used_rightly(uses: Seq<SlotUse>) -> bool {
    forall|i: int|
        #![trigger uses[i]]
        0 <= i < uses.len() && uses[i] is Empty ==> slot_holder(uses, i as nat) == Some(
            uses[i]->Empty_0,
        )
}

/// The rendezvous slot is full exactly while a party holds it. So a party gets past it
/// where no other holds it, and one that empties it never blocks.
///
/// `fulls` says between the uses whether the slot is full, and `through` for each use
/// whether it went through.
pub proof fn law_slot_has_one_holder(
    uses: Seq<SlotUse>,
    fulls: Seq<bool>,
    through: Seq<bool>,
    n: nat,
)
    requires
        slot_used_rightly(uses),
        fulls.len() == uses.len() + 1,
        through.len() == uses.len(),
        !fulls[0],
        forall|i: int|
            #![trigger uses[i]]
            0 <= i < uses.len() ==> if uses[i] is Fill {
                sends(fulls[i], fulls[i + 1], through[i])
            } else {
                receives(fulls[i], fulls[i + 1], through[i])
            },
        n <= uses.len(),
    ensures
        fulls[n as int] == (slot_holder(uses, n) is Some),
        n < uses.len() ==> through[n as int] == (uses[n as int] is Empty || slot_holder(
            uses,
            n,
        ) is None),
    decreases n,
{
    if n > 0 {
        law_slot_has_one_holder(uses, fulls, through, (n - 1) as nat);
        let last = uses[n - 1];
    }
    if n < uses.len() {
        let next = uses[n as int];
    }
}

} // verus!
