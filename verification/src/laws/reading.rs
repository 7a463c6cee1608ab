//! What a read does and returns, and what led to it.

use crate::canceler::Canceler;
use crate::error::Canceled;
use crate::fallback;
use crate::fallback::FallbackCancelReader;
use crate::fd_set::{element_bits, FdSet};
use crate::laws::{is_read, move_leads, ReadMove};
use crate::step::{Failure, ReadStep};
use crate::unix;
use crate::unix::{Backend, Kind, KqueueEvent, Wait, WaitCall, WaitFault};
use crate::windows;
use crate::windows::{AsyncStep, WaitOutcome, WinCancelReader};
use vstd::prelude::*;

verus! {

/// A read of a Unix backend begins with a wait exactly where the reader is neither
/// canceled nor closed and there is room in the buffer, whatever the buffer's length. It
/// never begins by reading the input or the cancel pipe.
pub proof fn law_unix_read_begins<E>(canceled: bool, closed: bool, len: nat, step: ReadStep<E>)
    requires
        unix::read_starts(canceled, closed, len, step),
    ensures
        step is Wait <==> !canceled && !closed && len > 0,
        step is Wait || step is Return,
        step matches ReadStep::Return(Ok(n)) ==> n == 0,
        step matches ReadStep::Return(Ok(_)) <==> !canceled && !closed && len == 0,
        step matches ReadStep::Return(Err(Failure::Canceled(_))) <==> canceled,
        step matches ReadStep::Return(Err(Failure::Message(text))) ==> text@ == "reader is closed"@,
        step matches ReadStep::Return(Err(Failure::Message(_))) <==> !canceled && closed,
{
}

/// A read of a Unix backend reads the input only directly after a wait that reported the
/// input ready with the flag not set, and only one that had to wait in the first place.
pub proof fn law_input_read_only_when_ready<E>(
    canceled: bool,
    closed: bool,
    len: nat,
    steps: Seq<ReadStep<E>>,
    moves: Seq<ReadMove<E>>,
    k: int,
)
    requires
        is_read(canceled, closed, len, steps, moves),
        0 <= k < steps.len(),
        steps[k] is ReadInput,
    ensures
        k > 0,
        steps[k - 1] is Wait,
        moves[k - 1] == (ReadMove::<E>::Waited { canceled: false, wait: Wait::Ready }),
        steps[0] is Wait,
        !canceled && !closed && len > 0,
{
    if k > 0 {
        assert(move_leads(steps[k - 1], moves[k - 1], steps[k - 1 + 1]));
        assert(move_leads(steps[0], moves[0], steps[1]));
    }
}

/// The cancel pipe is drained only directly after a wait that reported it.
pub proof fn law_cancel_drained_only_when_fired<E>(
    canceled: bool,
    closed: bool,
    len: nat,
    steps: Seq<ReadStep<E>>,
    moves: Seq<ReadMove<E>>,
    k: int,
)
    requires
        is_read(canceled, closed, len, steps, moves),
        0 <= k < steps.len(),
        steps[k] is DrainCancel,
    ensures
        k > 0,
        steps[k - 1] is Wait,
        moves[k - 1] matches ReadMove::Waited { canceled: _, wait: Wait::Canceled },
{
    if k > 0 {
        assert(move_leads(steps[k - 1], moves[k - 1], steps[k - 1 + 1]));
    }
}

/// Whatever a read of a Unix backend returns comes from what happened last.
///
/// A number of bytes is what the input gave, or zero for an empty buffer. A cancellation
/// means that the flag was set or that the cancel pipe was drained. An outside error is
/// that of the input or of the wait. A text says that the reader is closed, that a wait
/// reported nothing, or how draining or waiting failed.
pub proof fn law_unix_read_returns<E>(
    canceled: bool,
    closed: bool,
    len: nat,
    steps: Seq<ReadStep<E>>,
    moves: Seq<ReadMove<E>>,
)
    requires
        is_read(canceled, closed, len, steps, moves),
        steps.last() is Return,
    ensures
        match steps.last()->Return_0 {
            Ok(n) => if moves.len() == 0 {
                len == 0 && n == 0 && !canceled && !closed
            } else {
                moves.last() == ReadMove::<E>::InputRead(Ok(n))
            },
            Err(Failure::Canceled(_)) => if moves.len() == 0 {
                canceled
            } else {
                ||| moves.last() == (ReadMove::<E>::Waited { canceled: true, wait: Wait::Ready })
                ||| moves.last() matches ReadMove::Drained(Ok(_))
                ||| moves.last() matches ReadMove::Waited {
                    canceled: _,
                    wait: Wait::Failed(Failure::Canceled(_)),
                }
            },
            Err(Failure::Outside(err)) => {
                &&& moves.len() > 0
                &&& match moves.last() {
                    ReadMove::InputRead(result) => result == Err::<usize, E>(err),
                    ReadMove::Waited { canceled: _, wait } => wait == Wait::Failed(
                        Failure::Outside(err),
                    ),
                    ReadMove::Drained(_) => false,
                }
            },
            Err(Failure::Message(text)) => if moves.len() == 0 {
                !canceled && closed && text@ == "reader is closed"@
            } else {
                match moves.last() {
                    ReadMove::Waited { canceled: _, wait: Wait::Unknown } => text@
                        == "unknown error"@,
                    ReadMove::Waited {
                        canceled: _,
                        wait: Wait::Failed(Failure::Message(said)),
                    } => text == said,
                    ReadMove::Drained(Err(detail)) => text@ == "reading cancel signal: "@ + detail@,
                    _ => false,
                }
            },
        },
{
    if moves.len() > 0 {
        let k = moves.len() - 1;
        assert(move_leads(steps[k], moves[k], steps[k + 1]));
    }
}

/// How a read of a Unix backend goes on after each report: it waits again only after a
/// signal, reads the input exactly where it is ready and nobody canceled, drains the
/// cancel pipe exactly where that fired, and is over after every other report.
pub proof fn law_unix_read_goes_on<E>(
    canceled: bool,
    closed: bool,
    len: nat,
    steps: Seq<ReadStep<E>>,
    moves: Seq<ReadMove<E>>,
    k: int,
)
    requires
        is_read(canceled, closed, len, steps, moves),
        0 <= k < moves.len(),
    ensures
        steps[k + 1] is Wait <==> (moves[k] matches ReadMove::Waited {
            canceled: _,
            wait: Wait::Again,
        }),
        steps[k + 1] is ReadInput <==> moves[k] == (ReadMove::<E>::Waited {
            canceled: false,
            wait: Wait::Ready,
        }),
        steps[k + 1] is DrainCancel <==> (moves[k] matches ReadMove::Waited {
            canceled: _,
            wait: Wait::Canceled,
        }),
        steps[k + 1] is Return ==> k + 1 == moves.len(),
        moves[k] matches ReadMove::InputRead(Ok(n)) ==> steps[k + 1] == ReadStep::<E>::Return(
            Ok(n),
        ),
        moves[k] matches ReadMove::InputRead(Err(err)) ==> steps[k + 1] == ReadStep::<E>::Return(
            Err(Failure::Outside(err)),
        ),
        moves[k] matches ReadMove::Drained(Ok(_)) ==> (steps[k + 1] matches ReadStep::Return(
            Err(Failure::Canceled(_)),
        )),
        moves[k] == (ReadMove::<E>::Waited { canceled: true, wait: Wait::Ready }) ==> (steps[k
            + 1] matches ReadStep::Return(Err(Failure::Canceled(_)))),
{
    assert(move_leads(steps[k], moves[k], steps[k + 1]));
    if k + 1 < moves.len() {
        assert(move_leads(steps[k + 1], moves[k + 1], steps[k + 2]));
    }
}

/// What the operations of a read report back is taken as it is: going on after a wait
/// depends on the flag alone, and what the input returned is returned.
pub proof fn law_unix_operations_go_on<E>(
    reader: &Backend,
    canceler: &Canceler,
    wait: Wait<E>,
    waited: ReadStep<E>,
    detail: String,
    drained: ReadStep<E>,
    drain_failed: ReadStep<E>,
    n: usize,
    read: ReadStep<E>,
    err: E,
    read_failed: ReadStep<E>,
)
    requires
        call_ensures(Backend::waited::<E>, (reader, canceler, wait), waited),
        call_ensures(Backend::drained::<E>, (reader, Ok(())), drained),
        call_ensures(Backend::drained::<E>, (reader, Err(detail)), drain_failed),
        call_ensures(Backend::input_read::<E>, (reader, Ok(n)), read),
        call_ensures(Backend::input_read::<E>, (reader, Err(err)), read_failed),
    ensures
        waited is ReadInput <==> wait is Ready && !canceler.canceled(),
        wait is Ready && canceler.canceled() ==> waited == ReadStep::<E>::Return(
            Err(Failure::Canceled(Canceled)),
        ),
        waited is Wait <==> wait is Again,
        waited is DrainCancel <==> wait is Canceled,
        wait matches Wait::Failed(failure) ==> waited == ReadStep::<E>::Return(Err(failure)),
        wait is Unknown ==> (waited matches ReadStep::Return(Err(Failure::Message(text))) && text@
            == "unknown error"@),
        drained == ReadStep::<E>::Return(Err(Failure::Canceled(Canceled))),
        drain_failed matches ReadStep::Return(Err(Failure::Message(text))) && text@
            == "reading cancel signal: "@ + detail@,
        read == ReadStep::<E>::Return(Ok(n)),
        read_failed == ReadStep::<E>::Return(Err(Failure::Outside(err))),
{
}

/// What an epoll wait says of its reply. The cancel pipe has fired exactly where an event
/// carries its descriptor as data, at whatever place. The input is ready where there are
/// events and none of them is of the cancel pipe.
pub proof fn law_epoll_reply<E>(
    reader: &Backend,
    reply: Result<Vec<u64>, WaitFault<E>>,
    wait: Wait<E>,
)
    requires
        call_ensures(Backend::wait_epoll::<E>, (reader, reply), wait),
    ensures
        reply matches Ok(events) ==> {
            &&& wait is Canceled <==> exists|i: int|
                0 <= i < events@.len() && #[trigger] events@[i] == reader@.cancel as u64
            &&& wait is Ready <==> events@.len() > 0 && forall|i: int|
                0 <= i < events@.len() ==> #[trigger] events@[i] != reader@.cancel as u64
            &&& wait is Unknown <==> events@.len() == 0
        },
        wait is Again <==> reply == Err::<Vec<u64>, WaitFault<E>>(WaitFault::Interrupted),
        reply matches Err(WaitFault::Failed(err)) ==> wait == Wait::Failed(Failure::Outside(err)),
        wait is Failed ==> (reply matches Err(WaitFault::Failed(_))),
{
}

/// What a wait on the kernel queue says of its reply. The cancel pipe has fired exactly
/// where its descriptor is among those reported readable. The input is ready where there
/// are events and none of them is of the cancel pipe.
pub proof fn law_kqueue_reply<E>(
    reader: &Backend,
    reply: Result<Vec<KqueueEvent>, WaitFault<E>>,
    wait: Wait<E>,
)
    requires
        call_ensures(Backend::wait_kqueue::<E>, (reader, reply), wait),
    ensures
        reply matches Ok(events) ==> {
            &&& wait is Canceled <==> exists|i: int|
                0 <= i < events@.len() && #[trigger] events@[i] == KqueueEvent::Read(
                    reader@.cancel,
                )
            &&& wait is Ready <==> events@.len() > 0 && forall|i: int|
                0 <= i < events@.len() ==> #[trigger] events@[i] != KqueueEvent::Read(
                    reader@.cancel,
                )
            &&& wait is Unknown <==> events@.len() == 0
        },
        wait is Again <==> reply == Err::<Vec<KqueueEvent>, WaitFault<E>>(WaitFault::Interrupted),
        reply matches Err(WaitFault::Failed(err)) ==> wait == Wait::Failed(Failure::Outside(err)),
        wait is Failed ==> (reply matches Err(WaitFault::Failed(_))),
{
}

/// What a `select` says of its reply. The cancel pipe has fired exactly where it was left
/// in the set, and the input is ready exactly where it alone of the two was.
pub proof fn law_select_reply<E>(reader: &Backend, reply: Result<FdSet, WaitFault<E>>, wait: Wait<E>)
    requires
        call_ensures(Backend::wait_select::<E>, (reader, reply), wait),
        reply matches Ok(readfds) ==> readfds.wf(),
    ensures
        reply matches Ok(readfds) ==> {
            &&& wait is Canceled <==> readfds@.contains(reader@.cancel as int)
            &&& wait is Ready <==> readfds@.contains(reader@.input as int) && !readfds@.contains(
                reader@.cancel as int,
            )
            &&& wait is Unknown <==> !readfds@.contains(reader@.input as int) && !readfds@.contains(
                reader@.cancel as int,
            )
        },
        wait is Again <==> reply == Err::<FdSet, WaitFault<E>>(WaitFault::Interrupted),
        reply matches Err(WaitFault::Failed(err)) ==> wait == Wait::Failed(Failure::Outside(err)),
        wait is Failed ==> (reply matches Err(WaitFault::Failed(_))),
{
}

/// A wait watches both the input and the cancel pipe, with the reader's own primitive.
///
/// A `select` is told of exactly these two descriptors, with a number above both of them
/// and no larger than that takes, and with a set that has room below that number.
pub proof fn law_wait_watches_both(reader: &Backend, call: WaitCall)
    requires
        call_ensures(Backend::wait, (reader,), call),
        reader@.kind is Select ==> 0 <= reader@.input && 0 <= reader@.cancel,
    ensures
        call is Epoll <==> reader@.kind is Epoll,
        call is Kqueue <==> reader@.kind is Kqueue,
        call is Select <==> reader@.kind is Select,
        call matches WaitCall::Kqueue { input, cancel } ==> input == reader@.input && cancel
            == reader@.cancel,
        call matches WaitCall::Select { nfds, readfds } ==> {
            &&& reader@.input < nfds && reader@.cancel < nfds
            &&& nfds == reader@.input + 1 || nfds == reader@.cancel + 1
            &&& nfds <= readfds.room() < nfds + element_bits()
            &&& forall|fd: int|
                readfds@.contains(fd) <==> fd == reader@.input || fd == reader@.cancel
        },
{
}

/// The number for a `select` lies just above the larger of the two descriptors, and there
/// is one exactly where both fit.
pub proof fn law_select_nfds(
    reader_fd: i32,
    abort_fd: i32,
    fd_setsize: i32,
    nfds: Result<i32, String>,
    swapped: Result<i32, String>,
)
    requires
        call_ensures(unix::select_nfds, (reader_fd, abort_fd, fd_setsize), nfds),
        call_ensures(unix::select_nfds, (abort_fd, reader_fd, fd_setsize), swapped),
    ensures
        nfds is Ok <==> reader_fd < fd_setsize && abort_fd < fd_setsize,
        nfds matches Ok(n) ==> reader_fd < n && abort_fd < n && n <= fd_setsize && (n == reader_fd
            + 1 || n == abort_fd + 1),
        nfds is Ok ==> nfds == swapped,
        nfds is Err ==> swapped is Err && nfds->Err_0@ == swapped->Err_0@,
{
}

/// A read of a fallback reader that nobody canceled returns exactly what the input
/// returned, every number of bytes and every error. Once it is canceled it returns a
/// cancellation, whatever the input returned.
pub proof fn law_fallback_passes_through<R, E>(
    reader: &FallbackCancelReader<R>,
    canceler: &Canceler,
    n: usize,
    read: Result<usize, Failure<E>>,
    err: E,
    failed: Result<usize, Failure<E>>,
)
    requires
        call_ensures(FallbackCancelReader::<R>::input_read::<E>, (reader, canceler, Ok(n)), read),
        call_ensures(FallbackCancelReader::<R>::input_read::<E>, (reader, canceler, Err(err)), failed),
    ensures
        !canceler.canceled() ==> {
            &&& read matches Ok(m) && m == n
            &&& failed matches Err(Failure::Outside(e)) && e == err
        },
        canceler.canceled() ==> {
            &&& read matches Err(Failure::Canceled(_))
            &&& failed matches Err(Failure::Canceled(_))
        },
{
}

/// A read of a fallback reader goes straight to the input, unless the reader is canceled.
pub proof fn law_fallback_read_begins<E>(canceled: bool)
    ensures
        fallback::read_starts::<E>(canceled) is ReadInput <==> !canceled,
        canceled ==> fallback::read_starts::<E>(canceled) == ReadStep::<E>::Return(
            Err(Failure::Canceled(Canceled)),
        ),
{
}

/// A read of the console begins with a wait, unless the reader is canceled, and reads the
/// console only after a wait that reported it ready with the flag not set.
pub proof fn law_console_read_only_when_ready<E>(
    begun_canceled: bool,
    reader: &WinCancelReader,
    canceler: &Canceler,
    wait: Result<WaitOutcome, String>,
    step: ReadStep<E>,
)
    requires
        call_ensures(WinCancelReader::waited::<E>, (reader, canceler, wait), step),
    ensures
        windows::read_starts::<E>(begun_canceled) is Wait <==> !begun_canceled,
        begun_canceled ==> windows::read_starts::<E>(begun_canceled) == ReadStep::<E>::Return(
            Err(Failure::Canceled(Canceled)),
        ),
        step is ReadInput <==> wait == Ok::<WaitOutcome, String>(WaitOutcome::Ready)
            && !canceler.canceled(),
        step matches ReadStep::Return(Err(Failure::Canceled(_))) <==> wait == Ok::<
            WaitOutcome,
            String,
        >(WaitOutcome::Canceled) || (wait is Ok && canceler.canceled()),
        wait matches Err(text) ==> step == ReadStep::<E>::Return(Err(Failure::Message(text))),
        !(step matches ReadStep::Return(Ok(_))),
        step is ReadInput || step is Return,
{
}

/// What a wait on the console and the cancel event means: the first handle is the console
/// and the second one the cancel event. Every other result is an error.
pub proof fn law_console_wait_means(
    reader: &WinCancelReader,
    event: u32,
    last_error: &str,
    said: Result<WaitOutcome, String>,
)
    requires
        call_ensures(WinCancelReader::wait, (reader, event, last_error), said),
    ensures
        said == Ok::<WaitOutcome, String>(WaitOutcome::Ready) <==> event == 0,
        said == Ok::<WaitOutcome, String>(WaitOutcome::Canceled) <==> event == 1,
        said is Err <==> event >= 2,
        event == 128 || event == 129 ==> said->Err_0@ == "abandoned"@,
        event == 258 ==> said->Err_0@ == "timeout"@,
        event == 4294967295 ==> said->Err_0@ == "failed"@,
        event >= 2 && event != 128 && event != 129 && event != 258 && event != 4294967295
            ==> said->Err_0@ == "unexpected error: "@ + last_error@,
{
}

/// A read of the console asks for as many bytes as the buffer holds, as far as 32 bits can
/// say, and returns as many as were read.
///
/// It goes on exactly where its event was created, and blocks for its result exactly where
/// the read completed at once or is pending. The slot is freed exactly where the result
/// came.
pub proof fn law_console_read_returns_what_was_read<E>(
    reader: &WinCancelReader,
    begun: AsyncStep<E>,
    len: usize,
    event: isize,
    last_error: &str,
    created: AsyncStep<E>,
    result: i32,
    code: u32,
    err: E,
    started: AsyncStep<E>,
    done: i32,
    n: u32,
    finished: AsyncStep<E>,
)
    requires
        call_ensures(WinCancelReader::read_async::<E>, (reader,), begun),
        call_ensures(WinCancelReader::event_created::<E>, (reader, len, event, last_error), created),
        call_ensures(WinCancelReader::read_started::<E>, (reader, result, code, err), started),
        call_ensures(WinCancelReader::read_finished::<E>, (reader, done, n), finished),
    ensures
        begun is CreateEvent,
        created is StartRead <==> event != 0,
        created matches AsyncStep::StartRead(asked) ==> asked == len as int % 0x1_0000_0000,
        event == 0 ==> (created matches AsyncStep::Return(Err(Failure::Message(text))) && text@
            == "create event: "@ + last_error@),
        started is Finish <==> result != 0 || code == 997,
        !(started is Finish) ==> started == AsyncStep::<E>::Abandon(Failure::Outside(err)),
        finished matches AsyncStep::Leave(read) ==> read == n,
        finished matches AsyncStep::Return(returned) ==> (returned matches Ok(read) && read == n),
        finished is Leave <==> done != 0,
        finished is Return <==> done == 0,
{
    assert(len as u32 == len as u64 % 0x1_0000_0000) by (bit_vector);
}

} // verus!
