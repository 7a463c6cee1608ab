//! What each operation that changes a state does to it.

use crate::canceler::{Canceler, CancelerInner};
use crate::chan::{Chan1, SendStep};
use crate::fallback::FallbackCancelReader;
use crate::fd_set::FdSet;
use crate::flag::CancelFlag;
use crate::reader::CancelReader;
use crate::step::{CancelStep, CloseStep};
use crate::unix;
use crate::unix::Backend;
use crate::windows;
use crate::windows::WinCancelReader;
use vstd::prelude::*;

verus! {

/// Setting a flag reports that it was set exactly where it was not before, and a flag tells
/// whether it is set.
pub proof fn law_flag_is_set_once(flag: &mut CancelFlag, first: bool, told: bool)
    requires
        call_ensures(CancelFlag::set_canceled, (flag,), first),
        call_ensures(CancelFlag::is_canceled, (&*old(flag),), told),
    ensures
        final(flag)@,
        first == !told,
        told == old(flag)@,
{
}

/// Filling a slot goes through exactly where it is empty, and so the next one does not.
pub proof fn law_slot_holds_one(chan: &mut Chan1, sent: bool, then: &mut Chan1, again: bool)
    requires
        call_ensures(Chan1::send, (chan,), sent),
        *old(then) == *final(chan),
        call_ensures(Chan1::send, (then,), again),
    ensures
        sent <==> !old(chan)@,
        final(chan)@,
        !again,
        final(then)@,
{
}

/// Emptying a slot goes through exactly where it is full, and so the next one does not.
pub proof fn law_slot_is_emptied(chan: &mut Chan1, received: bool, then: &mut Chan1, again: bool)
    requires
        call_ensures(Chan1::recv, (chan,), received),
        *old(then) == *final(chan),
        call_ensures(Chan1::recv, (then,), again),
    ensures
        received <==> old(chan)@,
        !final(chan)@,
        !again,
        !final(then)@,
{
}

/// Filling a slot in bounded time goes through exactly where it is empty, however long it
/// took to be so. For a full slot, what has been waited and what is left to wait add up to
/// the bound, and the slot stays full.
pub proof fn law_bounded_send(chan: &mut Chan1, timeout: u64, waited: u64, step: SendStep)
    requires
        call_ensures(Chan1::send_timeout, (chan, timeout, waited), step),
    ensures
        step is Sent <==> !old(chan)@,
        step is Wait <==> old(chan)@ && waited < timeout,
        step is TimedOut <==> old(chan)@ && waited >= timeout,
        step matches SendStep::Wait(millis) ==> waited + millis == timeout,
        final(chan)@,
{
}

/// Canceling a Unix reader asks for the wake byte exactly where the reader is open and
/// uncanceled. It leaves the reader canceled, and all else as it is.
pub proof fn law_unix_state_cancels(state: &mut unix::CancelState, step: CancelStep)
    requires
        call_ensures(unix::CancelState::cancel, (state,), step),
    ensures
        final(state).canceled(),
        final(state).closed() == old(state).closed(),
        final(state).delivered() == old(state).delivered(),
        step == CancelStep::WriteWake(99) <==> !old(state).canceled() && !old(state).closed(),
        step is WriteWake || step is Done,
        step matches CancelStep::Done(succeeded) ==> succeeded == (old(state).delivered() && !old(
            state,
        ).closed()),
{
}

/// Whether the wake byte was written is what the cancel reports, and what is kept for the
/// next one.
pub proof fn law_unix_state_keeps_delivery(
    state: &mut unix::CancelState,
    written: bool,
    step: CancelStep,
)
    requires
        call_ensures(unix::CancelState::wake_written, (state, written), step),
    ensures
        step == CancelStep::Done(written),
        final(state).delivered() == written,
        final(state).canceled() == old(state).canceled(),
        final(state).closed() == old(state).closed(),
{
}

/// Closing a Unix reader releases it exactly where it was open, and changes nothing else.
pub proof fn law_unix_state_closes(state: &mut unix::CancelState, step: CloseStep)
    requires
        call_ensures(unix::CancelState::close, (state,), step),
    ensures
        step is Release <==> !old(state).closed(),
        step == CloseStep::Done(Ok(())) <==> old(state).closed(),
        final(state).closed(),
        final(state).canceled() == old(state).canceled(),
        final(state).delivered() == old(state).delivered(),
{
}

/// What a state tells of itself.
pub proof fn law_states_tell(
    unix_state: &unix::CancelState,
    unix_canceled: bool,
    unix_closed: bool,
    windows_state: &windows::CancelState,
    windows_canceled: bool,
)
    requires
        call_ensures(unix::CancelState::is_canceled, (unix_state,), unix_canceled),
        call_ensures(unix::CancelState::is_closed, (unix_state,), unix_closed),
        call_ensures(windows::CancelState::is_canceled, (windows_state,), windows_canceled),
    ensures
        unix_canceled == unix_state.canceled(),
        unix_closed == unix_state.closed(),
        windows_canceled == windows_state.canceled(),
{
}

/// A new state is that of a reader which nobody canceled, which is open, and which is not
/// reading.
pub proof fn law_new_states_are_fresh(
    unix_state: unix::CancelState,
    windows_state: windows::CancelState,
    chan: Chan1,
)
    requires
        call_ensures(unix::CancelState::new, (), unix_state),
        call_ensures(windows::CancelState::new, (), windows_state),
        call_ensures(Chan1::new, (), chan),
    ensures
        !unix_state.canceled() && !unix_state.delivered() && !unix_state.closed(),
        !windows_state.canceled() && !windows_state.full(),
        !chan@,
{
}

/// Canceling a Windows reader marks it canceled and tries for the slot: it takes a free one
/// and has 100 milliseconds to wait for a full one.
pub proof fn law_windows_state_cancels(state: &mut windows::CancelState, step: CancelStep)
    requires
        call_ensures(windows::CancelState::cancel, (state,), step),
    ensures
        final(state).canceled(),
        final(state).full(),
        step == CancelStep::SetEvent <==> !old(state).full(),
        step == CancelStep::AwaitSlot(100) <==> old(state).full(),
{
}

/// Trying again for the slot takes a free one, after however long a time. A full one is
/// waited for until 100 milliseconds are over, and never taken.
pub proof fn law_windows_state_competes(
    state: &mut windows::CancelState,
    waited: u64,
    step: CancelStep,
)
    requires
        call_ensures(windows::CancelState::rendezvous, (state, waited), step),
    ensures
        final(state).full(),
        final(state).canceled() == old(state).canceled(),
        step == CancelStep::SetEvent <==> !old(state).full(),
        step == CancelStep::Done(false) <==> old(state).full() && waited >= 100,
        step is AwaitSlot <==> old(state).full() && waited < 100,
        step matches CancelStep::AwaitSlot(millis) ==> waited + millis == 100,
{
}

/// A cancel that took the slot and set the event succeeds and frees the slot. Where the
/// event could not be set it fails and the slot stays full.
pub proof fn law_windows_state_sets_event(
    state: &mut windows::CancelState,
    result: i32,
    step: CancelStep,
)
    requires
        call_ensures(windows::CancelState::event_set, (state, result), step),
    ensures
        result == 0 ==> step == CancelStep::Done(false) && final(state).full() == old(state).full(),
        result != 0 && old(state).full() ==> step == CancelStep::Done(true),
        result != 0 && !old(state).full() ==> step == CancelStep::AwaitToken,
        result != 0 ==> !final(state).full(),
        final(state).canceled() == old(state).canceled(),
{
}

/// Emptying the slot at the end of a cancel succeeds exactly where there is something to
/// take out.
pub proof fn law_windows_state_leaves(state: &mut windows::CancelState, step: CancelStep)
    requires
        call_ensures(windows::CancelState::leave, (state,), step),
    ensures
        step == CancelStep::Done(true) <==> old(state).full(),
        step == CancelStep::AwaitToken <==> !old(state).full(),
        !final(state).full(),
        final(state).canceled() == old(state).canceled(),
{
}

/// A read fills an empty slot and empties a full one, and cancels nothing.
pub proof fn law_windows_state_is_used_by_reads(
    filled: &mut windows::CancelState,
    sent: bool,
    emptied: &mut windows::CancelState,
    received: bool,
)
    requires
        call_ensures(windows::CancelState::send, (filled,), sent),
        call_ensures(windows::CancelState::recv, (emptied,), received),
    ensures
        sent <==> !old(filled).full(),
        final(filled).full(),
        final(filled).canceled() == old(filled).canceled(),
        received <==> old(emptied).full(),
        !final(emptied).full(),
        final(emptied).canceled() == old(emptied).canceled(),
{
}

/// A close of a Windows reader goes on from the cancel event to the console, and restores
/// the console's mode at most once.
pub proof fn law_windows_reader_closes_event(
    reader: &mut WinCancelReader,
    result: i32,
    last_error: &str,
    step: CloseStep,
)
    requires
        call_ensures(WinCancelReader::event_closed, (reader, result, last_error), step),
    ensures
        result == 0 ==> final(reader)@ == old(reader)@ && (step matches CloseStep::Done(Err(text))
            && text@ == "closing cancel event handle: "@ + last_error@),
        result != 0 ==> final(reader)@.reset_console is None && final(reader)@.closed == old(
            reader,
        )@.closed,
        result != 0 ==> match old(reader)@.reset_console {
            Some(mode) => step == CloseStep::ResetConsole(mode),
            None => step == CloseStep::CloseConsole,
        },
{
}

/// A cancel through a handle marks the reader canceled, whatever the backend.
///
/// The fallback is done at once and reports `false`. A Unix reader asks for the wake byte
/// where it is open and uncanceled. A Windows reader takes the slot where that is free.
pub proof fn law_handle_cancels(canceler: &mut Canceler, step: CancelStep)
    requires
        call_ensures(Canceler::cancel, (canceler,), step),
    ensures
        final(canceler).canceled(),
        final(canceler).closed() == old(canceler).closed(),
        old(canceler).inner is Fallback ==> final(canceler).inner is Fallback && step
            == CancelStep::Done(false),
        old(canceler).inner matches CancelerInner::Unix(state) ==> {
            &&& final(canceler).inner is Unix
            &&& step is WriteWake <==> !state.canceled() && !state.closed()
            &&& state.closed() ==> step == CancelStep::Done(false)
        },
        old(canceler).inner matches CancelerInner::Windows(state) ==> {
            &&& final(canceler).inner is Windows
            &&& step is SetEvent <==> !state.full()
            &&& step is AwaitSlot <==> state.full()
        },
{
}

/// A cancel through a reader does what a cancel through its handle does, for each backend:
/// from the same state, the same step and the same state after it.
pub proof fn law_reader_cancels_like_handle<R>(
    fallback: &FallbackCancelReader<R>,
    unix_reader: &Backend,
    console: &WinCancelReader,
    before: Canceler,
    by_reader: &mut Canceler,
    reader_step: CancelStep,
    by_handle: &mut Canceler,
    handle_step: CancelStep,
)
    requires
        *old(by_reader) == before,
        *old(by_handle) == before,
        match before.inner {
            CancelerInner::Fallback(_) => call_ensures(
                <FallbackCancelReader<R> as CancelReader>::cancel,
                (fallback, by_reader),
                reader_step,
            ),
            CancelerInner::Unix(_) => call_ensures(
                <Backend as CancelReader>::cancel,
                (unix_reader, by_reader),
                reader_step,
            ),
            CancelerInner::Windows(_) => call_ensures(
                <WinCancelReader as CancelReader>::cancel,
                (console, by_reader),
                reader_step,
            ),
        },
        call_ensures(Canceler::cancel, (by_handle,), handle_step),
    ensures
        reader_step == handle_step,
        *final(by_reader) == *final(by_handle),
        final(by_reader).canceled(),
{
    crate::laws::law_handle_cancels_like_reader(
        before,
        *final(by_reader),
        reader_step,
        *final(by_handle),
        handle_step,
    );
}

/// A close of each backend leaves the cancellation as it is, and has something to release
/// exactly where the reader was not closed before. The fallback never has.
pub proof fn law_readers_close<R>(
    fallback: &mut FallbackCancelReader<R>,
    of_fallback: &mut Canceler,
    fallback_step: CloseStep,
    unix_reader: &mut Backend,
    of_unix: &mut Canceler,
    unix_step: CloseStep,
    console: &mut WinCancelReader,
    of_console: &mut Canceler,
    console_step: CloseStep,
)
    requires
        old(of_fallback).inner is Fallback,
        old(of_unix).inner is Unix,
        old(of_console).inner is Windows,
        call_ensures(
            <FallbackCancelReader<R> as CancelReader>::close,
            (fallback, of_fallback),
            fallback_step,
        ),
        call_ensures(<Backend as CancelReader>::close, (unix_reader, of_unix), unix_step),
        call_ensures(<WinCancelReader as CancelReader>::close, (console, of_console), console_step),
    ensures
        fallback_step == CloseStep::Done(Ok(())),
        *final(of_fallback) == *old(of_fallback),
        *final(fallback) == *old(fallback),
        unix_step is Release <==> !old(of_unix).closed(),
        unix_step == CloseStep::Done(Ok(())) <==> old(of_unix).closed(),
        final(of_unix).closed(),
        final(of_unix).canceled() == old(of_unix).canceled(),
        *final(unix_reader) == *old(unix_reader),
        console_step is CloseEvent <==> !old(console)@.closed,
        console_step == CloseStep::Done(Ok(())) <==> old(console)@.closed,
        final(console)@.closed,
        final(console)@.reset_console == old(console)@.reset_console,
        *final(of_console) == *old(of_console),
{
}

/// A new set of descriptors is empty, and a descriptor that is put into it is what comes
/// out, once and alone.
pub proof fn law_descriptor_set_holds_what_was_put_in(
    set_count: usize,
    nfds: i32,
    empty: FdSet,
    set: &mut FdSet,
    fd: i32,
    members: Vec<i32>,
)
    requires
        0 <= nfds <= crate::fd_set::LARGEST_FD_SETSIZE,
        call_ensures(FdSet::with_room, (set_count, nfds), empty),
        *old(set) == empty,
        0 <= fd < nfds,
        call_ensures(FdSet::insert, (set, fd), ()),
        call_ensures(FdSet::members, (&*final(set),), members),
    ensures
        empty@ == Set::<int>::empty(),
        final(set)@ == set![fd as int],
        members@.len() == 1,
        members@[0] == fd,
{
    assert(final(set)@ =~= set![fd as int]);
    assert(members@.contains(fd));
    assert forall|i: int| 0 <= i < members@.len() implies members@[i] == fd by {
        assert(members@.contains(members@[i]));
    }
    if members@.len() > 1 {
        assert(members@[0] < members@[1]);
    }
}

} // verus!
