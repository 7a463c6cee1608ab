//! What a cancel does and reports.

use crate::canceler::{cancel_starts, Canceler, CancelerInner};
use crate::step::CancelStep;
use crate::unix;
use crate::windows;
use vstd::prelude::*;

verus! {

/// A cancel marks its reader canceled, whatever the backend, and changes neither which
/// backend that is nor whether the reader is closed.
pub proof fn law_cancel_marks_canceled(before: Canceler, after: Canceler, step: CancelStep)
    requires
        cancel_starts(before.inner, after.inner, step),
    ensures
        after.canceled(),
        after.closed() == before.closed(),
        after.inner is Fallback <==> before.inner is Fallback,
        after.inner is Unix <==> before.inner is Unix,
        after.inner is Windows <==> before.inner is Windows,
{
}

/// What a canceler reports is the state that its backend shares.
pub proof fn law_canceler_reports(canceler: &Canceler, canceled: bool, closed: bool)
    requires
        call_ensures(Canceler::is_canceled, (canceler,), canceled),
        call_ensures(Canceler::is_closed, (canceler,), closed),
    ensures
        canceler.inner matches CancelerInner::Fallback(flag) ==> canceled == flag@ && !closed,
        canceler.inner matches CancelerInner::Unix(state) ==> canceled == state.canceled()
            && closed == state.closed(),
        canceler.inner matches CancelerInner::Windows(state) ==> canceled == state.canceled()
            && !closed,
{
}

/// A cancel of a Unix reader asks for the wake byte exactly where the reader is open and
/// nobody canceled it before. It then ends with whether the byte was written, and so does
/// the next cancel of the open reader, without asking again.
///
/// The first cancel leads from `before` over `begun` to `ended`, and the second one on to
/// `after`.
pub proof fn law_unix_cancel_reports_delivery(
    before: unix::CancelState,
    begun: unix::CancelState,
    first: CancelStep,
    written: bool,
    ended: unix::CancelState,
    last: CancelStep,
    after: unix::CancelState,
    second: CancelStep,
)
    requires
        cancel_starts(CancelerInner::Unix(before), CancelerInner::Unix(begun), first),
        unix::wake_leads(begun, ended, written, last),
        cancel_starts(CancelerInner::Unix(ended), CancelerInner::Unix(after), second),
    ensures
        first is WriteWake <==> !before.canceled() && !before.closed(),
        first matches CancelStep::WriteWake(byte) ==> byte == 99,
        first is WriteWake || first is Done,
        before.closed() ==> first == CancelStep::Done(false),
        before.canceled() && !before.closed() ==> first == CancelStep::Done(before.delivered()),
        last == CancelStep::Done(written),
        ended.canceled(),
        ended.closed() == before.closed(),
        !ended.closed() ==> second == last,
        ended.closed() ==> second == CancelStep::Done(false),
{
}

/// A Windows cancel that finds the slot free takes it and sets the event, however long it
/// has waited. It then succeeds exactly where the event was set, and frees the slot again
/// exactly where it succeeds.
pub proof fn law_free_slot_is_taken(
    before: windows::CancelState,
    begun: windows::CancelState,
    waited: u64,
    step: CancelStep,
    result: i32,
    after: windows::CancelState,
    last: CancelStep,
)
    requires
        windows::rendezvous_leads(before, begun, waited, step),
        !before.full(),
        windows::event_set_leads(begun, after, result, last),
    ensures
        step == CancelStep::SetEvent,
        begun.full(),
        last == CancelStep::Done(result != 0),
        after.full() <==> result == 0,
        after.canceled() == before.canceled(),
{
}

/// A Windows cancel waits for a full slot for 100 milliseconds in all: what it has waited
/// and what it still waits add up to that, it gives up exactly when the time is over, and
/// it leaves the slot to whoever holds it.
pub proof fn law_full_slot_is_awaited(
    before: windows::CancelState,
    after: windows::CancelState,
    waited: u64,
    step: CancelStep,
)
    requires
        windows::rendezvous_leads(before, after, waited, step),
        before.full(),
    ensures
        after.full(),
        after.canceled() == before.canceled(),
        step is AwaitSlot || step is Done,
        step is AwaitSlot <==> waited < 100,
        step matches CancelStep::AwaitSlot(millis) ==> waited + millis == 100,
        step matches CancelStep::Done(succeeded) ==> !succeeded,
{
}

/// A Windows cancel begins like a try for the slot that has waited for nothing, and marks
/// the reader canceled at once, whatever comes of the try.
pub proof fn law_windows_cancel_begins(
    before: windows::CancelState,
    after: windows::CancelState,
    step: CancelStep,
)
    requires
        cancel_starts(CancelerInner::Windows(before), CancelerInner::Windows(after), step),
    ensures
        after.canceled(),
        after.full(),
        !before.full() ==> step == CancelStep::SetEvent,
        before.full() ==> step == CancelStep::AwaitSlot(100),
{
}

/// A Windows cancel competes for the slot until it is free or the time is over: of its
/// tries, the first one on a free slot sets the event, and none before it does. It fails
/// only where the slot was full at a try after 100 milliseconds.
///
/// `before` and `after` are the states around each try, and `waited` says how many
/// milliseconds were over by then.
pub proof fn law_first_free_slot_wins(
    before: Seq<windows::CancelState>,
    after: Seq<windows::CancelState>,
    waited: Seq<u64>,
    steps: Seq<CancelStep>,
    k: int,
)
    requires
        before.len() == steps.len(),
        after.len() == steps.len(),
        waited.len() == steps.len(),
        forall|i: int|
            #![trigger steps[i]]
            0 <= i < steps.len() ==> windows::rendezvous_leads(
                before[i],
                after[i],
                waited[i],
                steps[i],
            ),
        0 <= k < steps.len(),
        forall|i: int| 0 <= i < k ==> (#[trigger] before[i]).full(),
        !before[k].full(),
    ensures
        steps[k] == CancelStep::SetEvent,
        forall|i: int| 0 <= i < k ==> !(#[trigger] steps[i] is SetEvent),
        forall|i: int|
            0 <= i < steps.len() && #[trigger] steps[i] is Done ==> before[i].full() && waited[i]
                >= 100 && steps[i] == CancelStep::Done(false),
{
    let at_k = steps[k];
    assert forall|i: int| 0 <= i < k implies !(#[trigger] steps[i] is SetEvent) by {
        assert(before[i].full());
    }
}

/// A Windows cancel that empties the slot at its end succeeds exactly where there was
/// something to take out, and leaves the slot empty.
pub proof fn law_leaving_empties_the_slot(
    before: windows::CancelState,
    after: windows::CancelState,
    step: CancelStep,
)
    requires
        windows::leave_leads(before, after, step),
    ensures
        !after.full(),
        after.canceled() == before.canceled(),
        before.full() ==> step == CancelStep::Done(true),
        !before.full() ==> step == CancelStep::AwaitToken,
{
}

} // verus!
