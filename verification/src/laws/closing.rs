//! What a close does and reports.

use crate::step::CloseStep;
use crate::unix;
use crate::windows;
use crate::windows::{WinCancelReader, WinView};
use vstd::prelude::*;

verus! {

/// A close of a Unix reader releases its descriptors exactly once, marks the reader closed
/// and leaves the cancellation as it is.
pub proof fn law_unix_close_releases_once(
    before: unix::CancelState,
    after: unix::CancelState,
    step: CloseStep,
)
    requires
        unix::close_leads(before, after, step),
    ensures
        step is Release <==> !before.closed(),
        step == CloseStep::Done(Ok(())) <==> before.closed(),
        after.closed(),
        after.canceled() == before.canceled(),
        after.delivered() == before.delivered(),
{
}

/// A close of a Windows reader closes the cancel event exactly once and marks the reader
/// closed. The console mode to restore stays.
pub proof fn law_windows_close_begins(before: WinView, after: WinView, step: CloseStep)
    requires
        windows::close_starts(before, after, step),
    ensures
        step is CloseEvent <==> !before.closed,
        step == CloseStep::Done(Ok(())) <==> before.closed,
        after.closed,
        after.reset_console == before.reset_console,
{
}

/// After the cancel event was closed, a close goes on to the console: it restores the
/// mode where there is one to restore, which it then never does again. Where the event
/// could not be closed, the close is over with that error and nothing has changed.
pub proof fn law_windows_close_goes_on(
    before: WinView,
    after: WinView,
    result: i32,
    last_error: Seq<char>,
    step: CloseStep,
)
    requires
        windows::event_closed_leads(before, after, result, last_error, step),
    ensures
        step matches CloseStep::ResetConsole(mode) ==> before.reset_console == Some(mode),
        step is ResetConsole <==> result != 0 && before.reset_console is Some,
        step is CloseConsole <==> result != 0 && before.reset_console is None,
        result != 0 ==> after.reset_console is None,
        result == 0 ==> after == before && (step matches CloseStep::Done(Err(text)) && text@
            == "closing cancel event handle: "@ + last_error),
        after.closed == before.closed,
{
}

/// A close of a Windows reader succeeds exactly where every call did, and else reports the
/// first one that failed: the console is closed only after its mode was restored.
pub proof fn law_windows_close_ends(
    reader: &WinCancelReader,
    reset: i32,
    last_error: &str,
    after_reset: CloseStep,
    closed: i32,
    after_closed: CloseStep,
)
    requires
        call_ensures(WinCancelReader::console_reset, (reader, reset, last_error), after_reset),
        call_ensures(WinCancelReader::console_closed, (reader, closed), after_closed),
    ensures
        after_reset is CloseConsole <==> reset != 0,
        reset == 0 ==> (after_reset matches CloseStep::Done(Err(text)) && text@
            == "reset console mode: "@ + last_error@),
        after_closed == CloseStep::Done(Ok(())) <==> closed != 0,
        closed == 0 ==> (after_closed matches CloseStep::Done(Err(text)) && text@
            == "closing CONIN$"@),
{
}

} // verus!
