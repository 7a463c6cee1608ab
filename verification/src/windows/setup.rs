//! Building the Windows backend.

use crate::canceler::{Canceler, CancelerInner};
use crate::text::join;
use crate::windows::{
    raw_console_mode, succeeded, CancelState, ConsoleReset, WinCancelReader, WinView,
    ENABLE_EXTENDED_FLAGS, ENABLE_INSERT_MODE, ENABLE_QUICK_EDIT_MODE,
    ENABLE_VIRTUAL_TERMINAL_INPUT, INVALID_HANDLE_VALUE,
};
use vstd::prelude::*;

verus! {

/// The next step of building a reader.
#[derive(Debug)]
pub enum SetupStep {
    /// The input is not stdin: use the fallback.
    Fallback,
    /// Building the reader failed with this text.
    Fail(String),
    /// Open the console input in overlapped mode and report with `console_opened`.
    OpenConsole,
    /// Get the console mode and report with `mode_read`.
    GetConsoleMode,
    /// Set this console mode and report with `mode_set`.
    SetConsoleMode { mode: u32, reset: ConsoleReset },
    /// Flush the console's input buffer and report with `flushed`.
    FlushConsole { reset: ConsoleReset },
    /// Create the cancel event and report with `event_created`.
    CreateEvent { reset: ConsoleReset },
    /// The reader is built, and this cancels it.
    Ready(WinCancelReader, Canceler),
}

/// A step that fails with a text that says what was tried and why it failed.
pub open spec fn fails(step: SetupStep, tried: Seq<char>, detail: Seq<char>) -> bool {
    step matches SetupStep::Fail(text) && text@ == tried + detail
}

/// How building goes on after opening the console input returned this handle.
pub open spec fn opened_leads(console: isize, last_error: Seq<char>, step: SetupStep) -> bool {
    if console == 0 || console == INVALID_HANDLE_VALUE {
        fails(step, "open CONIN$ in overlapping mode: "@, last_error)
    } else {
        step == SetupStep::GetConsoleMode
    }
}

/// How building goes on after getting the console mode returned `result`: with the raw
/// mode to set and the original one to restore.
pub open spec fn mode_read_leads(
    result: i32,
    original_mode: u32,
    last_error: Seq<char>,
    step: SetupStep,
) -> bool {
    if succeeded(result) {
        &&& step matches SetupStep::SetConsoleMode { mode, reset }
        &&& mode == raw_console_mode()
        &&& reset@ == original_mode
    } else {
        fails(step, "prepare console: get console mode: "@, last_error)
    }
}

/// How building goes on after setting the console mode returned `result`.
pub open spec fn mode_set_leads(
    reset: ConsoleReset,
    result: i32,
    last_error: Seq<char>,
    step: SetupStep,
) -> bool {
    if succeeded(result) {
        step == SetupStep::FlushConsole { reset }
    } else {
        fails(step, "prepare console: set console mode: "@, last_error)
    }
}

/// How building goes on after flushing the console returned `result`.
pub open spec fn flushed_leads(
    reset: ConsoleReset,
    result: i32,
    last_error: Seq<char>,
    step: SetupStep,
) -> bool {
    if succeeded(result) {
        step == SetupStep::CreateEvent { reset }
    } else {
        fails(step, "flush console input buffer: "@, last_error)
    }
}

/// How building ends after creating the cancel event returned this handle: with a reader
/// that nobody canceled yet.
pub open spec fn event_created_leads(
    reset: ConsoleReset,
    event: isize,
    last_error: Seq<char>,
    step: SetupStep,
) -> bool {
    if event == 0 {
        fails(step, "create stop event: "@, last_error)
    } else {
        &&& step matches SetupStep::Ready(reader, canceler)
        &&& reader@ == WinView { reset_console: Some(reset@), closed: false }
        &&& canceler.inner matches CancelerInner::Windows(state)
        &&& !state.canceled()
        &&& !state.full()
    }
}

/// Build the Windows backend for an input.
///
/// Falls back unless the input shares stdin's handle.
pub fn new_reader(input: isize, stdin: isize) -> (step: SetupStep)
    ensures
        step == if input == stdin {
            SetupStep::OpenConsole
        } else {
            SetupStep::Fallback
        },
{
    if input != stdin {
        return SetupStep::Fallback;
    }
    SetupStep::OpenConsole
}

/// Go on after opening the console input returned this handle, null or invalid where it
/// failed with this text.
pub fn console_opened(console: isize, last_error: &str) -> (step: SetupStep)
    ensures
        opened_leads(console, last_error@, step),
{
    if console == 0 || console == INVALID_HANDLE_VALUE {
        return SetupStep::Fail(join("open CONIN$ in overlapping mode: ", last_error));
    }
    SetupStep::GetConsoleMode
}

/// Go on after getting the console mode returned this, zero where it failed with this
/// text, and gave this mode.
///
/// The mode to set is built from nothing, so only the flags named here matter.
pub fn mode_read(result: i32, original_mode: u32, last_error: &str) -> (step: SetupStep)
    ensures
        mode_read_leads(result, original_mode, last_error@, step),
{
    if result == 0 {
        return SetupStep::Fail(join("prepare console: get console mode: ", last_error));
    }
    SetupStep::SetConsoleMode {
        mode: ENABLE_EXTENDED_FLAGS | ENABLE_INSERT_MODE | ENABLE_QUICK_EDIT_MODE
            | ENABLE_VIRTUAL_TERMINAL_INPUT,
        reset: ConsoleReset::to(original_mode),
    }
}

/// Go on after setting the console mode returned this, zero where it failed with this
/// text.
pub fn mode_set(reset: ConsoleReset, result: i32, last_error: &str) -> (step: SetupStep)
    ensures
        mode_set_leads(reset, result, last_error@, step),
{
    if result == 0 {
        return SetupStep::Fail(join("prepare console: set console mode: ", last_error));
    }
    SetupStep::FlushConsole { reset }
}

/// Go on after flushing the console's input buffer returned this, zero where it failed
/// with this text.
pub fn flushed(reset: ConsoleReset, result: i32, last_error: &str) -> (step: SetupStep)
    ensures
        flushed_leads(reset, result, last_error@, step),
{
    if result == 0 {
        return SetupStep::Fail(join("flush console input buffer: ", last_error));
    }
    SetupStep::CreateEvent { reset }
}

/// Go on after creating the cancel event returned this handle, null where it failed with
/// this text.
pub fn event_created(reset: ConsoleReset, event: isize, last_error: &str) -> (step: SetupStep)
    ensures
        event_created_leads(reset, event, last_error@, step),
{
    if event == 0 {
        return SetupStep::Fail(join("create stop event: ", last_error));
    }
    SetupStep::Ready(
        WinCancelReader::assemble(reset),
        Canceler { inner: CancelerInner::Windows(CancelState::new()) },
    )
}

} // verus!
