//! The Windows backend.

use cancelreader::chan::{Chan1, SendStep};
use cancelreader::windows::setup::{
    console_opened, event_created, flushed, mode_read, mode_set, new_reader, SetupStep,
};
use cancelreader::windows::{
    AsyncStep, CancelState, WaitOutcome, WinCancelReader, ENABLE_EXTENDED_FLAGS,
    ENABLE_INSERT_MODE, ENABLE_QUICK_EDIT_MODE, ENABLE_VIRTUAL_TERMINAL_INPUT, ERROR_IO_PENDING,
    INVALID_HANDLE_VALUE, RENDEZVOUS_MILLIS, WAIT_ABANDONED, WAIT_FAILED, WAIT_OBJECT_0,
    WAIT_TIMEOUT,
};
use cancelreader::{
    CancelReader, CancelStep, Canceled, Canceler, CancelerInner, CloseStep, Failure, ReadStep,
};
use windows_sys::Win32::Foundation;
use windows_sys::Win32::System::Console;

/// The text of the system's last error.
const DENIED: &str = "Access is denied. (os error 5)";

/// Build a reader on a console in the given mode.
fn build(original_mode: u32) -> (WinCancelReader, Canceler) {
    let mut step = new_reader(40, 40);
    loop {
        step = match step {
            SetupStep::OpenConsole => console_opened(17, DENIED),
            SetupStep::GetConsoleMode => mode_read(1, original_mode, DENIED),
            SetupStep::SetConsoleMode { mode, reset } => {
                assert_eq!(mode, 0x2e0);
                mode_set(reset, 1, DENIED)
            }
            SetupStep::FlushConsole { reset } => flushed(reset, -1, DENIED),
            SetupStep::CreateEvent { reset } => event_created(reset, 18, DENIED),
            SetupStep::Ready(reader, canceler) => return (reader, canceler),
            other => panic!("building failed with {other:?}"),
        }
    }
}

fn state(canceler: &mut Canceler) -> &mut CancelState {
    match &mut canceler.inner {
        CancelerInner::Windows(state) => state,
        other => panic!("expected the state of a Windows backend, got {other:?}"),
    }
}

fn assert_fails(step: SetupStep, text: &str) {
    match step {
        SetupStep::Fail(message) => assert_eq!(message, text),
        other => panic!("expected a failure, got {other:?}"),
    }
}

#[test]
fn constants_are_those_of_the_system() {
    assert_eq!(WAIT_OBJECT_0, Foundation::WAIT_OBJECT_0);
    assert_eq!(WAIT_ABANDONED, Foundation::WAIT_ABANDONED);
    assert_eq!(WAIT_TIMEOUT, Foundation::WAIT_TIMEOUT);
    assert_eq!(WAIT_FAILED, Foundation::WAIT_FAILED);
    assert_eq!(ERROR_IO_PENDING, Foundation::ERROR_IO_PENDING);
    assert_eq!(INVALID_HANDLE_VALUE, Foundation::INVALID_HANDLE_VALUE as isize);
    assert_eq!(ENABLE_EXTENDED_FLAGS, Console::ENABLE_EXTENDED_FLAGS);
    assert_eq!(ENABLE_INSERT_MODE, Console::ENABLE_INSERT_MODE);
    assert_eq!(ENABLE_QUICK_EDIT_MODE, Console::ENABLE_QUICK_EDIT_MODE);
    assert_eq!(ENABLE_VIRTUAL_TERMINAL_INPUT, Console::ENABLE_VIRTUAL_TERMINAL_INPUT);
}

#[test]
fn only_stdin_is_cancelable() {
    assert!(matches!(new_reader(41, 40), SetupStep::Fallback));
    assert!(matches!(new_reader(40, 40), SetupStep::OpenConsole));
}

#[test]
fn setup_failures_say_what_was_tried() {
    for handle in [0, -1] {
        assert_fails(
            console_opened(handle, DENIED),
            &format!("open CONIN$ in overlapping mode: {DENIED}"),
        );
    }
    assert!(matches!(console_opened(-2, DENIED), SetupStep::GetConsoleMode));
    assert_fails(
        mode_read(0, 7, DENIED),
        &format!("prepare console: get console mode: {DENIED}"),
    );
    let reset = match mode_read(1, 7, DENIED) {
        SetupStep::SetConsoleMode { reset, .. } => reset,
        other => panic!("expected a mode to set, got {other:?}"),
    };
    assert_fails(
        mode_set(reset, 0, DENIED),
        &format!("prepare console: set console mode: {DENIED}"),
    );
    assert_fails(flushed(reset, 0, DENIED), &format!("flush console input buffer: {DENIED}"));
    assert_fails(event_created(reset, 0, DENIED), &format!("create stop event: {DENIED}"));
    assert!(matches!(event_created(reset, -1, DENIED), SetupStep::Ready(..)));
}

#[test]
fn close_restores_the_console_mode() {
    let (mut reader, mut canceler) = build(503);
    assert_eq!(reader.close(&mut canceler), CloseStep::CloseEvent);
    assert_eq!(reader.event_closed(1, DENIED), CloseStep::ResetConsole(503));
    assert_eq!(reader.console_reset(1, DENIED), CloseStep::CloseConsole);
    assert_eq!(reader.console_closed(1), CloseStep::Done(Ok(())));
    assert_eq!(reader.close(&mut canceler), CloseStep::Done(Ok(())));
}

#[test]
fn close_reports_the_first_teardown_error() {
    let (mut reader, mut canceler) = build(503);
    assert_eq!(reader.close(&mut canceler), CloseStep::CloseEvent);
    assert_eq!(
        reader.event_closed(0, DENIED),
        CloseStep::Done(Err(
            "closing cancel event handle: Access is denied. (os error 5)".to_string()
        ))
    );
    assert_eq!(reader.close(&mut canceler), CloseStep::Done(Ok(())));

    let (mut reader, mut canceler) = build(503);
    reader.close(&mut canceler);
    reader.event_closed(1, DENIED);
    assert_eq!(
        reader.console_reset(0, DENIED),
        CloseStep::Done(Err("reset console mode: Access is denied. (os error 5)".to_string()))
    );
    assert_eq!(
        reader.console_closed(0),
        CloseStep::Done(Err("closing CONIN$".to_string()))
    );
    assert_eq!(reader.event_closed(1, DENIED), CloseStep::CloseConsole);
}

#[test]
fn a_close_leaves_the_cancellation_as_it_is() {
    let (mut reader, mut canceler) = build(1);
    reader.close(&mut canceler);
    assert!(!canceler.is_canceled());
    assert_eq!(reader.cancel(&mut canceler), CancelStep::SetEvent);
    assert_eq!(state(&mut canceler).event_set(1), CancelStep::Done(true));
    assert_eq!(canceler.cancel(), CancelStep::SetEvent);
    assert_eq!(
        reader.read::<u32>(&canceler, 1),
        ReadStep::Return(Err(Failure::Canceled(Canceled)))
    );
}

#[test]
fn wait_results() {
    let (reader, _) = build(1);
    let wait = |event: u32| reader.wait(event, "The handle is invalid. (os error 6)");
    assert_eq!(wait(0), Ok(WaitOutcome::Ready));
    assert_eq!(wait(1), Ok(WaitOutcome::Canceled));
    assert_eq!(wait(128), Err("abandoned".to_string()));
    assert_eq!(wait(129), Err("abandoned".to_string()));
    assert_eq!(wait(258), Err("timeout".to_string()));
    assert_eq!(wait(u32::MAX), Err("failed".to_string()));
    let unexpected = "unexpected error: The handle is invalid. (os error 6)";
    for event in [2, 127, 130, 257, 259] {
        assert_eq!(wait(event), Err(unexpected.to_string()));
    }
}

#[test]
fn read_reads_where_nobody_cancels() {
    let (reader, mut canceler) = build(1);
    assert_eq!(reader.read::<u32>(&canceler, 16), ReadStep::Wait);
    assert_eq!(reader.waited::<u32>(&canceler, Ok(WaitOutcome::Ready)), ReadStep::ReadInput);
    assert_eq!(reader.read_async::<u32>(), AsyncStep::CreateEvent);
    assert_eq!(reader.event_created::<u32>(16, 18, DENIED), AsyncStep::StartRead(16));
    assert_eq!(reader.read_started(1, 6, 6), AsyncStep::Finish);
    assert_eq!(reader.read_started(0, 997, 997), AsyncStep::Finish);
    assert!(state(&mut canceler).send());
    assert_eq!(reader.read_finished::<u32>(1, 5), AsyncStep::Leave(5));
    assert!(state(&mut canceler).recv());
}

#[test]
fn read_failures() {
    let (reader, canceler) = build(1);
    assert_eq!(
        reader.event_created::<u32>(16, 0, DENIED),
        AsyncStep::Return(Err(Failure::Message(
            "create event: Access is denied. (os error 5)".to_string()
        )))
    );
    assert_eq!(reader.read_started(0, 6, 6), AsyncStep::Abandon(Failure::Outside(6)));
    assert_eq!(
        reader.waited::<u32>(&canceler, Err("timeout".to_string())),
        ReadStep::Return(Err(Failure::Message("timeout".to_string())))
    );
}

#[test]
fn canceled_reads_do_not_touch_the_console() {
    let (reader, mut canceler) = build(1);
    let canceled = || ReadStep::Return(Err(Failure::Canceled(Canceled)));
    assert_eq!(reader.waited::<u32>(&canceler, Ok(WaitOutcome::Canceled)), canceled());
    assert_eq!(reader.cancel(&mut canceler), CancelStep::SetEvent);
    assert_eq!(state(&mut canceler).event_set(1), CancelStep::Done(true));
    assert_eq!(reader.waited::<u32>(&canceler, Ok(WaitOutcome::Ready)), canceled());
    assert_eq!(reader.read::<u32>(&canceler, 16), canceled());
    assert_eq!(reader.read::<u32>(&canceler, 0), canceled());
}

#[test]
fn cancel_leaves_the_slot_free() {
    let (_, mut canceler) = build(1);
    for _ in 0..3 {
        assert_eq!(canceler.cancel(), CancelStep::SetEvent);
        assert_eq!(state(&mut canceler).event_set(1), CancelStep::Done(true));
    }
    assert!(state(&mut canceler).is_canceled());
}

#[test]
fn cancel_waits_for_a_read_to_leave() {
    let (_, mut canceler) = build(1);
    assert!(state(&mut canceler).send());
    assert_eq!(canceler.cancel(), CancelStep::AwaitSlot(100));
    assert_eq!(state(&mut canceler).rendezvous(30), CancelStep::AwaitSlot(70));
    assert!(state(&mut canceler).recv());
    assert_eq!(state(&mut canceler).rendezvous(40), CancelStep::SetEvent);
    // A read that comes now has to wait for the cancel.
    assert!(!state(&mut canceler).send());
    assert_eq!(state(&mut canceler).event_set(1), CancelStep::Done(true));
    assert!(state(&mut canceler).send());
}

#[test]
fn wedged_read_defeats_cancel() {
    let (reader, mut canceler) = build(1);
    assert!(state(&mut canceler).send());
    // The overlapped result fails: the read returns and leaves the slot filled.
    assert_eq!(reader.read_finished::<u32>(0, 0), AsyncStep::Return(Ok(0)));
    assert_eq!(canceler.cancel(), CancelStep::AwaitSlot(RENDEZVOUS_MILLIS));
    assert_eq!(state(&mut canceler).rendezvous(99), CancelStep::AwaitSlot(1));
    assert_eq!(state(&mut canceler).rendezvous(100), CancelStep::Done(false));
    assert!(canceler.is_canceled());
}

#[test]
fn cancel_fails_where_the_event_cannot_be_set() {
    let (_, mut canceler) = build(1);
    assert_eq!(canceler.cancel(), CancelStep::SetEvent);
    assert_eq!(state(&mut canceler).event_set(0), CancelStep::Done(false));
    // The slot stays full.
    assert_eq!(canceler.cancel(), CancelStep::AwaitSlot(100));
}

#[test]
fn canceled_for_good() {
    let mut state = CancelState::new();
    assert!(!state.is_canceled());
    assert_eq!(state.cancel(), CancelStep::SetEvent);
    assert_eq!(state.rendezvous(100), CancelStep::Done(false));
    assert_eq!(state.event_set(0), CancelStep::Done(false));
    assert!(!state.send());
    assert!(state.recv());
    assert_eq!(state.leave(), CancelStep::AwaitToken);
    assert!(state.is_canceled());
}

#[test]
fn a_token_that_is_gone_is_awaited() {
    let mut state = CancelState::new();
    assert_eq!(state.leave(), CancelStep::AwaitToken);
    assert!(state.send());
    assert_eq!(state.leave(), CancelStep::Done(true));
}

#[test]
fn channel_holds_one() {
    let mut chan = Chan1::new();
    assert!(!chan.recv());
    assert!(chan.send());
    assert!(!chan.send());
    assert_eq!(chan.send_timeout(100, 0), SendStep::Wait(100));
    assert_eq!(chan.send_timeout(100, 60), SendStep::Wait(40));
    assert_eq!(chan.send_timeout(100, 100), SendStep::TimedOut);
    assert!(chan.recv());
    assert_eq!(chan.send_timeout(100, 100), SendStep::Sent);
    assert!(chan.recv());
}
