//! Which backend an input gets, and how it is built.

use crate::canceler::{Canceler, CancelerInner};
use crate::fallback::FallbackCancelReader;
use crate::input::{named, Named, RawDescriptor, RawInput};
use crate::reader::CancelReader;
use crate::step::Failure;
use crate::unix::setup::{Setup, SetupStep, UnixPlatform};
use crate::unix::{Backend, Kind};
use crate::windows;
use crate::{route, NewReader, Platform};
use vstd::prelude::*;

verus! {

/// On Windows an input is built a console reader for exactly where its handle is that of
/// stdin, and any other handle falls back.
pub proof fn law_only_stdin_reads_console<E>(
    stdin: isize,
    handle: isize,
    name: &str,
    begun: NewReader<E>,
)
    requires
        call_ensures(
            route::<E>,
            (Platform::Windows { stdin }, RawDescriptor::Handle(handle), name),
            begun,
        ),
    ensures
        begun matches NewReader::Windows(step) && {
            &&& step is OpenConsole <==> handle == stdin
            &&& step is Fallback <==> handle != stdin
        },
{
}

/// The same of an input that reports its handle: what it is called does not matter.
pub proof fn law_only_stdin_is_cancelable<R: RawInput, E>(
    stdin: isize,
    reader: &R,
    handle: isize,
    begun: NewReader<E>,
)
    requires
        call_ensures(crate::new_reader::<R, E>, (Platform::Windows { stdin }, reader), begun),
        forall|raw: RawDescriptor| #[trigger]
            call_ensures(R::raw, (reader,), raw) ==> raw == RawDescriptor::Handle(handle),
    ensures
        begun matches NewReader::Windows(step) && {
            &&& step is OpenConsole <==> handle == stdin
            &&& step is Fallback <==> handle != stdin
        },
{
}

/// Building the Windows backend itself goes by the same rule.
pub proof fn law_windows_backend_for_stdin(
    input: isize,
    stdin: isize,
    step: windows::setup::SetupStep,
)
    requires
        call_ensures(windows::setup::new_reader, (input, stdin), step),
    ensures
        step is OpenConsole <==> input == stdin,
        step is Fallback <==> input != stdin,
{
}

/// An input without a descriptor of the platform's kind falls back, and so does every
/// input on a platform without a backend. No other input does so at once.
pub proof fn law_foreign_descriptors_fall_back<E>(
    platform: Platform,
    raw: RawDescriptor,
    name: &str,
    begun: NewReader<E>,
)
    requires
        call_ensures(route::<E>, (platform, raw, name), begun),
        platform matches Platform::Unix { flavor: _, fd_setsize } ==> fd_setsize
            <= crate::fd_set::LARGEST_FD_SETSIZE,
    ensures
        begun is Fallback <==> match raw {
            RawDescriptor::Fd(_) => !(platform is Unix),
            RawDescriptor::Handle(_) => !(platform is Windows),
        },
        begun is Unix <==> platform is Unix && raw is Fd,
        begun is Windows <==> platform is Windows && raw is Handle,
{
}

/// On Unix the platform picks the primitive: epoll on Linux, kqueue on macOS and the BSDs
/// but `select` for an input named `/dev/tty`, and `select` on Solaris. A `select` is only
/// tried with a descriptor that fits. The reader is built for the descriptor of the input.
pub proof fn law_unix_backend_by_platform<E>(
    flavor: UnixPlatform,
    fd_setsize: i32,
    fd: i32,
    name: &str,
    begun: NewReader<E>,
)
    requires
        call_ensures(
            route::<E>,
            (Platform::Unix { flavor, fd_setsize }, RawDescriptor::Fd(fd), name),
            begun,
        ),
        fd_setsize <= crate::fd_set::LARGEST_FD_SETSIZE,
    ensures
        begun matches NewReader::Unix(setup, step) && {
            let selects = flavor is Solaris || (flavor is Bsd && name@ == "/dev/tty"@);
            &&& setup@.input == fd
            &&& setup@.kind is Epoll <==> flavor is Linux
            &&& setup@.kind is Select <==> selects
            &&& setup@.kind is Kqueue <==> flavor is Bsd && !selects
            &&& setup@.kind matches Kind::Select { fd_setsize: limit } ==> limit == fd_setsize
            &&& step is CreateEpoll <==> flavor is Linux
            &&& step is CreateKqueue <==> flavor is Bsd && !selects
            &&& step is MakePipe <==> selects && fd < fd_setsize
            &&& step is Fallback <==> selects && fd >= fd_setsize
        },
{
}

/// An input is built a reader for by what it reports of itself, its descriptor and its
/// name, and by nothing else.
pub proof fn law_reader_built_for_its_input<R: RawInput, E>(
    platform: Platform,
    reader: &R,
    begun: NewReader<E>,
    fd: i32,
    text: Seq<char>,
)
    requires
        call_ensures(crate::new_reader::<R, E>, (platform, reader), begun),
        platform matches Platform::Unix { flavor: _, fd_setsize } ==> fd_setsize
            <= crate::fd_set::LARGEST_FD_SETSIZE,
        forall|raw: RawDescriptor| #[trigger]
            call_ensures(R::raw, (reader,), raw) ==> raw == RawDescriptor::Fd(fd),
        forall|name: &str| #[trigger] call_ensures(R::name, (reader,), name) ==> name@ == text,
    ensures
        begun is Unix <==> platform is Unix,
        begun is Fallback <==> !(platform is Unix),
        begun matches NewReader::Unix(setup, step) ==> {
            let flavor = platform->flavor;
            let selects = flavor is Solaris || (flavor is Bsd && text == "/dev/tty"@);
            &&& setup@.input == fd
            &&& step is CreateEpoll <==> flavor is Linux
            &&& step is CreateKqueue <==> flavor is Bsd && !selects
            &&& step is MakePipe <==> selects && fd < platform->fd_setsize
            &&& step is Fallback <==> selects && fd >= platform->fd_setsize
        },
{
}

/// A plain reader is wrapped as it is, with a canceler of the fallback that nobody used.
pub proof fn law_plain_reader_is_wrapped<R>(
    reader: R,
    wrapped: (FallbackCancelReader<R>, Canceler),
    fallback: (FallbackCancelReader<R>, Canceler),
)
    requires
        call_ensures(crate::new_reader_plain::<R>, (reader,), wrapped),
        call_ensures(crate::fallback::new_fallback_cancel_reader::<R>, (reader,), fallback),
    ensures
        wrapped.0.reader == reader,
        wrapped.1.inner matches CancelerInner::Fallback(flag) && !flag@,
        fallback.0.reader == reader,
        fallback.1.inner matches CancelerInner::Fallback(flag) && !flag@,
        wrapped.0.belongs(wrapped.1) && wrapped.0.serves(wrapped.1),
{
}

/// Building begins with the primitive that is asked for and with the input that is given,
/// and only `select` refuses an input: one at or above its limit.
pub proof fn law_primitives_begin<E>(
    input: i32,
    fd_setsize: i32,
    epoll: (Setup, SetupStep<E>),
    kqueue: (Setup, SetupStep<E>),
    select: (Setup, SetupStep<E>),
)
    requires
        fd_setsize <= crate::fd_set::LARGEST_FD_SETSIZE,
        call_ensures(Backend::new_epoll::<E>, (input,), epoll),
        call_ensures(Backend::new_kqueue::<E>, (input,), kqueue),
        call_ensures(Backend::new_select::<E>, (input, fd_setsize), select),
    ensures
        epoll.0@.input == input && epoll.0@.kind is Epoll && epoll.1 is CreateEpoll,
        kqueue.0@.input == input && kqueue.0@.kind is Kqueue && kqueue.1 is CreateKqueue,
        select.0@.input == input && select.0@.kind == (Kind::Select { fd_setsize }),
        select.1 is MakePipe <==> input < fd_setsize,
        select.1 is Fallback <==> input >= fd_setsize,
{
}

/// The Unix backend is built by platform and name in the same way as through the router.
pub proof fn law_unix_backend_begins<E>(
    flavor: UnixPlatform,
    input: i32,
    name: &str,
    fd_setsize: i32,
    begun: (Setup, SetupStep<E>),
)
    requires
        fd_setsize <= crate::fd_set::LARGEST_FD_SETSIZE,
        call_ensures(crate::unix::setup::new_reader::<E>, (flavor, input, name, fd_setsize), begun),
    ensures
        ({
            let selects = flavor is Solaris || (flavor is Bsd && name@ == "/dev/tty"@);
            &&& begun.0@.input == input
            &&& begun.1 is CreateEpoll <==> flavor is Linux
            &&& begun.1 is CreateKqueue <==> flavor is Bsd && !selects
            &&& begun.1 is MakePipe <==> selects && input < fd_setsize
            &&& begun.1 is Fallback <==> selects && input >= fd_setsize
        }),
{
}

/// Tagging an input changes its name and nothing else.
pub proof fn law_tagging_keeps_input<R: RawInput>(
    reader: R,
    name: &str,
    tagged: Named<R>,
    raw: RawDescriptor,
    told: &str,
)
    requires
        call_ensures(named::<R>, (reader, name), tagged),
        call_ensures(<Named<R> as RawInput>::raw, (&tagged,), raw),
        call_ensures(<Named<R> as RawInput>::name, (&tagged,), told),
    ensures
        tagged.inner == reader,
        told@ == name@,
        call_ensures(R::raw, (&reader,), raw),
{
}

/// Whether a canceler is that of a Unix reader which is open and which nobody canceled.
pub open spec fn is_fresh(canceler: Canceler) -> bool {
    canceler.inner matches CancelerInner::Unix(state) && !state.canceled() && !state.delivered()
        && !state.closed()
}

/// The next call of building a Unix reader follows from the one that succeeded, and an
/// error of the system ends it unchanged.
///
/// The reader that is handed out watches the input that building began with and the read
/// end of the pipe that was made, with the primitive that building began with, and it is
/// open and uncanceled. With epoll it is handed out after both were registered, each with
/// its own number as event data.
pub proof fn law_unix_building_goes_on<E>(
    setup: &Setup,
    created: Result<(), E>,
    after_created: SetupStep<E>,
    piped: Result<i32, E>,
    after_piped: SetupStep<E>,
    cancel: i32,
    input_watched: bool,
    after_input: SetupStep<E>,
)
    requires
        call_ensures(Setup::created::<E>, (setup, created), after_created),
        call_ensures(Setup::piped::<E>, (setup, piped), after_piped),
        call_ensures(Setup::input_watched::<E>, (setup, cancel, input_watched), after_input),
    ensures
        after_created is MakePipe <==> created is Ok,
        created matches Err(err) ==> after_created == SetupStep::<E>::Fail(Failure::Outside(err)),
        piped matches Err(err) ==> after_piped == SetupStep::<E>::Fail(Failure::Outside(err)),
        piped matches Ok(end) ==> {
            let fits = setup@.kind matches Kind::Select { fd_setsize } ==> setup@.input < fd_setsize
                && end < fd_setsize;
            &&& after_piped is WatchInput <==> setup@.kind is Epoll
            &&& after_piped is Fallback <==> !fits
            &&& after_piped is Ready <==> !(setup@.kind is Epoll) && fits
            &&& after_piped matches SetupStep::WatchInput { fd, data } ==> fd == setup@.input
                && data == setup@.input as u64
            &&& after_piped matches SetupStep::Ready(reader, canceler) ==> reader@.input
                == setup@.input && reader@.cancel == end && reader@.kind == setup@.kind
                && is_fresh(canceler) && reader.belongs(canceler) && reader.serves(canceler)
        },
        after_input is WatchCancel <==> input_watched,
        after_input matches SetupStep::WatchCancel { fd, data } ==> fd == cancel && data
            == cancel as u64,
        !input_watched ==> (after_input matches SetupStep::Fail(Failure::Message(text)) && text@
            == "add reader to epoll interest list"@),
{
}

/// An epoll reader is handed out exactly where its cancel pipe is watched too.
pub proof fn law_epoll_building_ends<E>(
    setup: &Setup,
    cancel: i32,
    watched: bool,
    step: SetupStep<E>,
)
    requires
        setup@.kind is Epoll,
        call_ensures(Setup::cancel_watched::<E>, (setup, cancel, watched), step),
    ensures
        step is Ready <==> watched,
        step matches SetupStep::Ready(reader, canceler) ==> reader@.input == setup@.input
            && reader@.cancel == cancel && reader@.kind is Epoll && is_fresh(canceler) && reader.belongs(
            canceler,
        ) && reader.serves(canceler),
        !watched ==> (step matches SetupStep::Fail(Failure::Message(text)) && text@
            == "add reader to epoll interest list"@),
{
}

/// Building a Windows reader goes on after each call exactly where that succeeded, and else
/// fails with a text that says what was tried and the system's error.
///
/// The console is set to four flags, and the mode to restore is the one that was read.
pub proof fn law_windows_building_goes_on(
    console: isize,
    last_error: &str,
    opened: windows::setup::SetupStep,
    got: i32,
    original_mode: u32,
    after_read: windows::setup::SetupStep,
    reset: windows::ConsoleReset,
    put: i32,
    after_set: windows::setup::SetupStep,
    flushed: i32,
    after_flush: windows::setup::SetupStep,
    event: isize,
    built: windows::setup::SetupStep,
)
    requires
        call_ensures(windows::setup::console_opened, (console, last_error), opened),
        call_ensures(windows::setup::mode_read, (got, original_mode, last_error), after_read),
        call_ensures(windows::setup::mode_set, (reset, put, last_error), after_set),
        call_ensures(windows::setup::flushed, (reset, flushed, last_error), after_flush),
        call_ensures(windows::setup::event_created, (reset, event, last_error), built),
    ensures
        opened is GetConsoleMode <==> console != 0 && console != -1,
        !(opened is GetConsoleMode) ==> (opened matches windows::setup::SetupStep::Fail(text)
            && text@ == "open CONIN$ in overlapping mode: "@ + last_error@),
        after_read is SetConsoleMode <==> got != 0,
        after_read matches windows::setup::SetupStep::SetConsoleMode { mode, reset: to } ==> mode
            == 736 && to@ == original_mode,
        got == 0 ==> (after_read matches windows::setup::SetupStep::Fail(text) && text@
            == "prepare console: get console mode: "@ + last_error@),
        after_set is FlushConsole <==> put != 0,
        after_set matches windows::setup::SetupStep::FlushConsole { reset: to } ==> to == reset,
        put == 0 ==> (after_set matches windows::setup::SetupStep::Fail(text) && text@
            == "prepare console: set console mode: "@ + last_error@),
        after_flush is CreateEvent <==> flushed != 0,
        after_flush matches windows::setup::SetupStep::CreateEvent { reset: to } ==> to == reset,
        flushed == 0 ==> (after_flush matches windows::setup::SetupStep::Fail(text) && text@
            == "flush console input buffer: "@ + last_error@),
        built is Ready <==> event != 0,
        built matches windows::setup::SetupStep::Ready(reader, canceler) ==> {
            &&& reader@.reset_console == Some(reset@)
            &&& !reader@.closed
            &&& reader.belongs(canceler) && reader.serves(canceler)
            &&& canceler.inner matches CancelerInner::Windows(state) && !state.canceled()
                && !state.full()
        },
        event == 0 ==> (built matches windows::setup::SetupStep::Fail(text) && text@
            == "create stop event: "@ + last_error@),
{
    assert(128u32 | 32u32 | 64u32 | 512u32 == 736u32) by (bit_vector);
}

} // verus!
