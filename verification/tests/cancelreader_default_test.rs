//! The Unix backends over real pipes: a cancel must unblock a blocked read, consume no
//! data, and leave the bytes readable.
//!
//! `Reader` runs the steps of an epoll backend with real system calls. Where a test is
//! about a read that is blocked while something else happens, it runs the steps of the
//! read one by one and lets the something happen in between.

use cancelreader::unix::setup::{SetupStep, UnixPlatform};
use cancelreader::unix::{Backend, KqueueEvent, Wait, WaitCall, WaitFault, WAKE_BYTE};
use cancelreader::{
    is_canceled, named, new_fallback_cancel_reader, new_reader, CancelReader, CancelStep, Canceled,
    Canceler, CancelerInner, CloseStep, Failure, IoError, NewReader, Platform, RawDescriptor,
    RawInput, ReadStep,
};
use rustix::buffer::spare_capacity;
use rustix::event::epoll;
use rustix::event::Timespec;
use rustix::fd::{AsFd, AsRawFd, OwnedFd};
use rustix::io::Errno;
use rustix::pipe::pipe;

const MSG: &[u8] = b"hello";

const LINUX: Platform = Platform::Unix { flavor: UnixPlatform::Linux, fd_setsize: 1024 };
const BSD: Platform = Platform::Unix { flavor: UnixPlatform::Bsd, fd_setsize: 1024 };
const SOLARIS: Platform = Platform::Unix { flavor: UnixPlatform::Solaris, fd_setsize: 1024 };

/// The read end of a pipe.
struct PipeReader {
    fd: OwnedFd,
    name: String,
}

impl PipeReader {
    fn with_name(mut self, name: &str) -> Self {
        self.name = name.to_string();
        self
    }

    fn try_clone(&self) -> PipeReader {
        PipeReader {
            fd: rustix::io::dup(&self.fd).expect("expected no error"),
            name: self.name.clone(),
        }
    }

    fn dup_min_fd(&self, min: i32) -> PipeReader {
        PipeReader {
            fd: rustix::io::fcntl_dupfd_cloexec(&self.fd, min).expect("expected a descriptor"),
            name: self.name.clone(),
        }
    }
}

impl RawInput for PipeReader {
    fn raw(&self) -> RawDescriptor {
        RawDescriptor::Fd(self.fd.as_raw_fd())
    }

    fn name(&self) -> &str {
        &self.name
    }
}

fn make_pipe() -> (PipeReader, OwnedFd) {
    let (reader, writer) = pipe().expect("expected no error");
    (PipeReader { fd: reader, name: "pipe".to_string() }, writer)
}

fn write(writer: &OwnedFd, data: &[u8]) -> usize {
    rustix::io::write(writer, data).expect("expected no error")
}

/// A reader with the resources that the program holds for it.
struct Reader {
    backend: Backend,
    canceler: Canceler,
    input: PipeReader,
    epoll: OwnedFd,
    cancel_reader: OwnedFd,
    cancel_writer: OwnedFd,
    wakes: usize,
}

fn build(input: PipeReader) -> Result<Reader, Failure<Errno>> {
    let (setup, mut step) = match new_reader::<_, Errno>(LINUX, &input) {
        NewReader::Unix(setup, step) => (setup, step),
        other => panic!("expected a Unix backend, got {other:?}"),
    };
    let mut epoll = None;
    let mut ends: Option<(OwnedFd, OwnedFd)> = None;
    loop {
        step = match step {
            SetupStep::CreateEpoll => {
                let created = epoll::create(epoll::CreateFlags::empty());
                setup.created(created.map(|fd| epoll = Some(fd)))
            }
            SetupStep::MakePipe => {
                let made = pipe().map(|made| {
                    let fd = made.0.as_raw_fd();
                    ends = Some(made);
                    fd
                });
                setup.piped(made)
            }
            SetupStep::WatchInput { fd, data } => {
                assert_eq!(fd, input.fd.as_raw_fd());
                let added = epoll::add(
                    epoll.as_ref().unwrap(),
                    input.fd.as_fd(),
                    epoll::EventData::new_u64(data),
                    epoll::EventFlags::IN,
                );
                setup.input_watched(ends.as_ref().unwrap().0.as_raw_fd(), added.is_ok())
            }
            SetupStep::WatchCancel { fd, data } => {
                let cancel = &ends.as_ref().unwrap().0;
                assert_eq!(fd, cancel.as_raw_fd());
                let added = epoll::add(
                    epoll.as_ref().unwrap(),
                    cancel.as_fd(),
                    epoll::EventData::new_u64(data),
                    epoll::EventFlags::IN,
                );
                setup.cancel_watched(fd, added.is_ok())
            }
            SetupStep::Ready(backend, canceler) => {
                let (cancel_reader, cancel_writer) = ends.unwrap();
                return Ok(Reader {
                    backend,
                    canceler,
                    input,
                    epoll: epoll.unwrap(),
                    cancel_reader,
                    cancel_writer,
                    wakes: 0,
                });
            }
            SetupStep::Fail(failure) => return Err(failure),
            other => panic!("an epoll backend never takes the step {other:?}"),
        }
    }
}

impl Reader {
    /// The data of the events that are ready now, or on timeout none.
    fn ready(&self, timeout: Option<&Timespec>) -> Result<Vec<u64>, WaitFault<Errno>> {
        assert!(matches!(self.backend.wait(), WaitCall::Epoll));
        let mut events: Vec<epoll::Event> = Vec::with_capacity(2);
        match epoll::wait(&self.epoll, spare_capacity(&mut events), timeout) {
            Ok(_) => Ok(events.iter().map(|event| event.data.u64()).collect()),
            Err(Errno::INTR) => Err(WaitFault::Interrupted),
            Err(err) => Err(WaitFault::Failed(err)),
        }
    }

    /// Run a read from a step on.
    fn run(&mut self, mut step: ReadStep<Errno>, buf: &mut [u8]) -> Result<usize, Failure<Errno>> {
        loop {
            step = match step {
                ReadStep::Return(result) => return result,
                ReadStep::Wait => {
                    let wait = self.backend.wait_epoll(self.ready(None));
                    self.backend.waited(&self.canceler, wait)
                }
                ReadStep::DrainCancel => {
                    let drained = rustix::io::read(&self.cancel_reader, &mut [0u8; 1]);
                    self.backend.drained(drained.map(|_| ()).map_err(|err| err.to_string()))
                }
                ReadStep::ReadInput => {
                    let result = rustix::io::read(&self.input.fd, &mut *buf);
                    self.backend.input_read(result)
                }
            }
        }
    }

    fn read(&mut self, buf: &mut [u8]) -> Result<usize, Failure<Errno>> {
        let step = self.backend.read(&self.canceler, buf.len());
        self.run(step, buf)
    }

    fn finish_cancel(&mut self, step: CancelStep) -> bool {
        match step {
            CancelStep::Done(succeeded) => succeeded,
            CancelStep::WriteWake(byte) => {
                self.wakes += 1;
                let written = rustix::io::write(&self.cancel_writer, &[byte]).is_ok();
                match &mut self.canceler.inner {
                    CancelerInner::Unix(state) => match state.wake_written(written) {
                        CancelStep::Done(succeeded) => succeeded,
                        other => panic!("a wake never leads to the step {other:?}"),
                    },
                    other => panic!("expected the state of a Unix backend, got {other:?}"),
                }
            }
            other => panic!("a Unix cancel never takes the step {other:?}"),
        }
    }

    /// Cancel through the reader.
    fn cancel(&mut self) -> bool {
        let step = self.backend.cancel(&mut self.canceler);
        self.finish_cancel(step)
    }

    /// Close the reader.
    fn close(&mut self) -> CloseStep {
        self.backend.close(&mut self.canceler)
    }

    /// Cancel through what the reader shares with its handles.
    fn cancel_by_handle(&mut self) -> bool {
        let step = self.canceler.cancel();
        self.finish_cancel(step)
    }
}

const AT_ONCE: Timespec = Timespec { tv_sec: 0, tv_nsec: 0 };

fn expect_canceled(result: Result<usize, Failure<Errno>>) {
    match result {
        Ok(n) => panic!("expected a cancellation, got {n} bytes"),
        Err(err) => {
            assert!(matches!(err, Failure::Canceled(Canceled)), "expected a cancellation, got {err:?}");
            let err: IoError = Canceled.into();
            assert!(is_canceled(&err));
        }
    }
}

#[test]
fn reader() {
    let (pr, pw) = make_pipe();
    let mut cr = build(pr.try_clone()).expect("expected no error");

    let n = write(&pw, MSG);
    assert_eq!(n, 5, "expected 5 bytes written");

    assert!(cr.cancel_by_handle(), "expected cancellation to succeed on a file reader");
    let mut buf = [0u8; 1];
    expect_canceled(cr.read(&mut buf));

    // The canceled read consumed nothing, so a fresh reader on the same pipe still sees
    // the buffered bytes.
    let mut cr = build(pr.try_clone()).expect("expected no error");
    let mut buf = [0u8; 5];
    let n = cr.read(&mut buf).expect("expected no error");
    assert_eq!(n, 5, "expected 5 bytes read");
    assert_eq!(&buf[..n], &MSG[..n], "expected to read the written bytes");
}

/// A second read on the same canceled reader returns a cancellation at once.
#[test]
fn read_after_cancel_is_empty() {
    let (pr, pw) = make_pipe();
    let mut cr = build(pr).expect("expected no error");
    write(&pw, MSG);

    assert!(cr.cancel_by_handle(), "expected cancellation to succeed");

    let mut buf = [0u8; 1];
    expect_canceled(cr.read(&mut buf));
    expect_canceled(cr.read(&mut buf));
    assert_eq!(buf, [0u8; 1]);
}

/// Calling cancel twice on a file reader stays stable.
#[test]
fn cancel_idempotent_file() {
    let (pr, _pw) = make_pipe();
    let mut cr = build(pr).expect("expected no error");

    assert!(cr.cancel(), "first cancel should succeed");
    assert!(cr.cancel(), "second cancel should still report success on a healthy pipe");
    assert_eq!(cr.wakes, 1, "only the first cancel writes");
}

/// Repeated create, cancel, and drop cycles do not leak descriptors.
#[test]
fn no_fd_leak() {
    for _ in 0..2000 {
        let (pr, pw) = make_pipe();
        let mut cr = build(pr).expect("expected no error");
        cr.cancel();
        drop(cr);
        drop(pw);
    }
}

/// A read and several cancels end in a cancellation.
#[test]
fn thread_safety_stress() {
    let (pr, _pw) = make_pipe();
    let mut cr = build(pr).expect("expected no error");
    let mut buf = [0u8; 1];

    let step = cr.backend.read::<Errno>(&cr.canceler, buf.len());
    assert_eq!(step, ReadStep::Wait);
    for _ in 0..4 {
        assert!(cr.cancel_by_handle());
    }
    expect_canceled(cr.run(step, &mut buf));
    assert_eq!(cr.wakes, 1);
}

/// The select backend refuses a descriptor at or above the select size limit and falls
/// back.
#[test]
fn select_fd_setsize_guard() {
    let (pr, _pw) = make_pipe();
    let high = pr.dup_min_fd(1100).with_name("/dev/tty");

    for platform in [BSD, SOLARIS] {
        assert!(matches!(
            new_reader::<_, Errno>(platform, &high),
            NewReader::Unix(_, SetupStep::Fallback)
        ));
    }
    // The fallback's cancel reports failure.
    let (cr, mut canceler) = new_fallback_cancel_reader(pr);
    assert_eq!(
        cr.cancel(&mut canceler),
        CancelStep::Done(false),
        "a descriptor above the select limit should fall back to the no-op reader"
    );

    // The other primitives have no such limit.
    assert!(matches!(
        new_reader::<_, Errno>(LINUX, &high),
        NewReader::Unix(_, SetupStep::CreateEpoll)
    ));
    assert!(matches!(
        new_reader::<_, Errno>(BSD, &high.with_name("pipe")),
        NewReader::Unix(_, SetupStep::CreateKqueue)
    ));
}

/// A read that is already blocked in the readiness wait unblocks on cancel.
#[test]
fn wait_then_drain_cancel() {
    let (pr, pw) = make_pipe();
    let mut cr = build(pr.try_clone()).expect("expected no error");
    let mut buf = [0u8; 1];

    let step = cr.backend.read::<Errno>(&cr.canceler, buf.len());
    assert_eq!(step, ReadStep::Wait);
    assert_eq!(cr.ready(Some(&AT_ONCE)), Ok(vec![]), "the read has to block");

    assert!(cr.cancel_by_handle(), "cancel on a blocked read should succeed");

    let wait = cr.backend.wait_epoll(cr.ready(None));
    assert_eq!(wait, Wait::Canceled);
    let step = cr.backend.waited(&cr.canceler, wait);
    assert_eq!(step, ReadStep::DrainCancel);
    expect_canceled(cr.run(step, &mut buf));

    // The signal byte was drained, and it was the only one.
    assert_eq!(cr.ready(Some(&AT_ONCE)), Ok(vec![]));

    let mut fresh = build(pr.try_clone()).expect("expected no error");
    write(&pw, MSG);
    let mut buf = [0u8; 5];
    let n = fresh.read(&mut buf).expect("expected no error");
    assert_eq!(n, 5, "expected the written bytes after a clean drain");
    assert_eq!(&buf[..n], MSG);
}

/// Build a reader that waits with `select` over the given descriptors.
fn select_backend<R: RawInput>(input: &R, cancel: i32) -> (Backend, Canceler) {
    match new_reader::<R, Errno>(BSD, input) {
        NewReader::Unix(setup, SetupStep::MakePipe) => match setup.piped::<Errno>(Ok(cancel)) {
            SetupStep::Ready(backend, canceler) => (backend, canceler),
            other => panic!("expected a reader, got {other:?}"),
        },
        other => panic!("expected the select route, got {other:?}"),
    }
}

/// What a `select` says that leaves only these descriptors in the set.
fn selected(backend: &Backend, input: i32, cancel: i32, ready: &[i32]) -> Wait<Errno> {
    match backend.wait() {
        WaitCall::Select { nfds, mut readfds } => {
            assert_eq!(nfds, input.max(cancel) + 1);
            let mut both = vec![input, cancel];
            both.sort();
            assert_eq!(readfds.members(), both);
            for fd in [input, cancel] {
                if !ready.contains(&fd) {
                    rustix::event::fd_set_remove(readfds.elements_mut(), fd);
                }
            }
            backend.wait_select(Ok(readfds))
        }
        _ => panic!("expected a select"),
    }
}

/// A `/dev/tty`-named reader on the select platforms cancels end to end.
#[test]
fn select_cancel_end_to_end() {
    let (pr, _pw) = make_pipe();
    let tty = pr.with_name("/dev/tty");
    let input = tty.fd.as_raw_fd();
    let (cancel_reader, _cancel_writer) = pipe().expect("expected no error");
    let cancel = cancel_reader.as_raw_fd();
    let (backend, mut canceler) = select_backend(&tty, cancel);

    assert_eq!(backend.read::<Errno>(&canceler, 1), ReadStep::Wait);
    assert_eq!(canceler.cancel(), CancelStep::WriteWake(WAKE_BYTE));
    let wait = selected(&backend, input, cancel, &[cancel]);
    assert_eq!(wait, Wait::Canceled);
    assert_eq!(backend.waited(&canceler, wait), ReadStep::DrainCancel);
    assert_eq!(
        backend.drained::<Errno>(Ok(())),
        ReadStep::Return(Err(Failure::Canceled(Canceled)))
    );
}

/// The public `named` wrapper drives the `/dev/tty` select route.
#[test]
fn named_dev_tty_routes_to_select() {
    let (pr, _pw) = make_pipe();
    let input = pr.fd.as_raw_fd();
    assert!(matches!(
        new_reader::<_, Errno>(BSD, &pr),
        NewReader::Unix(_, SetupStep::CreateKqueue)
    ));

    let tty = named(pr, "/dev/tty");
    assert_eq!(tty.name(), "/dev/tty");
    assert_eq!(tty.raw(), RawDescriptor::Fd(input));
    let (backend, canceler) = select_backend(&tty, 1000);
    assert_eq!(backend.read::<Errno>(&canceler, 1), ReadStep::Wait);
    assert_eq!(selected(&backend, input, 1000, &[1000, input]), Wait::Canceled);
    assert_eq!(selected(&backend, input, 1000, &[input]), Wait::Ready);
    assert_eq!(selected(&backend, input, 1000, &[]), Wait::Unknown);

    // Elsewhere the name does not matter.
    assert!(matches!(
        new_reader::<_, Errno>(LINUX, &tty),
        NewReader::Unix(_, SetupStep::CreateEpoll)
    ));
}

/// A reader tagged `/dev/tty` cancels through the select route: the cancel reports
/// success, and the blocked read drains the wake byte and returns a cancellation.
#[test]
fn named_dev_tty_cancels_through_select() {
    let (pr, pw) = make_pipe();
    write(&pw, MSG);
    let input = pr.fd.as_raw_fd();
    let tty = named(pr, "/dev/tty");
    let (cancel_reader, cancel_writer) = pipe().expect("expected no error");
    let cancel = cancel_reader.as_raw_fd();
    let (backend, mut canceler) = select_backend(&tty, cancel);

    assert_eq!(backend.read::<Errno>(&canceler, 5), ReadStep::Wait);
    let byte = match canceler.cancel() {
        CancelStep::WriteWake(byte) => byte,
        other => panic!("expected a wake byte to write, got {other:?}"),
    };
    assert_eq!(write(&cancel_writer, &[byte]), 1);
    match &mut canceler.inner {
        CancelerInner::Unix(state) => assert_eq!(state.wake_written(true), CancelStep::Done(true)),
        other => panic!("expected the state of a Unix backend, got {other:?}"),
    }

    let wait = selected(&backend, input, cancel, &[input, cancel]);
    assert_eq!(wait, Wait::Canceled);
    assert_eq!(backend.waited(&canceler, wait), ReadStep::DrainCancel);
    let mut drained = [0u8; 2];
    assert_eq!(rustix::io::read(&cancel_reader, &mut drained), Ok(1));
    assert_eq!(drained[0], b'c');
    assert_eq!(
        backend.drained::<Errno>(Ok(())),
        ReadStep::Return(Err(Failure::Canceled(Canceled)))
    );

    // A later cancel reports the same, and a later read ends at once.
    assert_eq!(backend.cancel(&mut canceler), CancelStep::Done(true));
    assert_eq!(
        backend.read::<Errno>(&canceler, 5),
        ReadStep::Return(Err(Failure::Canceled(Canceled)))
    );
    let mut buf = [0u8; 5];
    assert_eq!(rustix::io::read(&tty.inner.fd, &mut buf), Ok(5));
    assert_eq!(&buf, MSG, "the input is untouched");
}

/// Select falls back when the cancel pipe read end is above the select limit.
#[test]
fn select_cancel_pipe_fd_setsize_guard() {
    let (pr, pw) = make_pipe();
    let input = named(pr.try_clone(), "/dev/tty");
    write(&pw, b"x");

    let setup = match new_reader::<_, Errno>(BSD, &input) {
        NewReader::Unix(setup, SetupStep::MakePipe) => setup,
        other => panic!("expected the select route, got {other:?}"),
    };
    let (end, _writer) = pipe().expect("expected no error");
    let high = rustix::io::fcntl_dupfd_cloexec(&end, 1101).expect("expected a high descriptor");
    assert!(high.as_raw_fd() > 1100);
    assert!(matches!(setup.piped::<Errno>(Ok(high.as_raw_fd())), SetupStep::Fallback));
    assert!(matches!(setup.piped::<Errno>(Ok(1024)), SetupStep::Fallback));
    assert!(matches!(setup.piped::<Errno>(Ok(1023)), SetupStep::Ready(..)));

    // Ready input reads through the fallback.
    let (cr, canceler) = new_fallback_cancel_reader(input);
    let mut buf = [0u8; 1];
    assert_eq!(cr.read::<Errno>(&canceler, buf.len()), ReadStep::ReadInput);
    let result = rustix::io::read(&cr.reader.inner.fd, &mut buf);
    let n = cr.input_read(&canceler, result).expect("ready input should read through the fallback");
    assert_eq!(n, 1, "expected one byte read");
    assert_eq!(buf[0], b'x', "expected the written byte");
}

/// A zero-length read on an active Unix reader returns without waiting.
#[test]
fn active_reader_zero_length_read_returns_zero() {
    let (pr, _pw) = make_pipe();
    let mut cr = build(pr).expect("expected no error");
    assert_eq!(cr.read(&mut []), Ok(0));

    // A canceled reader still reports the cancellation.
    cr.cancel();
    expect_canceled(cr.read(&mut []));
}

/// Close on a file backend reports success and stays safe on a second call.
#[test]
fn close_reports_and_is_idempotent() {
    let (pr, _pw) = make_pipe();
    let mut cr = build(pr).expect("expected no error");

    assert_eq!(cr.close(), CloseStep::Release, "first close releases and succeeds");
    assert_eq!(cr.close(), CloseStep::Done(Ok(())), "second close should stay Ok");
}

/// Many cancels never block, even past the pipe's byte capacity.
#[test]
fn cancel_many_times_never_blocks() {
    let (pr, _pw) = make_pipe();
    let mut cr = build(pr).expect("expected no error");
    for _ in 0..100_000 {
        assert!(cr.cancel_by_handle());
    }
    assert_eq!(cr.wakes, 1);
}

/// Read and cancel after close return errors instead of panicking.
#[test]
fn read_and_cancel_after_close_do_not_panic() {
    let (pr, pw) = make_pipe();
    let mut cr = build(pr).expect("expected no error");
    write(&pw, MSG);
    assert_eq!(cr.close(), CloseStep::Release);

    let mut buf = [0u8; 1];
    let err = cr.read(&mut buf).expect_err("read after close should error");
    assert_eq!(err, Failure::Message("reader is closed".to_string()));
    assert!(cr.read(&mut []).is_err());
    assert!(!cr.cancel(), "cancel after close should report failure");
    assert_eq!(cr.wakes, 0);
}

/// A handle of a closed reader reports failure as the reader does, writes nothing, and
/// still marks the reader canceled.
#[test]
fn handle_cancels_a_closed_reader_like_the_reader() {
    for by_handle in [false, true] {
        let (pr, _pw) = make_pipe();
        let mut cr = build(pr).expect("expected no error");
        assert!(!cr.canceler.is_closed());
        assert_eq!(cr.close(), CloseStep::Release);
        assert!(cr.canceler.is_closed());
        assert!(!cr.canceler.is_canceled());

        let step = if by_handle {
            cr.canceler.cancel()
        } else {
            cr.backend.cancel(&mut cr.canceler)
        };
        assert_eq!(step, CancelStep::Done(false));
        assert!(cr.canceler.is_canceled());
        assert!(!cr.cancel());
        assert!(!cr.cancel_by_handle());
        expect_canceled(cr.read(&mut [0u8; 1]));
        assert_eq!(cr.ready(Some(&AT_ONCE)), Ok(vec![]), "nothing was written");
    }
}

/// A canceled reader that is closed stays canceled: its reads return a cancellation, and
/// further cancels report failure, though the wake byte was delivered.
#[test]
fn cancel_then_close() {
    let (pr, _pw) = make_pipe();
    let mut cr = build(pr).expect("expected no error");
    assert!(cr.cancel_by_handle(), "first cancel should succeed");
    assert_eq!(cr.close(), CloseStep::Release);

    expect_canceled(cr.read(&mut [0u8; 1]));
    expect_canceled(cr.read(&mut []));
    assert!(!cr.cancel_by_handle(), "cancel by handle after close should report failure");
    assert!(!cr.cancel(), "cancel after close should report failure");
    assert_eq!(cr.wakes, 1, "only the first cancel writes");
    assert_eq!(cr.close(), CloseStep::Done(Ok(())));
    expect_canceled(cr.read(&mut [0u8; 1]));
}

/// On an open reader a handle and the reader give the same result, whoever comes first.
#[test]
fn handle_cancels_an_open_reader_like_the_reader() {
    for by_handle in [false, true] {
        let (pr, _pw) = make_pipe();
        let mut cr = build(pr).expect("expected no error");
        assert!(if by_handle { cr.cancel_by_handle() } else { cr.cancel() });
        assert!(cr.cancel());
        assert!(cr.cancel_by_handle());
        assert_eq!(cr.wakes, 1);
    }
}

/// A cancel wins even when input arrives at the same time.
#[test]
fn cancel_wins_when_input_also_ready() {
    let (pr, pw) = make_pipe();
    let mut cr = build(pr.try_clone()).expect("expected no error");
    let mut buf = [0u8; 1];

    // Let the read park with no data, then deliver input and cancel together.
    let step = cr.backend.read::<Errno>(&cr.canceler, buf.len());
    assert_eq!(step, ReadStep::Wait);
    write(&pw, MSG);
    assert!(cr.cancel_by_handle(), "cancel should succeed");
    expect_canceled(cr.run(step, &mut buf));

    // The read consumed nothing, so the buffered bytes are still readable.
    let mut fresh = build(pr.try_clone()).expect("expected no error");
    let mut buf = [0u8; 5];
    let n = fresh.read(&mut buf).expect("expected no error");
    assert_eq!(n, 5, "the cancel must not have consumed the buffered bytes");
    assert_eq!(&buf[..n], MSG);
}

/// A cancel wins also where the wait reported only the input.
#[test]
fn cancel_wins_when_only_input_was_reported() {
    let (pr, pw) = make_pipe();
    let mut cr = build(pr).expect("expected no error");
    write(&pw, MSG);
    let wait = cr.backend.wait_epoll(cr.ready(None));
    assert_eq!(wait, Wait::Ready);
    assert!(cr.cancel_by_handle());
    assert_eq!(
        cr.backend.waited(&cr.canceler, wait),
        ReadStep::Return(Err(Failure::Canceled(Canceled)))
    );
}

/// A wake byte that cannot be delivered makes every cancel report failure, and reads
/// are canceled all the same.
#[test]
fn undelivered_wake_reports_failure() {
    let (pr, _pw) = make_pipe();
    let mut cr = build(pr).expect("expected no error");
    assert_eq!(cr.canceler.cancel(), CancelStep::WriteWake(b'c'));
    match &mut cr.canceler.inner {
        CancelerInner::Unix(state) => assert_eq!(state.wake_written(false), CancelStep::Done(false)),
        other => panic!("expected the state of a Unix backend, got {other:?}"),
    }
    assert!(!cr.cancel());
    assert!(!cr.cancel_by_handle());
    assert_eq!(cr.wakes, 0);
    expect_canceled(cr.read(&mut [0u8; 1]));
}

/// A file that epoll cannot watch fails to build.
#[test]
fn unwatchable_input_fails() {
    let (pr, _pw) = make_pipe();
    let (setup, _) = match new_reader::<_, Errno>(LINUX, &pr) {
        NewReader::Unix(setup, step) => (setup, step),
        other => panic!("expected a Unix backend, got {other:?}"),
    };
    let text = "add reader to epoll interest list";
    for step in [setup.input_watched::<Errno>(9, false), setup.cancel_watched(9, false)] {
        match step {
            SetupStep::Fail(Failure::Message(message)) => assert_eq!(message, text),
            other => panic!("expected a failure, got {other:?}"),
        }
    }
    assert!(matches!(
        setup.created(Err(Errno::MFILE)),
        SetupStep::Fail(Failure::Outside(Errno::MFILE))
    ));
    assert!(matches!(
        setup.piped(Err(Errno::NFILE)),
        SetupStep::Fail(Failure::Outside(Errno::NFILE))
    ));
}

/// A signal makes the read wait again, and other wait errors end it.
#[test]
fn wait_faults() {
    let (pr, _pw) = make_pipe();
    let cr = build(pr).expect("expected no error");
    let again = cr.backend.wait_epoll(Err(WaitFault::Interrupted));
    assert_eq!(again, Wait::<Errno>::Again);
    assert_eq!(cr.backend.waited(&cr.canceler, again), ReadStep::Wait);

    let failed = cr.backend.wait_epoll(Err(WaitFault::Failed(Errno::BADF)));
    assert_eq!(
        cr.backend.waited(&cr.canceler, failed),
        ReadStep::Return(Err(Failure::Outside(Errno::BADF)))
    );

    let unknown = cr.backend.wait_epoll(Ok::<Vec<u64>, WaitFault<Errno>>(vec![]));
    assert_eq!(unknown, Wait::Unknown);
    assert_eq!(
        cr.backend.waited(&cr.canceler, unknown),
        ReadStep::Return(Err(Failure::Message("unknown error".to_string())))
    );
    assert_eq!(
        cr.backend.drained::<Errno>(Err("Bad file descriptor".to_string())),
        ReadStep::Return(Err(Failure::Message(
            "reading cancel signal: Bad file descriptor".to_string()
        )))
    );
    assert_eq!(
        cr.backend.input_read(Err(Errno::IO)),
        ReadStep::Return(Err(Failure::Outside(Errno::IO)))
    );
}

/// Events are told apart by the data that their descriptor was registered with.
#[test]
fn epoll_event_data_identifies_the_descriptor() {
    let (pr, _pw) = make_pipe();
    let cr = build(pr).expect("expected no error");
    let input = cr.input.fd.as_raw_fd() as u64;
    let cancel = cr.cancel_reader.as_raw_fd() as u64;
    let wait = |events: Vec<u64>| cr.backend.wait_epoll::<Errno>(Ok(events));
    assert_eq!(wait(vec![input]), Wait::Ready);
    assert_eq!(wait(vec![cancel]), Wait::Canceled);
    assert_eq!(wait(vec![input, cancel]), Wait::Canceled);
    assert_eq!(wait(vec![cancel, input]), Wait::Canceled);
}

/// The kernel queue's events are told apart by their descriptor.
#[test]
fn kqueue_events() {
    let (pr, _pw) = make_pipe();
    let input = pr.fd.as_raw_fd();
    let setup = match new_reader::<_, Errno>(BSD, &pr) {
        NewReader::Unix(setup, SetupStep::CreateKqueue) => setup,
        other => panic!("expected the kqueue route, got {other:?}"),
    };
    assert!(matches!(setup.created::<Errno>(Ok(())), SetupStep::MakePipe));
    let (backend, canceler) = match setup.piped::<Errno>(Ok(2000)) {
        SetupStep::Ready(backend, canceler) => (backend, canceler),
        other => panic!("expected a reader, got {other:?}"),
    };
    assert!(!canceler.is_canceled());
    match backend.wait() {
        WaitCall::Kqueue { input: watched, cancel } => assert_eq!((watched, cancel), (input, 2000)),
        _ => panic!("expected a wait on the kernel queue"),
    }
    let wait = |events: Vec<KqueueEvent>| backend.wait_kqueue::<Errno>(Ok(events));
    assert_eq!(wait(vec![KqueueEvent::Read(2000)]), Wait::Canceled);
    assert_eq!(wait(vec![KqueueEvent::Read(input)]), Wait::Ready);
    assert_eq!(wait(vec![KqueueEvent::Read(input), KqueueEvent::Read(2000)]), Wait::Canceled);
    assert_eq!(wait(vec![KqueueEvent::Other]), Wait::Ready);
    assert_eq!(wait(vec![]), Wait::Unknown);
    assert_eq!(backend.wait_kqueue::<Errno>(Err(WaitFault::Interrupted)), Wait::Again);
    assert_eq!(
        backend.wait_kqueue(Err(WaitFault::Failed(Errno::BADF))),
        Wait::Failed(Failure::Outside(Errno::BADF))
    );
    assert_eq!(
        backend.wait_select(Err(WaitFault::Failed(Errno::BADF))),
        Wait::Failed(Failure::Outside(Errno::BADF))
    );
}
