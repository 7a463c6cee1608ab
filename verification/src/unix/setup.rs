//! Building a Unix backend.

use crate::canceler::{Canceler, CancelerInner};
use crate::fd_set::LARGEST_FD_SETSIZE;
use crate::step::Failure;
use crate::unix::{Backend, BackendView, CancelState, Kind};
use vstd::prelude::*;

verus! {

/// The Unix platforms.
#[derive(Debug, Clone, Copy, PartialEq, Eq, Structural)]
pub enum UnixPlatform {
    /// Linux, which has epoll.
    Linux,
    /// macOS and the BSDs, which have kqueue.
    Bsd,
    /// Solaris, which has `select`.
    Solaris,
}

/// The next step of building a reader.
#[derive(Debug)]
pub enum SetupStep<E> {
    /// No backend can watch the input: use the fallback.
    Fallback,
    /// Building the reader failed.
    Fail(Failure<E>),
    /// Create an epoll instance and report with `created`.
    CreateEpoll,
    /// Create a kernel queue and report with `created`.
    CreateKqueue,
    /// Make the cancel pipe and report the descriptor of its read end with `piped`.
    MakePipe,
    /// Have the epoll instance watch the input for reading, with this event data,
    /// and report with `input_watched`.
    WatchInput { fd: i32, data: u64 },
    /// Have the epoll instance watch the cancel pipe for reading, with this event
    /// data, and report with `cancel_watched`.
    WatchCancel { fd: i32, data: u64 },
    /// The reader is built, and this cancels it.
    Ready(Backend, Canceler),
}

/// A reader that is being built.
#[derive(Debug, Clone, Copy)]
pub struct Setup {
    input: i32,
    kind: Kind,
}

/// What a [`Setup`] knows: the input's descriptor and the readiness primitive.
pub ghost struct SetupView {
    pub input: i32,
    pub kind: Kind,
}

impl View for Setup {
    type V = SetupView;

    closed spec fn view(&self) -> SetupView {
        SetupView { input: self.input, kind: self.kind }
    }
}

/// The readiness primitive for an input of the given name.
///
/// On macOS and the BSDs, kqueue returns ready at once when it watches
/// `/dev/tty`, so a reader of that name uses `select`.
pub open spec fn kind_for(platform: UnixPlatform, name: Seq<char>, fd_setsize: i32) -> Kind {
    match platform {
        UnixPlatform::Linux => Kind::Epoll,
        UnixPlatform::Bsd => if name == "/dev/tty"@ {
            Kind::Select { fd_setsize }
        } else {
            Kind::Kqueue
        },
        UnixPlatform::Solaris => Kind::Select { fd_setsize },
    }
}

/// How building begins. An input that is too large for `select` is refused before
/// anything is created.
pub open spec fn setup_starts<E>(setup: SetupView) -> SetupStep<E> {
    match setup.kind {
        Kind::Epoll => SetupStep::CreateEpoll,
        Kind::Kqueue => SetupStep::CreateKqueue,
        Kind::Select { fd_setsize } => if setup.input >= fd_setsize {
            SetupStep::Fallback
        } else {
            SetupStep::MakePipe
        },
    }
}

/// A step that hands out a new reader of `setup` with the read end `cancel`, which
/// nobody canceled yet.
pub open spec fn hands_out<E>(setup: SetupView, cancel: i32, step: SetupStep<E>) -> bool {
    &&& step matches SetupStep::Ready(reader, canceler)
    &&& reader@ == BackendView { input: setup.input, cancel, kind: setup.kind }
    &&& canceler.inner matches CancelerInner::Unix(state)
    &&& !state.canceled()
    &&& !state.delivered()
    &&& !state.closed()
}

/// A step that fails because the epoll instance refused a descriptor.
pub open spec fn watch_fails<E>(step: SetupStep<E>) -> bool {
    step matches SetupStep::Fail(Failure::Message(text)) && text@
        == "add reader to epoll interest list"@
}

/// How building goes on after the readiness primitive was created, or failed to be.
pub open spec fn created_leads<E>(created: Result<(), E>) -> SetupStep<E> {
    match created {
        Ok(()) => SetupStep::MakePipe,
        Err(err) => SetupStep::Fail(Failure::Outside(err)),
    }
}

/// How building goes on after the cancel pipe was made, or failed to be. A read end
/// that is too large for `select` falls back.
pub open spec fn piped_leads<E>(
    setup: SetupView,
    piped: Result<i32, E>,
    step: SetupStep<E>,
) -> bool {
    match piped {
        Err(err) => step == SetupStep::<E>::Fail(Failure::Outside(err)),
        Ok(cancel) => match setup.kind {
            Kind::Epoll => step == SetupStep::<E>::WatchInput {
                fd: setup.input,
                data: setup.input as u64,
            },
            Kind::Kqueue => hands_out(setup, cancel, step),
            Kind::Select { fd_setsize } => if setup.input < fd_setsize && cancel < fd_setsize {
                hands_out(setup, cancel, step)
            } else {
                step == SetupStep::<E>::Fallback
            },
        },
    }
}

/// How building goes on after the epoll instance was told to watch the input.
pub open spec fn input_watched_leads<E>(cancel: i32, watched: bool, step: SetupStep<E>) -> bool {
    if watched {
        step == SetupStep::<E>::WatchCancel { fd: cancel, data: cancel as u64 }
    } else {
        watch_fails(step)
    }
}

/// How building ends after the epoll instance was told to watch the cancel pipe.
pub open spec fn cancel_watched_leads<E>(
    setup: SetupView,
    cancel: i32,
    watched: bool,
    step: SetupStep<E>,
) -> bool {
    if watched {
        hands_out(setup, cancel, step)
    } else {
        watch_fails(step)
    }
}

/// Build the Unix backend for an input.
///
/// Picks epoll, kqueue or `select` by platform, and `select` on macOS and the BSDs
/// for an input named `/dev/tty`. `fd_setsize` is how many descriptors the
/// platform's `select` can watch.
pub fn new_reader<E>(platform: UnixPlatform, input: i32, name: &str, fd_setsize: i32) -> (begun: (
    Setup,
    SetupStep<E>,
))
    requires
        fd_setsize <= LARGEST_FD_SETSIZE,
    ensures
        begun.0@ == (SetupView { input, kind: kind_for(platform, name@, fd_setsize) }),
        begun.1 == setup_starts::<E>(begun.0@),
{
    match platform {
        UnixPlatform::Linux => Backend::new_epoll(input),
        UnixPlatform::Bsd => {
            if is_dev_tty(name) {
                return Backend::new_select(input, fd_setsize);
            }
            Backend::new_kqueue(input)
        },
        UnixPlatform::Solaris => Backend::new_select(input, fd_setsize),
    }
}

/// Whether a name is that of the terminal.
fn is_dev_tty(name: &str) -> (is: bool)
    ensures
        is == (name@ == "/dev/tty"@),
{
    String::from_str(name) == String::from_str("/dev/tty")
}

impl Backend {
    /// Begin to build a reader that waits on an epoll instance.
    pub fn new_epoll<E>(input: i32) -> (begun: (Setup, SetupStep<E>))
        ensures
            begun.0@ == (SetupView { input, kind: Kind::Epoll }),
            begun.1 == SetupStep::<E>::CreateEpoll,
    {
        (Setup { input, kind: Kind::Epoll }, SetupStep::CreateEpoll)
    }

    /// Begin to build a reader that waits on a kernel queue.
    pub fn new_kqueue<E>(input: i32) -> (begun: (Setup, SetupStep<E>))
        ensures
            begun.0@ == (SetupView { input, kind: Kind::Kqueue }),
            begun.1 == SetupStep::<E>::CreateKqueue,
    {
        (Setup { input, kind: Kind::Kqueue }, SetupStep::CreateKqueue)
    }

    /// Begin to build a reader that waits with `select`. An input at or above
    /// `fd_setsize` does not fit and falls back.
    pub fn new_select<E>(input: i32, fd_setsize: i32) -> (begun: (Setup, SetupStep<E>))
        requires
            fd_setsize <= LARGEST_FD_SETSIZE,
        ensures
            begun.0@ == (SetupView { input, kind: Kind::Select { fd_setsize } }),
            begun.1 == if input >= fd_setsize {
                SetupStep::<E>::Fallback
            } else {
                SetupStep::<E>::MakePipe
            },
    {
        let setup = Setup { input, kind: Kind::Select { fd_setsize } };
        if input >= fd_setsize {
            return (setup, SetupStep::Fallback);
        }
        (setup, SetupStep::MakePipe)
    }
}

impl Setup {
    /// No platform's `select` watches more descriptors than the largest one.
    #[verifier::type_invariant]
    spec fn bounded(self) -> bool {
        self.kind matches Kind::Select { fd_setsize } ==> fd_setsize <= LARGEST_FD_SETSIZE
    }

    /// Go on after the readiness primitive was created, or failed to be.
    pub fn created<E>(&self, created: Result<(), E>) -> (step: SetupStep<E>)
        ensures
            step == created_leads(created),
    {
        match created {
            Ok(()) => SetupStep::MakePipe,
            Err(err) => SetupStep::Fail(Failure::Outside(err)),
        }
    }

    /// Go on after the cancel pipe was made, with the descriptor of its read end, or
    /// failed to be.
    ///
    /// A read end that is too large for `select` falls back, so that ready input can
    /// still be read.
    pub fn piped<E>(&self, piped: Result<i32, E>) -> (step: SetupStep<E>)
        ensures
            piped_leads(self@, piped, step),
    {
        match piped {
            Err(err) => SetupStep::Fail(Failure::Outside(err)),
            Ok(cancel) => match self.kind {
                Kind::Epoll => SetupStep::WatchInput { fd: self.input, data: self.input as u64 },
                Kind::Kqueue => self.ready(cancel),
                Kind::Select { fd_setsize } => {
                    if self.input >= fd_setsize || cancel >= fd_setsize {
                        return SetupStep::Fallback;
                    }
                    self.ready(cancel)
                },
            },
        }
    }

    /// Go on after the epoll instance was told to watch the input, or refused to.
    pub fn input_watched<E>(&self, cancel: i32, watched: bool) -> (step: SetupStep<E>)
        ensures
            input_watched_leads(cancel, watched, step),
    {
        if !watched {
            return SetupStep::Fail(
                Failure::Message(String::from_str("add reader to epoll interest list")),
            );
        }
        SetupStep::WatchCancel { fd: cancel, data: cancel as u64 }
    }

    /// Go on after the epoll instance was told to watch the cancel pipe, or refused
    /// to.
    pub fn cancel_watched<E>(&self, cancel: i32, watched: bool) -> (step: SetupStep<E>)
        requires
            self@.kind is Epoll,
        ensures
            cancel_watched_leads(self@, cancel, watched, step),
    {
        if !watched {
            return SetupStep::Fail(
                Failure::Message(String::from_str("add reader to epoll interest list")),
            );
        }
        self.ready(cancel)
    }

    /// Hand out the reader with what cancels it.
    fn ready<E>(&self, cancel: i32) -> (step: SetupStep<E>)
        requires
            self@.kind matches Kind::Select { fd_setsize } ==> self@.input < fd_setsize && cancel
                < fd_setsize,
        ensures
            hands_out(self@, cancel, step),
    {
        proof {
            use_type_invariant(self);
        }
        let reader = Backend::assemble(self.input, cancel, self.kind);
        let canceler = Canceler { inner: CancelerInner::Unix(CancelState::new()) };
        SetupStep::Ready(reader, canceler)
    }
}

} // verus!
