//! A cancelable reader.
//!
//! Wrap a blocking input source, typically stdin or a raw terminal, so a second
//! thread can abort a blocked read during shutdown of a terminal application. The
//! abort consumes no input.
//!
//! The mechanism is the self-pipe trick paired with an operating system readiness
//! wait. A read blocks until either the input becomes readable or a cancel signal
//! arrives. A cancel wakes the wait and makes the read return a cancellation
//! instead of data.
//!
//! - Linux uses epoll.
//! - macOS and the BSDs use kqueue, and `select` for an input named `/dev/tty`.
//! - Solaris uses `select`.
//! - Windows waits on the console and on a cancel event.
//! - Every other platform, and every input without a raw descriptor, uses a
//!   fallback that cannot interrupt a read that is already running.
//!
//! This library takes the decisions of such a reader and leaves the system calls
//! to the program around it: see [`step`].

pub mod canceler;
pub mod chan;
pub mod error;
pub mod fallback;
pub mod fd_set;
pub mod flag;
pub mod input;
pub mod laws;
pub mod reader;
pub mod step;
pub mod text;
pub mod unix;
pub mod windows;

pub use canceler::{Canceler, CancelerInner};
pub use error::{is_canceled, Canceled, ErrorKind, ErrorNode, IoError};
pub use fallback::{new_fallback_cancel_reader, FallbackCancelReader};
pub use input::{named, Named, RawDescriptor, RawInput};
pub use reader::CancelReader;
pub use step::{CancelStep, CloseStep, Failure, ReadStep};

use fd_set::LARGEST_FD_SETSIZE;
use unix::setup::{kind_for, setup_starts, SetupView, UnixPlatform};
use vstd::prelude::*;

verus! {

/// The platform that a reader is built for.
#[derive(Debug, Clone, Copy, PartialEq, Eq, Structural)]
pub enum Platform {
    /// A Unix platform, with the number of descriptors that its `select` can watch.
    Unix { flavor: UnixPlatform, fd_setsize: i32 },
    /// Windows, with stdin's handle.
    Windows { stdin: isize },
    /// A platform without a readiness backend.
    Other,
}

/// How building a reader begins.
#[derive(Debug)]
pub enum NewReader<E> {
    /// Build a Unix backend.
    Unix(unix::setup::Setup, unix::setup::SetupStep<E>),
    /// Build the Windows backend.
    Windows(windows::setup::SetupStep),
    /// Use the fallback.
    Fallback,
}

/// How building a reader begins for an input with the given descriptor and name.
///
/// An input without a descriptor of the platform's kind uses the fallback.
pub open spec fn routed<E>(
    platform: Platform,
    raw: RawDescriptor,
    name: Seq<char>,
    begun: NewReader<E>,
) -> bool {
    match (platform, raw) {
        (Platform::Unix { flavor, fd_setsize }, RawDescriptor::Fd(fd)) => {
            &&& begun matches NewReader::Unix(setup, step)
            &&& setup@ == SetupView { input: fd, kind: kind_for(flavor, name, fd_setsize) }
            &&& step == setup_starts::<E>(setup@)
        },
        (Platform::Windows { stdin }, RawDescriptor::Handle(handle)) => {
            begun == NewReader::<E>::Windows(
                if handle == stdin {
                    windows::setup::SetupStep::OpenConsole
                } else {
                    windows::setup::SetupStep::Fallback
                },
            )
        },
        _ => begun == NewReader::<E>::Fallback,
    }
}

/// Begin to wrap an input with this descriptor and this name so its reads can be
/// canceled.
pub fn route<E>(platform: Platform, raw: RawDescriptor, name: &str) -> (begun: NewReader<E>)
    requires
        platform matches Platform::Unix { flavor, fd_setsize } ==> fd_setsize
            <= LARGEST_FD_SETSIZE,
    ensures
        routed(platform, raw, name@, begun),
{
    match (platform, raw) {
        (Platform::Unix { flavor, fd_setsize }, RawDescriptor::Fd(fd)) => {
            let (setup, step) = unix::setup::new_reader(flavor, fd, name, fd_setsize);
            NewReader::Unix(setup, step)
        },
        (Platform::Windows { stdin }, RawDescriptor::Handle(handle)) => NewReader::Windows(
            windows::setup::new_reader(handle, stdin),
        ),
        _ => NewReader::Fallback,
    }
}

/// Begin to wrap an input so its reads can be canceled.
///
/// A platform backend uses the input's raw descriptor so that a cancel can
/// interrupt a blocked read.
pub fn new_reader<R: RawInput, E>(platform: Platform, reader: &R) -> (begun: NewReader<E>)
    requires
        platform matches Platform::Unix { flavor, fd_setsize } ==> fd_setsize
            <= LARGEST_FD_SETSIZE,
    ensures
        exists|raw: RawDescriptor, name: &str|
            call_ensures(R::raw, (reader,), raw) && call_ensures(R::name, (reader,), name)
                && #[trigger] routed(platform, raw, name@, begun),
{
    let raw = reader.raw();
    let name = reader.name();
    let begun = route(platform, raw, name);
    assert(routed(platform, raw, name@, begun));
    begun
}

/// Wrap a plain reader that does not expose a raw descriptor.
///
/// This builds the no-op fallback backend. A cancel reports `false` and cannot
/// interrupt an in-flight read. After it, future reads return a cancellation and
/// consume no data.
pub fn new_reader_plain<R>(reader: R) -> (wrapped: (FallbackCancelReader<R>, Canceler))
    ensures
        wrapped.0.reader == reader,
        wrapped.1.inner is Fallback,
        !wrapped.1.canceled(),
{
    new_fallback_cancel_reader(reader)
}

} // verus!
