//! Inputs with a raw descriptor, and their names.

use vstd::prelude::*;

verus! {

/// The raw descriptor of an input.
#[derive(Debug, Clone, Copy, PartialEq, Eq, Structural)]
pub enum RawDescriptor {
    /// A file descriptor, on Unix.
    Fd(i32),
    /// A handle, on Windows.
    Handle(isize),
}

/// An input backed by a raw descriptor, plus a name.
///
/// Only inputs that implement this can use a real backend. On Windows the input
/// must also share stdin's handle. Everything else routes to the fallback. The name
/// feeds the `/dev/tty` special case on the BSDs.
///
/// A file does not carry the path it was opened with, so its name is empty and a
/// terminal opened as a plain file does not hit the `/dev/tty` branch. Use [`named`]
/// to tag such an input with its path.
pub trait RawInput {
    /// The raw file descriptor on Unix, or the raw handle on Windows.
    fn raw(&self) -> RawDescriptor;

    /// The input's name, used by the BSD `/dev/tty` special case.
    fn name(&self) -> &str;
}

/// An input that reports a name given by the caller.
#[derive(Debug)]
pub struct Named<R> {
    /// The input itself.
    pub inner: R,
    /// The name that the caller gave.
    pub name: String,
}

impl<R: RawInput> RawInput for Named<R> {
    /// The raw descriptor of the input itself.
    fn raw(&self) -> (raw: RawDescriptor)
        ensures
            call_ensures(R::raw, (&self.inner,), raw),
    {
        self.inner.raw()
    }

    /// The name that the caller gave.
    fn name(&self) -> (name: &str)
        ensures
            name@ == self.name@,
    {
        self.name.as_str()
    }
}

/// Tag an input with a name so the `/dev/tty` fast path can find it.
///
/// On macOS and the BSDs, kqueue returns ready at once when it watches `/dev/tty`,
/// so an input of that name is routed to `select` instead. A terminal opened as a
/// plain file reports no name and misses that route.
pub fn named<R: RawInput>(reader: R, name: &str) -> (tagged: Named<R>)
    ensures
        tagged.inner == reader,
        tagged.name@ == name@,
{
    Named { inner: reader, name: String::from_str(name) }
}

} // verus!
