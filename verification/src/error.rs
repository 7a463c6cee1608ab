//! The cancellation error, and how it is found inside other errors.
//!
//! [`IoError`] is the shape of an I/O error: a code from the operating system or a
//! mere kind of error, which hold nothing further, or a custom error around an
//! inner value. [`ErrorNode`] is such an inner value. An `IoError` hides its inner
//! value from the ordinary source chain, so the search for a cancellation
//! follows the inner value of an `IoError` and the source of every other error.

use vstd::prelude::*;

verus! {

/// The error returned when reading from a canceled reader.
///
/// Its text is exactly `read canceled`. Every backend returns this same value,
/// so callers can identify a cancellation with [`is_canceled`] regardless of
/// platform.
#[derive(Debug, Clone, Copy, PartialEq, Eq, Structural)]
pub struct Canceled;

/// The kind of an I/O error.
#[derive(Debug, PartialEq, Eq)]
pub enum ErrorKind {
    /// A custom error that fits no other kind, as a cancellation does.
    Other,
    /// Any other kind, by its name.
    Specific(String),
}

/// An I/O error.
#[derive(Debug)]
pub enum IoError {
    /// An error code of the operating system, with its kind and the text the system has
    /// for it.
    Os { code: i32, kind: ErrorKind, text: String },
    /// A kind of error alone, with the text that describes it.
    Simple { kind: ErrorKind, text: String },
    /// A custom error around an inner value.
    Custom { kind: ErrorKind, inner: Box<ErrorNode> },
}

/// An error value inside an [`IoError`].
#[derive(Debug)]
pub enum ErrorNode {
    /// A cancellation.
    Canceled(Canceled),
    /// A further I/O error.
    Io(IoError),
    /// Any other error, with its text and the error that caused it.
    Foreign { text: String, source: Option<Box<ErrorNode>> },
}

/// Whether a cancellation is reachable from an error value.
pub open spec fn node_holds_cancellation(node: ErrorNode) -> bool
    decreases node,
{
    match node {
        ErrorNode::Canceled(_) => true,
        ErrorNode::Io(err) => holds_cancellation(err),
        ErrorNode::Foreign { text, source } => match source {
            Some(cause) => node_holds_cancellation(*cause),
            None => false,
        },
    }
}

/// Whether a cancellation is reachable inside an I/O error.
pub open spec fn holds_cancellation(err: IoError) -> bool
    decreases err,
{
    match err {
        IoError::Os { .. } => false,
        IoError::Simple { .. } => false,
        IoError::Custom { kind, inner } => node_holds_cancellation(*inner),
    }
}

/// How many error values the search meets from a given one on.
spec fn node_links(node: ErrorNode) -> nat
    decreases node,
{
    match node {
        ErrorNode::Canceled(_) => 1,
        ErrorNode::Io(err) => match err {
            IoError::Os { .. } => 1,
            IoError::Simple { .. } => 1,
            IoError::Custom { kind, inner } => 1 + node_links(*inner),
        },
        ErrorNode::Foreign { text, source } => match source {
            Some(cause) => 1 + node_links(*cause),
            None => 1,
        },
    }
}

/// How many error values are left to the search.
spec fn links_left(current: Option<&ErrorNode>) -> nat {
    match current {
        Some(node) => node_links(*node),
        None => 0,
    }
}

/// The text of an error value.
pub open spec fn node_text(node: ErrorNode) -> Seq<char>
    decreases node,
{
    match node {
        ErrorNode::Canceled(_) => "read canceled"@,
        ErrorNode::Io(err) => io_text(err),
        ErrorNode::Foreign { text, source } => text@,
    }
}

/// The text of an I/O error: that of its inner value where it has one.
pub open spec fn io_text(err: IoError) -> Seq<char>
    decreases err,
{
    match err {
        IoError::Os { code, kind, text } => text@,
        IoError::Simple { kind, text } => text@,
        IoError::Custom { kind, inner } => node_text(*inner),
    }
}

/// The kind of an I/O error.
pub open spec fn io_kind(err: IoError) -> ErrorKind {
    match err {
        IoError::Os { code, kind, text } => kind,
        IoError::Simple { kind, text } => kind,
        IoError::Custom { kind, inner } => kind,
    }
}

/// A custom error around an inner value that fits no other kind.
pub open spec fn other_error(node: ErrorNode) -> IoError {
    IoError::Custom { kind: ErrorKind::Other, inner: Box::new(node) }
}

impl Canceled {
    /// The error's text.
    pub fn to_string(&self) -> (text: String)
        ensures
            text@ == "read canceled"@,
    {
        String::from_str("read canceled")
    }
}

impl From<Canceled> for IoError {
    fn from(err: Canceled) -> (wrapped: IoError) {
        IoError::other(ErrorNode::Canceled(err))
    }
}

impl vstd::std_specs::convert::FromSpecImpl<Canceled> for IoError {
    open spec fn obeys_from_spec() -> bool {
        true
    }

    open spec fn from_spec(err: Canceled) -> IoError {
        other_error(ErrorNode::Canceled(err))
    }
}

impl IoError {
    /// A custom error around an inner value that fits no other kind.
    pub fn other(node: ErrorNode) -> (err: IoError)
        ensures
            err == other_error(node),
    {
        IoError::Custom { kind: ErrorKind::Other, inner: Box::new(node) }
    }

    /// The error's kind.
    pub fn kind(&self) -> (kind: &ErrorKind)
        ensures
            *kind == io_kind(*self),
    {
        match self {
            IoError::Os { kind, .. } => kind,
            IoError::Simple { kind, .. } => kind,
            IoError::Custom { kind, .. } => kind,
        }
    }

    /// The inner value, where there is one.
    pub fn get_ref(&self) -> (value: Option<&ErrorNode>)
        ensures
            value == match *self {
                IoError::Os { .. } => None,
                IoError::Simple { .. } => None,
                IoError::Custom { kind, inner } => Some(&*inner),
            },
    {
        match self {
            IoError::Os { .. } => None,
            IoError::Simple { .. } => None,
            IoError::Custom { inner, .. } => Some(&**inner),
        }
    }

    /// The error's text.
    pub fn to_string(&self) -> (text: String)
        ensures
            text@ == io_text(*self),
        decreases self,
    {
        match self {
            IoError::Os { text, .. } => text.clone(),
            IoError::Simple { text, .. } => text.clone(),
            IoError::Custom { inner, .. } => inner.to_string(),
        }
    }
}

impl ErrorNode {
    /// The error's text.
    pub fn to_string(&self) -> (text: String)
        ensures
            text@ == node_text(*self),
        decreases self,
    {
        match self {
            ErrorNode::Canceled(canceled) => canceled.to_string(),
            ErrorNode::Io(err) => err.to_string(),
            ErrorNode::Foreign { text, source } => text.clone(),
        }
    }
}

/// Report whether an error is a cancellation.
pub fn is_canceled(err: &IoError) -> (found: bool)
    ensures
        found == holds_cancellation(*err),
{
    // The outer node is always an `IoError`, which cannot itself be a
    // `Canceled`, so start one step inside.
    let mut current: Option<&ErrorNode> = err.get_ref();
    loop
        invariant
            holds_cancellation(*err) == (current matches Some(node) && node_holds_cancellation(*node)),
        decreases links_left(current),
    {
        proof {
            reveal_with_fuel(node_holds_cancellation, 3);
            reveal_with_fuel(holds_cancellation, 3);
            reveal_with_fuel(node_links, 2);
        }
        match current {
            None => {
                return false;
            },
            Some(node) => match node {
                ErrorNode::Canceled(_) => {
                    return true;
                },
                ErrorNode::Io(inner) => {
                    current = inner.get_ref();
                },
                ErrorNode::Foreign { text: _, source } => {
                    current = match source {
                        Some(cause) => Some(&**cause),
                        None => None,
                    };
                },
            },
        }
    }
}

} // verus!
