//! Cross-platform contract: a reader without a descriptor cannot cancel.

use cancelreader::{
    is_canceled, new_fallback_cancel_reader, new_reader, new_reader_plain, CancelReader,
    CancelStep, Canceled, CloseStep, ErrorKind, ErrorNode, Failure, IoError, NewReader, Platform,
    RawDescriptor, RawInput, ReadStep,
};

/// A non-file reader routes to the fallback, and its cancel reports failure.
#[test]
fn reader_non_file() {
    let (cr, mut canceler) = new_reader_plain(std::io::empty());
    assert_eq!(
        cr.cancel(&mut canceler),
        CancelStep::Done(false),
        "expected cancellation to fail for a non-file reader"
    );
}

/// Calling cancel more than once stays stable and never panics.
#[test]
fn cancel_idempotent() {
    let (cr, mut canceler) = new_reader_plain(std::io::empty());
    for _ in 0..8 {
        assert_eq!(
            cr.cancel(&mut canceler),
            CancelStep::Done(false),
            "fallback cancel should always report failure"
        );
    }
}

/// A cancellation is detectable even when wrapped one level deep.
#[test]
fn err_canceled_matchable() {
    let direct: IoError = Canceled.into();
    assert!(is_canceled(&direct), "a direct cancellation should match");

    let wrapped = IoError::other(ErrorNode::Io(direct));
    assert!(is_canceled(&wrapped), "a wrapped cancellation should match");

    let unrelated = IoError::other(ErrorNode::Foreign {
        text: "broken pipe".to_string(),
        source: None,
    });
    assert!(!is_canceled(&unrelated), "an unrelated error should not match");
}

/// An unrelated error of a specific kind does not match.
#[test]
fn broken_pipe_does_not_match() {
    let broken = IoError::Custom {
        kind: ErrorKind::Specific("BrokenPipe".to_string()),
        inner: Box::new(ErrorNode::Foreign { text: "broken pipe".to_string(), source: None }),
    };
    assert!(!is_canceled(&broken), "an unrelated error should not match");
    assert_eq!(broken.kind(), &ErrorKind::Specific("BrokenPipe".to_string()));
    assert_eq!(broken.to_string(), "broken pipe");
    assert!(!is_canceled(&IoError::other(ErrorNode::Io(broken))));
}

/// The handle has the same effect and result as the reader's own cancel.
#[test]
fn canceler_cancels_like_the_reader() {
    let (cr, mut canceler) = new_fallback_cancel_reader(7u8);
    assert!(!canceler.is_canceled());
    assert_eq!(canceler.cancel(), CancelStep::Done(false));
    assert!(canceler.is_canceled());
    assert_eq!(
        cr.read::<i32>(&canceler, 1),
        ReadStep::Return(Err(Failure::Canceled(Canceled)))
    );
    assert_eq!(cr.reader, 7);
}

/// Closing a fallback reader reports success any number of times and stops nothing.
#[test]
fn fallback_close_reports_success() {
    let (mut cr, mut canceler) = new_fallback_cancel_reader(());
    assert_eq!(cr.close(&mut canceler), CloseStep::Done(Ok(())));
    assert_eq!(cr.close(&mut canceler), CloseStep::Done(Ok(())));
    assert!(!canceler.is_canceled());
    assert!(!canceler.is_closed());
    assert_eq!(cr.read::<i32>(&canceler, 1), ReadStep::ReadInput);

    // A cancel reports failure and stops the reads, as before the close.
    assert_eq!(canceler.cancel(), CancelStep::Done(false));
    assert_eq!(cr.cancel(&mut canceler), CancelStep::Done(false));
    assert_eq!(
        cr.read::<i32>(&canceler, 1),
        ReadStep::Return(Err(Failure::Canceled(Canceled)))
    );
}

/// An input for the router.
struct Input(RawDescriptor);

impl RawInput for Input {
    fn raw(&self) -> RawDescriptor {
        self.0
    }

    fn name(&self) -> &str {
        ""
    }
}

/// A platform without a backend, and a descriptor of another platform's kind, fall
/// back.
#[test]
fn unsupported_inputs_fall_back() {
    let fd = Input(RawDescriptor::Fd(3));
    let handle = Input(RawDescriptor::Handle(3));
    assert!(matches!(new_reader::<_, i32>(Platform::Other, &fd), NewReader::Fallback));
    assert!(matches!(
        new_reader::<_, i32>(Platform::Windows { stdin: 3 }, &fd),
        NewReader::Fallback
    ));
    let linux = Platform::Unix {
        flavor: cancelreader::unix::setup::UnixPlatform::Linux,
        fd_setsize: 1024,
    };
    assert!(matches!(new_reader::<_, i32>(linux, &handle), NewReader::Fallback));
}
