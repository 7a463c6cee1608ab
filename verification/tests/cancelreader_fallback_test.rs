//! Fallback backend semantics.

use std::io::{Cursor, Read};

use cancelreader::{
    new_reader_plain, CancelReader, CancelStep, Canceled, Canceler, Failure, FallbackCancelReader,
    ReadStep,
};

/// One read of a fallback reader, as a program runs it.
fn read<R: Read>(
    cr: &mut FallbackCancelReader<R>,
    canceler: &Canceler,
    buf: &mut [u8],
) -> Result<usize, Failure<std::io::Error>> {
    match cr.read(canceler, buf.len()) {
        ReadStep::Return(result) => result,
        ReadStep::ReadInput => {
            let result = cr.reader.read(buf);
            cr.input_read(canceler, result)
        }
        step => panic!("a fallback read never takes the step {step:?}"),
    }
}

/// Read to the end of the input.
fn read_to_end<R: Read>(
    cr: &mut FallbackCancelReader<R>,
    canceler: &Canceler,
    sink: &mut Vec<u8>,
) -> Result<usize, Failure<std::io::Error>> {
    let mut total = 0;
    loop {
        let mut buf = [0u8; 3];
        let n = read(cr, canceler, &mut buf)?;
        if n == 0 {
            return Ok(total);
        }
        sink.extend_from_slice(&buf[..n]);
        total += n;
    }
}

/// An input that records that it was read and returns an error that the fallback is
/// expected to discard in favor of the cancellation.
struct RecordingReader {
    read: bool,
}

impl Read for RecordingReader {
    fn read(&mut self, _buf: &mut [u8]) -> std::io::Result<usize> {
        self.read = true;
        Err(std::io::Error::other("this error should be ignored"))
    }
}

/// A cancel racing a blocked read still surfaces as a cancellation, and the
/// underlying read runs to completion first.
#[test]
fn fallback_reader_concurrent_cancel() {
    let (mut cr, mut canceler) = new_reader_plain(RecordingReader { read: false });

    // The read starts.
    assert!(matches!(cr.read::<std::io::Error>(&canceler, 8), ReadStep::ReadInput));
    // While the input blocks, another thread cancels.
    assert_eq!(canceler.cancel(), CancelStep::Done(false));
    // The input unblocks.
    let result = cr.reader.read(&mut [0u8; 8]);
    let err = cr.input_read(&canceler, result).expect_err("expected a cancellation");
    assert!(matches!(err, Failure::Canceled(Canceled)), "expected a cancellation, got {err:?}");

    assert!(
        cr.reader.read,
        "the reader was canceled before the read finished, which should not happen"
    );
}

/// Pass-through before cancel, empty cancellation after.
#[test]
fn fallback_reader() {
    let (mut cr, mut canceler) = new_reader_plain(Cursor::new(b"first".to_vec()));

    let mut first = Vec::new();
    read_to_end(&mut cr, &canceler, &mut first).expect("expected no error");
    assert_eq!(first, b"first", "expected the buffered text");

    cr.cancel(&mut canceler);

    let mut second = Vec::new();
    let err = read_to_end(&mut cr, &canceler, &mut second).expect_err("expected a cancellation");
    assert!(matches!(err, Failure::Canceled(Canceled)), "expected a cancellation, got {err:?}");
    assert!(second.is_empty(), "expected an empty read after cancel");
}

/// The input's own error is passed on, and its data where nobody cancels.
#[test]
fn input_results_pass_through() {
    let (cr, mut canceler) = new_reader_plain(());
    assert_eq!(cr.input_read(&canceler, Ok::<usize, i32>(3)), Ok(3));
    assert_eq!(cr.input_read(&canceler, Err(32)), Err(Failure::Outside(32)));
    canceler.cancel();
    assert_eq!(
        cr.input_read(&canceler, Ok::<usize, i32>(3)),
        Err(Failure::Canceled(Canceled))
    );
    assert_eq!(cr.input_read(&canceler, Err(32)), Err(Failure::Canceled(Canceled)));
}

/// A canceled read consumes nothing: the bytes are still there.
#[test]
fn canceled_read_leaves_the_input_alone() {
    let (mut cr, mut canceler) = new_reader_plain(Cursor::new(b"abc".to_vec()));
    canceler.cancel();
    let mut buf = [0u8; 3];
    assert!(read(&mut cr, &canceler, &mut buf).is_err());
    assert_eq!(cr.reader.position(), 0);
}
