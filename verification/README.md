# cancelreader

A cancelable reader. Wrap a blocking input source like stdin or a raw terminal so
another thread can abort a blocked read during shutdown. The abort consumes no input.

The mechanism is the self-pipe trick paired with an operating system readiness wait. A
read blocks until either the input becomes readable or a cancel signal arrives. A cancel
wakes the wait and makes the read return a cancellation instead of data.

## Layout

- `src/` is the library, verified with Verus. It decides which backend to build and how,
  what a wait means, when a read is canceled, what a cancel and a close do, and which
  result of a Windows call is a failure. It makes no system call. Each operation is a
  sequence of steps: the library says what to do next, and the program reports what came
  of it.
  - `error`, `flag`, `canceler`, `step`, `reader`: what all backends share.
  - `fallback`, `unix`, `windows`: the backends, with `fd_set` and `chan` beneath them.
  - `input`: inputs with a raw descriptor and a name.
  - `laws`: what holds of the readers as a whole, proved.
- `app/` makes the system calls and offers the readers as `std::io::Read`. It picks the
  platform it is compiled for, puts the results of system calls into the library's terms
  (an interrupted wait, the events of a kernel queue), and shares the cancellation state
  between threads under a lock.
- `tests/` runs the library, the epoll backend over real pipes.

## Backends

- Linux uses epoll.
- macOS and the BSDs use kqueue. kqueue returns ready at once when it watches `/dev/tty`,
  so a reader of that name uses `select` instead.
- Solaris uses `select`.
- Windows waits on the console and on a cancel event. Only a reader sharing stdin's handle
  is cancelable.
- Every other platform, and every reader without a raw descriptor, uses a fallback that
  cannot interrupt an in-flight read.
