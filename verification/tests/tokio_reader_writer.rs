use std::collections::VecDeque;
use std::io;
use std::pin::Pin;
use std::sync::atomic::{AtomicUsize, Ordering};
use std::sync::{Arc, Mutex};
use std::task::Wake;

use bytes::{Bytes, BytesMut};
use tokio::io::{AsyncWrite, ReadBuf};
use tokio_util::io::poll_read_buf;

use procmachines::buf_provider::AsyncBufProvider;
use procmachines::io_error::IoError;
use procmachines::tokio_reader_writer::{
    plan_read, FillOutcome, ReadPlan, ReadStart, ReaderIoReader, WriterIoWriter,
};
use procmachines::{Context, Poll, Waker};

// Mock AsyncRead — driven by a queue of scripted actions.

enum ReadAction {
    Pending,
    Data(Vec<u8>),
    Eof,
    Fail(io::ErrorKind),
}

struct MockReader {
    actions: VecDeque<ReadAction>,
}

impl MockReader {
    fn new(actions: Vec<ReadAction>) -> Self {
        Self {
            actions: actions.into(),
        }
    }
}

impl tokio::io::AsyncRead for MockReader {
    fn poll_read(
        mut self: Pin<&mut Self>,
        _cx: &mut std::task::Context<'_>,
        buf: &mut ReadBuf<'_>,
    ) -> Poll<io::Result<()>> {
        match self.actions.pop_front() {
            None => Poll::Ready(Ok(())), // default to EOF
            Some(ReadAction::Eof) => Poll::Ready(Ok(())),
            Some(ReadAction::Pending) => Poll::Pending,
            Some(ReadAction::Data(data)) => {
                let n = data.len().min(buf.remaining());
                buf.put_slice(&data[..n]);
                if n < data.len() {
                    // Push the leftover back at the front for the next poll.
                    self.actions
                        .push_front(ReadAction::Data(data[n..].to_vec()));
                }
                Poll::Ready(Ok(()))
            }
            Some(ReadAction::Fail(kind)) => Poll::Ready(Err(kind.into())),
        }
    }
}

// Mock BufProvider — script of actions that returns Pending or a
// particular BytesMut.  After the script is exhausted, returns a fresh
// 64-byte BytesMut for each call.

enum BufAction {
    Pending,
    Buf(BytesMut),
}

struct MockBufProvider {
    actions: VecDeque<BufAction>,
    default_cap: usize,
}

impl MockBufProvider {
    fn fixed(cap: usize) -> Self {
        Self {
            actions: VecDeque::new(),
            default_cap: cap,
        }
    }

    fn scripted(actions: Vec<BufAction>, default_cap: usize) -> Self {
        Self {
            actions: actions.into(),
            default_cap,
        }
    }
}

impl AsyncBufProvider for MockBufProvider {
    fn poll_get_buf(&mut self) -> Poll<BytesMut> {
        match self.actions.pop_front() {
            Some(BufAction::Pending) => Poll::Pending,
            Some(BufAction::Buf(b)) => Poll::Ready(b),
            None => Poll::Ready(BytesMut::with_capacity(self.default_cap)),
        }
    }
}

// Mock AsyncWrite — driven by scripted action queues for each operation.
// Records every accepted byte in `written`.

enum WriteAction {
    Pending,
    Wrote(usize),
    Fail(io::ErrorKind),
}

enum FlushAction {
    Pending,
    Done,
    Fail(io::ErrorKind),
}

enum ShutdownAction {
    Pending,
    Done,
    Fail(io::ErrorKind),
}

struct MockWriter {
    write: VecDeque<WriteAction>,
    flush: VecDeque<FlushAction>,
    shutdown: VecDeque<ShutdownAction>,
    written: Arc<Mutex<Vec<u8>>>,
}

impl MockWriter {
    fn new() -> Self {
        Self {
            write: VecDeque::new(),
            flush: VecDeque::new(),
            shutdown: VecDeque::new(),
            written: Arc::new(Mutex::new(Vec::new())),
        }
    }

    fn with_writes(mut self, w: Vec<WriteAction>) -> Self {
        self.write = w.into();
        self
    }

    fn with_flushes(mut self, f: Vec<FlushAction>) -> Self {
        self.flush = f.into();
        self
    }

    fn with_shutdowns(mut self, s: Vec<ShutdownAction>) -> Self {
        self.shutdown = s.into();
        self
    }

    fn written_handle(&self) -> Arc<Mutex<Vec<u8>>> {
        self.written.clone()
    }
}

impl tokio::io::AsyncWrite for MockWriter {
    fn poll_write(
        mut self: Pin<&mut Self>,
        _cx: &mut std::task::Context<'_>,
        buf: &[u8],
    ) -> Poll<io::Result<usize>> {
        match self.write.pop_front() {
            None => {
                // Default: accept everything.
                self.written.lock().unwrap().extend_from_slice(buf);
                Poll::Ready(Ok(buf.len()))
            }
            Some(WriteAction::Pending) => Poll::Pending,
            Some(WriteAction::Wrote(n)) => {
                let n = n.min(buf.len());
                self.written.lock().unwrap().extend_from_slice(&buf[..n]);
                Poll::Ready(Ok(n))
            }
            Some(WriteAction::Fail(kind)) => Poll::Ready(Err(kind.into())),
        }
    }

    fn poll_flush(mut self: Pin<&mut Self>, _cx: &mut std::task::Context<'_>) -> Poll<io::Result<()>> {
        match self.flush.pop_front() {
            None | Some(FlushAction::Done) => Poll::Ready(Ok(())),
            Some(FlushAction::Pending) => Poll::Pending,
            Some(FlushAction::Fail(kind)) => Poll::Ready(Err(kind.into())),
        }
    }

    fn poll_shutdown(mut self: Pin<&mut Self>, _cx: &mut std::task::Context<'_>) -> Poll<io::Result<()>> {
        match self.shutdown.pop_front() {
            None | Some(ShutdownAction::Done) => Poll::Ready(Ok(())),
            Some(ShutdownAction::Pending) => Poll::Pending,
            Some(ShutdownAction::Fail(kind)) => Poll::Ready(Err(kind.into())),
        }
    }
}


/// Reads the way an executor does: polls the inner reader where that is asked for.
fn con_poll_read<BP: AsyncBufProvider>(
    r: &mut ReaderIoReader<MockReader, BP>,
    cx: &mut Context,
    max_len: usize,
) -> Poll<Result<Option<Bytes>, IoError>> {
    match r.begin_read(cx, max_len) {
        ReadStart::Over(result) => result,
        ReadStart::Deliver => r.deliver(cx, max_len),
        ReadStart::Fill(mut buf) => {
            let mut task = std::task::Context::from_waker(std::task::Waker::noop());
            let inner = r.reader_mut().unwrap();
            let outcome = match poll_read_buf(Pin::new(inner), &mut task, &mut buf) {
                Poll::Pending => FillOutcome::Pending,
                Poll::Ready(Ok(n)) => FillOutcome::Filled(n),
                Poll::Ready(Err(e)) => FillOutcome::Failed(e.kind().into()),
            };
            r.finish_read(cx, max_len, buf, outcome)
        }
    }
}

fn to_io_error<T>(polled: Poll<io::Result<T>>) -> Poll<Result<T, IoError>> {
    polled.map(|r| r.map_err(|e| IoError::from(e.kind())))
}

/// Writes the way an executor does: polls the inner writer where that is needed.
fn prod_poll_write(
    w: &mut WriterIoWriter<MockWriter>,
    cx: &mut std::task::Context<'_>,
    bytes: &mut Bytes,
) -> Poll<Result<usize, IoError>> {
    if !WriterIoWriter::<MockWriter>::needs_write(bytes) {
        return Poll::Ready(Ok(0));
    }
    let polled = to_io_error(Pin::new(w.writer_mut()).poll_write(cx, bytes.as_ref()));
    WriterIoWriter::<MockWriter>::finish_write(bytes, polled)
}

fn prod_poll_flush(
    w: &mut WriterIoWriter<MockWriter>,
    cx: &mut std::task::Context<'_>,
) -> Poll<Result<(), IoError>> {
    to_io_error(Pin::new(w.writer_mut()).poll_flush(cx))
}

fn prod_poll_close(
    w: &mut WriterIoWriter<MockWriter>,
    cx: &mut std::task::Context<'_>,
) -> Poll<Result<(), IoError>> {
    to_io_error(Pin::new(w.writer_mut()).poll_shutdown(cx))
}

/// A minimal waker that records how many times it was woken.
struct CountWaker(AtomicUsize);

impl CountWaker {
    fn new() -> Arc<Self> {
        Arc::new(Self(AtomicUsize::new(0)))
    }

    fn count(&self) -> usize {
        self.0.load(Ordering::SeqCst)
    }
}

impl Wake for CountWaker {
    fn wake(self: Arc<Self>) {
        self.0.fetch_add(1, Ordering::SeqCst);
    }

    fn wake_by_ref(self: &Arc<Self>) {
        self.0.fetch_add(1, Ordering::SeqCst);
    }
}

fn make_waker() -> (Arc<CountWaker>, std::task::Waker) {
    let cw = CountWaker::new();
    let w: std::task::Waker = cw.clone().into();
    (cw, w)
}

#[test]
fn reader_dropped_returns_eof_and_pre_wakes() {
    let bp = MockBufProvider::fixed(64);
    let inner = MockReader::new(vec![]);
    let mut r = ReaderIoReader::new(inner, bp);
    r.drop_read();
    let w = Waker::new(1);
    let mut cx = Context::from_waker(&w);

    match con_poll_read(&mut r, &mut cx, 1024) {
        Poll::Ready(Ok(None)) => {}
        other => panic!("expected Ready(Ok(None)), got {:?}", other.map(|_| ())),
    }
    assert!(cx.woken.count(&w) > 0, "EOF must pre-wake the caller");

    // EOF is repeatable.
    cx.woken.drain();
    match con_poll_read(&mut r, &mut cx, 1024) {
        Poll::Ready(Ok(None)) => {}
        other => panic!("expected repeated EOF, got {:?}", other.map(|_| ())),
    }
    assert!(cx.woken.count(&w) > 0, "repeated EOF must also pre-wake");
}

#[test]
fn reader_returns_data_then_eof() {
    let bp = MockBufProvider::fixed(64);
    let inner = MockReader::new(vec![ReadAction::Data(b"hello".to_vec()), ReadAction::Eof]);
    let mut r = ReaderIoReader::new(inner, bp);
    let w = Waker::new(1);
    let mut cx = Context::from_waker(&w);

    match con_poll_read(&mut r, &mut cx, 1024) {
        Poll::Ready(Ok(Some(data))) => assert_eq!(&data[..], b"hello"),
        other => panic!("expected Some(hello), got {:?}", other.map(|_| ())),
    }
    assert!(cx.woken.count(&w) > 0, "consuming Ready must pre-wake");

    cx.woken.drain();
    match con_poll_read(&mut r, &mut cx, 1024) {
        Poll::Ready(Ok(None)) => {}
        other => panic!("expected EOF, got {:?}", other.map(|_| ())),
    }
    assert!(cx.woken.count(&w) > 0, "EOF must pre-wake");
}

#[test]
fn reader_caps_at_max_len() {
    let bp = MockBufProvider::fixed(64);
    let inner = MockReader::new(vec![
        ReadAction::Data(b"abcdefghij".to_vec()),
        ReadAction::Eof,
    ]);
    let mut r = ReaderIoReader::new(inner, bp);
    let w = Waker::new(1);
    let mut cx = Context::from_waker(&w);

    // First call: read into the buffer, cap at 3 bytes.
    match con_poll_read(&mut r, &mut cx, 3) {
        Poll::Ready(Ok(Some(data))) => assert_eq!(&data[..], b"abc"),
        other => panic!("expected 'abc', got {:?}", other.map(|_| ())),
    }

    // Subsequent calls drain the rest — the underlying reader is not
    // re-polled (got_eof not yet set, but `do_read` is false because we
    // still have data and not enough free space to bother).
    let mut got = Vec::new();
    loop {
        match con_poll_read(&mut r, &mut cx, 1024) {
            Poll::Ready(Ok(Some(data))) => got.extend_from_slice(&data),
            Poll::Ready(Ok(None)) => break,
            other => panic!("unexpected {:?}", other.map(|_| ())),
        }
    }
    assert_eq!(got, b"defghij");
}

#[test]
fn reader_propagates_pending() {
    let bp = MockBufProvider::fixed(64);
    let inner = MockReader::new(vec![ReadAction::Pending]);
    let mut r = ReaderIoReader::new(inner, bp);
    let w = Waker::new(1);
    let mut cx = Context::from_waker(&w);

    match con_poll_read(&mut r, &mut cx, 1024) {
        Poll::Pending => {}
        other => panic!("expected Pending, got {:?}", other.map(|_| ())),
    }
    // No consumption, no pre-wake.
    assert_eq!(cx.woken.count(&w), 0, "Pending must not pre-wake");
}

#[test]
fn reader_drains_buffer_before_error() {
    let bp = MockBufProvider::fixed(64);
    // Read 5 bytes, then error.  Both happen on the same poll_read_buf
    // invocation chain because we keep looping inside con_poll_read until
    // there's nothing left to do.
    let inner = MockReader::new(vec![
        ReadAction::Data(b"hello".to_vec()),
        ReadAction::Fail(io::ErrorKind::ConnectionReset),
    ]);
    let mut r = ReaderIoReader::new(inner, bp);
    let w = Waker::new(1);
    let mut cx = Context::from_waker(&w);

    // First read returns the buffered data.
    match con_poll_read(&mut r, &mut cx, 1024) {
        Poll::Ready(Ok(Some(data))) => assert_eq!(&data[..], b"hello"),
        other => panic!("expected 'hello', got {:?}", other.map(|_| ())),
    }

    // Second read drains nothing more from the buffer, observes the
    // error from the second action, and surfaces it.
    match con_poll_read(&mut r, &mut cx, 1024) {
        Poll::Ready(Err(e)) => assert_eq!(e, IoError::BrokenPipe),
        other => panic!("expected error, got {:?}", other.map(|_| ())),
    }

    // After surfacing the error, the inner reader is set to None — so
    // subsequent reads return plain EOF.
    match con_poll_read(&mut r, &mut cx, 1024) {
        Poll::Ready(Ok(None)) => {}
        other => panic!("expected EOF after error, got {:?}", other.map(|_| ())),
    }
}

#[test]
fn reader_zero_probe_with_data_is_some_empty_no_prewake() {
    let bp = MockBufProvider::fixed(64);
    let inner = MockReader::new(vec![ReadAction::Data(b"xy".to_vec()), ReadAction::Eof]);
    let mut r = ReaderIoReader::new(inner, bp);
    let w = Waker::new(1);
    let mut cx = Context::from_waker(&w);

    // Pull some data into the internal buffer.
    let _ = con_poll_read(&mut r, &mut cx, 1024);
    cx.woken.drain();

    // Wait — we just consumed everything, the buffer is empty.  Re-stage
    // by writing data that leaves leftover.  Easier to start over with
    // a different scenario.
            let bp2 = MockBufProvider::fixed(64);
    let inner2 = MockReader::new(vec![
        ReadAction::Data(b"abcdef".to_vec()),
        ReadAction::Pending,
    ]);
    let mut r2 = ReaderIoReader::new(inner2, bp2);

    // First read: cap at 3 so 3 bytes remain in the buffer.
    match con_poll_read(&mut r2, &mut cx, 3) {
        Poll::Ready(Ok(Some(d))) => assert_eq!(&d[..], b"abc"),
        other => panic!("expected 'abc', got {:?}", other.map(|_| ())),
    }
    cx.woken.drain();

    // Probe with max_len == 0 — there's data, so we get Some(empty)
    // and the caller is NOT pre-woken.
    match con_poll_read(&mut r2, &mut cx, 0) {
        Poll::Ready(Ok(Some(d))) => assert!(d.is_empty()),
        other => panic!("expected Some(empty), got {:?}", other.map(|_| ())),
    }
    assert_eq!(
        cx.woken.count(&w),
        0,
        "max_len==0 probe with data must not pre-wake"
    );
}

#[test]
fn reader_zero_probe_eof_is_none_and_pre_wakes() {
    // EOF probe with max_len == 0: per the trait contract, the EOS
    // signal still counts as consumption and pre-wakes the caller.
    let bp = MockBufProvider::fixed(64);
    let inner = MockReader::new(vec![]);
    let mut r = ReaderIoReader::new(inner, bp);
    r.drop_read();
    let w = Waker::new(1);
    let mut cx = Context::from_waker(&w);

    match con_poll_read(&mut r, &mut cx, 0) {
        Poll::Ready(Ok(None)) => {}
        other => panic!("expected EOF, got {:?}", other.map(|_| ())),
    }
    assert!(cx.woken.count(&w) > 0, "EOF must pre-wake even on max_len==0 probe");
}

#[test]
fn reader_drop_read_enters_eof() {
    let bp = MockBufProvider::fixed(64);
    let inner = MockReader::new(vec![ReadAction::Data(b"unread".to_vec())]);
    let mut r = ReaderIoReader::new(inner, bp);
    let w = Waker::new(1);
    let mut cx = Context::from_waker(&w);

    r.drop_read();

    match con_poll_read(&mut r, &mut cx, 1024) {
        Poll::Ready(Ok(None)) => {}
        other => panic!("expected EOF after drop_read, got {:?}", other.map(|_| ())),
    }
}

#[test]
fn reader_buf_provider_pending_propagates() {
    let bp = MockBufProvider::scripted(vec![BufAction::Pending], 64);
    let inner = MockReader::new(vec![ReadAction::Data(b"x".to_vec())]);
    let mut r = ReaderIoReader::new(inner, bp);
    let w = Waker::new(1);
    let mut cx = Context::from_waker(&w);

    match con_poll_read(&mut r, &mut cx, 1024) {
        Poll::Pending => {}
        other => panic!("expected Pending, got {:?}", other.map(|_| ())),
    }
    assert_eq!(cx.woken.count(&w), 0, "buf-provider Pending must not pre-wake");
}

#[test]
fn reader_zero_capacity_buf_returns_oom() {
    let bp = MockBufProvider::scripted(vec![BufAction::Buf(BytesMut::with_capacity(0))], 0);
    let inner = MockReader::new(vec![ReadAction::Data(b"x".to_vec())]);
    let mut r = ReaderIoReader::new(inner, bp);
    let w = Waker::new(1);
    let mut cx = Context::from_waker(&w);

    match con_poll_read(&mut r, &mut cx, 1024) {
        Poll::Ready(Err(e)) => assert_eq!(e, IoError::OutOfMemory),
        other => panic!("expected OutOfMemory, got {:?}", other.map(|_| ())),
    }
}

#[test]
fn reader_handles_multiple_chunks() {
    let bp = MockBufProvider::fixed(64);
    let inner = MockReader::new(vec![
        ReadAction::Data(b"aa".to_vec()),
        ReadAction::Data(b"bb".to_vec()),
        ReadAction::Data(b"cc".to_vec()),
        ReadAction::Eof,
    ]);
    let mut r = ReaderIoReader::new(inner, bp);
    let w = Waker::new(1);
    let mut cx = Context::from_waker(&w);

    let mut all = Vec::new();
    loop {
        match con_poll_read(&mut r, &mut cx, 1024) {
            Poll::Ready(Ok(Some(d))) => all.extend_from_slice(&d),
            Poll::Ready(Ok(None)) => break,
            other => panic!("unexpected {:?}", other.map(|_| ())),
        }
    }
    assert_eq!(all, b"aabbcc");
}

#[test]
fn writer_empty_write_is_noop() {
    let mut w = WriterIoWriter::new(MockWriter::new());
    let (_cw, waker) = make_waker();
    let mut cx = std::task::Context::from_waker(&waker);

    let mut empty = Bytes::new();
    match prod_poll_write(&mut w, &mut cx, &mut empty) {
        Poll::Ready(Ok(0)) => {}
        other => panic!("expected Ready(Ok(0)), got {:?}", other.map(|_| ())),
    }
}

#[test]
fn writer_writes_full_buffer() {
    let mw = MockWriter::new();
    let written = mw.written_handle();
    let mut w = WriterIoWriter::new(mw);
    let (_cw, waker) = make_waker();
    let mut cx = std::task::Context::from_waker(&waker);

    let mut payload = Bytes::from_static(b"hello");
    match prod_poll_write(&mut w, &mut cx, &mut payload) {
        Poll::Ready(Ok(5)) => {}
        other => panic!("expected Ok(5), got {:?}", other.map(|_| ())),
    }
    assert!(payload.is_empty(), "payload should be fully consumed");
    assert_eq!(&written.lock().unwrap()[..], b"hello");
}

#[test]
fn writer_partial_write_advances_payload() {
    let mw = MockWriter::new().with_writes(vec![WriteAction::Wrote(2)]);
    let written = mw.written_handle();
    let mut w = WriterIoWriter::new(mw);
    let (_cw, waker) = make_waker();
    let mut cx = std::task::Context::from_waker(&waker);

    let mut payload = Bytes::from_static(b"abcdef");
    match prod_poll_write(&mut w, &mut cx, &mut payload) {
        Poll::Ready(Ok(2)) => {}
        other => panic!("expected Ok(2), got {:?}", other.map(|_| ())),
    }
    assert_eq!(&payload[..], b"cdef");
    assert_eq!(&written.lock().unwrap()[..], b"ab");
}

#[test]
fn writer_pending_leaves_payload_untouched() {
    let mw = MockWriter::new().with_writes(vec![WriteAction::Pending]);
    let mut w = WriterIoWriter::new(mw);
    let (cw, waker) = make_waker();
    let mut cx = std::task::Context::from_waker(&waker);

    let mut payload = Bytes::from_static(b"xyz");
    match prod_poll_write(&mut w, &mut cx, &mut payload) {
        Poll::Pending => {}
        other => panic!("expected Pending, got {:?}", other.map(|_| ())),
    }
    assert_eq!(&payload[..], b"xyz");
    assert_eq!(cw.count(), 0, "Pending must not wake by itself");
}

#[test]
fn writer_propagates_error() {
    let mw = MockWriter::new().with_writes(vec![WriteAction::Fail(io::ErrorKind::Other)]);
    let mut w = WriterIoWriter::new(mw);
    let (_cw, waker) = make_waker();
    let mut cx = std::task::Context::from_waker(&waker);

    let mut payload = Bytes::from_static(b"q");
    match prod_poll_write(&mut w, &mut cx, &mut payload) {
        Poll::Ready(Err(e)) => assert_eq!(e, IoError::Unknown),
        other => panic!("expected Other error, got {:?}", other.map(|_| ())),
    }
    // Per the trait, on error the payload is not advanced.
    assert_eq!(&payload[..], b"q");
}

#[test]
fn writer_flush_proxies() {
    let mw = MockWriter::new().with_flushes(vec![
        FlushAction::Pending,
        FlushAction::Done,
        FlushAction::Fail(io::ErrorKind::WriteZero),
    ]);
    let mut w = WriterIoWriter::new(mw);
    let (_cw, waker) = make_waker();
    let mut cx = std::task::Context::from_waker(&waker);

    assert!(matches!(prod_poll_flush(&mut w, &mut cx), Poll::Pending));
    assert!(matches!(prod_poll_flush(&mut w, &mut cx), Poll::Ready(Ok(()))));
    match prod_poll_flush(&mut w, &mut cx) {
        Poll::Ready(Err(IoError::BrokenPipe)) => {}
        other => panic!("expected BrokenPipe, got {:?}", other.map(|_| ())),
    }
}

#[test]
fn writer_close_pending_keeps_inner() {
    let mw = MockWriter::new().with_shutdowns(vec![ShutdownAction::Pending]);
    let mut w = WriterIoWriter::new(mw);
    let (_cw, waker) = make_waker();
    let mut cx = std::task::Context::from_waker(&waker);

    assert!(matches!(prod_poll_close(&mut w, &mut cx), Poll::Pending));
    let mut payload = Bytes::from_static(b"x");
    match prod_poll_write(&mut w, &mut cx, &mut payload) {
        Poll::Ready(Ok(1)) => {}
        other => panic!(
            "expected write to still succeed, got {:?}",
            other.map(|_| ())
        ),
    }
}

#[test]
fn writer_close_ok() {
    let mw = MockWriter::new().with_shutdowns(vec![ShutdownAction::Done]);
    let mut w = WriterIoWriter::new(mw);
    let (_cw, waker) = make_waker();
    let mut cx = std::task::Context::from_waker(&waker);

    assert!(matches!(prod_poll_close(&mut w, &mut cx), Poll::Ready(Ok(()))));
}

#[test]
fn writer_close_error_propagates() {
    let mw = MockWriter::new()
        .with_shutdowns(vec![ShutdownAction::Fail(io::ErrorKind::ConnectionAborted)]);
    let mut w = WriterIoWriter::new(mw);
    let (_cw, waker) = make_waker();
    let mut cx = std::task::Context::from_waker(&waker);

    match prod_poll_close(&mut w, &mut cx) {
        Poll::Ready(Err(e)) => assert_eq!(e, IoError::AbortRequested),
        other => panic!("expected ConnectionAborted, got {:?}", other.map(|_| ())),
    }
}

#[test]
fn writer_failure_leaves_payload_untouched() {
    let mut payload = Bytes::from_static(b"keep");
    let result = WriterIoWriter::<MockWriter>::finish_write(
        &mut payload,
        Poll::Ready(Err(IoError::TimedOut)),
    );
    assert_eq!(result, Poll::Ready(Err(IoError::TimedOut)));
    assert_eq!(&payload[..], b"keep");
}

#[test]
fn plan_fills_an_empty_buffer_with_room() {
    assert_eq!(plan_read(0, 64, 64, 8), ReadPlan::Fill);
    assert_eq!(plan_read(0, 17, 64, 8), ReadPlan::Fill);
}

#[test]
fn plan_takes_a_new_buffer_once_a_quarter_or_less_is_free() {
    assert_eq!(plan_read(0, 16, 64, 8), ReadPlan::NewBuffer);
    assert_eq!(plan_read(0, 0, 0, 8), ReadPlan::NewBuffer);
}

#[test]
fn plan_delivers_what_there_is() {
    // Too little room to augment.
    assert_eq!(plan_read(50, 64, 64, 100), ReadPlan::Deliver);
    // The block will not cross the half-way point.
    assert_eq!(plan_read(4, 64, 64, 31), ReadPlan::Deliver);
    // The buffer is past the half-way point already.
    assert_eq!(plan_read(4, 32, 64, 100), ReadPlan::Deliver);
}

#[test]
fn plan_augments_when_the_block_crosses_the_half_way_point() {
    assert_eq!(plan_read(4, 64, 64, 32), ReadPlan::Fill);
    assert_eq!(plan_read(4, 33, 64, 1), ReadPlan::Fill);
    assert_eq!(plan_read(4, 64, 64, usize::MAX), ReadPlan::Fill);
}

#[test]
fn end_is_reported_only_after_the_buffered_bytes() {
    let mut r = ReaderIoReader::new(MockReader::new(vec![]), MockBufProvider::fixed(64));
    let w = Waker::new(1);
    let mut cx = Context::from_waker(&w);
    let buf = BytesMut::from(&b"tail"[..]);
    // The end is known while four bytes are buffered.
    match r.finish_read(&mut cx, 3, buf, FillOutcome::Filled(0)) {
        Poll::Ready(Ok(Some(data))) => assert_eq!(&data[..], b"tai"),
        other => panic!("unexpected {:?}", other),
    }
    match con_poll_read(&mut r, &mut cx, 3) {
        Poll::Ready(Ok(Some(data))) => assert_eq!(&data[..], b"l"),
        other => panic!("unexpected {:?}", other),
    }
    assert!(r.reader_mut().is_some());
    assert!(matches!(con_poll_read(&mut r, &mut cx, 3), Poll::Ready(Ok(None))));
    assert!(r.reader_mut().is_none());
}

#[test]
fn drop_read_discards_buffered_data() {
    let mut r = ReaderIoReader::new(MockReader::new(vec![]), MockBufProvider::fixed(64));
    let w = Waker::new(1);
    let mut cx = Context::from_waker(&w);
    let buf = BytesMut::from(&b"tail"[..]);
    let _ = r.finish_read(&mut cx, 1, buf, FillOutcome::Failed(IoError::Busy));
    r.drop_read();
    assert!(matches!(con_poll_read(&mut r, &mut cx, 8), Poll::Ready(Ok(None))));
    assert!(matches!(r.deliver(&mut cx, 8), Poll::Pending));
}
