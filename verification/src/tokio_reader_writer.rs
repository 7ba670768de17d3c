//! Byte readers and writers over asynchronous I/O handles.
//!
//! [`ReaderIoReader`] and [`WriterIoWriter`] decide everything about a read or a
//! write but for the I/O itself.  Where an I/O handle has to be polled, they hand
//! control back to the caller, which polls the handle and reports what came of it.

use bytes::{Bytes, BytesMut};

use vstd::prelude::*;

use crate::buf_provider::AsyncBufProvider;
use crate::io_error::IoError;
use crate::task::{Context, Poll};

verus! {

/// What a read has to do before it can return something.
#[derive(Debug, Clone, Copy, PartialEq, Eq, Structural)]
pub enum ReadPlan {
    /// Read more into the current buffer.
    Fill,
    /// Get a new buffer, and read into it.
    NewBuffer,
    /// Go on with what there is.
    Deliver,
}

/// The plan for a read of up to `max_len` bytes, while `have_len` bytes are in a
/// buffer that has room for `capacity` bytes, and had room for `buf_capacity` bytes
/// when it was new.
///
/// More is read into the current buffer if over a quarter of its size is free, and
/// either there is nothing to return, or the block that is returned will cross the
/// half-way point of the buffer.  A new buffer is needed if there is nothing to
/// return and no such room.
pub open spec fn read_plan(
    have_len: nat,
    capacity: usize,
    buf_capacity: usize,
    max_len: usize,
) -> ReadPlan {
    let space = capacity - have_len;
    let half = buf_capacity as int / 2;
    if space > 0 && space > buf_capacity as int / 4 {
        if have_len == 0 || half < capacity <= half + max_len {
            ReadPlan::Fill
        } else {
            ReadPlan::Deliver
        }
    } else if have_len == 0 {
        ReadPlan::NewBuffer
    } else {
        ReadPlan::Deliver
    }
}

/// How a read goes on.
#[derive(Debug)]
pub enum ReadStart {
    /// The read is over with this result.
    Over(Poll<Result<Option<Bytes>, IoError>>),
    /// The reader has to be polled to read into this buffer; then the read is
    /// finished with [`ReaderIoReader::finish_read`].
    Fill(BytesMut),
    /// The reader need not be polled; the read is finished with
    /// [`ReaderIoReader::deliver`].
    Deliver,
}

/// What came of polling the reader.
#[derive(Debug, Clone, Copy, PartialEq, Eq, Structural)]
pub enum FillOutcome {
    /// No data is available yet; the polling task is registered with the reader.
    Pending,
    /// This many bytes were appended to the buffer; none means the end.
    Filled(usize),
    /// The reader failed.
    Failed(IoError),
}

/// What there is to know about a byte reader.
#[verifier::ext_equal]
pub struct ReaderModel<READER, BP> {
    /// The reader, unless it was dropped.
    pub reader: Option<READER>,
    /// The source of read buffers.
    pub provider: BP,
    /// The bytes that were read and not yet returned.
    pub buffered: Seq<u8>,
    /// How many bytes fitted into the current buffer when it was new.
    pub buf_capacity: usize,
    /// The reader has reported its end, or an error.
    pub got_eof: Option<Option<IoError>>,
}

impl<READER, BP> ReaderModel<READER, BP> {
    /// The reader with other bytes in its buffer.
    pub open spec fn holding(self, buffered: Seq<u8>) -> ReaderModel<READER, BP> {
        ReaderModel { buffered, ..self }
    }

    /// The reader once a poll of the inner reader has had the given outcome.
    pub open spec fn learned(self, outcome: FillOutcome) -> ReaderModel<READER, BP> {
        ReaderModel {
            got_eof: match outcome {
                FillOutcome::Filled(0) => Some(None),
                FillOutcome::Failed(err) => Some(Some(err)),
                _ => self.got_eof,
            },
            ..self
        }
    }

    /// The reader once it has reported its end: the inner reader is dropped.
    pub open spec fn ended(self) -> ReaderModel<READER, BP> {
        ReaderModel { reader: None, got_eof: None, ..self }
    }

    /// What is returned to a caller that asks for up to `max_len` bytes, out of
    /// what there is.
    pub open spec fn delivers(
        self,
        cx: Context,
        max_len: usize,
        after: ReaderModel<READER, BP>,
        after_cx: Context,
        result: Poll<Result<Option<Bytes>, IoError>>,
    ) -> bool {
        let len = self.buffered.len();
        let n = if max_len < len {
            max_len as int
        } else {
            len as int
        };
        if len == 0 {
            match self.got_eof {
                None => {
                    &&& result is Pending
                    &&& after == self
                    &&& after_cx == cx
                },
                Some(err) => {
                    &&& result == match err {
                        None => Poll::Ready(Ok::<Option<Bytes>, IoError>(None)),
                        Some(err) => Poll::Ready(Err::<Option<Bytes>, IoError>(err)),
                    }
                    &&& after == self.ended()
                    &&& cx.woke(after_cx, seq![cx.waker])
                },
            }
        } else {
            &&& result matches Poll::Ready(Ok(Some(data)))
            &&& crate::byte_buf::contents(data) == self.buffered.take(n)
            &&& after == self.holding(self.buffered.skip(n))
            &&& if max_len == 0 {
                after_cx == cx
            } else {
                cx.woke(after_cx, seq![cx.waker])
            }
        }
    }
}

/// A wrapper around an asynchronous reader that reads it as an
/// [`IoReader`](crate::io_reader::IoReader) is read.
///
/// Read buffers are obtained from the supplied [`AsyncBufProvider`].  The
/// wrapper attempts to amortise allocations by reading additional data into
/// the current buffer when there is enough free space, returning chunks
/// as reference-counted slices into the same underlying allocation.
///
/// A read begins with [`begin_read`](Self::begin_read), which says whether the
/// inner reader has to be polled; the caller polls it ([`reader_mut`](Self::reader_mut))
/// and reports what came of it to [`finish_read`](Self::finish_read).
///
/// # State transitions
///
/// - When the underlying reader reports EOF or an error, the wrapper drains
///   any remaining buffered bytes first, then surfaces the EOF / error and
///   drops the inner reader.
/// - Once the inner reader has been dropped (either by reaching EOF / error,
///   or by an explicit [`drop_read`](Self::drop_read)), a read is in the EOF
///   condition: it returns `Ready(Ok(None))` and pre-wakes the caller.  The
///   signal is repeatable.
/// - [`drop_read`](Self::drop_read) drops the inner reader and discards
///   any buffered data and pending error.
///
/// The inner reader is supplied at construction time and cannot be replaced.
#[derive(Debug)]
pub struct ReaderIoReader<READER, BP> {
    reader: Option<READER>,
    buf_provider: BP,
    cur_buf: BytesMut,
    buf_capacity: usize,
    got_eof: Option<Option<IoError>>,
}

impl<READER, BP> View for ReaderIoReader<READER, BP> {
    type V = ReaderModel<READER, BP>;

    closed spec fn view(&self) -> ReaderModel<READER, BP> {
        ReaderModel {
            reader: self.reader,
            provider: self.buf_provider,
            buffered: crate::byte_buf::written(self.cur_buf),
            buf_capacity: self.buf_capacity,
            got_eof: self.got_eof,
        }
    }
}

/// Decides what a read has to do before it can return something; see
/// [`read_plan`].
pub fn plan_read(have_len: usize, capacity: usize, buf_capacity: usize, max_len: usize) -> (plan:
    ReadPlan)
    requires
        have_len <= capacity,
    ensures
        plan == read_plan(have_len as nat, capacity, buf_capacity, max_len),
{
    let space: usize = capacity - have_len;
    if space > 0 && space > buf_capacity / 4 {
        // We have enough space to augment the current buffer, but we only want to do this
        // under 2 conditions:
        // 1. We don't have any data to return; or
        // 2. The block we're going to return will cross the buffer half-way point
        let half_buf: usize = buf_capacity / 2;
        if have_len == 0 || (capacity > half_buf && capacity - half_buf <= max_len) {
            ReadPlan::Fill
        } else {
            ReadPlan::Deliver
        }
    } else if have_len == 0 {
        ReadPlan::NewBuffer
    } else {
        ReadPlan::Deliver
    }
}

impl<READER, BP> ReaderIoReader<READER, BP> where BP: AsyncBufProvider {
    /// Creates a new `ReaderIoReader` wrapping the given reader and using
    /// `buf_provider` as the source of read buffers.
    pub fn new(inner: READER, buf_provider: BP) -> (reader: ReaderIoReader<READER, BP>)
        ensures
            reader@ == (ReaderModel {
                reader: Some(inner),
                provider: buf_provider,
                buffered: Seq::empty(),
                buf_capacity: 0,
                got_eof: None,
            }),
    {
        ReaderIoReader {
            reader: Some(inner),
            buf_provider,
            cur_buf: BytesMut::new(),
            buf_capacity: 0,
            got_eof: None,
        }
    }

    /// The buffer that holds the bytes that were read and not yet returned.
    pub closed spec fn current(&self) -> BytesMut {
        self.cur_buf
    }

    /// The current buffer holds the bytes that are buffered.
    pub proof fn current_is_buffered(&self)
        ensures
            crate::byte_buf::written(self.current()) == self@.buffered,
    {
    }

    /// Returns the inner reader to be polled, or `None` if it was dropped before.
    pub fn reader_mut(&mut self) -> (reader: Option<&mut READER>)
        ensures
            match old(self)@.reader {
                Some(inner) => reader matches Some(reader) && *reader == inner && final(self)@ == (
                ReaderModel { reader: Some(*final(reader)), ..old(self)@ }),
                None => reader is None && final(self)@ == old(self)@,
            },
            final(self).current() == old(self).current(),
    {
        match &mut self.reader {
            Some(reader) => Some(reader),
            None => None,
        }
    }

    /// Begins a read of up to `max_len` bytes.
    ///
    /// How much room the current buffer has is up to its allocator; see
    /// [`begin_read_with`](Self::begin_read_with) for what follows from it.
    pub fn begin_read(&mut self, cx: &mut Context, max_len: usize) -> (start: ReadStart)
        requires
            old(self)@.provider.provider_wf(),
        ensures
            final(self)@.provider.provider_wf(),
            exists|capacity: usize|
                crate::byte_buf::has_capacity(old(self).current(), capacity)
                    && #[trigger] begins(
                    old(self)@,
                    old(self).current(),
                    *old(cx),
                    max_len,
                    capacity,
                    final(self)@,
                    *final(cx),
                    start,
                ),
            !(start is Fill) ==> final(self).current() == old(self).current(),
    {
        let capacity: usize = self.cur_buf.capacity();
        self.begin_read_with(cx, max_len, capacity)
    }

    /// Begins a read of up to `max_len` bytes, given that the current buffer has
    /// room for `capacity` bytes.
    pub fn begin_read_with(&mut self, cx: &mut Context, max_len: usize, capacity: usize) -> (start:
        ReadStart)
        requires
            old(self)@.provider.provider_wf(),
            capacity >= old(self)@.buffered.len(),
        ensures
            final(self)@.provider.provider_wf(),
            begins(
                old(self)@,
                old(self).current(),
                *old(cx),
                max_len,
                capacity,
                final(self)@,
                *final(cx),
                start,
            ),
            !(start is Fill) ==> final(self).current() == old(self).current(),
    {
        if self.reader.is_none() {
            // Already in EOF state; one repetition of the EOS signal is
            // consumed and the caller is pre-woken.
            cx.wake_by_ref();
            return ReadStart::Over(Poll::Ready(Ok(None)));
        }
        if self.got_eof.is_some() {
            return ReadStart::Deliver;
        }
        // Attempt to read more data, if it's appropriate to do so.
        match plan_read(self.cur_buf.len(), capacity, self.buf_capacity, max_len) {
            ReadPlan::Fill => {
                let mut buf = BytesMut::new();
                core::mem::swap(&mut buf, &mut self.cur_buf);
                ReadStart::Fill(buf)
            },
            ReadPlan::Deliver => ReadStart::Deliver,
            ReadPlan::NewBuffer => match self.buf_provider.poll_get_buf() {
                Poll::Pending => ReadStart::Over(Poll::Pending),
                Poll::Ready(buf) => {
                    let room: usize = buf.capacity();
                    self.accept_buffer(buf, room)
                },
            },
        }
    }

    /// Takes a new buffer with room for `capacity` bytes, which has to be more than
    /// none, to be read into.
    pub fn accept_buffer(&mut self, buf: BytesMut, capacity: usize) -> (start: ReadStart)
        ensures
            accepts(old(self)@, buf, capacity, final(self)@, start),
            !(start is Fill) ==> final(self).current() == old(self).current(),
    {
        if capacity < 1 {
            return ReadStart::Over(Poll::Ready(Err(IoError::OutOfMemory)));
        }
        self.cur_buf = BytesMut::new();
        self.buf_capacity = capacity;
        ReadStart::Fill(buf)
    }

    /// Finishes a read for which the inner reader was polled: `buf` is the buffer
    /// that [`begin_read`](Self::begin_read) handed out, with what was read
    /// appended to it.
    pub fn finish_read(
        &mut self,
        cx: &mut Context,
        max_len: usize,
        buf: BytesMut,
        outcome: FillOutcome,
    ) -> (result: Poll<Result<Option<Bytes>, IoError>>)
        ensures
            old(self)@.holding(crate::byte_buf::written(buf)).learned(outcome).delivers(
                *old(cx),
                max_len,
                final(self)@,
                *final(cx),
                result,
            ),
            match result {
                // What is returned is split off the front of the buffer.
                Poll::Ready(Ok(Some(data))) if max_len > 0 => exists|
                    arg: &mut BytesMut,
                    n: usize,
                    front: BytesMut,
                |
                    {
                        &&& *arg == buf
                        &&& *final(arg) == final(self).current()
                        &&& #[trigger] call_ensures(BytesMut::split_to, (arg, n), front)
                        &&& #[trigger] call_ensures(BytesMut::freeze, (front,), data)
                    },
                _ => final(self).current() == buf,
            },
    {
        self.cur_buf = buf;
        match outcome {
            FillOutcome::Filled(n) => {
                if n == 0 {
                    self.got_eof = Some(None);
                }
            },
            FillOutcome::Failed(err) => {
                self.got_eof = Some(Some(err));
            },
            FillOutcome::Pending => {},
        }
        assert(self@ == old(self)@.holding(crate::byte_buf::written(buf)).learned(outcome));
        self.deliver(cx, max_len)
    }

    /// Finishes a read with what there is.
    pub fn deliver(&mut self, cx: &mut Context, max_len: usize) -> (result: Poll<
        Result<Option<Bytes>, IoError>,
    >)
        ensures
            old(self)@.delivers(*old(cx), max_len, final(self)@, *final(cx), result),
            match result {
                // What is returned is split off the front of the buffer.
                Poll::Ready(Ok(Some(data))) if max_len > 0 => exists|
                    arg: &mut BytesMut,
                    n: usize,
                    front: BytesMut,
                |
                    {
                        &&& *arg == old(self).current()
                        &&& *final(arg) == final(self).current()
                        &&& #[trigger] call_ensures(BytesMut::split_to, (arg, n), front)
                        &&& #[trigger] call_ensures(BytesMut::freeze, (front,), data)
                    },
                _ => final(self).current() == old(self).current(),
            },
    {
        let ghost buffered = self@.buffered;
        let have_len: usize = self.cur_buf.len();
        if have_len == 0 {
            if self.got_eof.is_none() {
                // No data, but not EOF yet; we must be pending on the reader or the
                // buffer provider.  Don't pre-wake.
                return Poll::Pending;
            }
            // EOF condition
            cx.wake_by_ref();
            self.reader = None;
            return match self.got_eof.take() {
                Some(Some(err)) => Poll::Ready(Err(err)),
                _ => Poll::Ready(Ok(None)),
            };
        }
        // We have data
        if max_len == 0 {
            // Caller was just checking.  Not a consumption, so don't pre-wake, but
            // return the empty probe result.
            assert(buffered.take(0) =~= Seq::<u8>::empty());
            assert(buffered.skip(0) =~= buffered);
            return Poll::Ready(Ok(Some(Bytes::new())));
        }
        // We're going to consume data, so pre-wake the caller.
        cx.wake_by_ref();
        let n: usize = if max_len < have_len {
            max_len
        } else {
            have_len
        };
        let front = self.cur_buf.split_to(n);
        assert(exists|arg: &mut BytesMut|
            {
                &&& *arg == old(self).current()
                &&& *final(arg) == self.current()
                &&& #[trigger] call_ensures(BytesMut::split_to, (arg, n), front)
            });
        let data = front.freeze();
        Poll::Ready(Ok(Some(data)))
    }

    /// Drops the inner reader, and discards any buffered data and pending error.
    pub fn drop_read(&mut self)
        ensures
            final(self)@ == old(self)@.ended().holding(Seq::empty()),
    {
        self.reader = None;
        self.got_eof = None;
        self.cur_buf = BytesMut::new();
    }
}

/// What follows from a new buffer with room for `capacity` bytes.
pub open spec fn accepts<READER, BP>(
    before: ReaderModel<READER, BP>,
    buf: BytesMut,
    capacity: usize,
    after: ReaderModel<READER, BP>,
    start: ReadStart,
) -> bool {
    if capacity < 1 {
        &&& start == ReadStart::Over(Poll::Ready(Err(IoError::OutOfMemory)))
        &&& after == before
    } else {
        &&& start == ReadStart::Fill(buf)
        &&& after == (ReaderModel { buf_capacity: capacity, buffered: Seq::empty(), ..before })
    }
}

/// A read of up to `max_len` bytes may begin with `start`, given that the buffer
/// `current` has room for `capacity` bytes.
pub open spec fn begins<READER, BP: AsyncBufProvider>(
    before: ReaderModel<READER, BP>,
    current: BytesMut,
    cx: Context,
    max_len: usize,
    capacity: usize,
    after: ReaderModel<READER, BP>,
    after_cx: Context,
    start: ReadStart,
) -> bool {
    let plan = read_plan(before.buffered.len(), capacity, before.buf_capacity, max_len);
    if before.reader is None {
        &&& start == ReadStart::Over(Poll::Ready(Ok(None)))
        &&& after == before
        &&& cx.woke(after_cx, seq![cx.waker])
    } else if before.got_eof is Some || plan == ReadPlan::Deliver {
        &&& start is Deliver
        &&& after == before
        &&& after_cx == cx
    } else if plan == ReadPlan::Fill {
        &&& start == ReadStart::Fill(current)
        &&& after == before.holding(Seq::empty())
        &&& after_cx == cx
    } else {
        &&& after_cx == cx
        &&& exists|provided: Poll<BytesMut>|
            {
                &&& #[trigger] before.provider.provides(after.provider, provided)
                &&& match provided {
                    Poll::Pending => {
                        &&& start == ReadStart::Over(Poll::Pending)
                        &&& after == (ReaderModel { provider: after.provider, ..before })
                    },
                    Poll::Ready(buf) => exists|room: usize|
                        {
                            &&& crate::byte_buf::has_capacity(buf, room)
                            &&& #[trigger] accepts(
                                ReaderModel { provider: after.provider, ..before },
                                buf,
                                room,
                                after,
                                start,
                            )
                        },
                }
            }
    }
}

/// A wrapper around an asynchronous writer that is written to as an
/// [`IoWriter`](crate::io_writer::IoWriter) is written to.
///
/// Flushing and closing are those of the inner writer, which
/// [`writer_mut`](Self::writer_mut) lends out.  So is writing, but for two things:
/// there is no need to ask the inner writer to write nothing
/// ([`needs_write`](Self::needs_write)), and what the inner writer has taken leaves
/// the caller's bytes ([`finish_write`](Self::finish_write)).
///
/// The inner writer is supplied at construction time and cannot be replaced.
#[derive(Debug)]
pub struct WriterIoWriter<WRITER> {
    inner: WRITER,
}

impl<WRITER> View for WriterIoWriter<WRITER> {
    type V = WRITER;

    closed spec fn view(&self) -> WRITER {
        self.inner
    }
}

impl<WRITER> WriterIoWriter<WRITER> {
    /// Creates a new `WriterIoWriter` wrapping the given writer.
    pub fn new(inner: WRITER) -> (writer: WriterIoWriter<WRITER>)
        ensures
            writer@ == inner,
    {
        WriterIoWriter { inner }
    }

    /// Returns the inner writer.
    pub fn writer_mut(&mut self) -> (writer: &mut WRITER)
        ensures
            *writer == old(self)@,
            final(self)@ == *final(writer),
    {
        &mut self.inner
    }

    /// Returns `true` if the inner writer has to be asked to write, and `false` if
    /// there is nothing to write.
    pub fn needs_write(bytes: &Bytes) -> (needed: bool)
        ensures
            needed == (crate::byte_buf::contents(*bytes).len() > 0),
    {
        !bytes.is_empty()
    }

    /// Finishes a write of `bytes` with the answer of the inner writer: the bytes
    /// that it has taken leave `bytes`.
    pub fn finish_write(bytes: &mut Bytes, polled: Poll<Result<usize, IoError>>) -> (result: Poll<
        Result<usize, IoError>,
    >)
        requires
            polled matches Poll::Ready(Ok(n)) ==> n <= crate::byte_buf::contents(*old(bytes)).len(),
        ensures
            result == polled,
            match polled {
                Poll::Ready(Ok(n)) => crate::byte_buf::contents(*final(bytes))
                    == crate::byte_buf::contents(*old(bytes)).skip(n as int),
                _ => *final(bytes) == *old(bytes),
            },
    {
        if let Poll::Ready(Ok(n)) = &polled {
            let _taken = bytes.split_to(*n);
        }
        polled
    }
}

/// No byte that was read is lost, doubled or moved: what a read returns and what
/// stays in the buffer make up what was in the buffer, in order.
pub proof fn law_delivery_keeps_the_bytes<READER, BP>(
    reader: ReaderModel<READER, BP>,
    cx: Context,
    max_len: usize,
    after: ReaderModel<READER, BP>,
    after_cx: Context,
    result: Poll<Result<Option<Bytes>, IoError>>,
)
    requires
        reader.delivers(cx, max_len, after, after_cx, result),
    ensures
        crate::io_bytes_exchange::delivered(result) + after.buffered == reader.buffered,
        crate::io_bytes_exchange::delivered(result).len() <= max_len,
        reader.buffered.len() > 0 && max_len > 0 ==> crate::io_bytes_exchange::delivered(
            result,
        ).len() > 0,
{
    assert(crate::io_bytes_exchange::delivered(result) + after.buffered =~= reader.buffered);
}

/// The end of the inner reader, or its error, is not reported before every byte
/// that was read has been returned; then it is reported once, and the inner reader
/// is dropped.
pub proof fn law_end_comes_after_the_bytes<READER, BP>(
    reader: ReaderModel<READER, BP>,
    cx: Context,
    max_len: usize,
    after: ReaderModel<READER, BP>,
    after_cx: Context,
    result: Poll<Result<Option<Bytes>, IoError>>,
)
    requires
        reader.got_eof is Some,
        reader.delivers(cx, max_len, after, after_cx, result),
    ensures
        reader.buffered.len() > 0 ==> (result matches Poll::Ready(Ok(Some(_)))) && after.reader
            == reader.reader && after.got_eof == reader.got_eof,
        reader.buffered.len() == 0 ==> after.reader is None && after.got_eof is None,
        reader.buffered.len() == 0 && reader.got_eof == Some(None::<IoError>) ==> result
            == Poll::Ready(Ok::<Option<Bytes>, IoError>(None)),
{
}

/// Once the inner reader is dropped, every read is at the end: it returns the end,
/// pre-wakes the caller, and changes nothing.
pub proof fn law_end_repeats<READER, BP: AsyncBufProvider>(
    reader: ReaderModel<READER, BP>,
    current: BytesMut,
    cx: Context,
    max_len: usize,
    capacity: usize,
    after: ReaderModel<READER, BP>,
    after_cx: Context,
    start: ReadStart,
)
    requires
        reader.reader is None,
        begins(reader, current, cx, max_len, capacity, after, after_cx, start),
    ensures
        start == ReadStart::Over(Poll::Ready(Ok(None))),
        after == reader,
        after_cx.woken@ == cx.woken@.push(cx.waker),
{
    assert(cx.woken@ + seq![cx.waker] =~= cx.woken@.push(cx.waker));
}

/// A read never waits in front of an empty buffer without asking the inner reader
/// or the buffer provider first: while the inner reader is there and has not come
/// to its end, a read that has nothing to return polls one of them.
pub proof fn law_empty_buffer_is_filled(capacity: usize, buf_capacity: usize, max_len: usize)
    ensures
        read_plan(0, capacity, buf_capacity, max_len) != ReadPlan::Deliver,
        read_plan(0, 0, buf_capacity, max_len) == ReadPlan::NewBuffer,
{
}

/// One read, with what it was given and what came of it.
pub struct ReadEvent<READER, BP> {
    /// How much was asked for.
    pub max_len: usize,
    /// The current buffer, and how much room it had.
    pub current: BytesMut,
    pub capacity: usize,
    /// How the read began, and what it left.
    pub start: ReadStart,
    pub begun: ReaderModel<READER, BP>,
    /// If the inner reader was polled: what that left of it, what it came to, and the
    /// bytes that it has read.
    pub reader: READER,
    pub outcome: FillOutcome,
    pub bytes: Seq<u8>,
    /// What the read returned.
    pub result: Poll<Result<Option<Bytes>, IoError>>,
    /// The contexts before the read, after its beginning, and after it.
    pub cx: Context,
    pub begun_cx: Context,
    pub after_cx: Context,
}

impl<READER, BP: AsyncBufProvider> ReadEvent<READER, BP> {
    /// The read may lead from the reader `before` to the reader `after`, if a poll of
    /// the inner reader appends what it reads to what is buffered.
    pub open spec fn leads(
        self,
        before: ReaderModel<READER, BP>,
        after: ReaderModel<READER, BP>,
    ) -> bool {
        &&& begins(
            before,
            self.current,
            self.cx,
            self.max_len,
            self.capacity,
            self.begun,
            self.begun_cx,
            self.start,
        )
        &&& match self.start {
            ReadStart::Over(result) => {
                &&& self.result == result
                &&& after == self.begun
            },
            ReadStart::Deliver => self.begun.delivers(
                self.begun_cx,
                self.max_len,
                after,
                self.after_cx,
                self.result,
            ),
            ReadStart::Fill(_) => {
                let polled = ReaderModel { reader: Some(self.reader), ..self.begun };
                polled.holding(before.buffered + self.bytes).learned(self.outcome).delivers(
                    self.begun_cx,
                    self.max_len,
                    after,
                    self.after_cx,
                    self.result,
                )
            },
        }
    }

    /// The bytes that came out of the inner reader.
    pub open spec fn taken(self) -> Seq<u8> {
        if self.start is Fill {
            self.bytes
        } else {
            Seq::empty()
        }
    }
}

/// The bytes that came out of the inner reader, one read after the other.
pub open spec fn all_taken<READER, BP: AsyncBufProvider>(
    events: Seq<ReadEvent<READER, BP>>,
) -> Seq<u8>
    decreases events.len(),
{
    if events.len() == 0 {
        Seq::empty()
    } else {
        all_taken(events.drop_last()) + events.last().taken()
    }
}

/// The bytes that were returned, one read after the other.
pub open spec fn all_given<READER, BP: AsyncBufProvider>(
    events: Seq<ReadEvent<READER, BP>>,
) -> Seq<u8>
    decreases events.len(),
{
    if events.len() == 0 {
        Seq::empty()
    } else {
        all_given(events.drop_last()) + crate::io_bytes_exchange::delivered(events.last().result)
    }
}

/// However many reads there are, and whatever buffers they use, they return exactly the
/// bytes that came out of the inner reader, in order, but for those that are still
/// buffered.
pub proof fn law_reads_return_what_was_read<READER, BP: AsyncBufProvider>(
    states: Seq<ReaderModel<READER, BP>>,
    events: Seq<ReadEvent<READER, BP>>,
)
    requires
        states.len() == events.len() + 1,
        states[0].buffered == Seq::<u8>::empty(),
        forall|i: int|
            0 <= i < events.len() ==> (#[trigger] events[i]).leads(states[i], states[i + 1]),
    ensures
        all_taken(events) == all_given(events) + states.last().buffered,
    decreases events.len(),
{
    if events.len() == 0 {
        assert(all_taken(events) =~= all_given(events) + states.last().buffered);
    } else {
        let before = states[states.len() - 2];
        let after = states.last();
        let event = events.last();
        law_reads_return_what_was_read(states.drop_last(), events.drop_last());
        assert(event == events[events.len() - 1]);
        assert(event.leads(before, after));
        lemma_read_keeps_bytes(before, event, after);
        let returned = crate::io_bytes_exchange::delivered(event.result);
        let given = all_given(events.drop_last());
        assert((given + before.buffered) + event.taken() =~= given + (before.buffered
            + event.taken()));
        assert((given + returned) + after.buffered =~= given + (returned + after.buffered));
    }
}

/// One read neither makes up nor loses a byte.
proof fn lemma_read_keeps_bytes<READER, BP: AsyncBufProvider>(
    before: ReaderModel<READER, BP>,
    event: ReadEvent<READER, BP>,
    after: ReaderModel<READER, BP>,
)
    requires
        event.leads(before, after),
    ensures
        before.buffered + event.taken() == crate::io_bytes_exchange::delivered(event.result)
            + after.buffered,
{
    let held = before.buffered + event.taken();
    match event.start {
        ReadStart::Over(_) => {},
        ReadStart::Deliver => {
            law_delivery_keeps_the_bytes(
                event.begun,
                event.begun_cx,
                event.max_len,
                after,
                event.after_cx,
                event.result,
            );
        },
        ReadStart::Fill(_) => {
            let polled = ReaderModel { reader: Some(event.reader), ..event.begun };
            law_delivery_keeps_the_bytes(
                polled.holding(held).learned(event.outcome),
                event.begun_cx,
                event.max_len,
                after,
                event.after_cx,
                event.result,
            );
        },
    }
    assert(held =~= crate::io_bytes_exchange::delivered(event.result) + after.buffered);
}

/// What ended the inner reader is what the caller is told once every byte has been
/// returned: its error, whichever that is, if it failed, and the end if it came to its
/// end.  The caller is pre-woken, the inner reader is dropped, and what it was told of is
/// not told again.
pub proof fn law_failure_is_reported<READER, BP: AsyncBufProvider>(
    reader: &mut ReaderIoReader<READER, BP>,
    cx: &mut Context,
    max_len: usize,
    result: Poll<Result<Option<Bytes>, IoError>>,
)
    requires
        old(reader)@.buffered.len() == 0,
        call_ensures(ReaderIoReader::<READER, BP>::deliver, (reader, cx, max_len), result),
    ensures
        old(reader)@.got_eof matches Some(Some(err)) ==> result == Poll::Ready(
            Err::<Option<Bytes>, IoError>(err),
        ),
        old(reader)@.got_eof == Some(None::<IoError>) ==> result == Poll::Ready(
            Ok::<Option<Bytes>, IoError>(None),
        ),
        old(reader)@.got_eof is Some ==> {
            &&& final(reader)@.reader is None
            &&& final(reader)@.got_eof is None
            &&& final(cx).woken@ == old(cx).woken@.push(old(cx).waker)
        },
        old(reader)@.got_eof is None ==> {
            &&& result is Pending
            &&& final(reader)@ == old(reader)@
            &&& final(cx).woken@ == old(cx).woken@
        },
        final(reader)@.buffered.len() == 0,
        final(reader)@.provider == old(reader)@.provider,
        final(reader)@.buf_capacity == old(reader)@.buf_capacity,
        final(cx).waker == old(cx).waker,
{
    assert(old(cx).woken@ + seq![old(cx).waker] =~= old(cx).woken@.push(old(cx).waker));
}

/// As long as there are bytes, a read returns them from the front, as many as it may, and
/// pre-wakes the caller; it does not touch the inner reader or what is known of its end.
/// A read of no bytes only looks.
pub proof fn law_bytes_are_returned_first<READER, BP: AsyncBufProvider>(
    reader: &mut ReaderIoReader<READER, BP>,
    cx: &mut Context,
    max_len: usize,
    result: Poll<Result<Option<Bytes>, IoError>>,
)
    requires
        old(reader)@.buffered.len() > 0,
        call_ensures(ReaderIoReader::<READER, BP>::deliver, (reader, cx, max_len), result),
    ensures
        ({
            &&& result matches Poll::Ready(Ok(Some(data)))
            &&& crate::byte_buf::contents(data) + final(reader)@.buffered == old(reader)@.buffered
            &&& crate::byte_buf::contents(data).len() <= max_len
            &&& final(reader)@.buffered.len() > 0 ==> crate::byte_buf::contents(data).len()
                == max_len
        }),
        final(reader)@.reader == old(reader)@.reader,
        final(reader)@.got_eof == old(reader)@.got_eof,
        final(reader)@.provider == old(reader)@.provider,
        final(reader)@.buf_capacity == old(reader)@.buf_capacity,
        final(cx).waker == old(cx).waker,
        max_len == 0 ==> final(cx).woken@ == old(cx).woken@,
        max_len > 0 ==> final(cx).woken@ == old(cx).woken@.push(old(cx).waker),
{
    law_delivery_keeps_the_bytes(
        old(reader)@,
        *old(cx),
        max_len,
        final(reader)@,
        *final(cx),
        result,
    );
    assert(old(cx).woken@ + seq![old(cx).waker] =~= old(cx).woken@.push(old(cx).waker));
}

/// Finishing a read is learning what came of the poll and then returning what there is: a
/// failure is remembered with its error, a poll that read nothing is the end, and
/// anything else says nothing of the end.
pub proof fn law_poll_outcome_is_learned<READER, BP: AsyncBufProvider>(
    reader: &mut ReaderIoReader<READER, BP>,
    cx: &mut Context,
    max_len: usize,
    buf: BytesMut,
    outcome: FillOutcome,
    result: Poll<Result<Option<Bytes>, IoError>>,
    told: &mut ReaderIoReader<READER, BP>,
    told_cx: &mut Context,
    told_result: Poll<Result<Option<Bytes>, IoError>>,
)
    requires
        call_ensures(
            ReaderIoReader::<READER, BP>::finish_read,
            (reader, cx, max_len, buf, outcome),
            result,
        ),
        told@.reader == old(reader)@.reader,
        told@.provider == old(reader)@.provider,
        told@.buf_capacity == old(reader)@.buf_capacity,
        told@.buffered == crate::byte_buf::written(buf),
        told@.got_eof == match outcome {
            FillOutcome::Failed(err) => Some(Some(err)),
            FillOutcome::Filled(n) => if n == 0 {
                Some(None)
            } else {
                old(reader)@.got_eof
            },
            FillOutcome::Pending => old(reader)@.got_eof,
        },
        *told_cx == *old(cx),
        call_ensures(
            ReaderIoReader::<READER, BP>::deliver,
            (told, told_cx, max_len),
            told_result,
        ),
    ensures
        final(reader)@ == final(told)@,
        final(cx).waker == final(told_cx).waker,
        final(cx).woken@ == final(told_cx).woken@,
        result is Pending <==> told_result is Pending,
        result matches Poll::Ready(Err(err)) ==> told_result == Poll::Ready(
            Err::<Option<Bytes>, IoError>(err),
        ),
        result == Poll::Ready(Ok::<Option<Bytes>, IoError>(None)) <==> told_result == Poll::Ready(
            Ok::<Option<Bytes>, IoError>(None),
        ),
        result matches Poll::Ready(Ok(Some(data))) ==> {
            &&& told_result matches Poll::Ready(Ok(Some(told_data)))
            &&& crate::byte_buf::contents(data) == crate::byte_buf::contents(told_data)
        },
{
    let model = old(reader)@.holding(crate::byte_buf::written(buf)).learned(outcome);
    assert(model == told@);
}

/// An inner reader that fails with nothing left to return is reported at once, whatever
/// the error is, and one that comes to its end likewise; bytes that are left come first,
/// and what ended the inner reader is kept for when they are gone.
pub proof fn law_failed_read_returns_the_error<READER, BP: AsyncBufProvider>(
    reader: &mut ReaderIoReader<READER, BP>,
    cx: &mut Context,
    max_len: usize,
    buf: BytesMut,
    outcome: FillOutcome,
    result: Poll<Result<Option<Bytes>, IoError>>,
)
    requires
        call_ensures(
            ReaderIoReader::<READER, BP>::finish_read,
            (reader, cx, max_len, buf, outcome),
            result,
        ),
    ensures
        crate::byte_buf::written(buf).len() == 0 ==> {
            &&& outcome matches FillOutcome::Failed(err) ==> result == Poll::Ready(
                Err::<Option<Bytes>, IoError>(err),
            )
            &&& outcome == FillOutcome::Filled(0) ==> result == Poll::Ready(
                Ok::<Option<Bytes>, IoError>(None),
            )
            &&& outcome is Pending && old(reader)@.got_eof is None ==> result is Pending
        },
        crate::byte_buf::written(buf).len() > 0 ==> {
            &&& result matches Poll::Ready(Ok(Some(data)))
            &&& crate::byte_buf::contents(data) + final(reader)@.buffered
                == crate::byte_buf::written(buf)
            &&& outcome matches FillOutcome::Failed(err) ==> final(reader)@.got_eof == Some(
                Some(err),
            )
            &&& outcome == FillOutcome::Filled(0) ==> final(reader)@.got_eof == Some(
                None::<IoError>,
            )
            &&& final(reader)@.reader == old(reader)@.reader
        },
{
    law_delivery_keeps_the_bytes(
        old(reader)@.holding(crate::byte_buf::written(buf)).learned(outcome),
        *old(cx),
        max_len,
        final(reader)@,
        *final(cx),
        result,
    );
}

/// The inner reader is asked for more exactly if over a quarter of the buffer is free and
/// either there is nothing to return or the block that is returned crosses the middle of
/// the buffer; a new buffer is asked for exactly if there is nothing to return and no
/// such room; and otherwise the read goes on with what there is.
pub proof fn law_plan_goes_by_the_room(
    have_len: usize,
    capacity: usize,
    buf_capacity: usize,
    max_len: usize,
    plan: ReadPlan,
)
    requires
        have_len <= capacity,
        call_ensures(plan_read, (have_len, capacity, buf_capacity, max_len), plan),
    ensures
        ({
            let room = capacity > have_len && capacity - have_len > buf_capacity / 4;
            let crosses = capacity > buf_capacity / 2 && capacity <= buf_capacity / 2 + max_len;
            &&& plan == ReadPlan::Fill <==> room && (have_len == 0 || crosses)
            &&& plan == ReadPlan::NewBuffer <==> !room && have_len == 0
            &&& plan == ReadPlan::Deliver <==> have_len > 0 && !(room && crosses)
        }),
{
}

/// How a read begins.  Once the inner reader is gone it is over with the end.  Once the
/// inner reader has ended it goes on with what there is.  Until then it goes by the
/// plan: it hands out the current buffer to be filled, asks the provider for another one,
/// or goes on with what there is.
pub proof fn law_read_begins_by_the_plan<READER, BP: AsyncBufProvider>(
    reader: &mut ReaderIoReader<READER, BP>,
    cx: &mut Context,
    max_len: usize,
    capacity: usize,
    start: ReadStart,
    have_len: usize,
    plan: ReadPlan,
)
    requires
        capacity >= old(reader)@.buffered.len(),
        call_ensures(
            ReaderIoReader::<READER, BP>::begin_read_with,
            (reader, cx, max_len, capacity),
            start,
        ),
        have_len == old(reader)@.buffered.len(),
        call_ensures(
            plan_read,
            (have_len, capacity, old(reader)@.buf_capacity, max_len),
            plan,
        ),
    ensures
        ({
            let before = old(reader)@;
            let after = final(reader)@;
            &&& final(cx).waker == old(cx).waker
            &&& after.reader == before.reader
            &&& after.got_eof == before.got_eof
            &&& before.reader is None ==> {
                &&& start == ReadStart::Over(Poll::Ready(Ok(None)))
                &&& after == before
                &&& final(cx).woken@ == old(cx).woken@.push(old(cx).waker)
            }
            &&& before.reader is Some ==> final(cx).woken@ == old(cx).woken@
            &&& before.reader is Some && (before.got_eof is Some || plan == ReadPlan::Deliver) ==> {
                &&& start is Deliver
                &&& after == before
            }
            &&& before.reader is Some && before.got_eof is None && plan == ReadPlan::Fill ==> {
                &&& start == ReadStart::Fill(old(reader).current())
                &&& after.buffered.len() == 0
                &&& after.provider == before.provider
                &&& after.buf_capacity == before.buf_capacity
            }
            &&& before.reader is Some && before.got_eof is None && plan == ReadPlan::NewBuffer ==> {
                &&& after.buffered.len() == 0
                &&& match start {
                    ReadStart::Over(Poll::Pending) => {
                        &&& before.provider.provides(after.provider, Poll::Pending)
                        &&& after.buf_capacity == before.buf_capacity
                    },
                    ReadStart::Over(result) => {
                        &&& result == Poll::Ready(Err::<Option<Bytes>, IoError>(IoError::OutOfMemory))
                        &&& after.buf_capacity == before.buf_capacity
                        &&& exists|buf: BytesMut| #[trigger]
                            before.provider.provides(after.provider, Poll::Ready(buf))
                                && crate::byte_buf::has_capacity(buf, 0)
                    },
                    ReadStart::Fill(buf) => {
                        &&& before.provider.provides(after.provider, Poll::Ready(buf))
                        &&& crate::byte_buf::has_capacity(buf, after.buf_capacity)
                        &&& after.buf_capacity > 0
                    },
                    ReadStart::Deliver => false,
                }
            }
        }),
{
    assert(old(cx).woken@ + seq![old(cx).waker] =~= old(cx).woken@.push(old(cx).waker));
}

/// A read begins as it would be begun by someone who knows how much room the current
/// buffer has.
pub proof fn law_read_begins_by_the_buffer<READER, BP: AsyncBufProvider>(
    reader: &mut ReaderIoReader<READER, BP>,
    cx: &mut Context,
    max_len: usize,
    start: ReadStart,
)
    requires
        call_ensures(ReaderIoReader::<READER, BP>::begin_read, (reader, cx, max_len), start),
    ensures
        old(reader)@.reader is None ==> start == ReadStart::Over(Poll::Ready(Ok(None))),
        old(reader)@.reader is Some && old(reader)@.got_eof is Some ==> start is Deliver,
        start is Deliver ==> final(reader)@ == old(reader)@,
        start is Deliver && old(reader)@.got_eof is None ==> old(reader)@.buffered.len() > 0,
        final(reader)@.reader == old(reader)@.reader,
        final(reader)@.got_eof == old(reader)@.got_eof,
        !(start is Fill) ==> final(reader)@.buffered == old(reader)@.buffered,
        start matches ReadStart::Fill(buf) ==> buf == old(reader).current() || old(reader)@.buffered.len() == 0,
        old(reader)@.reader is Some && old(reader)@.got_eof is None ==> exists|capacity: usize|
            #[trigger] crate::byte_buf::has_capacity(old(reader).current(), capacity) && ({
                let have_len = old(reader)@.buffered.len();
                let size = old(reader)@.buf_capacity;
                let room = capacity > have_len && capacity - have_len > size / 4;
                let crosses = capacity > size / 2 && capacity <= size / 2 + max_len;
                match start {
                    ReadStart::Deliver => have_len > 0 && !(room && crosses),
                    ReadStart::Fill(buf) => {
                        ||| room && (have_len == 0 || crosses) && buf == old(reader).current()
                        ||| !room && have_len == 0
                    },
                    ReadStart::Over(_) => !room && have_len == 0,
                }
            }),
{
    let capacity = choose|capacity: usize|
        crate::byte_buf::has_capacity(old(reader).current(), capacity) && #[trigger] begins(
            old(reader)@,
            old(reader).current(),
            *old(cx),
            max_len,
            capacity,
            final(reader)@,
            *final(cx),
            start,
        );
    assert(crate::byte_buf::has_capacity(old(reader).current(), capacity));
}

/// A buffer without room is refused, and changes nothing; any other is to be filled next.
pub proof fn law_buffer_needs_room<READER, BP: AsyncBufProvider>(
    reader: &mut ReaderIoReader<READER, BP>,
    buf: BytesMut,
    capacity: usize,
    start: ReadStart,
)
    requires
        call_ensures(ReaderIoReader::<READER, BP>::accept_buffer, (reader, buf, capacity), start),
    ensures
        capacity == 0 ==> {
            &&& start == ReadStart::Over(Poll::Ready(Err(IoError::OutOfMemory)))
            &&& final(reader)@ == old(reader)@
        },
        capacity > 0 ==> {
            &&& start == ReadStart::Fill(buf)
            &&& final(reader)@.buf_capacity == capacity
            &&& final(reader)@.buffered.len() == 0
        },
        final(reader)@.reader == old(reader)@.reader,
        final(reader)@.provider == old(reader)@.provider,
        final(reader)@.got_eof == old(reader)@.got_eof,
{
}

/// A dropped reader holds nothing back: no inner reader, no bytes, and no error; the next
/// read sees the end.  A new reader has its inner reader and no bytes.
pub proof fn law_dropped_reader_is_at_the_end<READER, BP: AsyncBufProvider>(
    reader: &mut ReaderIoReader<READER, BP>,
    dropped: &mut ReaderIoReader<READER, BP>,
    cx: &mut Context,
    max_len: usize,
    start: ReadStart,
    inner: READER,
    provider: BP,
    new: ReaderIoReader<READER, BP>,
)
    requires
        call_ensures(ReaderIoReader::<READER, BP>::drop_read, (reader,), ()),
        *dropped == *final(reader),
        call_ensures(ReaderIoReader::<READER, BP>::begin_read, (dropped, cx, max_len), start),
        call_ensures(ReaderIoReader::<READER, BP>::new, (inner, provider), new),
    ensures
        final(reader)@.reader is None,
        final(reader)@.got_eof is None,
        final(reader)@.buffered.len() == 0,
        final(reader)@.provider == old(reader)@.provider,
        start == ReadStart::Over(Poll::Ready(Ok(None))),
        final(cx).woken@ == old(cx).woken@.push(old(cx).waker),
        new@.reader == Some(inner),
        new@.provider == provider,
        new@.got_eof is None,
        new@.buffered.len() == 0,
{
    assert(old(cx).woken@ + seq![old(cx).waker] =~= old(cx).woken@.push(old(cx).waker));
}

/// What the inner writer has taken leaves the caller's bytes from the front, and nothing
/// else does; the caller is told what the inner writer said.
pub proof fn law_written_bytes_leave<WRITER>(
    bytes: &mut Bytes,
    polled: Poll<Result<usize, IoError>>,
    result: Poll<Result<usize, IoError>>,
)
    requires
        polled matches Poll::Ready(Ok(n)) ==> n <= crate::byte_buf::contents(*old(bytes)).len(),
        call_ensures(WriterIoWriter::<WRITER>::finish_write, (bytes, polled), result),
    ensures
        result == polled,
        polled matches Poll::Ready(Ok(n)) ==> crate::byte_buf::contents(*old(bytes)).take(n as int)
            + crate::byte_buf::contents(*final(bytes)) == crate::byte_buf::contents(*old(bytes)),
        !(polled matches Poll::Ready(Ok(_))) ==> *final(bytes) == *old(bytes),
{
    if let Poll::Ready(Ok(n)) = polled {
        let sent = crate::byte_buf::contents(*old(bytes));
        assert(sent.take(n as int) + sent.skip(n as int) =~= sent);
    }
}

/// What is lent out to be polled is the inner reader, and what it becomes is kept; the bytes
/// and what is known of the end stay as they are.
pub proof fn law_inner_reader_is_lent<READER, BP: AsyncBufProvider>(
    reader: &mut ReaderIoReader<READER, BP>,
    lent: Option<&mut READER>,
)
    requires
        call_ensures(ReaderIoReader::<READER, BP>::reader_mut, (reader,), lent),
    ensures
        lent is Some <==> old(reader)@.reader is Some,
        lent matches Some(inner) ==> old(reader)@.reader == Some(*inner) && final(reader)@.reader
            == Some(*final(inner)),
        lent is None ==> final(reader)@.reader is None,
        final(reader)@.buffered == old(reader)@.buffered,
        final(reader)@.got_eof == old(reader)@.got_eof,
        final(reader)@.provider == old(reader)@.provider,
        final(reader)@.buf_capacity == old(reader)@.buf_capacity,
{
}

/// What is lent out is the inner writer, and what it becomes is kept; it is asked to write
/// exactly if there is something to write.
pub proof fn law_inner_writer_is_lent<WRITER>(
    given: WRITER,
    new: WriterIoWriter<WRITER>,
    writer: &mut WriterIoWriter<WRITER>,
    lent: &mut WRITER,
    bytes: &Bytes,
    needed: bool,
)
    requires
        call_ensures(WriterIoWriter::<WRITER>::new, (given,), new),
        call_ensures(WriterIoWriter::<WRITER>::writer_mut, (writer,), lent),
        call_ensures(WriterIoWriter::<WRITER>::needs_write, (bytes,), needed),
    ensures
        new@ == given,
        *old(lent) == old(writer)@,
        final(writer)@ == *final(lent),
        needed <==> crate::byte_buf::contents(*bytes).len() > 0,
{
}

} // verus!
