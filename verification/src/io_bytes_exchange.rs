//! Single-slot byte-stream exchange.
//!
//! [`IoBytesExchange`] is a bounded, single-producer / single-consumer
//! channel that transfers [`Bytes`] values one at a time.  It implements both
//! [`IoReader`] (consumer side) and [`IoWriter`] (producer side).
//!
//! The exchange holds at most one in-flight [`Bytes`] value, which the reader may
//! take in several pieces.  Its states are those of [`crate::exchange_state`].

use bytes::Bytes;

use vstd::prelude::*;

use crate::exchange_state::{ExchangeState, Handshake, HandshakeModel};
use crate::io_error::IoError;
use crate::io_exchange::{ExchangeModel, ExchangeWriteError};
use crate::io_reader::IoReader;
use crate::io_writer::IoWriter;
use crate::task::{Context, Poll, WakeQueue, Waker};

verus! {

/// A single-slot byte-stream exchange.
///
/// Implements both [`IoWriter`] (producer/writer side) and [`IoReader`]
/// (consumer/reader side).
#[derive(Debug)]
pub struct IoBytesExchange {
    handshake: Handshake,
    // Stored payload
    data: Bytes,
}

impl View for IoBytesExchange {
    type V = ExchangeModel<Seq<u8>>;

    closed spec fn view(&self) -> ExchangeModel<Seq<u8>> {
        ExchangeModel {
            handshake: self.handshake@,
            slot: crate::byte_buf::contents(self.data),
        }
    }
}

impl Default for IoBytesExchange {
    fn default() -> (ex: IoBytesExchange)
        ensures
            ex.wf(),
            ex@ == IoBytesExchange::fresh(),
    {
        IoBytesExchange::new()
    }
}

impl IoBytesExchange {
    /// The slot holds bytes exactly in the full states.
    pub open spec fn wf(&self) -> bool {
        self@.slot.len() > 0 <==> self@.handshake.state.is_full()
    }

    /// A new exchange.
    pub open spec fn fresh() -> ExchangeModel<Seq<u8>> {
        ExchangeModel {
            handshake: HandshakeModel { state: ExchangeState::Empty, reader: None, writer: None },
            slot: Seq::empty(),
        }
    }

    /// Creates a new, empty exchange in the `Empty` state.
    pub fn new() -> (ex: IoBytesExchange)
        ensures
            ex.wf(),
            ex@ == IoBytesExchange::fresh(),
    {
        IoBytesExchange { handshake: Handshake::new(), data: Bytes::new() }
    }

    /// Returns where the exchange is in its lifecycle.
    pub fn state(&self) -> (state: ExchangeState)
        ensures
            state == self@.handshake.state,
    {
        self.handshake.state()
    }

    /// Returns the number of bytes in flight.
    pub fn in_flight(&self) -> (len: usize)
        ensures
            len == self@.slot.len(),
    {
        self.data.len()
    }

    /// Resets the exchange to its initial `Empty` state, discarding any
    /// in-flight data and waking any registered reader or writer so they
    /// re-poll and observe the fresh state.
    pub fn reset(&mut self, woken: &mut WakeQueue)
        ensures
            final(self).wf(),
            final(self)@ == IoBytesExchange::fresh(),
            final(woken)@ == old(woken)@ + old(self)@.handshake.reset().woken,
    {
        self.data = Bytes::new();
        self.handshake.reset(woken);
    }

    /// What a writer is told that need not wait: the reader is gone, or the
    /// exchange was closed before.
    pub open spec fn refusal(state: ExchangeState) -> ExchangeWriteError {
        if state == ExchangeState::Dropped {
            ExchangeWriteError::ReaderDropped
        } else {
            ExchangeWriteError::InvalidState
        }
    }
}

impl IoReader for IoBytesExchange {
    type Error = IoError;

    open spec fn reader_wf(&self) -> bool {
        self.wf()
    }

    open spec fn reads(
        &self,
        cx: Context,
        max_len: usize,
        after: IoBytesExchange,
        after_cx: Context,
        result: Poll<Result<Option<Bytes>, IoError>>,
    ) -> bool {
        let hs = self@.handshake;
        let slot = self@.slot;
        if hs.state.is_full() {
            let n = if max_len < slot.len() {
                max_len as int
            } else {
                slot.len() as int
            };
            &&& result matches Poll::Ready(Ok(Some(data)))
            &&& crate::byte_buf::contents(data) == slot.take(n)
            &&& if max_len == 0 {
                after@ == self@ && after_cx == cx
            } else {
                let step = hs.take(cx.waker, n == slot.len());
                &&& after@ == (ExchangeModel { handshake: step.after, slot: slot.skip(n) })
                &&& cx.woke(after_cx, step.woken)
            }
        } else if hs.state.is_empty() {
            let step = hs.observe_empty(cx.waker);
            &&& result is Pending
            &&& after@ == (ExchangeModel { handshake: step.after, slot })
            &&& cx.woke(after_cx, step.woken)
        } else {
            &&& result == Poll::Ready(Ok::<Option<Bytes>, IoError>(None))
            &&& after@ == self@
            &&& cx.woke(after_cx, seq![cx.waker])
        }
    }

    open spec fn drops(&self, asked: Seq<Waker>, after: IoBytesExchange, woken: Seq<Waker>) -> bool {
        let step = self@.handshake.drop_read();
        &&& after@ == (ExchangeModel { handshake: step.after, slot: Seq::<u8>::empty() })
        &&& woken == asked + step.woken
    }

    fn con_poll_read(&mut self, cx: &mut Context, max_len: usize) -> (result: Poll<
        Result<Option<Bytes>, IoError>,
    >) {
        let ghost slot = self@.slot;
        match self.handshake.state() {
            // Slot is empty; observing it acknowledges any pending flush.
            ExchangeState::Empty | ExchangeState::EmptyFlush | ExchangeState::EmptyFlushed => {
                self.handshake.observe_empty(cx);
                return Poll::Pending;
            },
            // Each end-of-stream return counts as consuming one repetition of
            // the signal, so pre-wake the caller.  The caller must recognise it
            // and break its loop.
            ExchangeState::Done | ExchangeState::Dropped => {
                cx.wake_by_ref();
                return Poll::Ready(Ok(None));
            },
            ExchangeState::Full | ExchangeState::FullFlush | ExchangeState::FullClosed => {},
        }
        if max_len == 0 {
            // The caller only wants to check liveness, not consume data.
            // Return an empty handle to signal "stream is alive".  This
            // non-consuming `Ready` does not pre-wake.
            let empty = Bytes::new();
            assert(crate::byte_buf::contents(empty) =~= slot.take(0));
            return Poll::Ready(Ok(Some(empty)));
        }
        // Consume up to `max_len` bytes out of the slot.
        let mut data = Bytes::new();
        core::mem::swap(&mut data, &mut self.data);
        let all: bool = data.len() <= max_len;
        if !all {
            // Partial read — put the remainder back, stay in a full state.
            self.data = data.split_off(max_len);
        }
        proof {
            if all {
                assert(slot.take(slot.len() as int) =~= slot);
                assert(slot.skip(slot.len() as int) =~= Seq::<u8>::empty());
            }
        }
        // The slot may now have room (or the stream is done); notify the
        // writer either way, and keep the reader scheduled to drain more.
        self.handshake.take(cx, all);
        Poll::Ready(Ok(Some(data)))
    }

    fn drop_read(&mut self, woken: &mut WakeQueue) {
        if self.handshake.drop_read(woken) {
            // Discard any in-flight data.
            self.data = Bytes::new();
        }
        assert(self@.slot =~= Seq::<u8>::empty());
    }
}

impl IoWriter for IoBytesExchange {
    type Error = ExchangeWriteError;

    open spec fn writer_wf(&self) -> bool {
        self.wf()
    }

    open spec fn writes(
        &self,
        cx: Context,
        bytes: Bytes,
        after: IoBytesExchange,
        after_cx: Context,
        left: Bytes,
        result: Poll<Result<usize, ExchangeWriteError>>,
    ) -> bool {
        let hs = self@.handshake;
        let sent = crate::byte_buf::contents(bytes);
        if sent.len() == 0 {
            &&& result == Poll::Ready(Ok::<usize, ExchangeWriteError>(0))
            &&& after@ == self@
            &&& after_cx == cx
            &&& left == bytes
        } else if hs.state.is_empty() {
            let step = hs.fill();
            &&& result == Poll::Ready(Ok::<usize, ExchangeWriteError>(sent.len() as usize))
            &&& after@ == (ExchangeModel { handshake: step.after, slot: sent })
            &&& cx.woke(after_cx, step.woken)
            &&& crate::byte_buf::contents(left) == Seq::<u8>::empty()
        } else if hs.state.is_full() {
            let step = hs.wait_for_reader(cx.waker);
            &&& result is Pending
            &&& after@ == (ExchangeModel { handshake: step.after, slot: self@.slot })
            &&& cx.woke(after_cx, step.woken)
            &&& left == bytes
        } else {
            &&& result == Poll::Ready(
                Err::<usize, ExchangeWriteError>(IoBytesExchange::refusal(hs.state)),
            )
            &&& after@ == self@
            &&& after_cx == cx
            &&& left == bytes
        }
    }

    open spec fn flushes(
        &self,
        cx: Context,
        after: IoBytesExchange,
        after_cx: Context,
        result: Poll<Result<(), ExchangeWriteError>>,
    ) -> bool {
        let step = self@.handshake.flush(cx.waker);
        &&& result == if self@.handshake.state.is_flushed() {
            Poll::Ready(Ok::<(), ExchangeWriteError>(()))
        } else {
            Poll::Pending
        }
        &&& after@ == (ExchangeModel { handshake: step.after, slot: self@.slot })
        &&& cx.woke(after_cx, step.woken)
    }

    open spec fn closes(
        &self,
        cx: Context,
        after: IoBytesExchange,
        after_cx: Context,
        result: Poll<Result<(), ExchangeWriteError>>,
    ) -> bool {
        let step = self@.handshake.close(cx.waker);
        &&& result == if self@.handshake.state.is_full() {
            Poll::Pending
        } else {
            Poll::Ready(Ok::<(), ExchangeWriteError>(()))
        }
        &&& after@ == (ExchangeModel { handshake: step.after, slot: self@.slot })
        &&& cx.woke(after_cx, step.woken)
    }

    /// Places data into the exchange slot.
    ///
    /// The entire contents of `data` are moved into the slot in one shot
    /// (the slot can hold an arbitrarily large [`Bytes`]).  On success the
    /// `data` handle is left empty and the byte count is returned.
    fn prod_poll_write(&mut self, cx: &mut Context, data: &mut Bytes) -> (result: Poll<
        Result<usize, ExchangeWriteError>,
    >) {
        // Zero-byte writes do nothing: no registration, no pre-wake.
        if data.is_empty() {
            return Poll::Ready(Ok(0));
        }
        match self.handshake.state() {
            // Any empty sub-state → place data and move to Full.
            ExchangeState::Empty | ExchangeState::EmptyFlush | ExchangeState::EmptyFlushed => {
                let sz: usize = data.len();
                let mut t = Bytes::new();
                core::mem::swap(&mut t, data);
                self.data = t;
                self.handshake.fill(cx);
                Poll::Ready(Ok(sz))
            },
            // Slot is occupied — back-pressure.
            ExchangeState::Full | ExchangeState::FullFlush | ExchangeState::FullClosed => {
                self.handshake.wait_for_reader(cx);
                Poll::Pending
            },
            // Reader is gone.
            ExchangeState::Dropped => Poll::Ready(Err(ExchangeWriteError::ReaderDropped)),
            ExchangeState::Done => Poll::Ready(Err(ExchangeWriteError::InvalidState)),
        }
    }

    /// Requests that the reader acknowledge all previously sent data.
    fn prod_poll_flush(&mut self, cx: &mut Context) -> (result: Poll<
        Result<(), ExchangeWriteError>,
    >) {
        if self.handshake.flush(cx) {
            Poll::Ready(Ok(()))
        } else {
            Poll::Pending
        }
    }

    /// Signals that no more data will be sent and waits for acknowledgement.
    ///
    /// If the slot is empty the exchange moves directly to `Done`.  If data
    /// is still in flight the state becomes `FullClosed`, allowing the
    /// reader to consume the last chunk before seeing end-of-stream.
    fn prod_poll_close(&mut self, cx: &mut Context) -> (result: Poll<
        Result<(), ExchangeWriteError>,
    >) {
        if self.handshake.close(cx) {
            Poll::Ready(Ok(()))
        } else {
            Poll::Pending
        }
    }
}

/// What a read hands out: nothing but for data.
pub open spec fn delivered(result: Poll<Result<Option<Bytes>, IoError>>) -> Seq<u8> {
    match result {
        Poll::Ready(Ok(Some(data))) => crate::byte_buf::contents(data),
        _ => Seq::empty(),
    }
}

/// No byte is lost, doubled or moved: what a read hands out and what it leaves in
/// the slot make up what was in the slot, in order.
pub proof fn law_reads_keep_the_stream(
    ex: IoBytesExchange,
    cx: Context,
    max_len: usize,
    after: IoBytesExchange,
    after_cx: Context,
    result: Poll<Result<Option<Bytes>, IoError>>,
)
    requires
        ex.wf(),
        ex.reads(cx, max_len, after, after_cx, result),
    ensures
        delivered(result) + after@.slot == ex@.slot,
        delivered(result).len() <= max_len,
        ex@.slot.len() > 0 && max_len > 0 ==> delivered(result).len() > 0,
        result is Pending ==> after@.handshake.reader == Some(cx.waker),
{
    assert(delivered(result) + after@.slot =~= ex@.slot);
}

/// What was written comes out of the next read that is large enough, whole, and
/// the writer has nothing left of it.
pub proof fn law_written_bytes_are_read(
    ex: IoBytesExchange,
    cx: Context,
    bytes: Bytes,
    sent: IoBytesExchange,
    sent_cx: Context,
    left: Bytes,
    n: usize,
    reader_cx: Context,
    max_len: usize,
    read: IoBytesExchange,
    read_cx: Context,
    result: Poll<Result<Option<Bytes>, IoError>>,
)
    requires
        ex.wf(),
        n > 0,
        ex.writes(cx, bytes, sent, sent_cx, left, Poll::Ready(Ok::<usize, ExchangeWriteError>(n))),
        max_len >= crate::byte_buf::contents(bytes).len(),
        sent.reads(reader_cx, max_len, read, read_cx, result),
    ensures
        delivered(result) == crate::byte_buf::contents(bytes),
        crate::byte_buf::contents(left) == Seq::<u8>::empty(),
        read@.slot == Seq::<u8>::empty(),
        read@.handshake.state == ExchangeState::Empty,
{
    let slot = crate::byte_buf::contents(bytes);
    assert(slot.take(slot.len() as int) =~= slot);
    assert(slot.skip(slot.len() as int) =~= Seq::<u8>::empty());
}

/// Two reads in a row hand out what one read of both lengths hands out.
pub proof fn law_partial_reads_concatenate(
    ex: IoBytesExchange,
    cx: Context,
    first_len: usize,
    mid: IoBytesExchange,
    mid_cx: Context,
    first: Poll<Result<Option<Bytes>, IoError>>,
    second_len: usize,
    end: IoBytesExchange,
    end_cx: Context,
    second: Poll<Result<Option<Bytes>, IoError>>,
)
    requires
        ex.wf(),
        ex@.handshake.state.is_full(),
        ex.reads(cx, first_len, mid, mid_cx, first),
        mid.wf(),
        mid.reads(mid_cx, second_len, end, end_cx, second),
    ensures
        delivered(first) + delivered(second) == ex@.slot.take(
            if first_len + second_len < ex@.slot.len() {
                first_len + second_len
            } else {
                ex@.slot.len() as int
            },
        ),
{
    law_reads_keep_the_stream(ex, cx, first_len, mid, mid_cx, first);
    law_reads_keep_the_stream(mid, mid_cx, second_len, end, end_cx, second);
    let n = if first_len + second_len < ex@.slot.len() {
        first_len + second_len
    } else {
        ex@.slot.len() as int
    };
    assert(delivered(first) + delivered(second) =~= ex@.slot.take(n));
}

/// A flush or a close that is complete means that nothing is in flight any more, and
/// one that is not has the writer registered to be woken.
pub proof fn law_complete_means_consumed(
    ex: IoBytesExchange,
    cx: Context,
    after: IoBytesExchange,
    after_cx: Context,
    result: Poll<Result<(), ExchangeWriteError>>,
)
    requires
        ex.wf(),
        ex.flushes(cx, after, after_cx, result) || ex.closes(cx, after, after_cx, result),
    ensures
        after.wf(),
        after@.slot == ex@.slot,
        result is Ready ==> ex@.slot == Seq::<u8>::empty(),
        result is Pending ==> after@.handshake.writer == Some(cx.waker),
{
}

/// Data in flight when the writer closes is still delivered: a read leads to the
/// end only if it takes the last byte, and from then on the reader sees the end.
pub proof fn law_close_delivers_all_bytes(
    ex: IoBytesExchange,
    cx: Context,
    max_len: usize,
    after: IoBytesExchange,
    after_cx: Context,
    result: Poll<Result<Option<Bytes>, IoError>>,
)
    requires
        ex.wf(),
        ex@.handshake.state == ExchangeState::FullClosed,
        ex.reads(cx, max_len, after, after_cx, result),
    ensures
        max_len >= ex@.slot.len() ==> after@.handshake.state == ExchangeState::Done && delivered(
            result,
        ) == ex@.slot,
        max_len < ex@.slot.len() ==> after@.handshake.state == ExchangeState::FullClosed,
{
    let slot = ex@.slot;
    assert(slot.take(slot.len() as int) =~= slot);
}

/// One poll of an exchange, with what it was given and what came of it.
pub enum BytesEvent {
    /// A write of `bytes`, of which `left` is left.
    Write {
        cx: Context,
        bytes: Bytes,
        after_cx: Context,
        left: Bytes,
        written: Poll<Result<usize, ExchangeWriteError>>,
    },
    /// A read of at most `max_len` bytes.
    Read {
        cx: Context,
        max_len: usize,
        after_cx: Context,
        read: Poll<Result<Option<Bytes>, IoError>>,
    },
    /// A poll for a flush.
    Flush { cx: Context, after_cx: Context, done: Poll<Result<(), ExchangeWriteError>> },
    /// A poll for the exchange to close.
    Close { cx: Context, after_cx: Context, done: Poll<Result<(), ExchangeWriteError>> },
}

impl BytesEvent {
    /// The event may lead from the exchange `before` to the exchange `after`.
    pub open spec fn leads(self, before: IoBytesExchange, after: IoBytesExchange) -> bool {
        match self {
            BytesEvent::Write { cx, bytes, after_cx, left, written } => before.writes(
                cx,
                bytes,
                after,
                after_cx,
                left,
                written,
            ),
            BytesEvent::Read { cx, max_len, after_cx, read } => before.reads(
                cx,
                max_len,
                after,
                after_cx,
                read,
            ),
            BytesEvent::Flush { cx, after_cx, done } => before.flushes(
                cx,
                after,
                after_cx,
                done,
            ),
            BytesEvent::Close { cx, after_cx, done } => before.closes(
                cx,
                after,
                after_cx,
                done,
            ),
        }
    }

    /// The bytes that the exchange has taken from the writer.
    pub open spec fn taken(self) -> Seq<u8> {
        match self {
            BytesEvent::Write { bytes, written: Poll::Ready(Ok(_)), .. } => {
                crate::byte_buf::contents(bytes)
            },
            _ => Seq::empty(),
        }
    }

    /// The bytes that the reader has been given.
    pub open spec fn given(self) -> Seq<u8> {
        match self {
            BytesEvent::Read { read, .. } => delivered(read),
            _ => Seq::empty(),
        }
    }
}

/// The bytes that the exchange has taken from the writer, one poll after the other.
pub open spec fn all_taken(events: Seq<BytesEvent>) -> Seq<u8>
    decreases events.len(),
{
    if events.len() == 0 {
        Seq::empty()
    } else {
        all_taken(events.drop_last()) + events.last().taken()
    }
}

/// The bytes that the reader has been given, one poll after the other.
pub open spec fn all_given(events: Seq<BytesEvent>) -> Seq<u8>
    decreases events.len(),
{
    if events.len() == 0 {
        Seq::empty()
    } else {
        all_given(events.drop_last()) + events.last().given()
    }
}

/// However the polls of the writer and the reader alternate, the reader is given
/// exactly the bytes that were taken from the writer, in order, but for those that are
/// still in flight.
pub proof fn law_stream_is_conserved(states: Seq<IoBytesExchange>, events: Seq<BytesEvent>)
    requires
        states.len() == events.len() + 1,
        states[0]@ == IoBytesExchange::fresh(),
        forall|i: int|
            0 <= i < events.len() ==> (#[trigger] events[i]).leads(states[i], states[i + 1]),
    ensures
        states.last().wf(),
        all_taken(events) == all_given(events) + states.last()@.slot,
    decreases events.len(),
{
    if events.len() == 0 {
        assert(all_taken(events) =~= all_given(events) + states.last()@.slot);
    } else {
        let before = states[states.len() - 2];
        let after = states.last();
        let event = events.last();
        law_stream_is_conserved(states.drop_last(), events.drop_last());
        assert(event == events[events.len() - 1]);
        lemma_event_keeps_bytes(before, event, after);
        let given = all_given(events.drop_last());
        assert((given + before@.slot) + event.taken() =~= given + (before@.slot + event.taken()));
        assert((given + event.given()) + after@.slot =~= given + (event.given() + after@.slot));
    }
}

/// One poll keeps the exchange well formed, and neither makes up nor loses a byte.
proof fn lemma_event_keeps_bytes(
    before: IoBytesExchange,
    event: BytesEvent,
    after: IoBytesExchange,
)
    requires
        before.wf(),
        event.leads(before, after),
    ensures
        after.wf(),
        before@.slot + event.taken() == event.given() + after@.slot,
{
    match event {
        BytesEvent::Read { cx, max_len, after_cx, read } => {
            law_reads_keep_the_stream(before, cx, max_len, after, after_cx, read);
        },
        _ => {},
    }
    assert(before@.slot + event.taken() =~= event.given() + after@.slot);
}

/// A read takes from the front of what is in flight, and as much as it may: what it
/// hands out and what it leaves make up what was there, and it leaves something only if
/// it has handed out all that was asked for.  With nothing in flight it sees the end
/// if there is one, and waits otherwise.
pub proof fn law_read_takes_what_it_may(
    ex: &mut IoBytesExchange,
    cx: &mut Context,
    max_len: usize,
    result: Poll<Result<Option<Bytes>, IoError>>,
)
    requires
        old(ex).wf(),
        call_ensures(<IoBytesExchange as IoReader>::con_poll_read, (ex, cx, max_len), result),
    ensures
        old(ex)@.slot.len() > 0 ==> {
            &&& result matches Poll::Ready(Ok(Some(data)))
            &&& crate::byte_buf::contents(data) + final(ex)@.slot == old(ex)@.slot
            &&& crate::byte_buf::contents(data).len() <= max_len
            &&& final(ex)@.slot.len() > 0 ==> crate::byte_buf::contents(data).len() == max_len
        },
        old(ex)@.slot.len() == 0 ==> final(ex)@.slot.len() == 0,
        result == Poll::Ready(Ok::<Option<Bytes>, IoError>(None)) <==> old(ex)@.handshake.state
            == ExchangeState::Done || old(ex)@.handshake.state == ExchangeState::Dropped,
        result is Pending <==> old(ex)@.handshake.state == ExchangeState::Empty || old(ex)@.handshake.state == ExchangeState::EmptyFlush || old(ex)@.handshake.state
            == ExchangeState::EmptyFlushed,
{
    law_reads_keep_the_stream(*old(ex), *old(cx), max_len, *final(ex), *final(cx), result);
}

/// A reader never falls asleep on what is still to come: one that got bytes, part of
/// what is in flight or all of it, or the end is pre-woken to poll again, and one that
/// is told to wait is registered.  A read that only looks changes nothing.
pub proof fn law_reader_is_scheduled(
    ex: &mut IoBytesExchange,
    cx: &mut Context,
    max_len: usize,
    result: Poll<Result<Option<Bytes>, IoError>>,
)
    requires
        old(ex).wf(),
        call_ensures(<IoBytesExchange as IoReader>::con_poll_read, (ex, cx, max_len), result),
    ensures
        final(cx).waker == old(cx).waker,
        result matches Poll::Ready(Ok(Some(data))) ==> delivered(result)
            == crate::byte_buf::contents(data),
        delivered(result).len() > 0 || result == Poll::Ready(Ok::<Option<Bytes>, IoError>(None))
            ==> final(cx).woken@.len() > old(cx).woken@.len() && final(cx).woken@.last() == old(cx).waker,
        result is Pending ==> final(ex)@.handshake.reader == Some(old(cx).waker),
        result is Ready ==> final(ex)@.handshake.reader == old(ex)@.handshake.reader,
        result is Ready && delivered(result).len() == 0 ==> final(ex)@ == old(ex)@,
        old(ex)@.slot.len() > 0 && delivered(result).len() == 0 ==> final(cx).woken@ == old(cx).woken@,
{
    law_reads_keep_the_stream(*old(ex), *old(cx), max_len, *final(ex), *final(cx), result);
}

/// A writer that waits is told of every read that makes progress: one that takes
/// bytes, and the first one that finds the slot empty.  Nobody is woken but that writer
/// and, after it, the reader itself.
pub proof fn law_writer_hears_of_reads(
    ex: &mut IoBytesExchange,
    cx: &mut Context,
    max_len: usize,
    result: Poll<Result<Option<Bytes>, IoError>>,
)
    requires
        old(ex).wf(),
        call_ensures(<IoBytesExchange as IoReader>::con_poll_read, (ex, cx, max_len), result),
    ensures
        ({
            let progress = delivered(result).len() > 0 || (result is Pending && old(ex)@.handshake.state != ExchangeState::EmptyFlushed);
            let told = if progress {
                crate::waker_ref::wakes_of(old(ex)@.handshake.writer)
            } else {
                Seq::empty()
            };
            let itself = if delivered(result).len() > 0 || result == Poll::Ready(
                Ok::<Option<Bytes>, IoError>(None),
            ) {
                seq![old(cx).waker]
            } else {
                Seq::empty()
            };
            &&& final(cx).woken@ == old(cx).woken@ + told + itself
            &&& final(ex)@.handshake.writer == if progress {
                None
            } else {
                old(ex)@.handshake.writer
            }
        }),
{
    law_reads_keep_the_stream(*old(ex), *old(cx), max_len, *final(ex), *final(cx), result);
    assert(final(cx).woken@ =~= old(cx).woken@ + (final(cx).woken@.skip(
        old(cx).woken@.len() as int,
    )));
}

/// What was asked for stays asked for while bytes are left: only the read that takes the
/// last byte frees the slot, after which a flush is still to be acknowledged, and a
/// close is complete.  A read that finds the slot empty acknowledges a flush.
pub proof fn law_last_byte_frees_the_slot(
    ex: &mut IoBytesExchange,
    cx: &mut Context,
    max_len: usize,
    result: Poll<Result<Option<Bytes>, IoError>>,
)
    requires
        old(ex).wf(),
        call_ensures(<IoBytesExchange as IoReader>::con_poll_read, (ex, cx, max_len), result),
    ensures
        final(ex)@.handshake.state == if final(ex)@.slot.len() > 0 {
            old(ex)@.handshake.state
        } else {
            match old(ex)@.handshake.state {
                ExchangeState::Full => ExchangeState::Empty,
                ExchangeState::FullFlush => ExchangeState::EmptyFlush,
                ExchangeState::FullClosed | ExchangeState::Done => ExchangeState::Done,
                ExchangeState::Dropped => ExchangeState::Dropped,
                _ => ExchangeState::EmptyFlushed,
            }
        },
{
    law_reads_keep_the_stream(*old(ex), *old(cx), max_len, *final(ex), *final(cx), result);
}

/// A write puts all of the bytes in flight, or none: where the slot is free it takes
/// them whole and wakes a reader that waits; where it is not, the writer keeps them
/// and waits; where nobody will read them, the writer is told why.
pub proof fn law_write_is_all_or_nothing(
    ex: &mut IoBytesExchange,
    cx: &mut Context,
    bytes: &mut Bytes,
    result: Poll<Result<usize, ExchangeWriteError>>,
)
    requires
        old(ex).wf(),
        call_ensures(<IoBytesExchange as IoWriter>::prod_poll_write, (ex, cx, bytes), result),
    ensures
        ({
            let sent = crate::byte_buf::contents(*old(bytes));
            let left = crate::byte_buf::contents(*final(bytes));
            let before = old(ex)@;
            let after = final(ex)@;
            &&& final(cx).waker == old(cx).waker
            &&& sent.len() == 0 ==> result == Poll::Ready(Ok::<usize, ExchangeWriteError>(0))
            &&& sent.len() > 0 && before.handshake.state == ExchangeState::Dropped ==> result
                == Poll::Ready(
                Err::<usize, ExchangeWriteError>(ExchangeWriteError::ReaderDropped),
            )
            &&& sent.len() > 0 && before.handshake.state == ExchangeState::Done ==> result
                == Poll::Ready(
                Err::<usize, ExchangeWriteError>(ExchangeWriteError::InvalidState),
            )
            &&& result is Pending <==> sent.len() > 0 && before.slot.len() > 0
            // What is not taken stays with the writer.
            &&& !(result matches Poll::Ready(Ok(n)) && n > 0) ==> {
                &&& left == sent
                &&& after.slot == before.slot
                &&& after.handshake.state == before.handshake.state
                &&& after.handshake.reader == before.handshake.reader
                &&& final(cx).woken@ == old(cx).woken@
            }
            &&& after.handshake.writer == if result is Pending {
                Some(old(cx).waker)
            } else {
                before.handshake.writer
            }
            &&& result matches Poll::Ready(Ok(n)) ==> n > 0 ==> {
                &&& n == sent.len()
                &&& left.len() == 0
                &&& before.slot.len() == 0
                &&& after.slot == sent
                &&& after.handshake.state == ExchangeState::Full
                &&& after.handshake.reader is None
                &&& final(cx).woken@ == old(cx).woken@ + crate::waker_ref::wakes_of(
                    before.handshake.reader,
                )
            }
        }),
{
    if let Poll::Ready(Ok(n)) = result {
        assert(crate::byte_buf::contents(*final(bytes)).len() == crate::byte_buf::contents(
            *old(bytes),
        ).len() - n);
    }
}

/// A flush is complete only where the reader has found the slot empty since it was
/// filled last, or nothing moves any more; until then the writer waits, and the
/// reader is told once that a flush is asked for.  A flush moves no byte.
pub proof fn law_flush_waits_for_the_reader(
    ex: &mut IoBytesExchange,
    cx: &mut Context,
    result: Poll<Result<(), ExchangeWriteError>>,
)
    requires
        old(ex).wf(),
        call_ensures(<IoBytesExchange as IoWriter>::prod_poll_flush, (ex, cx), result),
    ensures
        ({
            let before = old(ex)@.handshake;
            let after = final(ex)@.handshake;
            let complete = before.state == ExchangeState::EmptyFlushed || before.state
                == ExchangeState::Done || before.state == ExchangeState::Dropped;
            let first = before.state == ExchangeState::Empty || before.state
                == ExchangeState::Full;
            &&& final(cx).waker == old(cx).waker
            &&& final(ex)@.slot == old(ex)@.slot
            &&& complete ==> result == Poll::Ready(Ok::<(), ExchangeWriteError>(()))
            &&& !complete ==> result is Pending
            &&& after.writer == if complete {
                before.writer
            } else {
                Some(old(cx).waker)
            }
            &&& after.reader == if first {
                None
            } else {
                before.reader
            }
            &&& final(cx).woken@ == old(cx).woken@ + if first {
                crate::waker_ref::wakes_of(before.reader)
            } else {
                Seq::empty()
            }
            &&& before.state == ExchangeState::Empty ==> after.state == ExchangeState::EmptyFlush
            &&& before.state == ExchangeState::Full ==> after.state == ExchangeState::FullFlush
            &&& !first ==> after.state == before.state
        }),
{
}

/// A close is complete where nothing is in flight; otherwise the writer waits until the
/// reader has taken all of it.  Either way a reader that waits is told once, and
/// nothing that is in flight is lost.
pub proof fn law_close_waits_for_the_bytes(
    ex: &mut IoBytesExchange,
    cx: &mut Context,
    result: Poll<Result<(), ExchangeWriteError>>,
)
    requires
        old(ex).wf(),
        call_ensures(<IoBytesExchange as IoWriter>::prod_poll_close, (ex, cx), result),
    ensures
        ({
            let before = old(ex)@.handshake;
            let after = final(ex)@.handshake;
            let over = before.state == ExchangeState::Done || before.state
                == ExchangeState::Dropped;
            let asked = before.state == ExchangeState::FullClosed;
            &&& final(cx).waker == old(cx).waker
            &&& final(ex)@.slot == old(ex)@.slot
            &&& old(ex)@.slot.len() == 0 ==> result == Poll::Ready(
                Ok::<(), ExchangeWriteError>(()),
            )
            &&& old(ex)@.slot.len() > 0 ==> result is Pending
            &&& old(ex)@.slot.len() > 0 ==> after.state == ExchangeState::FullClosed
            &&& old(ex)@.slot.len() == 0 && !over ==> after.state == ExchangeState::Done
            &&& over ==> after == before
            &&& after.writer == if old(ex)@.slot.len() > 0 {
                Some(old(cx).waker)
            } else {
                before.writer
            }
            &&& after.reader == if over || asked {
                before.reader
            } else {
                None
            }
            &&& final(cx).woken@ == old(cx).woken@ + if over || asked {
                Seq::empty()
            } else {
                crate::waker_ref::wakes_of(before.reader)
            }
        }),
{
}

/// A reader that gives up takes what is in flight with it, and the writer, if it waits,
/// is told; where the exchange is over already, nothing changes.
pub proof fn law_dropped_reader_breaks_the_pipe(ex: &mut IoBytesExchange, woken: &mut WakeQueue)
    requires
        old(ex).wf(),
        call_ensures(<IoBytesExchange as IoReader>::drop_read, (ex, woken), ()),
    ensures
        ({
            let before = old(ex)@.handshake;
            let after = final(ex)@.handshake;
            let over = before.state == ExchangeState::Done || before.state
                == ExchangeState::Dropped;
            &&& final(ex)@.slot.len() == 0
            &&& over ==> after == before && final(woken)@ == old(woken)@
            &&& !over ==> {
                &&& after.state == ExchangeState::Dropped
                &&& after.reader == before.reader
                &&& after.writer is None
                &&& final(woken)@ == old(woken)@ + crate::waker_ref::wakes_of(before.writer)
            }
        }),
{
}

/// A reset leaves an exchange as a new one is, and both sides are told if they wait.
pub proof fn law_reset_starts_over(
    ex: &mut IoBytesExchange,
    woken: &mut WakeQueue,
    new: IoBytesExchange,
)
    requires
        call_ensures(IoBytesExchange::reset, (ex, woken), ()),
        call_ensures(IoBytesExchange::new, (), new),
    ensures
        final(ex)@ == new@,
        new@.slot.len() == 0,
        new@.handshake.state == ExchangeState::Empty,
        new@.handshake.reader is None,
        new@.handshake.writer is None,
        final(woken)@ == old(woken)@ + crate::waker_ref::wakes_of(old(ex)@.handshake.reader)
            + crate::waker_ref::wakes_of(old(ex)@.handshake.writer),
{
}

/// A look at an exchange tells its state and how many bytes are in flight.
pub proof fn law_exchange_can_be_read(ex: &IoBytesExchange, state: ExchangeState, len: usize)
    requires
        call_ensures(IoBytesExchange::state, (ex,), state),
        call_ensures(IoBytesExchange::in_flight, (ex,), len),
    ensures
        state == ex@.handshake.state,
        len == ex@.slot.len(),
{
}

} // verus!
