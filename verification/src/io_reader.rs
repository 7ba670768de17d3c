//! Single-consumer stream trait for byte-stream consumption.
//!
//! [`IoReader`] is a single-consumer polling trait for reading [`Bytes`] from an
//! asynchronous byte stream.  It needs no pinning, and yields data as [`Bytes`] so
//! consumers can hold reference-counted slices into the underlying buffer.

use bytes::Bytes;

use vstd::prelude::*;

use crate::task::{Context, Poll, WakeQueue, Waker};

verus! {

/// A single-consumer polling trait for reading bytes from an async stream.
///
/// An implementation that also implements
/// [`IoWriter`](crate::io_writer::IoWriter) on the same type (e.g.
/// [`IoBytesExchange`](crate::io_bytes_exchange::IoBytesExchange)) requires
/// the caller to arrange exclusive access to each half — typically by
/// wrapping the shared object in a lock.
///
/// # `con_poll*` semantics
///
/// The `con_poll*` methods on this trait are intended for use by a single
/// "consumer" — a task that is consuming bytes (or end-of-stream signals)
/// that have been produced upstream.
///
/// - If a `con_poll*` method returns [`Poll::Pending`], the calling task
///   is registered to be woken later when the same call might return
///   [`Poll::Ready`].
/// - If a `con_poll*` method returns [`Poll::Ready`] **and consumes
///   data**, the calling task is **pre-woken**, because the next call
///   cannot return the same data.  Consumers are expected to drain in a
///   loop, so a consuming `Ready` keeps the task scheduled.
/// - A non-consuming `Poll::Ready` — for example a
///   [`con_poll_read`](IoReader::con_poll_read) call with `max_len == 0`
///   on a live stream, which only probes "is there data?" — does not
///   pre-wake the caller; nothing changed.
/// - Whether end-of-stream, which repeats, pre-wakes is up to the
///   implementation.
///
/// What a particular reader does is stated by its [`reads`](Self::reads) and
/// [`drops`](Self::drops) relations.
pub trait IoReader: Sized + Send {
    /// The error type returned by read operations.
    type Error;

    /// The reader is well formed.
    open spec fn reader_wf(&self) -> bool {
        true
    }

    /// A read of at most `max_len` bytes in the context `cx` may leave the reader
    /// as `after` and the context as `after_cx`, and return `result`.
    open spec fn reads(
        &self,
        cx: Context,
        max_len: usize,
        after: Self,
        after_cx: Context,
        result: Poll<Result<Option<Bytes>, Self::Error>>,
    ) -> bool {
        true
    }

    /// Dropping the reader may leave it as `after`, and ask for the wake-ups that
    /// `woken` has and `asked` has not.
    open spec fn drops(&self, asked: Seq<Waker>, after: Self, woken: Seq<Waker>) -> bool {
        true
    }

    /// Attempts to read the next chunk of bytes from the stream.
    ///
    /// The caller specifies the maximum number of bytes it is willing to accept
    /// via `max_len`.
    ///
    /// | Condition | Meaning |
    /// |-----------|---------|
    /// | `Poll::Pending` | No data available yet; the task is registered to be woken when that may change. |
    /// | `Poll::Ready(Ok(None))` | End-of-stream has been reached.  The signal is repeatable; the caller must recognise it and break its read loop. |
    /// | `Poll::Ready(Ok(Some(data)))` | Up to `max_len` bytes were consumed: `data.len() <= max_len`, and `data.len() >= 1` whenever `max_len > 0`.  If `max_len == 0` the call acts as a "is there data?" probe and `data.len()` will be 0. |
    /// | `Poll::Ready(Err(e))` | A stream error has occurred. |
    fn con_poll_read(&mut self, cx: &mut Context, max_len: usize) -> (result: Poll<
        Result<Option<Bytes>, Self::Error>,
    >)
        requires
            old(self).reader_wf(),
        ensures
            final(self).reader_wf(),
            old(self).reads(*old(cx), max_len, *final(self), *final(cx), result),
            result matches Poll::Ready(Ok(Some(data))) ==> {
                &&& crate::byte_buf::contents(data).len() <= max_len
                &&& max_len > 0 ==> crate::byte_buf::contents(data).len() >= 1
            },
    ;

    /// Signals that the reader is no longer interested in further bytes.
    ///
    /// After calling this, the writer side will observe that the reader has
    /// been dropped and will receive appropriate errors on subsequent sends.
    /// Any in-flight data is discarded.
    fn drop_read(&mut self, woken: &mut WakeQueue)
        requires
            old(self).reader_wf(),
        ensures
            final(self).reader_wf(),
            old(self).drops(old(woken)@, *final(self), final(woken)@),
    ;
}

} // verus!
