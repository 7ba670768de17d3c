//! Single-producer sink trait for byte delivery.
//!
//! [`IoWriter`] is a single-producer polling trait for sending [`Bytes`] into an
//! asynchronous byte stream.  It transfers data via [`Bytes`], avoiding copies
//! when the underlying buffer is reference-counted.

use bytes::Bytes;

use vstd::prelude::*;

use crate::task::{Context, Poll};

verus! {

/// A single-producer polling trait for sending bytes into an async stream.
///
/// # `prod_poll*` semantics
///
/// The `prod_poll*` methods on this trait are intended for use by a single
/// "producer" — a task that is producing bytes (or progress toward delivery)
/// to be consumed downstream.
///
/// - If it returns [`Poll::Pending`], the calling task is registered to be
///   woken later when the same call might return [`Poll::Ready`].
/// - The calling task is **not** registered or pre-woken when a `prod_poll*`
///   method returns [`Poll::Ready`].  A `Ready` return is simply a signal that
///   the producer may proceed; it is the producer's responsibility to keep
///   calling until something blocks.
///
/// Because these methods are single-producer, implementations typically
/// keep a single waker slot for the producing task.  Registering a new
/// waker may drop any previously registered waker without notification.
///
/// What a particular writer does is stated by its relations, one for each method.
pub trait IoWriter: Sized + Send {
    /// The error type returned by write operations.
    type Error;

    /// The writer is well formed.
    open spec fn writer_wf(&self) -> bool {
        true
    }

    /// What [`prod_poll_write`](Self::prod_poll_write) of `bytes` may do and
    /// return; `left` is what is left of the bytes.
    open spec fn writes(
        &self,
        cx: Context,
        bytes: Bytes,
        after: Self,
        after_cx: Context,
        left: Bytes,
        result: Poll<Result<usize, Self::Error>>,
    ) -> bool {
        true
    }

    /// What [`prod_poll_flush`](Self::prod_poll_flush) may do and return.
    open spec fn flushes(
        &self,
        cx: Context,
        after: Self,
        after_cx: Context,
        result: Poll<Result<(), Self::Error>>,
    ) -> bool {
        true
    }

    /// What [`prod_poll_close`](Self::prod_poll_close) may do and return.
    open spec fn closes(
        &self,
        cx: Context,
        after: Self,
        after_cx: Context,
        result: Poll<Result<(), Self::Error>>,
    ) -> bool {
        true
    }

    /// Attempts to send data.
    ///
    /// - If `bytes` is empty, `Ready(Ok(0))` is returned immediately.  The one
    ///   exception is a writer that is not there yet
    ///   ([`ConnectableIoWriter`](crate::connectables::ConnectableIoWriter)), for
    ///   which every call waits.
    /// - If the channel cannot accept data right now, `Poll::Pending` is
    ///   returned and the task is registered for wake-up.
    /// - Otherwise some prefix of `bytes` is consumed and sent.  The
    ///   number of bytes written (always > 0) is returned, and `bytes`
    ///   is advanced past the consumed portion.
    fn prod_poll_write(&mut self, cx: &mut Context, bytes: &mut Bytes) -> (result: Poll<
        Result<usize, Self::Error>,
    >)
        requires
            old(self).writer_wf(),
        ensures
            final(self).writer_wf(),
            old(self).writes(
                *old(cx),
                *old(bytes),
                *final(self),
                *final(cx),
                *final(bytes),
                result,
            ),
            result matches Poll::Ready(Ok(n)) ==> {
                let sent = crate::byte_buf::contents(*old(bytes));
                &&& n <= sent.len()
                &&& crate::byte_buf::contents(*final(bytes)) == sent.skip(n as int)
                &&& sent.len() > 0 ==> n > 0
            },
    ;

    /// Requests that any buffered bytes be delivered, and checks progress.
    ///
    /// The definition of "flushed" is implementation-specific.  For
    /// [`IoBytesExchange`](crate::io_bytes_exchange::IoBytesExchange),
    /// flushing completes when the reader has consumed the in-flight data
    /// and then performed a read that observes the empty slot (confirming
    /// it has seen all sent data).
    ///
    /// Returns `Poll::Ready(Ok(()))` once the flush is acknowledged.
    fn prod_poll_flush(&mut self, cx: &mut Context) -> (result: Poll<Result<(), Self::Error>>)
        requires
            old(self).writer_wf(),
        ensures
            final(self).writer_wf(),
            old(self).flushes(*old(cx), *final(self), *final(cx), result),
    ;

    /// Signals that no further bytes will be sent and waits for the close
    /// handshake to complete.
    ///
    /// After closing, the reader will eventually observe end-of-stream.
    /// If data is still in flight, the close is deferred until the reader
    /// consumes it.
    ///
    /// Returns `Poll::Ready(Ok(()))` once the close is fully acknowledged.
    fn prod_poll_close(&mut self, cx: &mut Context) -> (result: Poll<Result<(), Self::Error>>)
        requires
            old(self).writer_wf(),
        ensures
            final(self).writer_wf(),
            old(self).closes(*old(cx), *final(self), *final(cx), result),
    ;
}

} // verus!
