//! Stream trait for item consumption.
//!
//! [`IoStream`] is analogous to a stream of futures, but its methods need no
//! pinning.  It is implemented by [`IoExchange`](crate::io_exchange::IoExchange),
//! which provides the reader half of a single-slot rendezvous channel.

use core::fmt::{Debug, Formatter};

use vstd::prelude::*;

use crate::task::{Context, Poll, WakeQueue, Waker};

verus! {

/// A `Stream`-like trait for item consumption.  Paired with
/// [`IoSink`](crate::io_sink::IoSink) to form a full duplex channel.
///
/// # `con_poll*` semantics
///
/// The `con_poll*` methods on this trait are intended for use by a single
/// "consumer" — a task that is consuming items (or end-of-stream signals)
/// that have been produced upstream.
///
/// - If a `con_poll*` method returns [`Poll::Pending`], the calling task is
///   registered to be woken later when the same call might return
///   [`Poll::Ready`].
/// - If a `con_poll*` method returns [`Poll::Ready`] **and the return value
///   indicates that something was actually consumed** (a non-idempotent
///   result, e.g. an item), the calling task is **immediately pre-woken** so
///   it will be re-polled after processing the output.
/// - Whether end-of-stream, which repeats, pre-wakes as well is up to the
///   implementation.  It is the caller's responsibility to recognise
///   end-of-stream and break out of its read loop.
///
/// What a particular stream does is stated by its [`reads`](Self::reads) and
/// [`drops`](Self::drops) relations.
pub trait IoStream: Sized {
    /// The type of items produced by the stream.
    type Item;

    /// The error type returned by the stream.
    type Error;

    /// The stream is well formed.
    open spec fn stream_wf(&self) -> bool {
        true
    }

    /// A read of this stream in the context `cx` may leave the stream as `after`
    /// and the context as `after_cx`, and return `result`.
    open spec fn reads(
        &self,
        cx: Context,
        after: Self,
        after_cx: Context,
        result: Poll<Result<Option<Self::Item>, Self::Error>>,
    ) -> bool {
        true
    }

    /// Dropping the reader may leave the stream as `after`, and ask for the
    /// wake-ups that `woken` has and `asked` has not.
    open spec fn drops(&self, asked: Seq<Waker>, after: Self, woken: Seq<Waker>) -> bool {
        true
    }

    /// Attempts to read the next item from the stream.
    ///
    /// Returns:
    /// - `Poll::Ready(Ok(Some(item)))` — an item was consumed; the caller is
    ///   pre-woken to drain more.
    /// - `Poll::Ready(Ok(None))` — end-of-stream.  Repeated calls keep returning
    ///   end-of-stream, so the caller must recognise it and break its read loop.
    /// - `Poll::Pending` — no item is available yet.  The waker will be notified
    ///   when the state changes.
    fn con_poll_read(&mut self, cx: &mut Context) -> (result: Poll<
        Result<Option<Self::Item>, Self::Error>,
    >)
        requires
            old(self).stream_wf(),
        ensures
            final(self).stream_wf(),
            old(self).reads(*old(cx), *final(self), *final(cx), result),
    ;

    /// Signals that the reader is no longer interested in further items.
    ///
    /// After calling this, the writer side will observe that the reader has
    /// been dropped and will receive appropriate errors on subsequent sends.
    /// Any in-flight item is discarded.
    fn drop_read(&mut self, woken: &mut WakeQueue)
        requires
            old(self).stream_wf(),
        ensures
            final(self).stream_wf(),
            old(self).drops(old(woken)@, *final(self), final(woken)@),
    ;
}

/// A wrapper around a stream of results that reads it as an [`IoStream`] is read.
///
/// While the inner stream is present, a read polls it and turns the answer into
/// the result of the read.  An error or the end of the inner stream, and
/// [`drop_read`](Self::drop_read), drop the inner stream, after which a read
/// returns the end-of-stream signal.
///
/// How the inner stream is polled is up to the caller: a read borrows it with
/// [`stream_mut`](Self::stream_mut), polls it, and passes what came back to
/// [`finish_read`](Self::finish_read).
///
/// The inner stream is supplied at construction time and cannot be replaced.
pub struct StreamIoStream<STREAM> {
    inner: Option<STREAM>,
}

impl<STREAM> Debug for StreamIoStream<STREAM> {
    fn fmt(&self, f: &mut Formatter<'_>) -> core::fmt::Result {
        f.debug_struct("StreamIoStream").finish_non_exhaustive()
    }
}

impl<STREAM> View for StreamIoStream<STREAM> {
    type V = Option<STREAM>;

    closed spec fn view(&self) -> Option<STREAM> {
        self.inner
    }
}

/// What a poll of the inner stream, if there was one to poll, means for the read.
pub open spec fn read_result<ITEM, ERR>(
    polled: Option<Poll<Option<Result<ITEM, ERR>>>>,
) -> Poll<Result<Option<ITEM>, ERR>> {
    match polled {
        Some(Poll::Pending) => Poll::Pending,
        Some(Poll::Ready(Some(Ok(item)))) => Poll::Ready(Ok(Some(item))),
        Some(Poll::Ready(Some(Err(err)))) => Poll::Ready(Err(err)),
        Some(Poll::Ready(None)) | None => Poll::Ready(Ok(None)),
    }
}

/// What is left of the inner stream after a read: the end of the stream and an error
/// are final.
pub open spec fn stream_after<STREAM, ITEM, ERR>(
    inner: Option<STREAM>,
    polled: Option<Poll<Option<Result<ITEM, ERR>>>>,
) -> Option<STREAM> {
    match polled {
        Some(Poll::Ready(None)) | Some(Poll::Ready(Some(Err(_)))) => None,
        _ => inner,
    }
}

impl<STREAM> StreamIoStream<STREAM> {
    /// Creates a new `StreamIoStream` wrapping the given stream.
    pub fn new(inner: STREAM) -> (stream: StreamIoStream<STREAM>)
        ensures
            stream@ == Some(inner),
    {
        StreamIoStream { inner: Some(inner) }
    }

    /// Returns the inner stream to be polled, or `None` if it was dropped before.
    pub fn stream_mut(&mut self) -> (stream: Option<&mut STREAM>)
        ensures
            match old(self)@ {
                Some(inner) => stream matches Some(stream) && *stream == inner && final(self)@
                    == Some(*final(stream)),
                None => stream is None && final(self)@ is None,
            },
    {
        match &mut self.inner {
            Some(stream) => Some(stream),
            None => None,
        }
    }

    /// Finishes a read with what the poll of the inner stream returned, or with
    /// `None` if there was no inner stream to poll.
    pub fn finish_read<ITEM, ERR>(
        &mut self,
        cx: &mut Context,
        polled: Option<Poll<Option<Result<ITEM, ERR>>>>,
    ) -> (result: Poll<Result<Option<ITEM>, ERR>>)
        requires
            polled is None <==> old(self)@ is None,
        ensures
            result == read_result(polled),
            final(self)@ == stream_after(old(self)@, polled),
            // An item or an error was consumed; the end, which repeats, was not.
            old(cx).woke(
                *final(cx),
                match polled {
                    Some(Poll::Ready(Some(_))) => seq![old(cx).waker],
                    _ => Seq::empty(),
                },
            ),
    {
        let result = match polled {
            Some(Poll::Ready(Some(Ok(item)))) => {
                // An item was consumed; pre-wake the caller to drain more.
                cx.wake_by_ref();
                Poll::Ready(Ok(Some(item)))
            },
            Some(Poll::Ready(Some(Err(err)))) => {
                // Surface the error and transition to the end state.
                // Pre-wake the task, since the error is consumed.
                self.inner = None;
                cx.wake_by_ref();
                Poll::Ready(Err(err))
            },
            Some(Poll::Ready(None)) => {
                // End-of-stream is idempotent, so do not pre-wake.
                self.inner = None;
                Poll::Ready(Ok(None))
            },
            Some(Poll::Pending) => Poll::Pending,
            // Already in the end state
            None => Poll::Ready(Ok(None)),
        };
        assert(old(cx).woken@ + Seq::<Waker>::empty() =~= old(cx).woken@);
        result
    }

    /// Drops the inner stream.  From now on a read returns the end.
    pub fn drop_read(&mut self)
        ensures
            final(self)@ is None,
    {
        self.inner = None;
    }
}

/// Once a read has ended the stream, or failed, there is no inner stream to poll any
/// more, and every further read returns the end; until then the inner stream stays.
pub proof fn law_stream_end_is_final<STREAM, ITEM, ERR>(
    inner: STREAM,
    polled: Poll<Option<Result<ITEM, ERR>>>,
)
    ensures
        stream_after(Some(inner), Some(polled)) == match read_result(Some(polled)) {
            Poll::Pending | Poll::Ready(Ok(Some(_))) => Some(inner),
            _ => None,
        },
        stream_after(None::<STREAM>, None::<Poll<Option<Result<ITEM, ERR>>>>) is None,
        read_result(None::<Poll<Option<Result<ITEM, ERR>>>>) == Poll::Ready(
            Ok::<Option<ITEM>, ERR>(None),
        ),
{
}

/// What the inner stream says is what the reader is told: an item, an error, whichever it
/// is, the end, or a wait.  Without an inner stream the reader sees the end.
pub proof fn law_stream_answer_is_passed_on<STREAM, ITEM, ERR>(
    stream: &mut StreamIoStream<STREAM>,
    cx: &mut Context,
    polled: Option<Poll<Option<Result<ITEM, ERR>>>>,
    result: Poll<Result<Option<ITEM>, ERR>>,
)
    requires
        call_ensures(
            StreamIoStream::<STREAM>::finish_read::<ITEM, ERR>,
            (stream, cx, polled),
            result,
        ),
    ensures
        polled is None ==> result == Poll::Ready(Ok::<Option<ITEM>, ERR>(None)),
        polled matches Some(Poll::Ready(None)) ==> result == Poll::Ready(
            Ok::<Option<ITEM>, ERR>(None),
        ),
        polled matches Some(Poll::Ready(Some(Ok(item)))) ==> result == Poll::Ready(
            Ok::<Option<ITEM>, ERR>(Some(item)),
        ),
        polled matches Some(Poll::Ready(Some(Err(err)))) ==> result == Poll::Ready(
            Err::<Option<ITEM>, ERR>(err),
        ),
        polled matches Some(Poll::Pending) ==> result is Pending,
{
}

/// The inner stream is dropped once it has ended or failed, and stays otherwise.  The
/// reader is pre-woken for an item and for an error, which do not come again, and for
/// nothing else.
pub proof fn law_stream_is_kept_until_its_end<STREAM, ITEM, ERR>(
    stream: &mut StreamIoStream<STREAM>,
    cx: &mut Context,
    polled: Option<Poll<Option<Result<ITEM, ERR>>>>,
    result: Poll<Result<Option<ITEM>, ERR>>,
)
    requires
        polled is None <==> old(stream)@ is None,
        call_ensures(
            StreamIoStream::<STREAM>::finish_read::<ITEM, ERR>,
            (stream, cx, polled),
            result,
        ),
    ensures
        result is Pending ==> final(stream)@ == old(stream)@,
        result matches Poll::Ready(Ok(Some(_))) ==> final(stream)@ == old(stream)@,
        result matches Poll::Ready(Ok(None)) ==> final(stream)@ is None,
        result matches Poll::Ready(Err(_)) ==> final(stream)@ is None,
        final(cx).waker == old(cx).waker,
        final(cx).woken@ == if (result matches Poll::Ready(Ok(Some(_)))) || (result matches Poll::Ready(
            Err(_),
        )) {
            old(cx).woken@.push(old(cx).waker)
        } else {
            old(cx).woken@
        },
{
    assert(old(cx).woken@ + seq![old(cx).waker] =~= old(cx).woken@.push(old(cx).waker));
}

/// A new stream has its inner stream, and a dropped one has none.
pub proof fn law_dropped_stream_has_ended<STREAM>(
    inner: STREAM,
    new: StreamIoStream<STREAM>,
    stream: &mut StreamIoStream<STREAM>,
)
    requires
        call_ensures(StreamIoStream::<STREAM>::new, (inner,), new),
        call_ensures(StreamIoStream::<STREAM>::drop_read, (stream,), ()),
    ensures
        new@ == Some(inner),
        final(stream)@ is None,
{
}

/// What is lent out to be polled is the inner stream, and what it becomes is kept.
pub proof fn law_inner_stream_is_lent<STREAM>(
    stream: &mut StreamIoStream<STREAM>,
    lent: Option<&mut STREAM>,
)
    requires
        call_ensures(StreamIoStream::<STREAM>::stream_mut, (stream,), lent),
    ensures
        lent is Some <==> old(stream)@ is Some,
        lent matches Some(inner) ==> old(stream)@ == Some(*inner) && final(stream)@ == Some(
            *final(inner),
        ),
        lent is None ==> final(stream)@ is None,
{
}

} // verus!
