//! Single-producer sink trait for item delivery.
//!
//! [`IoSink`] is analogous to a sink of futures, but its methods need no pinning.
//! It is implemented by [`IoExchange`](crate::io_exchange::IoExchange), which
//! provides a single-slot rendezvous channel between a writer and a reader.

use core::marker::PhantomData;

use vstd::prelude::*;

use crate::task::{Context, Poll};

verus! {

/// A single-producer `Sink`-like trait.
///
/// # Protocol
///
/// 1. [`prod_poll_ready`](IoSink::prod_poll_ready) — wait for capacity.
/// 2. [`prod_poll_send`](IoSink::prod_poll_send) — submit an item.
/// 3. Optionally [`prod_poll_flush`](IoSink::prod_poll_flush) — ensure delivery.
/// 4. [`prod_poll_close`](IoSink::prod_poll_close) — signal end-of-stream.
///
/// # `prod_poll*` semantics
///
/// The `prod_poll*` methods on this trait are intended for use by a single
/// "producer" — a task that is producing items (or progress toward delivery)
/// to be consumed downstream.
///
/// - If it returns [`Poll::Pending`], the calling task is registered to
///   be woken later when the same call might return [`Poll::Ready`].
/// - If it returns [`Poll::Ready`], the calling task is **not** pre-woken.  A
///   `Ready` return is simply a signal that the producer may proceed.
///
/// What a particular sink does is stated by its relations, one for each method.
pub trait IoSink<ITEM>: Sized {
    /// The error type returned by sink operations.
    type Error;

    /// The sink is well formed.
    open spec fn sink_wf(&self) -> bool {
        true
    }

    /// What [`prod_poll_ready`](Self::prod_poll_ready) may do and return.
    open spec fn readies(
        &self,
        cx: Context,
        after: Self,
        after_cx: Context,
        result: Poll<Result<(), Self::Error>>,
    ) -> bool {
        true
    }

    /// What [`prod_poll_send`](Self::prod_poll_send) of `item` may do and return;
    /// `left` is what is left of the item.
    open spec fn sends(
        &self,
        cx: Context,
        item: Option<ITEM>,
        after: Self,
        after_cx: Context,
        left: Option<ITEM>,
        result: Poll<Result<(), Self::Error>>,
    ) -> bool {
        true
    }

    /// What [`prod_poll_flush`](Self::prod_poll_flush) may do and return.
    open spec fn flushes(
        &self,
        cx: Context,
        after: Self,
        after_cx: Context,
        result: Poll<Result<(), Self::Error>>,
    ) -> bool {
        true
    }

    /// What [`prod_poll_close`](Self::prod_poll_close) may do and return.
    open spec fn closes(
        &self,
        cx: Context,
        after: Self,
        after_cx: Context,
        result: Poll<Result<(), Self::Error>>,
    ) -> bool {
        true
    }

    /// Checks whether the sink is ready to accept an item.
    ///
    /// Returns `Poll::Ready(Ok(()))` when a subsequent [`prod_poll_send`](IoSink::prod_poll_send)
    /// is expected to succeed immediately, assuming no other caller intervenes.
    /// Returns `Poll::Pending` when the sink is full or busy.
    fn prod_poll_ready(&mut self, cx: &mut Context) -> (result: Poll<Result<(), Self::Error>>)
        requires
            old(self).sink_wf(),
        ensures
            final(self).sink_wf(),
            old(self).readies(*old(cx), *final(self), *final(cx), result),
    ;

    /// Attempts to send an item into the sink.
    ///
    /// If the item is successfully consumed, `*item` is set to `None` and
    /// `Poll::Ready(Ok(()))` is returned. If the sink is not ready, `*item`
    /// is left unchanged and `Poll::Pending` is returned.
    ///
    /// If `item` is `None` on entry, returns `Poll::Ready(Ok(()))` immediately
    /// (no-op send).  The one exception is a sink that is not there yet
    /// ([`ConnectableIoSink`](crate::connectables::ConnectableIoSink)), for which
    /// every call waits.
    fn prod_poll_send(&mut self, cx: &mut Context, item: &mut Option<ITEM>) -> (result: Poll<
        Result<(), Self::Error>,
    >)
        requires
            old(self).sink_wf(),
        ensures
            final(self).sink_wf(),
            old(self).sends(
                *old(cx),
                *old(item),
                *final(self),
                *final(cx),
                *final(item),
                result,
            ),
            result matches Poll::Ready(Ok(_)) ==> *final(item) is None,
            result is Pending ==> *final(item) == *old(item),
    ;

    /// Requests that any buffered items be delivered, and checks progress.
    ///
    /// The definition of "flushed" is implementation-specific. For
    /// [`IoExchange`](crate::io_exchange::IoExchange), flushing completes when
    /// the reader has consumed the in-flight item and then performed a read
    /// that observes the empty slot (confirming it has seen all sent data).
    ///
    /// Returns `Poll::Ready(Ok(()))` once the flush is acknowledged.
    fn prod_poll_flush(&mut self, cx: &mut Context) -> (result: Poll<Result<(), Self::Error>>)
        requires
            old(self).sink_wf(),
        ensures
            final(self).sink_wf(),
            old(self).flushes(*old(cx), *final(self), *final(cx), result),
    ;

    /// Signals that no further items will be sent and waits for the close
    /// handshake to complete.
    ///
    /// After closing, the reader will eventually observe end-of-stream. If an
    /// item is still in flight, the close is deferred until the reader consumes
    /// it.
    ///
    /// Returns `Poll::Ready(Ok(()))` once the close is fully acknowledged.
    fn prod_poll_close(&mut self, cx: &mut Context) -> (result: Poll<Result<(), Self::Error>>)
        requires
            old(self).sink_wf(),
        ensures
            final(self).sink_wf(),
            old(self).closes(*old(cx), *final(self), *final(cx), result),
    ;
}

/// A wrapper around a sink that is written to as an [`IoSink`] is written to.
///
/// Getting ready, flushing and closing are those of the inner sink, which
/// [`sink_mut`](Self::sink_mut) lends out.  A send goes in steps, between which the
/// caller asks the inner sink:
///
/// 1. If there is no item, the send is done ([`needs_ready`](Self::needs_ready)).
/// 2. Otherwise the inner sink is polled for readiness, and
///    [`plan_send`](Self::plan_send) says from the answer whether the send is
///    over, or which item to submit.
/// 3. What the inner sink says to the item is the result of the send.
///
/// The inner sink is supplied at construction time and cannot be replaced.
#[derive(Debug)]
pub struct SinkIoSink<ITEM, SINK> {
    inner: SINK,
    item: PhantomData<ITEM>,
}

impl<ITEM, SINK> View for SinkIoSink<ITEM, SINK> {
    type V = SINK;

    closed spec fn view(&self) -> SINK {
        self.inner
    }
}

/// What to do with the answer of the inner sink to a poll for readiness.
#[derive(Debug)]
#[verifier::reject_recursive_types(ERR)]
pub enum SendPlan<ITEM, ERR> {
    /// The send is over with this result.
    Over(Poll<Result<(), ERR>>),
    /// Submit this item to the inner sink.
    Submit(ITEM),
}

impl<ITEM, SINK> SinkIoSink<ITEM, SINK> {
    /// Creates a new `SinkIoSink` wrapping the given sink.
    pub fn new(inner: SINK) -> (sink: SinkIoSink<ITEM, SINK>)
        ensures
            sink@ == inner,
    {
        SinkIoSink { inner, item: PhantomData }
    }

    /// Returns the inner sink.
    pub fn sink_mut(&mut self) -> (sink: &mut SINK)
        ensures
            *sink == old(self)@,
            final(self)@ == *final(sink),
    {
        &mut self.inner
    }

    /// Returns `true` if the inner sink has to be ready for the send, and `false`
    /// if there is nothing to send.
    pub fn needs_ready(item: &Option<ITEM>) -> (needed: bool)
        ensures
            needed == (*item is Some),
    {
        item.is_some()
    }

    /// Decides from the readiness of the inner sink how a send goes on.  The item is
    /// taken if it is to be submitted, and left with the caller otherwise.
    pub fn plan_send<ERR>(ready: Poll<Result<(), ERR>>, item: &mut Option<ITEM>) -> (plan: SendPlan<
        ITEM,
        ERR,
    >)
        ensures
            match (ready, *old(item)) {
                (_, None) => {
                    &&& plan == SendPlan::<ITEM, ERR>::Over(Poll::Ready(Ok(())))
                    &&& *final(item) is None
                },
                (Poll::Ready(Ok(_)), Some(value)) => {
                    &&& plan == SendPlan::<ITEM, ERR>::Submit(value)
                    &&& *final(item) is None
                },
                (_, Some(_)) => {
                    &&& plan == SendPlan::<ITEM, ERR>::Over(ready)
                    &&& *final(item) == *old(item)
                },
            },
    {
        if item.is_none() {
            return SendPlan::Over(Poll::Ready(Ok(())));
        }
        match ready {
            Poll::Pending => SendPlan::Over(Poll::Pending),
            Poll::Ready(Err(err)) => SendPlan::Over(Poll::Ready(Err(err))),
            Poll::Ready(Ok(_)) => match item.take() {
                Some(value) => SendPlan::Submit(value),
                None => SendPlan::Over(Poll::Ready(Ok(()))),
            },
        }
    }
}

/// An item is submitted exactly if there is one and the inner sink is ready for it, and it
/// then leaves the caller; otherwise the caller keeps it, and is told what the inner sink
/// said.  Without an item the send is done.
pub proof fn law_item_is_submitted_when_ready<ITEM, SINK, ERR>(
    ready: Poll<Result<(), ERR>>,
    item: &mut Option<ITEM>,
    plan: SendPlan<ITEM, ERR>,
)
    requires
        call_ensures(SinkIoSink::<ITEM, SINK>::plan_send::<ERR>, (ready, item), plan),
    ensures
        plan is Submit <==> *old(item) is Some && (ready matches Poll::Ready(Ok(_))),
        plan matches SendPlan::Submit(value) ==> *old(item) == Some(value) && *final(item) is None,
        plan is Over ==> *final(item) == *old(item),
        *old(item) is None ==> plan == SendPlan::<ITEM, ERR>::Over(Poll::Ready(Ok(()))),
        *old(item) is Some && plan is Over ==> plan == SendPlan::<ITEM, ERR>::Over(ready),
{
}

/// The inner sink is asked to be ready exactly if there is something to send.
pub proof fn law_nothing_needs_no_readiness<ITEM, SINK>(item: &Option<ITEM>, needed: bool)
    requires
        call_ensures(SinkIoSink::<ITEM, SINK>::needs_ready, (item,), needed),
    ensures
        needed <==> *item is Some,
{
}

/// What is lent out is the inner sink, and what it becomes is kept.
pub proof fn law_inner_sink_is_lent<ITEM, SINK>(
    given: SINK,
    new: SinkIoSink<ITEM, SINK>,
    sink: &mut SinkIoSink<ITEM, SINK>,
    lent: &mut SINK,
)
    requires
        call_ensures(SinkIoSink::<ITEM, SINK>::new, (given,), new),
        call_ensures(SinkIoSink::<ITEM, SINK>::sink_mut, (sink,), lent),
    ensures
        new@ == given,
        *old(lent) == old(sink)@,
        final(sink)@ == *final(lent),
{
}

} // verus!
