//! Single-slot rendezvous channel implementing both [`IoSink`] and [`IoStream`].
//!
//! [`IoExchange`] transfers at most one item at a time between a writer
//! (the [`IoSink`] side) and a reader (the [`IoStream`] side).  Its states are
//! those of [`crate::exchange_state`].

use vstd::prelude::*;

use crate::exchange_state::{ExchangeState, Handshake, HandshakeModel};
use crate::io_error::IoError;
use crate::io_sink::IoSink;
use crate::io_stream::IoStream;
use crate::task::{Context, Poll, WakeQueue, Waker};

verus! {

/// Why an exchange does not take what is written to it.
#[derive(Debug, Clone, Copy, PartialEq, Eq, Structural)]
pub enum ExchangeWriteError {
    /// The reader has been dropped.
    ReaderDropped,
    /// The exchange was closed before.
    InvalidState,
}

/// What there is to know about an exchange: the state and the waiting tasks, and
/// what is in the slot.
#[verifier::ext_equal]
pub struct ExchangeModel<P> {
    /// The state and the waiting tasks.
    pub handshake: HandshakeModel,
    /// What is in the slot.
    pub slot: P,
}

/// A single-slot rendezvous channel.
///
/// Implements both [`IoSink`] (writer) and [`IoStream`] (reader).
#[derive(Debug)]
pub struct IoExchange<ITEM> {
    handshake: Handshake,
    // The single-item payload slot.
    item: Option<ITEM>,
}

impl<ITEM> View for IoExchange<ITEM> {
    type V = ExchangeModel<Option<ITEM>>;

    closed spec fn view(&self) -> ExchangeModel<Option<ITEM>> {
        ExchangeModel { handshake: self.handshake@, slot: self.item }
    }
}

impl<ITEM> Default for IoExchange<ITEM> {
    fn default() -> (ex: IoExchange<ITEM>)
        ensures
            ex.wf(),
            ex@ == IoExchange::<ITEM>::fresh(),
    {
        IoExchange::new()
    }
}

impl<ITEM> IoExchange<ITEM> {
    /// The slot holds an item exactly in the full states.
    pub open spec fn wf(&self) -> bool {
        self@.slot is Some <==> self@.handshake.state.is_full()
    }

    /// A new exchange.
    pub open spec fn fresh() -> ExchangeModel<Option<ITEM>> {
        ExchangeModel {
            handshake: HandshakeModel { state: ExchangeState::Empty, reader: None, writer: None },
            slot: None,
        }
    }

    /// Creates a new, empty exchange in the `Empty` state.
    pub fn new() -> (ex: IoExchange<ITEM>)
        ensures
            ex.wf(),
            ex@ == IoExchange::<ITEM>::fresh(),
    {
        IoExchange { handshake: Handshake::new(), item: None }
    }

    /// Returns where the exchange is in its lifecycle.
    pub fn state(&self) -> (state: ExchangeState)
        ensures
            state == self@.handshake.state,
    {
        self.handshake.state()
    }

    /// Resets the exchange to its initial `Empty` state, discarding any
    /// in-flight item and waking any registered reader or writer so they
    /// re-poll and observe the fresh state.
    pub fn reset(&mut self, woken: &mut WakeQueue)
        ensures
            final(self).wf(),
            final(self)@ == IoExchange::<ITEM>::fresh(),
            final(woken)@ == old(woken)@ + old(self)@.handshake.reset().woken,
    {
        self.item = None;
        self.handshake.reset(woken);
    }
}

impl<ITEM> IoStream for IoExchange<ITEM> {
    type Item = ITEM;

    type Error = IoError;

    open spec fn stream_wf(&self) -> bool {
        self.wf()
    }

    open spec fn reads(
        &self,
        cx: Context,
        after: IoExchange<ITEM>,
        after_cx: Context,
        result: Poll<Result<Option<ITEM>, IoError>>,
    ) -> bool {
        let hs = self@.handshake;
        if hs.state.is_full() {
            let step = hs.take(cx.waker, true);
            &&& result == Poll::Ready(Ok::<Option<ITEM>, IoError>(self@.slot))
            &&& after@ == (ExchangeModel { handshake: step.after, slot: None::<ITEM> })
            &&& cx.woke(after_cx, step.woken)
        } else if hs.state.is_empty() {
            let step = hs.observe_empty(cx.waker);
            &&& result is Pending
            &&& after@ == (ExchangeModel { handshake: step.after, slot: None::<ITEM> })
            &&& cx.woke(after_cx, step.woken)
        } else if hs.state == ExchangeState::Done {
            &&& result == Poll::Ready(Ok::<Option<ITEM>, IoError>(None))
            &&& after@ == self@
            &&& cx.woke(after_cx, seq![cx.waker])
        } else {
            &&& result == Poll::Ready(Err::<Option<ITEM>, IoError>(IoError::InvalidState))
            &&& after@ == self@
            &&& cx.woke(after_cx, Seq::empty())
        }
    }

    open spec fn drops(&self, asked: Seq<Waker>, after: IoExchange<ITEM>, woken: Seq<Waker>) -> bool {
        let step = self@.handshake.drop_read();
        &&& after@ == (ExchangeModel { handshake: step.after, slot: None::<ITEM> })
        &&& woken == asked + step.woken
    }

    /// Takes the next item from the exchange.
    ///
    /// State transitions on read:
    /// - `Full` → `Empty` (normal cycle)
    /// - `FullFlush` → `EmptyFlush` (item consumed, flush still pending)
    /// - `FullClosed` → `Done` (last item consumed, stream ends)
    fn con_poll_read(&mut self, cx: &mut Context) -> (result: Poll<Result<Option<ITEM>, IoError>>) {
        match self.handshake.state() {
            // The reader has seen the empty slot, which acknowledges a flush.
            ExchangeState::Empty | ExchangeState::EmptyFlush | ExchangeState::EmptyFlushed => {
                self.handshake.observe_empty(cx);
                Poll::Pending
            },
            ExchangeState::Full | ExchangeState::FullFlush | ExchangeState::FullClosed => {
                let item = self.item.take();
                self.handshake.take(cx, true);
                Poll::Ready(Ok(item))
            },
            // Each end-of-stream counts as consuming one repetition of the
            // signal, so pre-wake the caller.
            ExchangeState::Done => {
                cx.wake_by_ref();
                Poll::Ready(Ok(None))
            },
            ExchangeState::Dropped => {
                assert(cx.woken@ =~= old(cx).woken@ + Seq::<Waker>::empty());
                Poll::Ready(Err(IoError::InvalidState))
            },
        }
    }

    fn drop_read(&mut self, woken: &mut WakeQueue) {
        if self.handshake.drop_read(woken) {
            // Discard any in-flight item.
            self.item = None;
        }
    }
}

impl<ITEM> IoSink<ITEM> for IoExchange<ITEM> {
    type Error = IoError;

    open spec fn sink_wf(&self) -> bool {
        self.wf()
    }

    open spec fn readies(
        &self,
        cx: Context,
        after: IoExchange<ITEM>,
        after_cx: Context,
        result: Poll<Result<(), IoError>>,
    ) -> bool {
        let hs = self@.handshake;
        if hs.state.is_full() {
            let step = hs.wait_for_reader(cx.waker);
            &&& result is Pending
            &&& after@ == (ExchangeModel { handshake: step.after, slot: self@.slot })
            &&& cx.woke(after_cx, step.woken)
        } else {
            &&& result == Poll::Ready(IoExchange::<ITEM>::refusal(hs.state))
            &&& after@ == self@
            &&& after_cx == cx
        }
    }

    open spec fn sends(
        &self,
        cx: Context,
        item: Option<ITEM>,
        after: IoExchange<ITEM>,
        after_cx: Context,
        left: Option<ITEM>,
        result: Poll<Result<(), IoError>>,
    ) -> bool {
        let hs = self@.handshake;
        if item is None {
            &&& result == Poll::Ready(Ok::<(), IoError>(()))
            &&& after@ == self@
            &&& after_cx == cx
            &&& left is None
        } else if hs.state.is_empty() {
            let step = hs.fill();
            &&& result == Poll::Ready(Ok::<(), IoError>(()))
            &&& after@ == (ExchangeModel { handshake: step.after, slot: item })
            &&& cx.woke(after_cx, step.woken)
            &&& left is None
        } else if hs.state.is_full() {
            let step = hs.wait_for_reader(cx.waker);
            &&& result is Pending
            &&& after@ == (ExchangeModel { handshake: step.after, slot: self@.slot })
            &&& cx.woke(after_cx, step.woken)
            &&& left == item
        } else {
            &&& result == Poll::Ready(IoExchange::<ITEM>::refusal(hs.state))
            &&& after@ == self@
            &&& after_cx == cx
            &&& left == item
        }
    }

    open spec fn flushes(
        &self,
        cx: Context,
        after: IoExchange<ITEM>,
        after_cx: Context,
        result: Poll<Result<(), IoError>>,
    ) -> bool {
        let step = self@.handshake.flush(cx.waker);
        &&& result == if self@.handshake.state.is_flushed() {
            Poll::Ready(Ok::<(), IoError>(()))
        } else {
            Poll::Pending
        }
        &&& after@ == (ExchangeModel { handshake: step.after, slot: self@.slot })
        &&& cx.woke(after_cx, step.woken)
    }

    open spec fn closes(
        &self,
        cx: Context,
        after: IoExchange<ITEM>,
        after_cx: Context,
        result: Poll<Result<(), IoError>>,
    ) -> bool {
        let step = self@.handshake.close(cx.waker);
        &&& result == if self@.handshake.state.is_full() {
            Poll::Pending
        } else {
            Poll::Ready(Ok::<(), IoError>(()))
        }
        &&& after@ == (ExchangeModel { handshake: step.after, slot: self@.slot })
        &&& cx.woke(after_cx, step.woken)
    }

    /// Checks whether the slot is empty and ready to accept a new item.
    fn prod_poll_ready(&mut self, cx: &mut Context) -> (result: Poll<Result<(), IoError>>) {
        match self.handshake.state() {
            // Any empty state means the slot is free.
            ExchangeState::Empty | ExchangeState::EmptyFlush | ExchangeState::EmptyFlushed => {
                Poll::Ready(Ok(()))
            },
            // Slot occupied — wait for the reader to consume.
            ExchangeState::Full | ExchangeState::FullFlush | ExchangeState::FullClosed => {
                self.handshake.wait_for_reader(cx);
                Poll::Pending
            },
            ExchangeState::Dropped => Poll::Ready(Err(IoError::BrokenPipe)),
            ExchangeState::Done => Poll::Ready(Err(IoError::InvalidState)),
        }
    }

    /// Places an item into the slot if it is empty.
    fn prod_poll_send(&mut self, cx: &mut Context, item: &mut Option<ITEM>) -> (result: Poll<
        Result<(), IoError>,
    >) {
        if item.is_none() {
            return Poll::Ready(Ok(()));
        }
        match self.handshake.state() {
            ExchangeState::Empty | ExchangeState::EmptyFlush | ExchangeState::EmptyFlushed => {
                self.item = item.take();
                self.handshake.fill(cx);
                Poll::Ready(Ok(()))
            },
            ExchangeState::Full | ExchangeState::FullFlush | ExchangeState::FullClosed => {
                self.handshake.wait_for_reader(cx);
                Poll::Pending
            },
            ExchangeState::Dropped => Poll::Ready(Err(IoError::BrokenPipe)),
            ExchangeState::Done => Poll::Ready(Err(IoError::InvalidState)),
        }
    }

    /// Requests that the reader acknowledge all previously sent items.
    fn prod_poll_flush(&mut self, cx: &mut Context) -> (result: Poll<Result<(), IoError>>) {
        if self.handshake.flush(cx) {
            Poll::Ready(Ok(()))
        } else {
            Poll::Pending
        }
    }

    /// Signals that no more items will be sent and waits for close completion.
    ///
    /// If the slot is empty, transitions directly to `Done`. If an item is
    /// still in flight, transitions to `FullClosed` so the reader gets the
    /// last item before seeing end-of-stream.
    fn prod_poll_close(&mut self, cx: &mut Context) -> (result: Poll<Result<(), IoError>>) {
        if self.handshake.close(cx) {
            Poll::Ready(Ok(()))
        } else {
            Poll::Pending
        }
    }
}

impl<ITEM> IoExchange<ITEM> {
    /// What a writer is told that need not wait: the reader is gone, the exchange
    /// was closed before, or the slot is free.
    pub open spec fn refusal(state: ExchangeState) -> Result<(), IoError> {
        match state {
            ExchangeState::Dropped => Err(IoError::BrokenPipe),
            ExchangeState::Done => Err(IoError::InvalidState),
            _ => Ok(()),
        }
    }
}

/// An item that the exchange accepted is the item that the next read hands out,
/// once: after that the slot is empty again.
pub proof fn law_sent_item_is_read<ITEM>(
    ex: IoExchange<ITEM>,
    item: ITEM,
    cx: Context,
    sent: IoExchange<ITEM>,
    sent_cx: Context,
    left: Option<ITEM>,
    reader_cx: Context,
    read: IoExchange<ITEM>,
    read_cx: Context,
    result: Poll<Result<Option<ITEM>, IoError>>,
)
    requires
        ex.sends(cx, Some(item), sent, sent_cx, left, Poll::Ready(Ok::<(), IoError>(()))),
        sent.reads(reader_cx, read, read_cx, result),
    ensures
        left is None,
        result == Poll::Ready(Ok::<Option<ITEM>, IoError>(Some(item))),
        read@.slot is None,
        read@.handshake.state == ExchangeState::Empty,
{
}

/// What the writer does not get rid of it keeps: a send either hands the item over
/// whole, or leaves it with the writer and the exchange's slot as it was.
pub proof fn law_send_is_all_or_nothing<ITEM>(
    ex: IoExchange<ITEM>,
    item: ITEM,
    cx: Context,
    after: IoExchange<ITEM>,
    after_cx: Context,
    left: Option<ITEM>,
    result: Poll<Result<(), IoError>>,
)
    requires
        ex.wf(),
        ex.sends(cx, Some(item), after, after_cx, left, result),
    ensures
        result == Poll::Ready(Ok::<(), IoError>(())) ==> left is None && after@.slot == Some(item),
        result != Poll::Ready(Ok::<(), IoError>(())) ==> left == Some(item) && after@.slot
            == ex@.slot,
        result is Pending ==> after@.handshake.writer == Some(cx.waker),
        result is Ready ==> after@.handshake.writer == ex@.handshake.writer,
{
}

/// An item in flight when the writer closes is still delivered, and after it the
/// reader sees the end, over and over.
pub proof fn law_close_delivers_last_item<ITEM>(
    ex: IoExchange<ITEM>,
    item: ITEM,
    cx: Context,
    closed: IoExchange<ITEM>,
    closed_cx: Context,
    close_result: Poll<Result<(), IoError>>,
    reader_cx: Context,
    read: IoExchange<ITEM>,
    read_cx: Context,
    result: Poll<Result<Option<ITEM>, IoError>>,
    end: IoExchange<ITEM>,
    end_cx: Context,
    end_result: Poll<Result<Option<ITEM>, IoError>>,
)
    requires
        ex.wf(),
        ex@.slot == Some(item),
        ex.closes(cx, closed, closed_cx, close_result),
        closed.reads(reader_cx, read, read_cx, result),
        read.reads(read_cx, end, end_cx, end_result),
    ensures
        close_result is Pending,
        result == Poll::Ready(Ok::<Option<ITEM>, IoError>(Some(item))),
        end_result == Poll::Ready(Ok::<Option<ITEM>, IoError>(None)),
        end@ == read@,
{
}

/// A flush or a close that is complete means that nothing is in flight any more, and
/// one that is not has the writer registered to be woken.
pub proof fn law_complete_means_consumed<ITEM>(
    ex: IoExchange<ITEM>,
    cx: Context,
    after: IoExchange<ITEM>,
    after_cx: Context,
    result: Poll<Result<(), IoError>>,
)
    requires
        ex.wf(),
        ex.flushes(cx, after, after_cx, result) || ex.closes(cx, after, after_cx, result),
    ensures
        after.wf(),
        after@.slot == ex@.slot,
        result is Ready ==> ex@.slot is None,
        result is Pending ==> after@.handshake.writer == Some(cx.waker),
{
}

/// A reader that is told to wait is registered, and one that got an item or the
/// end is pre-woken to poll again.
pub proof fn law_reader_is_scheduled<ITEM>(
    ex: IoExchange<ITEM>,
    cx: Context,
    after: IoExchange<ITEM>,
    after_cx: Context,
    result: Poll<Result<Option<ITEM>, IoError>>,
)
    requires
        ex.wf(),
        ex.reads(cx, after, after_cx, result),
    ensures
        result is Pending ==> after@.handshake.reader == Some(cx.waker),
        result matches Poll::Ready(Ok(_)) ==> after_cx.woken@.last() == cx.waker,
        after_cx.waker == cx.waker,
{
}

/// Once the reader has been dropped, nothing can be sent any more, and what was in
/// flight is gone.
pub proof fn law_dropped_reader_breaks_the_pipe<ITEM>(
    ex: IoExchange<ITEM>,
    asked: Seq<Waker>,
    dropped: IoExchange<ITEM>,
    woken: Seq<Waker>,
    item: ITEM,
    cx: Context,
    after: IoExchange<ITEM>,
    after_cx: Context,
    left: Option<ITEM>,
    result: Poll<Result<(), IoError>>,
)
    requires
        ex.wf(),
        ex.drops(asked, dropped, woken),
        dropped.sends(cx, Some(item), after, after_cx, left, result),
    ensures
        dropped@.slot is None,
        left == Some(item),
        result == Poll::Ready(
            Err::<(), IoError>(
                if ex@.handshake.state == ExchangeState::Done {
                    IoError::InvalidState
                } else {
                    IoError::BrokenPipe
                },
            ),
        ),
{
}

/// One poll of an exchange, with what it was given and what came of it.
#[verifier::reject_recursive_types(ITEM)]
pub enum ItemEvent<ITEM> {
    /// A send of `item`, of which `left` is left.
    Send {
        cx: Context,
        item: Option<ITEM>,
        after_cx: Context,
        left: Option<ITEM>,
        result: Poll<Result<(), IoError>>,
    },
    /// A read.
    Read { cx: Context, after_cx: Context, read: Poll<Result<Option<ITEM>, IoError>> },
    /// A poll for readiness.
    Ready { cx: Context, after_cx: Context, result: Poll<Result<(), IoError>> },
    /// A poll for a flush.
    Flush { cx: Context, after_cx: Context, result: Poll<Result<(), IoError>> },
    /// A poll for the exchange to close.
    Close { cx: Context, after_cx: Context, result: Poll<Result<(), IoError>> },
}

/// The item, if there is one, as a sequence.
pub open spec fn item_seq<ITEM>(item: Option<ITEM>) -> Seq<ITEM> {
    match item {
        Some(item) => seq![item],
        None => Seq::empty(),
    }
}

impl<ITEM> ItemEvent<ITEM> {
    /// The event may lead from the exchange `before` to the exchange `after`.
    pub open spec fn leads(self, before: IoExchange<ITEM>, after: IoExchange<ITEM>) -> bool {
        match self {
            ItemEvent::Send { cx, item, after_cx, left, result } => before.sends(
                cx,
                item,
                after,
                after_cx,
                left,
                result,
            ),
            ItemEvent::Read { cx, after_cx, read } => before.reads(cx, after, after_cx, read),
            ItemEvent::Ready { cx, after_cx, result } => before.readies(
                cx,
                after,
                after_cx,
                result,
            ),
            ItemEvent::Flush { cx, after_cx, result } => before.flushes(
                cx,
                after,
                after_cx,
                result,
            ),
            ItemEvent::Close { cx, after_cx, result } => before.closes(
                cx,
                after,
                after_cx,
                result,
            ),
        }
    }

    /// The item that the exchange has taken from the writer, if any.
    pub open spec fn taken(self) -> Seq<ITEM> {
        match self {
            ItemEvent::Send { item, result: Poll::Ready(Ok(_)), .. } => item_seq(item),
            _ => Seq::empty(),
        }
    }

    /// The item that the reader has been given, if any.
    pub open spec fn given(self) -> Seq<ITEM> {
        match self {
            ItemEvent::Read { read: Poll::Ready(Ok(item)), .. } => item_seq(item),
            _ => Seq::empty(),
        }
    }
}

/// The items that the exchange has taken from the writer, one poll after the other.
pub open spec fn all_taken<ITEM>(events: Seq<ItemEvent<ITEM>>) -> Seq<ITEM>
    decreases events.len(),
{
    if events.len() == 0 {
        Seq::empty()
    } else {
        all_taken(events.drop_last()) + events.last().taken()
    }
}

/// The items that the reader has been given, one poll after the other.
pub open spec fn all_given<ITEM>(events: Seq<ItemEvent<ITEM>>) -> Seq<ITEM>
    decreases events.len(),
{
    if events.len() == 0 {
        Seq::empty()
    } else {
        all_given(events.drop_last()) + events.last().given()
    }
}

/// However the polls of the writer and the reader alternate, the reader is given
/// exactly the items that were taken from the writer, in order, but for the one that
/// may still be in flight.
pub proof fn law_items_are_conserved<ITEM>(
    states: Seq<IoExchange<ITEM>>,
    events: Seq<ItemEvent<ITEM>>,
)
    requires
        states.len() == events.len() + 1,
        states[0]@ == IoExchange::<ITEM>::fresh(),
        forall|i: int|
            0 <= i < events.len() ==> (#[trigger] events[i]).leads(states[i], states[i + 1]),
    ensures
        states.last().wf(),
        all_taken(events) == all_given(events) + item_seq(states.last()@.slot),
    decreases events.len(),
{
    if events.len() == 0 {
        assert(all_taken(events) =~= all_given(events) + item_seq(states.last()@.slot));
    } else {
        let before = states[states.len() - 2];
        let after = states.last();
        let event = events.last();
        law_items_are_conserved(states.drop_last(), events.drop_last());
        assert(event == events[events.len() - 1]);
        assert(event.leads(before, after));
        let held = item_seq(before@.slot);
        let holds = item_seq(after@.slot);
        assert(held + event.taken() =~= event.given() + holds);
        let given = all_given(events.drop_last());
        assert((given + held) + event.taken() =~= given + (held + event.taken()));
        assert((given + event.given()) + holds =~= given + (event.given() + holds));
    }
}

/// A read hands out the item in flight and nothing else: with no item it sees the end
/// if there is one, an error if the reader has given up, and waits otherwise.
pub proof fn law_read_hands_out_the_item<ITEM>(
    ex: &mut IoExchange<ITEM>,
    cx: &mut Context,
    result: Poll<Result<Option<ITEM>, IoError>>,
)
    requires
        old(ex).wf(),
        call_ensures(<IoExchange<ITEM> as IoStream>::con_poll_read, (ex, cx), result),
    ensures
        final(ex)@.slot is None,
        old(ex)@.slot matches Some(item) ==> result == Poll::Ready(
            Ok::<Option<ITEM>, IoError>(Some(item)),
        ),
        old(ex)@.slot is None ==> match old(ex)@.handshake.state {
            ExchangeState::Done => result == Poll::Ready(Ok::<Option<ITEM>, IoError>(None)),
            ExchangeState::Dropped => result == Poll::Ready(
                Err::<Option<ITEM>, IoError>(IoError::InvalidState),
            ),
            _ => result is Pending,
        },
{
}

/// A read that makes progress, taking an item or finding the slot empty for the first
/// time, wakes the writer if it waits.  A read that got an item or the end then wakes
/// the reader itself, and one that is told to wait registers it.
pub proof fn law_read_wakes_both_sides<ITEM>(
    ex: &mut IoExchange<ITEM>,
    cx: &mut Context,
    result: Poll<Result<Option<ITEM>, IoError>>,
)
    requires
        old(ex).wf(),
        call_ensures(<IoExchange<ITEM> as IoStream>::con_poll_read, (ex, cx), result),
    ensures
        ({
            let before = old(ex)@.handshake;
            let after = final(ex)@.handshake;
            let progress = old(ex)@.slot is Some || (result is Pending && before.state
                != ExchangeState::EmptyFlushed);
            let told = if progress {
                crate::waker_ref::wakes_of(before.writer)
            } else {
                Seq::empty()
            };
            let itself = if result matches Poll::Ready(Ok(_)) {
                seq![old(cx).waker]
            } else {
                Seq::empty()
            };
            &&& final(cx).waker == old(cx).waker
            &&& final(cx).woken@ == old(cx).woken@ + told + itself
            &&& after.writer == if progress {
                None
            } else {
                before.writer
            }
            &&& after.reader == if result is Pending {
                Some(old(cx).waker)
            } else {
                before.reader
            }
        }),
{
}

/// Taking the item frees the slot, after which a flush is still to be acknowledged, and
/// a close is complete.  A read that finds the slot empty acknowledges a flush.  What
/// is over stays over.
pub proof fn law_read_frees_the_slot<ITEM>(
    ex: &mut IoExchange<ITEM>,
    cx: &mut Context,
    result: Poll<Result<Option<ITEM>, IoError>>,
)
    requires
        old(ex).wf(),
        call_ensures(<IoExchange<ITEM> as IoStream>::con_poll_read, (ex, cx), result),
    ensures
        final(ex)@.handshake.state == match old(ex)@.handshake.state {
            ExchangeState::Full => ExchangeState::Empty,
            ExchangeState::FullFlush => ExchangeState::EmptyFlush,
            ExchangeState::FullClosed | ExchangeState::Done => ExchangeState::Done,
            ExchangeState::Dropped => ExchangeState::Dropped,
            _ => ExchangeState::EmptyFlushed,
        },
{
}

/// What a writer is told in front of a slot that is not full: it may go on, unless the
/// reader has given up or the exchange was closed.  In front of a full slot it waits.
/// Nothing else changes.
pub proof fn law_ready_means_free<ITEM>(
    ex: &mut IoExchange<ITEM>,
    cx: &mut Context,
    result: Poll<Result<(), IoError>>,
)
    requires
        old(ex).wf(),
        call_ensures(<IoExchange<ITEM> as IoSink<ITEM>>::prod_poll_ready, (ex, cx), result),
    ensures
        ({
            let before = old(ex)@.handshake;
            let after = final(ex)@.handshake;
            &&& final(cx).waker == old(cx).waker
            &&& final(cx).woken@ == old(cx).woken@
            &&& final(ex)@.slot == old(ex)@.slot
            &&& after.state == before.state
            &&& after.reader == before.reader
            &&& after.writer == if old(ex)@.slot is Some {
                Some(old(cx).waker)
            } else {
                before.writer
            }
            &&& result is Pending <==> old(ex)@.slot is Some
            &&& result == Poll::Ready(Err::<(), IoError>(IoError::BrokenPipe)) <==> before.state
                == ExchangeState::Dropped
            &&& result == Poll::Ready(Err::<(), IoError>(IoError::InvalidState)) <==> before.state
                == ExchangeState::Done
            &&& result is Ready && before.state != ExchangeState::Dropped && before.state
                != ExchangeState::Done ==> result == Poll::Ready(Ok::<(), IoError>(()))
        }),
{
}

/// A send is answered as a poll for readiness is: where that says the slot is free the
/// item goes in, whole, and a reader that waits is woken; where it does not, the writer
/// keeps the item.  A send of nothing does nothing.
pub proof fn law_send_goes_where_there_is_room<ITEM>(
    ex: &mut IoExchange<ITEM>,
    cx: &mut Context,
    item: &mut Option<ITEM>,
    result: Poll<Result<(), IoError>>,
    asked: &mut IoExchange<ITEM>,
    asked_cx: &mut Context,
    ready: Poll<Result<(), IoError>>,
)
    requires
        old(ex).wf(),
        call_ensures(<IoExchange<ITEM> as IoSink<ITEM>>::prod_poll_send, (ex, cx, item), result),
        *asked == *old(ex),
        *asked_cx == *old(cx),
        call_ensures(
            <IoExchange<ITEM> as IoSink<ITEM>>::prod_poll_ready,
            (asked, asked_cx),
            ready,
        ),
    ensures
        final(cx).waker == old(cx).waker,
        *old(item) is None ==> {
            &&& result == Poll::Ready(Ok::<(), IoError>(()))
            &&& *final(item) is None
            &&& final(ex)@ == old(ex)@
            &&& final(cx).woken@ == old(cx).woken@
        },
        *old(item) is Some ==> result == ready,
        *old(item) is Some && ready == Poll::Ready(Ok::<(), IoError>(())) ==> {
            &&& old(ex)@.slot is None
            &&& *final(item) is None
            &&& final(ex)@.slot == *old(item)
            &&& final(ex)@.handshake.state == ExchangeState::Full
            &&& final(ex)@.handshake.reader is None
            &&& final(ex)@.handshake.writer == old(ex)@.handshake.writer
            &&& final(cx).woken@ == old(cx).woken@ + crate::waker_ref::wakes_of(
                old(ex)@.handshake.reader,
            )
        },
        *old(item) is Some && ready != Poll::Ready(Ok::<(), IoError>(())) ==> {
            &&& *final(item) == *old(item)
            &&& final(ex)@ == final(asked)@
            &&& final(cx).woken@ == old(cx).woken@
        },
{
}

/// A flush is complete only where the reader has found the slot empty since it was
/// filled last, or nothing moves any more; until then the writer waits, and the
/// reader is told once that a flush is asked for.  A flush moves no item.
pub proof fn law_flush_waits_for_the_reader<ITEM>(
    ex: &mut IoExchange<ITEM>,
    cx: &mut Context,
    result: Poll<Result<(), IoError>>,
)
    requires
        old(ex).wf(),
        call_ensures(<IoExchange<ITEM> as IoSink<ITEM>>::prod_poll_flush, (ex, cx), result),
    ensures
        ({
            let before = old(ex)@.handshake;
            let after = final(ex)@.handshake;
            let complete = before.state == ExchangeState::EmptyFlushed || before.state
                == ExchangeState::Done || before.state == ExchangeState::Dropped;
            let first = before.state == ExchangeState::Empty || before.state
                == ExchangeState::Full;
            &&& final(cx).waker == old(cx).waker
            &&& final(ex)@.slot == old(ex)@.slot
            &&& complete ==> result == Poll::Ready(Ok::<(), IoError>(()))
            &&& !complete ==> result is Pending
            &&& after.writer == if complete {
                before.writer
            } else {
                Some(old(cx).waker)
            }
            &&& after.reader == if first {
                None
            } else {
                before.reader
            }
            &&& final(cx).woken@ == old(cx).woken@ + if first {
                crate::waker_ref::wakes_of(before.reader)
            } else {
                Seq::empty()
            }
            &&& before.state == ExchangeState::Empty ==> after.state == ExchangeState::EmptyFlush
            &&& before.state == ExchangeState::Full ==> after.state == ExchangeState::FullFlush
            &&& !first ==> after.state == before.state
        }),
{
}

/// A close is complete where no item is in flight; otherwise the writer waits until the
/// reader has taken it.  Either way a reader that waits is told once, and the item is
/// not lost.
pub proof fn law_close_waits_for_the_item<ITEM>(
    ex: &mut IoExchange<ITEM>,
    cx: &mut Context,
    result: Poll<Result<(), IoError>>,
)
    requires
        old(ex).wf(),
        call_ensures(<IoExchange<ITEM> as IoSink<ITEM>>::prod_poll_close, (ex, cx), result),
    ensures
        ({
            let before = old(ex)@.handshake;
            let after = final(ex)@.handshake;
            let over = before.state == ExchangeState::Done || before.state
                == ExchangeState::Dropped;
            let asked = before.state == ExchangeState::FullClosed;
            &&& final(cx).waker == old(cx).waker
            &&& final(ex)@.slot == old(ex)@.slot
            &&& old(ex)@.slot is None ==> result == Poll::Ready(Ok::<(), IoError>(()))
            &&& old(ex)@.slot is Some ==> result is Pending
            &&& old(ex)@.slot is Some ==> after.state == ExchangeState::FullClosed
            &&& old(ex)@.slot is None && !over ==> after.state == ExchangeState::Done
            &&& over ==> after == before
            &&& after.writer == if old(ex)@.slot is Some {
                Some(old(cx).waker)
            } else {
                before.writer
            }
            &&& after.reader == if over || asked {
                before.reader
            } else {
                None
            }
            &&& final(cx).woken@ == old(cx).woken@ + if over || asked {
                Seq::empty()
            } else {
                crate::waker_ref::wakes_of(before.reader)
            }
        }),
{
}

/// A reader that gives up takes the item in flight with it, and the writer, if it waits,
/// is told; where the exchange is over already, nothing changes.
pub proof fn law_drop_tells_the_writer<ITEM>(ex: &mut IoExchange<ITEM>, woken: &mut WakeQueue)
    requires
        old(ex).wf(),
        call_ensures(<IoExchange<ITEM> as IoStream>::drop_read, (ex, woken), ()),
    ensures
        ({
            let before = old(ex)@.handshake;
            let after = final(ex)@.handshake;
            let over = before.state == ExchangeState::Done || before.state
                == ExchangeState::Dropped;
            &&& final(ex)@.slot is None
            &&& over ==> after == before && final(woken)@ == old(woken)@
            &&& !over ==> {
                &&& after.state == ExchangeState::Dropped
                &&& after.reader == before.reader
                &&& after.writer is None
                &&& final(woken)@ == old(woken)@ + crate::waker_ref::wakes_of(before.writer)
            }
        }),
{
}

/// A reset leaves an exchange as a new one is, and both sides are told if they wait.
pub proof fn law_reset_starts_over<ITEM>(
    ex: &mut IoExchange<ITEM>,
    woken: &mut WakeQueue,
    new: IoExchange<ITEM>,
)
    requires
        call_ensures(IoExchange::<ITEM>::reset, (ex, woken), ()),
        call_ensures(IoExchange::<ITEM>::new, (), new),
    ensures
        final(ex)@ == new@,
        new@.slot is None,
        new@.handshake.state == ExchangeState::Empty,
        new@.handshake.reader is None,
        new@.handshake.writer is None,
        final(woken)@ == old(woken)@ + crate::waker_ref::wakes_of(old(ex)@.handshake.reader)
            + crate::waker_ref::wakes_of(old(ex)@.handshake.writer),
{
}

/// A look at an exchange tells its state.
pub proof fn law_exchange_can_be_read<ITEM>(ex: &IoExchange<ITEM>, state: ExchangeState)
    requires
        call_ensures(IoExchange::<ITEM>::state, (ex,), state),
    ensures
        state == ex@.handshake.state,
{
}

} // verus!
