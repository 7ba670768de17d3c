//! The state machine behind the single-slot exchanges.
//!
//! ```text
//!   Empty ──send──► Full ──read──► Empty  (normal cycle)
//!
//!   Empty ──flush──► EmptyFlush ──reader sees──► EmptyFlushed
//!   Full  ──flush──► FullFlush  ──read──► EmptyFlush ──reader sees──► EmptyFlushed
//!
//!   Empty* ──close──► Done
//!   Full*  ──close──► FullClosed ──read──► Done
//!
//!   (any but Done)  ──drop_read──► Dropped
//! ```
//!
//! "reader sees" means that the reader polled and observed the empty slot, which
//! proves it has consumed everything sent so far.

use vstd::prelude::*;

use crate::task::{Context, WakeQueue, Waker};
use crate::waker_ref::WakerRef;

verus! {

/// Where an exchange is in its lifecycle.
#[derive(Debug, Clone, Copy, PartialEq, Eq, Structural)]
pub enum ExchangeState {
    /// Slot is empty, no flush requested.
    Empty,
    /// Slot is empty, writer has requested a flush but the reader hasn't
    /// acknowledged yet.
    EmptyFlush,
    /// Slot is empty and the reader has acknowledged the flush (observed the
    /// empty slot after the flush request).
    EmptyFlushed,
    /// Slot is occupied, no flush/close pending.
    Full,
    /// Slot is occupied and a flush has been requested.
    FullFlush,
    /// Slot holds the final load; after the reader takes it the stream ends.
    FullClosed,
    /// Stream is finished — the reader will see the end from now on.
    Done,
    /// The reader has been dropped; further writes will error.
    Dropped,
}

impl ExchangeState {
    /// The slot is free to take what the writer sends.
    pub open spec fn is_empty(self) -> bool {
        self == ExchangeState::Empty || self == ExchangeState::EmptyFlush || self
            == ExchangeState::EmptyFlushed
    }

    /// The slot holds what the writer sent last.
    pub open spec fn is_full(self) -> bool {
        self == ExchangeState::Full || self == ExchangeState::FullFlush || self
            == ExchangeState::FullClosed
    }

    /// Nothing moves through the exchange any more.
    pub open spec fn is_terminal(self) -> bool {
        self == ExchangeState::Done || self == ExchangeState::Dropped
    }

    /// The state once the reader has taken everything out of a full slot.
    pub open spec fn emptied(self) -> ExchangeState {
        match self {
            ExchangeState::Full => ExchangeState::Empty,
            ExchangeState::FullFlush => ExchangeState::EmptyFlush,
            ExchangeState::FullClosed => ExchangeState::Done,
            _ => self,
        }
    }

    /// The state once the writer has asked for a flush.
    pub open spec fn flushing(self) -> ExchangeState {
        match self {
            ExchangeState::Empty => ExchangeState::EmptyFlush,
            ExchangeState::Full => ExchangeState::FullFlush,
            _ => self,
        }
    }

    /// The state once the writer has asked to close.
    pub open spec fn closing(self) -> ExchangeState {
        if self.is_empty() {
            ExchangeState::Done
        } else if self.is_full() {
            ExchangeState::FullClosed
        } else {
            self
        }
    }

    /// A flush that has got this far is complete.
    pub open spec fn is_flushed(self) -> bool {
        self == ExchangeState::EmptyFlushed || self.is_terminal()
    }
}

/// What both exchanges have in common: the state, and the two waiting tasks.
#[verifier::ext_equal]
pub struct HandshakeModel {
    /// Where the exchange is in its lifecycle.
    pub state: ExchangeState,
    /// The reading task, if it waits.
    pub reader: Option<Waker>,
    /// The writing task, if it waits.
    pub writer: Option<Waker>,
}

/// What a poll does: the state that it leaves, and the wake-ups that it asks for.
#[verifier::ext_equal]
pub struct Step<S> {
    /// The state after the poll.
    pub after: S,
    /// The wake-ups that the poll asks for, in that order.
    pub woken: Seq<Waker>,
}

impl HandshakeModel {
    /// The reader looks at a slot that is empty: it waits, and an empty slot that
    /// had not been seen before is reported to the writer.
    pub open spec fn observe_empty(self, waker: Waker) -> Step<HandshakeModel> {
        if self.state == ExchangeState::EmptyFlushed {
            Step {
                after: HandshakeModel { reader: Some(waker), ..self },
                woken: Seq::empty(),
            }
        } else {
            Step {
                after: HandshakeModel {
                    state: ExchangeState::EmptyFlushed,
                    reader: Some(waker),
                    writer: None,
                },
                woken: crate::waker_ref::wakes_of(self.writer),
            }
        }
    }

    /// The reader takes something out of a full slot, and all of it if `all`.
    pub open spec fn take(self, waker: Waker, all: bool) -> Step<HandshakeModel> {
        Step {
            after: HandshakeModel {
                state: if all {
                    self.state.emptied()
                } else {
                    self.state
                },
                reader: self.reader,
                writer: None,
            },
            woken: crate::waker_ref::wakes_of(self.writer) + seq![waker],
        }
    }

    /// The writer fills an empty slot.
    pub open spec fn fill(self) -> Step<HandshakeModel> {
        Step {
            after: HandshakeModel {
                state: ExchangeState::Full,
                reader: None,
                writer: self.writer,
            },
            woken: crate::waker_ref::wakes_of(self.reader),
        }
    }

    /// The writer waits for the reader to make progress.
    pub open spec fn wait_for_reader(self, waker: Waker) -> Step<HandshakeModel> {
        Step {
            after: HandshakeModel { writer: Some(waker), ..self },
            woken: Seq::empty(),
        }
    }

    /// The writer polls for a flush.
    pub open spec fn flush(self, waker: Waker) -> Step<HandshakeModel> {
        if self.state.is_flushed() {
            Step { after: self, woken: Seq::empty() }
        } else if self.state == self.state.flushing() {
            self.wait_for_reader(waker)
        } else {
            Step {
                after: HandshakeModel {
                    state: self.state.flushing(),
                    reader: None,
                    writer: Some(waker),
                },
                woken: crate::waker_ref::wakes_of(self.reader),
            }
        }
    }

    /// The writer polls for the exchange to close.
    pub open spec fn close(self, waker: Waker) -> Step<HandshakeModel> {
        if self.state.is_terminal() {
            Step { after: self, woken: Seq::empty() }
        } else if self.state == ExchangeState::FullClosed {
            self.wait_for_reader(waker)
        } else {
            Step {
                after: HandshakeModel {
                    state: self.state.closing(),
                    reader: None,
                    writer: if self.state.is_empty() {
                        self.writer
                    } else {
                        Some(waker)
                    },
                },
                woken: crate::waker_ref::wakes_of(self.reader),
            }
        }
    }

    /// The reader gives up.
    pub open spec fn drop_read(self) -> Step<HandshakeModel> {
        if self.state.is_terminal() {
            Step { after: self, woken: Seq::empty() }
        } else {
            Step {
                after: HandshakeModel {
                    state: ExchangeState::Dropped,
                    reader: self.reader,
                    writer: None,
                },
                woken: crate::waker_ref::wakes_of(self.writer),
            }
        }
    }

    /// The exchange starts over.
    pub open spec fn reset(self) -> Step<HandshakeModel> {
        Step {
            after: HandshakeModel { state: ExchangeState::Empty, reader: None, writer: None },
            woken: crate::waker_ref::wakes_of(self.reader) + crate::waker_ref::wakes_of(
                self.writer,
            ),
        }
    }
}

/// The state of an exchange and the wakers of both sides.
#[derive(Debug)]
pub(crate) struct Handshake {
    // Governs the exchange lifecycle.
    state: ExchangeState,
    // Waker for the reader side, notified when the slot is filled or the stream is closed.
    reader: WakerRef,
    // Waker for the writer side, notified when the reader frees the slot or drops.
    writer: WakerRef,
}

impl View for Handshake {
    type V = HandshakeModel;

    closed spec fn view(&self) -> HandshakeModel {
        HandshakeModel { state: self.state, reader: self.reader@, writer: self.writer@ }
    }
}

impl Handshake {
    /// Creates the state of a new, empty exchange.
    pub(crate) fn new() -> (hs: Handshake)
        ensures
            hs@ == (HandshakeModel { state: ExchangeState::Empty, reader: None, writer: None }),
    {
        Handshake { state: ExchangeState::Empty, reader: WakerRef::new(), writer: WakerRef::new() }
    }

    /// Returns where the exchange is in its lifecycle.
    pub(crate) fn state(&self) -> (state: ExchangeState)
        ensures
            state == self@.state,
    {
        self.state
    }

    /// Starts over and wakes both sides.
    pub(crate) fn reset(&mut self, woken: &mut WakeQueue)
        ensures
            final(self)@ == old(self)@.reset().after,
            final(woken)@ == old(woken)@ + old(self)@.reset().woken,
    {
        self.state = ExchangeState::Empty;
        self.reader.wake(woken);
        self.writer.wake(woken);
        assert(woken@ =~= old(woken)@ + old(self)@.reset().woken);
    }

    /// The reader waits in front of an empty slot, which acknowledges any pending
    /// flush.
    pub(crate) fn observe_empty(&mut self, cx: &mut Context)
        requires
            old(self)@.state.is_empty(),
        ensures
            final(self)@ == old(self)@.observe_empty(old(cx).waker).after,
            old(cx).woke(*final(cx), old(self)@.observe_empty(old(cx).waker).woken),
    {
        self.reader.register(&cx.waker);
        match self.state {
            ExchangeState::EmptyFlushed => {
                assert(cx.woken@ =~= old(cx).woken@ + Seq::<Waker>::empty());
            },
            _ => {
                self.state = ExchangeState::EmptyFlushed;
                self.writer.wake(&mut cx.woken);
            },
        }
    }

    /// The reader has taken something out of the slot, and all of it if `all`.
    /// The writer is woken, and the reader is pre-woken to keep it scheduled to
    /// drain more.
    pub(crate) fn take(&mut self, cx: &mut Context, all: bool)
        requires
            old(self)@.state.is_full(),
        ensures
            final(self)@ == old(self)@.take(old(cx).waker, all).after,
            old(cx).woke(*final(cx), old(self)@.take(old(cx).waker, all).woken),
    {
        if all {
            self.state = match self.state {
                ExchangeState::Full => ExchangeState::Empty,
                ExchangeState::FullFlush => ExchangeState::EmptyFlush,
                ExchangeState::FullClosed => ExchangeState::Done,
                other => other,
            };
        }
        self.writer.wake(&mut cx.woken);
        cx.wake_by_ref();
        assert(cx.woken@ =~= old(cx).woken@ + old(self)@.take(old(cx).waker, all).woken);
    }

    /// The writer has filled the slot.
    pub(crate) fn fill(&mut self, cx: &mut Context)
        requires
            old(self)@.state.is_empty(),
        ensures
            final(self)@ == old(self)@.fill().after,
            old(cx).woke(*final(cx), old(self)@.fill().woken),
    {
        self.state = ExchangeState::Full;
        self.reader.wake(&mut cx.woken);
    }

    /// The writer waits for the reader to make progress.
    pub(crate) fn wait_for_reader(&mut self, cx: &mut Context)
        ensures
            final(self)@ == old(self)@.wait_for_reader(old(cx).waker).after,
            old(cx).woke(*final(cx), old(self)@.wait_for_reader(old(cx).waker).woken),
    {
        self.writer.register(&cx.waker);
        assert(cx.woken@ =~= old(cx).woken@ + Seq::<Waker>::empty());
    }

    /// Requests that the reader acknowledge everything sent so far.  Returns
    /// `true` once it has, or once nothing is left to flush.
    ///
    /// Flush is a two-phase handshake:
    /// 1. Writer transitions to a `*Flush` state and wakes the reader.
    /// 2. Reader observes the empty slot and transitions to `EmptyFlushed`.
    /// 3. Writer sees `EmptyFlushed` and is done.
    pub(crate) fn flush(&mut self, cx: &mut Context) -> (flushed: bool)
        ensures
            flushed == old(self)@.state.is_flushed(),
            final(self)@ == old(self)@.flush(old(cx).waker).after,
            old(cx).woke(*final(cx), old(self)@.flush(old(cx).waker).woken),
    {
        let flushed: bool = match self.state {
            // A flush or close is already in progress — wait for reader progress.
            ExchangeState::EmptyFlush | ExchangeState::FullFlush | ExchangeState::FullClosed => {
                self.writer.register(&cx.waker);
                false
            },
            // Slot is empty — request a flush.
            ExchangeState::Empty => {
                self.writer.register(&cx.waker);
                self.state = ExchangeState::EmptyFlush;
                self.reader.wake(&mut cx.woken);
                false
            },
            // Load still in flight — mark as flush-pending.
            ExchangeState::Full => {
                self.writer.register(&cx.waker);
                self.state = ExchangeState::FullFlush;
                self.reader.wake(&mut cx.woken);
                false
            },
            // Reader has acknowledged the flush, or nothing is left to flush.
            ExchangeState::EmptyFlushed | ExchangeState::Done | ExchangeState::Dropped => true,
        };
        assert(cx.woken@ =~= old(cx).woken@ + old(self)@.flush(old(cx).waker).woken);
        flushed
    }

    /// Signals that nothing more will be sent.  Returns `true` once the exchange
    /// is finished.
    ///
    /// If the slot is empty, transitions directly to `Done`. If a load is
    /// still in flight, transitions to `FullClosed` so the reader gets the
    /// last load before seeing end-of-stream.
    pub(crate) fn close(&mut self, cx: &mut Context) -> (closed: bool)
        ensures
            closed == (old(self)@.state.is_empty() || old(self)@.state.is_terminal()),
            final(self)@ == old(self)@.close(old(cx).waker).after,
            old(cx).woke(*final(cx), old(self)@.close(old(cx).waker).woken),
    {
        let closed: bool = match self.state {
            // Empty (any sub-state) — go straight to Done.
            ExchangeState::Empty | ExchangeState::EmptyFlush | ExchangeState::EmptyFlushed => {
                self.state = ExchangeState::Done;
                self.reader.wake(&mut cx.woken);
                true
            },
            // Load in flight — mark as "last load, then close".
            ExchangeState::Full | ExchangeState::FullFlush => {
                self.writer.register(&cx.waker);
                self.state = ExchangeState::FullClosed;
                self.reader.wake(&mut cx.woken);
                false
            },
            // Already waiting for the reader to take the last load.
            ExchangeState::FullClosed => {
                self.writer.register(&cx.waker);
                false
            },
            // Already finished.
            ExchangeState::Done | ExchangeState::Dropped => true,
        };
        assert(cx.woken@ =~= old(cx).woken@ + old(self)@.close(old(cx).waker).woken);
        closed
    }

    /// The reader gives up.  Returns `true` if it was not too late for that.
    pub(crate) fn drop_read(&mut self, woken: &mut WakeQueue) -> (dropped: bool)
        ensures
            dropped == !old(self)@.state.is_terminal(),
            final(self)@ == old(self)@.drop_read().after,
            final(woken)@ == old(woken)@ + old(self)@.drop_read().woken,
    {
        let dropped: bool = match self.state {
            ExchangeState::Dropped | ExchangeState::Done => false,
            _ => {
                self.state = ExchangeState::Dropped;
                self.writer.wake(woken);
                true
            },
        };
        assert(woken@ =~= old(woken)@ + old(self)@.drop_read().woken);
        dropped
    }
}

/// Only a reader that looks at an empty slot completes a flush: nothing that the
/// writer does, and no taking of a load, leads to a flushed slot.
pub proof fn law_only_the_reader_acknowledges(hs: HandshakeModel, waker: Waker, all: bool)
    requires
        hs.state != ExchangeState::EmptyFlushed,
    ensures
        hs.flush(waker).after.state != ExchangeState::EmptyFlushed,
        hs.close(waker).after.state != ExchangeState::EmptyFlushed,
        hs.fill().after.state != ExchangeState::EmptyFlushed,
        hs.wait_for_reader(waker).after.state != ExchangeState::EmptyFlushed,
        hs.drop_read().after.state != ExchangeState::EmptyFlushed,
        hs.state.is_full() ==> hs.take(waker, all).after.state != ExchangeState::EmptyFlushed,
        hs.state.is_empty() ==> hs.observe_empty(waker).after.state == ExchangeState::EmptyFlushed,
{
}

/// A flush that was asked for is not forgotten: it survives further polls for it
/// and the taking of the load, until the reader acknowledges it.
pub proof fn law_flush_request_is_kept(hs: HandshakeModel, writer: Waker, reader: Waker)
    requires
        hs.state == ExchangeState::Empty || hs.state == ExchangeState::Full,
    ensures
        ({
            let asked = hs.flush(writer).after;
            &&& !asked.state.is_flushed()
            &&& asked.flush(writer).after.state == asked.state
            &&& hs.state == ExchangeState::Empty ==> asked.observe_empty(
                reader,
            ).after.state.is_flushed()
            &&& hs.state == ExchangeState::Full ==> {
                let taken = asked.take(reader, true).after;
                !taken.state.is_flushed() && taken.observe_empty(reader).after.state.is_flushed()
            }
        }),
{
}

/// Closing is final: a close leads to the end once the load in flight, if any, is
/// taken, and nothing but a reset leads away from the end.
pub proof fn law_close_is_final(hs: HandshakeModel, waker: Waker)
    ensures
        hs.state.is_empty() ==> hs.close(waker).after.state == ExchangeState::Done,
        hs.state.is_full() ==> hs.close(waker).after.take(waker, true).after.state
            == ExchangeState::Done,
        hs.state.is_terminal() ==> {
            &&& hs.close(waker).after == hs
            &&& hs.flush(waker).after == hs
            &&& hs.drop_read().after == hs
        },
{
}

/// A writer that waits is woken by whatever the reader does next: taking a load or
/// part of it, seeing that the slot is empty for the first time, or giving up.
pub proof fn law_waiting_writer_is_woken(hs: HandshakeModel, writer: Waker, reader: Waker, all: bool)
    requires
        hs.writer == Some(writer),
    ensures
        hs.state.is_full() ==> hs.take(reader, all).woken.contains(writer),
        hs.state == ExchangeState::Empty || hs.state == ExchangeState::EmptyFlush
            ==> hs.observe_empty(reader).woken.contains(writer),
        !hs.state.is_terminal() ==> hs.drop_read().woken.contains(writer),
        hs.reset().woken.contains(writer),
{
    assert(hs.take(reader, all).woken[0] == writer);
    assert(crate::waker_ref::wakes_of(hs.writer)[0] == writer);
    assert(hs.reset().woken.last() == writer);
}

/// A reader that waits is woken by whatever the writer does next: filling the
/// slot, asking for a flush that was not asked for before, or closing what was not
/// closed before.
pub proof fn law_waiting_reader_is_woken(hs: HandshakeModel, reader: Waker, writer: Waker)
    requires
        hs.reader == Some(reader),
    ensures
        hs.fill().woken.contains(reader),
        hs.state == ExchangeState::Empty || hs.state == ExchangeState::Full ==> hs.flush(
            writer,
        ).woken.contains(reader),
        !hs.state.is_terminal() && hs.state != ExchangeState::FullClosed ==> hs.close(
            writer,
        ).woken.contains(reader),
        hs.reset().woken.contains(reader),
{
    assert(crate::waker_ref::wakes_of(hs.reader)[0] == reader);
    assert(hs.reset().woken[0] == reader);
}

} // verus!
