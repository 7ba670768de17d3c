//! Connectable wrappers that defer attaching a downstream IO object until runtime.
//!
//! A connectable wrapper starts out in a *disconnected* state: its IO methods
//! return [`Poll::Pending`] and register the caller's waker. Once an inner IO
//! object is provided via `connect`, the registered waker (if any) is woken
//! and all subsequent calls delegate to that inner object.

use core::marker::PhantomData;

use bytes::Bytes;

use vstd::prelude::*;

use crate::io_reader::IoReader;
use crate::io_sink::IoSink;
use crate::io_stream::IoStream;
use crate::io_writer::IoWriter;
use crate::task::{Context, Poll, WakeQueue, Waker};
use crate::waker_ref::WakerRef;

verus! {

#[derive(Debug)]
enum ConnectableState<T> {
    Disconnected(WakerRef),
    Connected(T),
}

/// What there is to know about a connectable wrapper.
#[verifier::ext_equal]
pub struct ConnectableModel<T> {
    /// The inner object, if the wrapper is connected.
    pub connected: Option<T>,
    /// The task that waits for a connection.
    pub waker: Option<Waker>,
    /// The consumer gave up before the wrapper was connected.
    pub drop_pending: bool,
}

impl<T> ConnectableModel<T> {
    /// A wrapper that is not connected, and that nobody waits for.
    pub open spec fn fresh() -> ConnectableModel<T> {
        ConnectableModel { connected: None, waker: None, drop_pending: false }
    }

    /// The wrapper once `inner` is connected to it, in place of what was there.
    pub open spec fn connecting(self, inner: T) -> ConnectableModel<T> {
        ConnectableModel { connected: Some(inner), waker: None, drop_pending: false }
    }

    /// The wrapper once it is disconnected.  Who waits for a connection goes on
    /// waiting.
    pub open spec fn resetting(self) -> ConnectableModel<T> {
        ConnectableModel { connected: None, drop_pending: false, ..self }
    }

    /// The wrapper once `waker`'s task waits for a connection.
    pub open spec fn waiting(self, waker: Waker) -> ConnectableModel<T> {
        ConnectableModel { waker: Some(waker), ..self }
    }

    /// `after` is the same wrapper, but for the inner object.
    pub open spec fn same_wrapper(self, after: ConnectableModel<T>) -> bool {
        &&& after.connected is Some
        &&& after == (ConnectableModel { connected: after.connected, ..self })
    }
}

impl<T> ConnectableState<T> {
    spec fn model(&self, drop_pending: bool) -> ConnectableModel<T> {
        match self {
            ConnectableState::Disconnected(waker) => ConnectableModel {
                connected: None,
                waker: waker@,
                drop_pending,
            },
            ConnectableState::Connected(inner) => ConnectableModel {
                connected: Some(*inner),
                waker: None,
                drop_pending,
            },
        }
    }

    fn new() -> (state: ConnectableState<T>)
        ensures
            state.model(false) == ConnectableModel::<T>::fresh(),
    {
        ConnectableState::Disconnected(WakerRef::new())
    }

    /// Replaces the state by a connection to `inner`, and wakes the task that
    /// waited for one, so that it re-polls and observes the new state.
    fn connect(&mut self, inner: T, woken: &mut WakeQueue)
        ensures
            final(self).model(false) == old(self).model(false).connecting(inner),
            final(woken)@ == old(woken)@ + crate::waker_ref::wakes_of(old(self).model(false).waker),
    {
        if let ConnectableState::Disconnected(waker) = self {
            waker.wake(woken);
        }
        *self = ConnectableState::Connected(inner);
        assert(woken@ =~= old(woken)@ + crate::waker_ref::wakes_of(old(self).model(false).waker));
    }

    fn reset(&mut self)
        ensures
            final(self).model(false) == old(self).model(false).resetting(),
    {
        if let ConnectableState::Connected(_) = self {
            *self = ConnectableState::Disconnected(WakerRef::new());
        }
    }

    /// Gives the state up: the task that waits for a connection is woken, and the
    /// inner object, if any, is handed back.
    fn release(self, woken: &mut WakeQueue) -> (connected: Option<T>)
        ensures
            connected == self.model(false).connected,
            final(woken)@ == old(woken)@ + crate::waker_ref::wakes_of(self.model(false).waker),
    {
        let ghost waker = self.model(false).waker;
        let connected = match self {
            ConnectableState::Disconnected(mut waiting) => {
                waiting.wake(woken);
                None
            },
            ConnectableState::Connected(inner) => Some(inner),
        };
        assert(woken@ =~= old(woken)@ + crate::waker_ref::wakes_of(waker));
        connected
    }
}

/// `out` is `result`, with its error, if any, converted into another type.
pub open spec fn converted<R, E0: Into<E>, E>(
    result: Poll<Result<R, E0>>,
    out: Poll<Result<R, E>>,
) -> bool {
    match result {
        Poll::Pending => out is Pending,
        Poll::Ready(Ok(value)) => out == Poll::Ready(Ok::<R, E>(value)),
        Poll::Ready(Err(err)) => {
            &&& out matches Poll::Ready(Err(other))
            &&& call_ensures(E0::into, (err,), other)
        },
    }
}

/// Converts the error of a poll result, if there is one.
fn convert_error<R, E0: Into<E>, E>(result: Poll<Result<R, E0>>) -> (out: Poll<Result<R, E>>)
    ensures
        converted(result, out),
{
    match result {
        Poll::Pending => Poll::Pending,
        Poll::Ready(Ok(value)) => Poll::Ready(Ok(value)),
        Poll::Ready(Err(err)) => Poll::Ready(Err(err.into())),
    }
}

/// A connectable [`IoSink`] adapter.
///
/// Starts out disconnected: every `prod_poll_*` call returns [`Poll::Pending`]
/// after registering the caller's waker, a send of nothing too. When
/// [`connect`](Self::connect) is called with an inner sink, the registered waker (if any) is woken and all
/// subsequent calls delegate to the inner sink.
///
/// [`reset`](Self::reset) returns the wrapper to the disconnected state and
/// drops the inner sink.
#[derive(Debug)]
pub struct ConnectableIoSink<T, E> {
    state: ConnectableState<T>,
    error: PhantomData<E>,
}

impl<T, E> View for ConnectableIoSink<T, E> {
    type V = ConnectableModel<T>;

    closed spec fn view(&self) -> ConnectableModel<T> {
        self.state.model(false)
    }
}

impl<T, E> Default for ConnectableIoSink<T, E> {
    fn default() -> (wrapper: ConnectableIoSink<T, E>)
        ensures
            wrapper@ == ConnectableModel::<T>::fresh(),
    {
        ConnectableIoSink::new()
    }
}

impl<T, E> ConnectableIoSink<T, E> {
    /// Creates a new `ConnectableIoSink` in the disconnected state.
    pub fn new() -> (wrapper: ConnectableIoSink<T, E>)
        ensures
            wrapper@ == ConnectableModel::<T>::fresh(),
    {
        ConnectableIoSink { state: ConnectableState::new(), error: PhantomData }
    }

    /// Resets the `ConnectableIoSink` to its initial disconnected state, dropping
    /// the previously connected inner sink, if any.
    ///
    /// If there are any tasks waiting on the inner sink, they will only be woken
    /// if dropping the inner sink wakes them. If the wrapper is already in
    /// the disconnected state any already-registered waker is preserved.
    pub fn reset(&mut self)
        ensures
            final(self)@ == old(self)@.resetting(),
    {
        self.state.reset();
    }

    /// Connects the wrapper to `sink`.
    ///
    /// Replaces any previous state. If the wrapper was disconnected with a
    /// registered waker, that waker is woken so the waiting task re-polls and
    /// observes the now-connected inner sink.
    pub fn connect(&mut self, sink: T, woken: &mut WakeQueue)
        ensures
            final(self)@ == old(self)@.connecting(sink),
            final(woken)@ == old(woken)@ + crate::waker_ref::wakes_of(old(self)@.waker),
    {
        self.state.connect(sink, woken);
    }

    /// Gives the wrapper up: the task that waits for a connection is woken, and the
    /// inner sink, if any, is handed back.
    pub fn release(self, woken: &mut WakeQueue) -> (connected: Option<T>)
        ensures
            connected == self@.connected,
            final(woken)@ == old(woken)@ + crate::waker_ref::wakes_of(self@.waker),
    {
        self.state.release(woken)
    }
}

impl<T, I, E> IoSink<I> for ConnectableIoSink<T, E> where T: IoSink<I>, T::Error: Into<E> {
    type Error = E;

    open spec fn sink_wf(&self) -> bool {
        self@.connected matches Some(inner) ==> inner.sink_wf()
    }

    open spec fn readies(
        &self,
        cx: Context,
        after: Self,
        after_cx: Context,
        result: Poll<Result<(), E>>,
    ) -> bool {
        match self@.connected {
            Some(inner) => {
                &&& self@.same_wrapper(after@)
                &&& exists|inner_result: Poll<Result<(), T::Error>>|
                    {
                        &&& #[trigger] inner.readies(
                            cx,
                            after@.connected->0,
                            after_cx,
                            inner_result,
                        )
                        &&& converted(inner_result, result)
                    }
            },
            None => {
                &&& result is Pending
                &&& after@ == self@.waiting(cx.waker)
                &&& after_cx == cx
            },
        }
    }

    open spec fn sends(
        &self,
        cx: Context,
        item: Option<I>,
        after: Self,
        after_cx: Context,
        left: Option<I>,
        result: Poll<Result<(), E>>,
    ) -> bool {
        match self@.connected {
            Some(inner) => {
                &&& self@.same_wrapper(after@)
                &&& exists|inner_result: Poll<Result<(), T::Error>>|
                    {
                        &&& #[trigger] inner.sends(
                            cx,
                            item,
                            after@.connected->0,
                            after_cx,
                            left,
                            inner_result,
                        )
                        &&& converted(inner_result, result)
                    }
            },
            None => {
                &&& result is Pending
                &&& left == item
                &&& after@ == self@.waiting(cx.waker)
                &&& after_cx == cx
            },
        }
    }

    open spec fn flushes(
        &self,
        cx: Context,
        after: Self,
        after_cx: Context,
        result: Poll<Result<(), E>>,
    ) -> bool {
        match self@.connected {
            Some(inner) => {
                &&& self@.same_wrapper(after@)
                &&& exists|inner_result: Poll<Result<(), T::Error>>|
                    {
                        &&& #[trigger] inner.flushes(
                            cx,
                            after@.connected->0,
                            after_cx,
                            inner_result,
                        )
                        &&& converted(inner_result, result)
                    }
            },
            None => {
                &&& result is Pending
                &&& after@ == self@.waiting(cx.waker)
                &&& after_cx == cx
            },
        }
    }

    open spec fn closes(
        &self,
        cx: Context,
        after: Self,
        after_cx: Context,
        result: Poll<Result<(), E>>,
    ) -> bool {
        match self@.connected {
            Some(inner) => {
                &&& self@.same_wrapper(after@)
                &&& exists|inner_result: Poll<Result<(), T::Error>>|
                    {
                        &&& #[trigger] inner.closes(
                            cx,
                            after@.connected->0,
                            after_cx,
                            inner_result,
                        )
                        &&& converted(inner_result, result)
                    }
            },
            None => {
                &&& result is Pending
                &&& after@ == self@.waiting(cx.waker)
                &&& after_cx == cx
            },
        }
    }

    fn prod_poll_ready(&mut self, cx: &mut Context) -> (result: Poll<Result<(), E>>) {
        match &mut self.state {
            ConnectableState::Disconnected(waker) => {
                waker.register(&cx.waker);
                Poll::Pending
            },
            ConnectableState::Connected(sink) => convert_error(sink.prod_poll_ready(cx)),
        }
    }

    fn prod_poll_send(&mut self, cx: &mut Context, item: &mut Option<I>) -> (result: Poll<
        Result<(), E>,
    >) {
        match &mut self.state {
            ConnectableState::Disconnected(waker) => {
                waker.register(&cx.waker);
                Poll::Pending
            },
            ConnectableState::Connected(sink) => convert_error(sink.prod_poll_send(cx, item)),
        }
    }

    fn prod_poll_flush(&mut self, cx: &mut Context) -> (result: Poll<Result<(), E>>) {
        match &mut self.state {
            ConnectableState::Disconnected(waker) => {
                waker.register(&cx.waker);
                Poll::Pending
            },
            ConnectableState::Connected(sink) => convert_error(sink.prod_poll_flush(cx)),
        }
    }

    fn prod_poll_close(&mut self, cx: &mut Context) -> (result: Poll<Result<(), E>>) {
        match &mut self.state {
            ConnectableState::Disconnected(waker) => {
                waker.register(&cx.waker);
                Poll::Pending
            },
            ConnectableState::Connected(sink) => convert_error(sink.prod_poll_close(cx)),
        }
    }
}

/// A connectable [`IoWriter`] adapter.
///
/// Starts out disconnected: every `prod_poll_*` call returns [`Poll::Pending`]
/// after registering the caller's waker, a write of nothing too. When
/// [`connect`](Self::connect) is called with an inner writer, the registered waker (if any) is woken and all
/// subsequent calls delegate to the inner writer.
///
/// [`reset`](Self::reset) returns the wrapper to the disconnected state and
/// drops the inner writer.
#[derive(Debug)]
pub struct ConnectableIoWriter<T, E> {
    state: ConnectableState<T>,
    error: PhantomData<E>,
}

impl<T, E> View for ConnectableIoWriter<T, E> {
    type V = ConnectableModel<T>;

    closed spec fn view(&self) -> ConnectableModel<T> {
        self.state.model(false)
    }
}

impl<T, E> Default for ConnectableIoWriter<T, E> {
    fn default() -> (wrapper: ConnectableIoWriter<T, E>)
        ensures
            wrapper@ == ConnectableModel::<T>::fresh(),
    {
        ConnectableIoWriter::new()
    }
}

impl<T, E> ConnectableIoWriter<T, E> {
    /// Creates a new `ConnectableIoWriter` in the disconnected state.
    pub fn new() -> (wrapper: ConnectableIoWriter<T, E>)
        ensures
            wrapper@ == ConnectableModel::<T>::fresh(),
    {
        ConnectableIoWriter { state: ConnectableState::new(), error: PhantomData }
    }

    /// Resets the `ConnectableIoWriter` to its initial disconnected state, dropping
    /// the previously connected inner writer, if any.
    ///
    /// If there are any tasks waiting on the inner writer, they will only be woken
    /// if dropping the inner writer wakes them. If the wrapper is already in
    /// the disconnected state any already-registered waker is preserved.
    pub fn reset(&mut self)
        ensures
            final(self)@ == old(self)@.resetting(),
    {
        self.state.reset();
    }

    /// Connects the wrapper to `writer`.
    ///
    /// Replaces any previous state. If the wrapper was disconnected with a
    /// registered waker, that waker is woken so the waiting task re-polls and
    /// observes the now-connected inner writer.
    pub fn connect(&mut self, writer: T, woken: &mut WakeQueue)
        ensures
            final(self)@ == old(self)@.connecting(writer),
            final(woken)@ == old(woken)@ + crate::waker_ref::wakes_of(old(self)@.waker),
    {
        self.state.connect(writer, woken);
    }

    /// Gives the wrapper up: the task that waits for a connection is woken, and the
    /// inner writer, if any, is handed back.
    pub fn release(self, woken: &mut WakeQueue) -> (connected: Option<T>)
        ensures
            connected == self@.connected,
            final(woken)@ == old(woken)@ + crate::waker_ref::wakes_of(self@.waker),
    {
        self.state.release(woken)
    }
}

impl<T, E> IoWriter for ConnectableIoWriter<T, E> where
    T: IoWriter,
    T::Error: Into<E>,
    E: Send,
 {
    type Error = E;

    open spec fn writer_wf(&self) -> bool {
        self@.connected matches Some(inner) ==> inner.writer_wf()
    }

    open spec fn writes(
        &self,
        cx: Context,
        bytes: Bytes,
        after: Self,
        after_cx: Context,
        left: Bytes,
        result: Poll<Result<usize, E>>,
    ) -> bool {
        match self@.connected {
            Some(inner) => {
                &&& self@.same_wrapper(after@)
                &&& exists|inner_result: Poll<Result<usize, T::Error>>|
                    {
                        &&& #[trigger] inner.writes(
                            cx,
                            bytes,
                            after@.connected->0,
                            after_cx,
                            left,
                            inner_result,
                        )
                        &&& converted(inner_result, result)
                    }
            },
            None => {
                &&& result is Pending
                &&& left == bytes
                &&& after@ == self@.waiting(cx.waker)
                &&& after_cx == cx
            },
        }
    }

    open spec fn flushes(
        &self,
        cx: Context,
        after: Self,
        after_cx: Context,
        result: Poll<Result<(), E>>,
    ) -> bool {
        match self@.connected {
            Some(inner) => {
                &&& self@.same_wrapper(after@)
                &&& exists|inner_result: Poll<Result<(), T::Error>>|
                    {
                        &&& #[trigger] inner.flushes(
                            cx,
                            after@.connected->0,
                            after_cx,
                            inner_result,
                        )
                        &&& converted(inner_result, result)
                    }
            },
            None => {
                &&& result is Pending
                &&& after@ == self@.waiting(cx.waker)
                &&& after_cx == cx
            },
        }
    }

    open spec fn closes(
        &self,
        cx: Context,
        after: Self,
        after_cx: Context,
        result: Poll<Result<(), E>>,
    ) -> bool {
        match self@.connected {
            Some(inner) => {
                &&& self@.same_wrapper(after@)
                &&& exists|inner_result: Poll<Result<(), T::Error>>|
                    {
                        &&& #[trigger] inner.closes(
                            cx,
                            after@.connected->0,
                            after_cx,
                            inner_result,
                        )
                        &&& converted(inner_result, result)
                    }
            },
            None => {
                &&& result is Pending
                &&& after@ == self@.waiting(cx.waker)
                &&& after_cx == cx
            },
        }
    }

    fn prod_poll_write(&mut self, cx: &mut Context, bytes: &mut Bytes) -> (result: Poll<
        Result<usize, E>,
    >) {
        match &mut self.state {
            ConnectableState::Disconnected(waker) => {
                waker.register(&cx.waker);
                Poll::Pending
            },
            ConnectableState::Connected(writer) => convert_error(writer.prod_poll_write(cx, bytes)),
        }
    }

    fn prod_poll_flush(&mut self, cx: &mut Context) -> (result: Poll<Result<(), E>>) {
        match &mut self.state {
            ConnectableState::Disconnected(waker) => {
                waker.register(&cx.waker);
                Poll::Pending
            },
            ConnectableState::Connected(writer) => convert_error(writer.prod_poll_flush(cx)),
        }
    }

    fn prod_poll_close(&mut self, cx: &mut Context) -> (result: Poll<Result<(), E>>) {
        match &mut self.state {
            ConnectableState::Disconnected(waker) => {
                waker.register(&cx.waker);
                Poll::Pending
            },
            ConnectableState::Connected(writer) => convert_error(writer.prod_poll_close(cx)),
        }
    }
}

/// A connectable [`IoStream`] adapter.
///
/// Starts out disconnected: [`con_poll_read`](IoStream::con_poll_read) returns [`Poll::Pending`]
/// after registering the caller's waker. When [`connect`](Self::connect) is
/// called with an inner stream, the registered waker (if any) is woken and all
/// subsequent calls delegate to the inner stream.
///
/// If [`drop_read`](IoStream::drop_read) is called, the wrapper transitions to
/// a *closed* state: subsequent [`con_poll_read`](IoStream::con_poll_read)
/// calls return the end-of-stream signal, and a later
/// [`connect`](Self::connect) will immediately call `drop_read` on the
/// supplied stream and discard it.
#[derive(Debug)]
pub struct ConnectableIoStream<T, E> {
    state: ConnectableState<T>,
    drop_pending: bool,
    error: PhantomData<E>,
}

impl<T, E> View for ConnectableIoStream<T, E> {
    type V = ConnectableModel<T>;

    closed spec fn view(&self) -> ConnectableModel<T> {
        self.state.model(self.drop_pending)
    }
}

impl<T, E> Default for ConnectableIoStream<T, E> {
    fn default() -> (wrapper: ConnectableIoStream<T, E>)
        ensures
            wrapper@ == ConnectableModel::<T>::fresh(),
    {
        ConnectableIoStream::new()
    }
}

impl<T, E> ConnectableIoStream<T, E> {
    /// Creates a new `ConnectableIoStream` in the disconnected state.
    pub fn new() -> (wrapper: ConnectableIoStream<T, E>)
        ensures
            wrapper@ == ConnectableModel::<T>::fresh(),
    {
        ConnectableIoStream { state: ConnectableState::new(), drop_pending: false, error: PhantomData }
    }

    /// Resets the `ConnectableIoStream` to its initial disconnected state, dropping
    /// the previously connected inner stream, if any.
    ///
    /// If there are any tasks waiting on the inner stream, they will only be woken
    /// if dropping the inner stream wakes them. If the wrapper is already in
    /// the disconnected state any already-registered waker is preserved.
    pub fn reset(&mut self)
        ensures
            final(self)@ == old(self)@.resetting(),
    {
        self.drop_pending = false;
        self.state.reset();
    }

    /// Gives the wrapper up: the task that waits for a connection is woken, and the
    /// inner stream, if any, is handed back.
    pub fn release(self, woken: &mut WakeQueue) -> (connected: Option<T>)
        ensures
            connected == self@.connected,
            final(woken)@ == old(woken)@ + crate::waker_ref::wakes_of(self@.waker),
    {
        self.state.release(woken)
    }
}

impl<T: IoStream, E> ConnectableIoStream<T, E> {
    /// Connects the wrapper to `stream`.
    ///
    /// If the wrapper was disconnected with a registered waker, that waker is
    /// woken so the waiting task re-polls and observes the now-connected
    /// inner stream.
    ///
    /// If the wrapper is already in the closed state (because `drop_read` was
    /// called previously), `stream.drop_read()` is invoked and `stream` is
    /// dropped without being stored, so the producer side learns that the
    /// consumer has given up.  The wrapper is then open again.
    pub fn connect(&mut self, stream: T, woken: &mut WakeQueue)
        requires
            stream.stream_wf(),
        ensures
            if old(self)@.drop_pending {
                &&& final(self)@ == (ConnectableModel { drop_pending: false, ..old(self)@ })
                &&& exists|dropped: T| stream.drops(old(woken)@, dropped, final(woken)@)
            } else {
                &&& final(self)@ == old(self)@.connecting(stream)
                &&& final(woken)@ == old(woken)@ + crate::waker_ref::wakes_of(old(self)@.waker)
            },
    {
        if self.drop_pending {
            let mut dropped = stream;
            dropped.drop_read(woken);
        } else {
            self.state.connect(stream, woken);
        }
        self.drop_pending = false;
    }
}

impl<T, E> IoStream for ConnectableIoStream<T, E> where T: IoStream, T::Error: Into<E> {
    type Item = T::Item;

    type Error = E;

    open spec fn stream_wf(&self) -> bool {
        self@.connected matches Some(inner) ==> inner.stream_wf()
    }

    open spec fn reads(
        &self,
        cx: Context,
        after: Self,
        after_cx: Context,
        result: Poll<Result<Option<T::Item>, E>>,
    ) -> bool {
        match self@.connected {
            Some(inner) => {
                &&& self@.same_wrapper(after@)
                &&& exists|inner_result: Poll<Result<Option<T::Item>, T::Error>>|
                    {
                        &&& #[trigger] inner.reads(
                            cx,
                            after@.connected->0,
                            after_cx,
                            inner_result,
                        )
                        &&& converted(inner_result, result)
                    }
            },
            None => if self@.drop_pending {
                &&& result == Poll::Ready(Ok::<Option<T::Item>, E>(None))
                &&& after@ == self@
                &&& after_cx == cx
            } else {
                &&& result is Pending
                &&& after@ == self@.waiting(cx.waker)
                &&& after_cx == cx
            },
        }
    }

    open spec fn drops(&self, asked: Seq<Waker>, after: Self, woken: Seq<Waker>) -> bool {
        match self@.connected {
            Some(inner) => {
                &&& self@.same_wrapper(after@)
                &&& inner.drops(asked, after@.connected->0, woken)
            },
            None => if self@.drop_pending {
                after@ == self@ && woken == asked
            } else {
                &&& after@ == (ConnectableModel { waker: None, drop_pending: true, ..self@ })
                &&& woken == asked + crate::waker_ref::wakes_of(self@.waker)
            },
        }
    }

    fn con_poll_read(&mut self, cx: &mut Context) -> (result: Poll<
        Result<Option<T::Item>, E>,
    >) {
        let ghost mut inner_result: Poll<Result<Option<T::Item>, T::Error>> = Poll::Pending;
        let result = match &mut self.state {
            ConnectableState::Disconnected(waker) => {
                if self.drop_pending {
                    // End-of-stream repeats and consumes nothing, so the caller is not
                    // pre-woken.
                    Poll::Ready(Ok(None))
                } else {
                    waker.register(&cx.waker);
                    Poll::Pending
                }
            },
            ConnectableState::Connected(stream) => {
                let read = stream.con_poll_read(cx);
                proof {
                    inner_result = read;
                }
                convert_error(read)
            },
        };
        proof {
            if old(self)@.connected is Some {
                assert(old(self)@.same_wrapper(self@));
                assert(old(self)@.connected->0.reads(
                    *old(cx),
                    self@.connected->0,
                    *cx,
                    inner_result,
                ));
            }
        }
        result
    }

    fn drop_read(&mut self, woken: &mut WakeQueue) {
        match &mut self.state {
            ConnectableState::Connected(stream) => stream.drop_read(woken),
            ConnectableState::Disconnected(waker) => {
                if !self.drop_pending {
                    self.drop_pending = true;
                    waker.wake(woken);
                }
            },
        }
    }
}

/// A connectable [`IoReader`] adapter.
///
/// Starts out disconnected: [`con_poll_read`](IoReader::con_poll_read) returns [`Poll::Pending`]
/// after registering the caller's waker. When [`connect`](Self::connect) is
/// called with an inner reader, the registered waker (if any) is woken and all
/// subsequent calls delegate to the inner reader.
///
/// If [`drop_read`](IoReader::drop_read) is called, the wrapper transitions to
/// a *closed* state: subsequent [`con_poll_read`](IoReader::con_poll_read)
/// calls return the end-of-stream signal, and a later
/// [`connect`](Self::connect) will immediately call `drop_read` on the
/// supplied reader and discard it.
#[derive(Debug)]
pub struct ConnectableIoReader<T, E> {
    state: ConnectableState<T>,
    drop_pending: bool,
    error: PhantomData<E>,
}

impl<T, E> View for ConnectableIoReader<T, E> {
    type V = ConnectableModel<T>;

    closed spec fn view(&self) -> ConnectableModel<T> {
        self.state.model(self.drop_pending)
    }
}

impl<T, E> Default for ConnectableIoReader<T, E> {
    fn default() -> (wrapper: ConnectableIoReader<T, E>)
        ensures
            wrapper@ == ConnectableModel::<T>::fresh(),
    {
        ConnectableIoReader::new()
    }
}

impl<T, E> ConnectableIoReader<T, E> {
    /// Creates a new `ConnectableIoReader` in the disconnected state.
    pub fn new() -> (wrapper: ConnectableIoReader<T, E>)
        ensures
            wrapper@ == ConnectableModel::<T>::fresh(),
    {
        ConnectableIoReader { state: ConnectableState::new(), drop_pending: false, error: PhantomData }
    }

    /// Resets the `ConnectableIoReader` to its initial disconnected state, dropping
    /// the previously connected inner reader, if any.
    ///
    /// If there are any tasks waiting on the inner reader, they will only be woken
    /// if dropping the inner reader wakes them. If the wrapper is already in
    /// the disconnected state any already-registered waker is preserved.
    pub fn reset(&mut self)
        ensures
            final(self)@ == old(self)@.resetting(),
    {
        self.drop_pending = false;
        self.state.reset();
    }

    /// Gives the wrapper up: the task that waits for a connection is woken, and the
    /// inner reader, if any, is handed back.
    pub fn release(self, woken: &mut WakeQueue) -> (connected: Option<T>)
        ensures
            connected == self@.connected,
            final(woken)@ == old(woken)@ + crate::waker_ref::wakes_of(self@.waker),
    {
        self.state.release(woken)
    }
}

impl<T: IoReader, E> ConnectableIoReader<T, E> {
    /// Connects the wrapper to `reader`.
    ///
    /// If the wrapper was disconnected with a registered waker, that waker is
    /// woken so the waiting task re-polls and observes the now-connected
    /// inner reader.
    ///
    /// If the wrapper is already in the closed state (because `drop_read` was
    /// called previously), `reader.drop_read()` is invoked and `reader` is
    /// dropped without being stored, so the producer side learns that the
    /// consumer has given up.  The wrapper is then open again.
    pub fn connect(&mut self, reader: T, woken: &mut WakeQueue)
        requires
            reader.reader_wf(),
        ensures
            if old(self)@.drop_pending {
                &&& final(self)@ == (ConnectableModel { drop_pending: false, ..old(self)@ })
                &&& exists|dropped: T| reader.drops(old(woken)@, dropped, final(woken)@)
            } else {
                &&& final(self)@ == old(self)@.connecting(reader)
                &&& final(woken)@ == old(woken)@ + crate::waker_ref::wakes_of(old(self)@.waker)
            },
    {
        if self.drop_pending {
            let mut dropped = reader;
            dropped.drop_read(woken);
        } else {
            self.state.connect(reader, woken);
        }
        self.drop_pending = false;
    }
}

impl<T, E> IoReader for ConnectableIoReader<T, E> where
    T: IoReader,
    T::Error: Into<E>,
    E: Send,
 {
    type Error = E;

    open spec fn reader_wf(&self) -> bool {
        self@.connected matches Some(inner) ==> inner.reader_wf()
    }

    open spec fn reads(
        &self,
        cx: Context,
        max_len: usize,
        after: Self,
        after_cx: Context,
        result: Poll<Result<Option<Bytes>, E>>,
    ) -> bool {
        match self@.connected {
            Some(inner) => {
                &&& self@.same_wrapper(after@)
                &&& exists|inner_result: Poll<Result<Option<Bytes>, T::Error>>|
                    {
                        &&& #[trigger] inner.reads(
                            cx,
                            max_len,
                            after@.connected->0,
                            after_cx,
                            inner_result,
                        )
                        &&& converted(inner_result, result)
                    }
            },
            None => if self@.drop_pending {
                &&& result == Poll::Ready(Ok::<Option<Bytes>, E>(None))
                &&& after@ == self@
                &&& after_cx == cx
            } else {
                &&& result is Pending
                &&& after@ == self@.waiting(cx.waker)
                &&& after_cx == cx
            },
        }
    }

    open spec fn drops(&self, asked: Seq<Waker>, after: Self, woken: Seq<Waker>) -> bool {
        match self@.connected {
            Some(inner) => {
                &&& self@.same_wrapper(after@)
                &&& inner.drops(asked, after@.connected->0, woken)
            },
            None => if self@.drop_pending {
                after@ == self@ && woken == asked
            } else {
                &&& after@ == (ConnectableModel { waker: None, drop_pending: true, ..self@ })
                &&& woken == asked + crate::waker_ref::wakes_of(self@.waker)
            },
        }
    }

    fn con_poll_read(&mut self, cx: &mut Context, max_len: usize) -> (result: Poll<
        Result<Option<Bytes>, E>,
    >) {
        let ghost mut inner_result: Poll<Result<Option<Bytes>, T::Error>> = Poll::Pending;
        let result = match &mut self.state {
            ConnectableState::Disconnected(waker) => {
                if self.drop_pending {
                    // End-of-stream repeats and consumes nothing, so the caller is not
                    // pre-woken.
                    Poll::Ready(Ok(None))
                } else {
                    waker.register(&cx.waker);
                    Poll::Pending
                }
            },
            ConnectableState::Connected(reader) => {
                let read = reader.con_poll_read(cx, max_len);
                proof {
                    inner_result = read;
                }
                convert_error(read)
            },
        };
        proof {
            if old(self)@.connected is Some {
                assert(old(self)@.same_wrapper(self@));
                assert(old(self)@.connected->0.reads(
                    *old(cx),
                    max_len,
                    self@.connected->0,
                    *cx,
                    inner_result,
                ));
            }
        }
        result
    }

    fn drop_read(&mut self, woken: &mut WakeQueue) {
        match &mut self.state {
            ConnectableState::Connected(reader) => reader.drop_read(woken),
            ConnectableState::Disconnected(waker) => {
                if !self.drop_pending {
                    self.drop_pending = true;
                    waker.wake(woken);
                }
            },
        }
    }
}

/// A task that was told to wait for a connection is the one that the connection
/// wakes, and a reset in between does not make it forgotten.
pub proof fn law_connection_reaches_waiter<T>(wrapper: ConnectableModel<T>, waker: Waker, inner: T)
    requires
        wrapper.connected is None,
    ensures
        crate::waker_ref::wakes_of(wrapper.waiting(waker).waker) == seq![waker],
        crate::waker_ref::wakes_of(wrapper.waiting(waker).resetting().waker) == seq![waker],
        wrapper.waiting(waker).connecting(inner).connected == Some(inner),
        wrapper.waiting(waker).connecting(inner).waker is None,
{
}

/// Once the consumer has given up on a stream that was not connected, the task that
/// waited is woken, and every read sees the end.
pub proof fn law_closed_stream_has_ended<T, E>(
    wrapper: ConnectableIoStream<T, E>,
    asked: Seq<Waker>,
    closed: ConnectableIoStream<T, E>,
    woken: Seq<Waker>,
    cx: Context,
    after: ConnectableIoStream<T, E>,
    after_cx: Context,
    result: Poll<Result<Option<T::Item>, E>>,
) where T: IoStream, T::Error: Into<E>
    requires
        wrapper@.connected is None,
        wrapper.drops(asked, closed, woken),
        closed.reads(cx, after, after_cx, result),
    ensures
        result == Poll::Ready(Ok::<Option<T::Item>, E>(None)),
        after@ == closed@,
        after_cx == cx,
        wrapper@.waker is Some && !wrapper@.drop_pending ==> woken.contains(wrapper@.waker->0),
{
    if wrapper@.waker is Some && !wrapper@.drop_pending {
        assert(woken.last() == wrapper@.waker->0);
    }
}

/// Once the consumer has given up on a reader that was not connected, the task that
/// waited is woken, and every read sees the end.
pub proof fn law_closed_reader_has_ended<T, E>(
    wrapper: ConnectableIoReader<T, E>,
    asked: Seq<Waker>,
    closed: ConnectableIoReader<T, E>,
    woken: Seq<Waker>,
    cx: Context,
    max_len: usize,
    after: ConnectableIoReader<T, E>,
    after_cx: Context,
    result: Poll<Result<Option<Bytes>, E>>,
) where T: IoReader, T::Error: Into<E>, E: Send
    requires
        wrapper@.connected is None,
        wrapper.drops(asked, closed, woken),
        closed.reads(cx, max_len, after, after_cx, result),
    ensures
        result == Poll::Ready(Ok::<Option<Bytes>, E>(None)),
        after@ == closed@,
        after_cx == cx,
        wrapper@.waker is Some && !wrapper@.drop_pending ==> woken.contains(wrapper@.waker->0),
{
    if wrapper@.waker is Some && !wrapper@.drop_pending {
        assert(woken.last() == wrapper@.waker->0);
    }
}

/// Converting the error of a result keeps what the result is: a wait stays a wait, a value
/// stays that value, and an error becomes what it converts into.
pub proof fn law_conversion_keeps_the_outcome<R, E0: Into<E>, E>(
    result: Poll<Result<R, E0>>,
    out: Poll<Result<R, E>>,
)
    requires
        converted(result, out),
    ensures
        result is Pending <==> out is Pending,
        result matches Poll::Ready(Ok(value)) ==> out == Poll::Ready(Ok::<R, E>(value)),
        result matches Poll::Ready(Err(err)) ==> {
            &&& out matches Poll::Ready(Err(other))
            &&& call_ensures(E0::into, (err,), other)
        },
{
}

/// A poll for readiness of a connected wrapper is one of what is connected, with its
/// error converted, and changes nothing else; without a connection the caller waits for
/// one.
pub proof fn law_sink_ready_goes_through<T, I, E>(
    wrapper: &mut ConnectableIoSink<T, E>,
    cx: &mut Context,
    result: Poll<Result<(), E>>,
) where T: IoSink<I>, T::Error: Into<E>
    requires
        call_ensures(<ConnectableIoSink<T, E> as IoSink<I>>::prod_poll_ready, (wrapper, cx), result),
    ensures
        old(wrapper)@.connected matches Some(inner) ==> {
            &&& final(wrapper)@.connected matches Some(left)
            &&& exists|inner_result: Poll<Result<(), T::Error>>|
                #[trigger] inner.readies(*old(cx), left, *final(cx), inner_result) && converted(inner_result, result)
            &&& final(wrapper)@.waker == old(wrapper)@.waker
            &&& final(wrapper)@.drop_pending == old(wrapper)@.drop_pending
        },
        old(wrapper)@.connected is None ==> {
            &&& result is Pending
            &&& final(wrapper)@.connected is None
            &&& final(wrapper)@.waker == Some(old(cx).waker)
            &&& final(wrapper)@.drop_pending == old(wrapper)@.drop_pending
            &&& *final(cx) == *old(cx)
        },
{
}

/// A flush of a connected wrapper is one of what is connected, with its error converted, and
/// changes nothing else; without a connection the caller waits for one.
pub proof fn law_sink_flush_goes_through<T, I, E>(
    wrapper: &mut ConnectableIoSink<T, E>,
    cx: &mut Context,
    result: Poll<Result<(), E>>,
) where T: IoSink<I>, T::Error: Into<E>
    requires
        call_ensures(<ConnectableIoSink<T, E> as IoSink<I>>::prod_poll_flush, (wrapper, cx), result),
    ensures
        old(wrapper)@.connected matches Some(inner) ==> {
            &&& final(wrapper)@.connected matches Some(left)
            &&& exists|inner_result: Poll<Result<(), T::Error>>|
                #[trigger] inner.flushes(*old(cx), left, *final(cx), inner_result) && converted(inner_result, result)
            &&& final(wrapper)@.waker == old(wrapper)@.waker
            &&& final(wrapper)@.drop_pending == old(wrapper)@.drop_pending
        },
        old(wrapper)@.connected is None ==> {
            &&& result is Pending
            &&& final(wrapper)@.connected is None
            &&& final(wrapper)@.waker == Some(old(cx).waker)
            &&& final(wrapper)@.drop_pending == old(wrapper)@.drop_pending
            &&& *final(cx) == *old(cx)
        },
{
}

/// A close of a connected wrapper is one of what is connected, with its error converted, and
/// changes nothing else; without a connection the caller waits for one.
pub proof fn law_sink_close_goes_through<T, I, E>(
    wrapper: &mut ConnectableIoSink<T, E>,
    cx: &mut Context,
    result: Poll<Result<(), E>>,
) where T: IoSink<I>, T::Error: Into<E>
    requires
        call_ensures(<ConnectableIoSink<T, E> as IoSink<I>>::prod_poll_close, (wrapper, cx), result),
    ensures
        old(wrapper)@.connected matches Some(inner) ==> {
            &&& final(wrapper)@.connected matches Some(left)
            &&& exists|inner_result: Poll<Result<(), T::Error>>|
                #[trigger] inner.closes(*old(cx), left, *final(cx), inner_result) && converted(inner_result, result)
            &&& final(wrapper)@.waker == old(wrapper)@.waker
            &&& final(wrapper)@.drop_pending == old(wrapper)@.drop_pending
        },
        old(wrapper)@.connected is None ==> {
            &&& result is Pending
            &&& final(wrapper)@.connected is None
            &&& final(wrapper)@.waker == Some(old(cx).waker)
            &&& final(wrapper)@.drop_pending == old(wrapper)@.drop_pending
            &&& *final(cx) == *old(cx)
        },
{
}

/// A send to a connected wrapper is one of what is connected, with its error converted, and
/// changes nothing else; without a connection the caller waits for one.
pub proof fn law_sink_send_goes_through<T, I, E>(
    wrapper: &mut ConnectableIoSink<T, E>,
    cx: &mut Context,
    item: &mut Option<I>,
    result: Poll<Result<(), E>>,
) where T: IoSink<I>, T::Error: Into<E>
    requires
        call_ensures(<ConnectableIoSink<T, E> as IoSink<I>>::prod_poll_send, (wrapper, cx, item), result),
    ensures
        old(wrapper)@.connected matches Some(inner) ==> {
            &&& final(wrapper)@.connected matches Some(left)
            &&& exists|inner_result: Poll<Result<(), T::Error>>|
                #[trigger] inner.sends(*old(cx), *old(item), left, *final(cx), *final(item), inner_result) && converted(inner_result, result)
            &&& final(wrapper)@.waker == old(wrapper)@.waker
            &&& final(wrapper)@.drop_pending == old(wrapper)@.drop_pending
        },
        old(wrapper)@.connected is None ==> {
            &&& result is Pending
            &&& final(wrapper)@.connected is None
            &&& final(wrapper)@.waker == Some(old(cx).waker)
            &&& final(wrapper)@.drop_pending == old(wrapper)@.drop_pending
            &&& *final(cx) == *old(cx)
            &&& *final(item) == *old(item)
        },
{
}

/// A flush of a connected wrapper is one of what is connected, with its error converted, and
/// changes nothing else; without a connection the caller waits for one.
pub proof fn law_writer_flush_goes_through<T, E>(
    wrapper: &mut ConnectableIoWriter<T, E>,
    cx: &mut Context,
    result: Poll<Result<(), E>>,
) where T: IoWriter, T::Error: Into<E>, E: Send
    requires
        call_ensures(<ConnectableIoWriter<T, E> as IoWriter>::prod_poll_flush, (wrapper, cx), result),
    ensures
        old(wrapper)@.connected matches Some(inner) ==> {
            &&& final(wrapper)@.connected matches Some(left)
            &&& exists|inner_result: Poll<Result<(), T::Error>>|
                #[trigger] inner.flushes(*old(cx), left, *final(cx), inner_result) && converted(inner_result, result)
            &&& final(wrapper)@.waker == old(wrapper)@.waker
            &&& final(wrapper)@.drop_pending == old(wrapper)@.drop_pending
        },
        old(wrapper)@.connected is None ==> {
            &&& result is Pending
            &&& final(wrapper)@.connected is None
            &&& final(wrapper)@.waker == Some(old(cx).waker)
            &&& final(wrapper)@.drop_pending == old(wrapper)@.drop_pending
            &&& *final(cx) == *old(cx)
        },
{
}

/// A close of a connected wrapper is one of what is connected, with its error converted, and
/// changes nothing else; without a connection the caller waits for one.
pub proof fn law_writer_close_goes_through<T, E>(
    wrapper: &mut ConnectableIoWriter<T, E>,
    cx: &mut Context,
    result: Poll<Result<(), E>>,
) where T: IoWriter, T::Error: Into<E>, E: Send
    requires
        call_ensures(<ConnectableIoWriter<T, E> as IoWriter>::prod_poll_close, (wrapper, cx), result),
    ensures
        old(wrapper)@.connected matches Some(inner) ==> {
            &&& final(wrapper)@.connected matches Some(left)
            &&& exists|inner_result: Poll<Result<(), T::Error>>|
                #[trigger] inner.closes(*old(cx), left, *final(cx), inner_result) && converted(inner_result, result)
            &&& final(wrapper)@.waker == old(wrapper)@.waker
            &&& final(wrapper)@.drop_pending == old(wrapper)@.drop_pending
        },
        old(wrapper)@.connected is None ==> {
            &&& result is Pending
            &&& final(wrapper)@.connected is None
            &&& final(wrapper)@.waker == Some(old(cx).waker)
            &&& final(wrapper)@.drop_pending == old(wrapper)@.drop_pending
            &&& *final(cx) == *old(cx)
        },
{
}

/// A write to a connected wrapper is one of what is connected, with its error converted, and
/// changes nothing else; without a connection the caller waits for one.
pub proof fn law_write_goes_through<T, E>(
    wrapper: &mut ConnectableIoWriter<T, E>,
    cx: &mut Context,
    bytes: &mut Bytes,
    result: Poll<Result<usize, E>>,
) where T: IoWriter, T::Error: Into<E>, E: Send
    requires
        call_ensures(<ConnectableIoWriter<T, E> as IoWriter>::prod_poll_write, (wrapper, cx, bytes), result),
    ensures
        old(wrapper)@.connected matches Some(inner) ==> {
            &&& final(wrapper)@.connected matches Some(left)
            &&& exists|inner_result: Poll<Result<usize, T::Error>>|
                #[trigger] inner.writes(*old(cx), *old(bytes), left, *final(cx), *final(bytes), inner_result) && converted(inner_result, result)
            &&& final(wrapper)@.waker == old(wrapper)@.waker
            &&& final(wrapper)@.drop_pending == old(wrapper)@.drop_pending
        },
        old(wrapper)@.connected is None ==> {
            &&& result is Pending
            &&& final(wrapper)@.connected is None
            &&& final(wrapper)@.waker == Some(old(cx).waker)
            &&& final(wrapper)@.drop_pending == old(wrapper)@.drop_pending
            &&& *final(cx) == *old(cx)
            &&& *final(bytes) == *old(bytes)
        },
{
}

/// A read of a connected wrapper is one of what is connected, with its error converted, and
/// changes nothing else; without a connection the caller waits for one, unless the
/// consumer has given up, in which case it sees the end.
pub proof fn law_stream_read_goes_through<T, E>(
    wrapper: &mut ConnectableIoStream<T, E>,
    cx: &mut Context,
    result: Poll<Result<Option<T::Item>, E>>,
) where T: IoStream, T::Error: Into<E>
    requires
        call_ensures(<ConnectableIoStream<T, E> as IoStream>::con_poll_read, (wrapper, cx), result),
    ensures
        old(wrapper)@.connected matches Some(inner) ==> {
            &&& final(wrapper)@.connected matches Some(left)
            &&& exists|inner_result: Poll<Result<Option<T::Item>, T::Error>>|
                #[trigger] inner.reads(*old(cx), left, *final(cx), inner_result) && converted(inner_result, result)
            &&& final(wrapper)@.waker == old(wrapper)@.waker
            &&& final(wrapper)@.drop_pending == old(wrapper)@.drop_pending
        },
        old(wrapper)@.connected is None && old(wrapper)@.drop_pending ==> {
            &&& result == Poll::Ready(Ok::<Option<T::Item>, E>(None))
            &&& final(wrapper)@ == old(wrapper)@
            &&& *final(cx) == *old(cx)
        },
        old(wrapper)@.connected is None && !old(wrapper)@.drop_pending ==> {
            &&& result is Pending
            &&& final(wrapper)@.connected is None
            &&& final(wrapper)@.waker == Some(old(cx).waker)
            &&& final(wrapper)@.drop_pending == old(wrapper)@.drop_pending
            &&& *final(cx) == *old(cx)
        },
{
}

/// A read of a connected wrapper is one of what is connected, with its error converted, and
/// changes nothing else; without a connection the caller waits for one, unless the
/// consumer has given up, in which case it sees the end.
pub proof fn law_byte_read_goes_through<T, E>(
    wrapper: &mut ConnectableIoReader<T, E>,
    cx: &mut Context,
    max_len: usize,
    result: Poll<Result<Option<Bytes>, E>>,
) where T: IoReader, T::Error: Into<E>, E: Send
    requires
        call_ensures(<ConnectableIoReader<T, E> as IoReader>::con_poll_read, (wrapper, cx, max_len), result),
    ensures
        old(wrapper)@.connected matches Some(inner) ==> {
            &&& final(wrapper)@.connected matches Some(left)
            &&& exists|inner_result: Poll<Result<Option<Bytes>, T::Error>>|
                #[trigger] inner.reads(*old(cx), max_len, left, *final(cx), inner_result) && converted(inner_result, result)
            &&& final(wrapper)@.waker == old(wrapper)@.waker
            &&& final(wrapper)@.drop_pending == old(wrapper)@.drop_pending
        },
        old(wrapper)@.connected is None && old(wrapper)@.drop_pending ==> {
            &&& result == Poll::Ready(Ok::<Option<Bytes>, E>(None))
            &&& final(wrapper)@ == old(wrapper)@
            &&& *final(cx) == *old(cx)
        },
        old(wrapper)@.connected is None && !old(wrapper)@.drop_pending ==> {
            &&& result is Pending
            &&& final(wrapper)@.connected is None
            &&& final(wrapper)@.waker == Some(old(cx).waker)
            &&& final(wrapper)@.drop_pending == old(wrapper)@.drop_pending
            &&& *final(cx) == *old(cx)
        },
{
}

/// A consumer that gives up a connected stream gives up what is connected; one that gives up
/// before there is a connection closes the wrapper, and a task that waits is told, once.
pub proof fn law_stream_drop_goes_through<T, E>(
    wrapper: &mut ConnectableIoStream<T, E>,
    woken: &mut WakeQueue,
) where T: IoStream, T::Error: Into<E>
    requires
        call_ensures(<ConnectableIoStream<T, E> as IoStream>::drop_read, (wrapper, woken), ()),
    ensures
        old(wrapper)@.connected matches Some(inner) ==> {
            &&& final(wrapper)@.connected matches Some(left)
            &&& inner.drops(old(woken)@, left, final(woken)@)
            &&& final(wrapper)@.waker == old(wrapper)@.waker
            &&& final(wrapper)@.drop_pending == old(wrapper)@.drop_pending
        },
        old(wrapper)@.connected is None ==> {
            &&& final(wrapper)@.connected is None
            &&& final(wrapper)@.drop_pending
            &&& old(wrapper)@.drop_pending ==> final(wrapper)@.waker == old(wrapper)@.waker
                && final(woken)@ == old(woken)@
            &&& !old(wrapper)@.drop_pending ==> final(wrapper)@.waker is None && final(woken)@
                == old(woken)@ + crate::waker_ref::wakes_of(old(wrapper)@.waker)
        },
{
}

/// A stream that is connected to a wrapper takes the place of what was there, and a task that
/// waits for it is woken; where the consumer has given up, the stream is given up instead,
/// and the wrapper is open again.
pub proof fn law_connected_stream_reaches_the_waiter<T: IoStream, E>(
    wrapper: &mut ConnectableIoStream<T, E>,
    inner: T,
    woken: &mut WakeQueue,
)
    requires
        call_ensures(ConnectableIoStream::<T, E>::connect, (wrapper, inner, woken), ()),
    ensures
        !final(wrapper)@.drop_pending,
        !old(wrapper)@.drop_pending ==> {
            &&& final(wrapper)@.connected == Some(inner)
            &&& final(wrapper)@.waker is None
            &&& final(woken)@ == old(woken)@ + crate::waker_ref::wakes_of(old(wrapper)@.waker)
        },
        old(wrapper)@.drop_pending ==> {
            &&& final(wrapper)@.connected == old(wrapper)@.connected
            &&& final(wrapper)@.waker == old(wrapper)@.waker
            &&& exists|dropped: T| inner.drops(old(woken)@, dropped, final(woken)@)
        },
{
}

/// A consumer that gives up a connected reader gives up what is connected; one that gives up
/// before there is a connection closes the wrapper, and a task that waits is told, once.
pub proof fn law_reader_drop_goes_through<T, E>(
    wrapper: &mut ConnectableIoReader<T, E>,
    woken: &mut WakeQueue,
) where T: IoReader, T::Error: Into<E>, E: Send
    requires
        call_ensures(<ConnectableIoReader<T, E> as IoReader>::drop_read, (wrapper, woken), ()),
    ensures
        old(wrapper)@.connected matches Some(inner) ==> {
            &&& final(wrapper)@.connected matches Some(left)
            &&& inner.drops(old(woken)@, left, final(woken)@)
            &&& final(wrapper)@.waker == old(wrapper)@.waker
            &&& final(wrapper)@.drop_pending == old(wrapper)@.drop_pending
        },
        old(wrapper)@.connected is None ==> {
            &&& final(wrapper)@.connected is None
            &&& final(wrapper)@.drop_pending
            &&& old(wrapper)@.drop_pending ==> final(wrapper)@.waker == old(wrapper)@.waker
                && final(woken)@ == old(woken)@
            &&& !old(wrapper)@.drop_pending ==> final(wrapper)@.waker is None && final(woken)@
                == old(woken)@ + crate::waker_ref::wakes_of(old(wrapper)@.waker)
        },
{
}

/// A reader that is connected to a wrapper takes the place of what was there, and a task that
/// waits for it is woken; where the consumer has given up, the reader is given up instead,
/// and the wrapper is open again.
pub proof fn law_connected_reader_reaches_the_waiter<T: IoReader, E>(
    wrapper: &mut ConnectableIoReader<T, E>,
    inner: T,
    woken: &mut WakeQueue,
)
    requires
        call_ensures(ConnectableIoReader::<T, E>::connect, (wrapper, inner, woken), ()),
    ensures
        !final(wrapper)@.drop_pending,
        !old(wrapper)@.drop_pending ==> {
            &&& final(wrapper)@.connected == Some(inner)
            &&& final(wrapper)@.waker is None
            &&& final(woken)@ == old(woken)@ + crate::waker_ref::wakes_of(old(wrapper)@.waker)
        },
        old(wrapper)@.drop_pending ==> {
            &&& final(wrapper)@.connected == old(wrapper)@.connected
            &&& final(wrapper)@.waker == old(wrapper)@.waker
            &&& exists|dropped: T| inner.drops(old(woken)@, dropped, final(woken)@)
        },
{
}

/// A sink that is connected to a wrapper takes the place of what was there, and a task that
/// waits for it is woken.
pub proof fn law_connected_sink_reaches_the_waiter<T, E>(
    wrapper: &mut ConnectableIoSink<T, E>,
    inner: T,
    woken: &mut WakeQueue,
)
    requires
        call_ensures(ConnectableIoSink::<T, E>::connect, (wrapper, inner, woken), ()),
    ensures
        final(wrapper)@.connected == Some(inner),
        final(wrapper)@.waker is None,
        final(woken)@ == old(woken)@ + crate::waker_ref::wakes_of(old(wrapper)@.waker),
{
}

/// A writer that is connected to a wrapper takes the place of what was there, and a task that
/// waits for it is woken.
pub proof fn law_connected_writer_reaches_the_waiter<T, E>(
    wrapper: &mut ConnectableIoWriter<T, E>,
    inner: T,
    woken: &mut WakeQueue,
)
    requires
        call_ensures(ConnectableIoWriter::<T, E>::connect, (wrapper, inner, woken), ()),
    ensures
        final(wrapper)@.connected == Some(inner),
        final(wrapper)@.waker is None,
        final(woken)@ == old(woken)@ + crate::waker_ref::wakes_of(old(wrapper)@.waker),
{
}

/// A reset ends the connection to a sink, and who waits for one goes on waiting; giving
/// the wrapper up wakes who waits, and hands back what is connected.  A new wrapper is not
/// connected, and nobody waits for it.
pub proof fn law_sink_wrapper_lives_and_ends<T, E>(
    wrapper: &mut ConnectableIoSink<T, E>,
    given_up: ConnectableIoSink<T, E>,
    woken: &mut WakeQueue,
    connected: Option<T>,
    new: ConnectableIoSink<T, E>,
)
    requires
        call_ensures(ConnectableIoSink::<T, E>::reset, (wrapper,), ()),
        call_ensures(ConnectableIoSink::<T, E>::release, (given_up, woken), connected),
        call_ensures(ConnectableIoSink::<T, E>::new, (), new),
    ensures
        final(wrapper)@.connected is None,
        final(wrapper)@.waker == old(wrapper)@.waker,
        !final(wrapper)@.drop_pending,
        connected == given_up@.connected,
        final(woken)@ == old(woken)@ + crate::waker_ref::wakes_of(given_up@.waker),
        new@.connected is None,
        new@.waker is None,
        !new@.drop_pending,
{
}

/// A reset ends the connection to a writer, and who waits for one goes on waiting; giving
/// the wrapper up wakes who waits, and hands back what is connected.  A new wrapper is not
/// connected, and nobody waits for it.
pub proof fn law_writer_wrapper_lives_and_ends<T, E>(
    wrapper: &mut ConnectableIoWriter<T, E>,
    given_up: ConnectableIoWriter<T, E>,
    woken: &mut WakeQueue,
    connected: Option<T>,
    new: ConnectableIoWriter<T, E>,
)
    requires
        call_ensures(ConnectableIoWriter::<T, E>::reset, (wrapper,), ()),
        call_ensures(ConnectableIoWriter::<T, E>::release, (given_up, woken), connected),
        call_ensures(ConnectableIoWriter::<T, E>::new, (), new),
    ensures
        final(wrapper)@.connected is None,
        final(wrapper)@.waker == old(wrapper)@.waker,
        !final(wrapper)@.drop_pending,
        connected == given_up@.connected,
        final(woken)@ == old(woken)@ + crate::waker_ref::wakes_of(given_up@.waker),
        new@.connected is None,
        new@.waker is None,
        !new@.drop_pending,
{
}

/// A reset ends the connection to a stream, and who waits for one goes on waiting; giving
/// the wrapper up wakes who waits, and hands back what is connected.  A new wrapper is not
/// connected, and nobody waits for it.
pub proof fn law_stream_wrapper_lives_and_ends<T, E>(
    wrapper: &mut ConnectableIoStream<T, E>,
    given_up: ConnectableIoStream<T, E>,
    woken: &mut WakeQueue,
    connected: Option<T>,
    new: ConnectableIoStream<T, E>,
)
    requires
        call_ensures(ConnectableIoStream::<T, E>::reset, (wrapper,), ()),
        call_ensures(ConnectableIoStream::<T, E>::release, (given_up, woken), connected),
        call_ensures(ConnectableIoStream::<T, E>::new, (), new),
    ensures
        final(wrapper)@.connected is None,
        final(wrapper)@.waker == old(wrapper)@.waker,
        !final(wrapper)@.drop_pending,
        connected == given_up@.connected,
        final(woken)@ == old(woken)@ + crate::waker_ref::wakes_of(given_up@.waker),
        new@.connected is None,
        new@.waker is None,
        !new@.drop_pending,
{
}

/// A reset ends the connection to a reader, and who waits for one goes on waiting; giving
/// the wrapper up wakes who waits, and hands back what is connected.  A new wrapper is not
/// connected, and nobody waits for it.
pub proof fn law_reader_wrapper_lives_and_ends<T, E>(
    wrapper: &mut ConnectableIoReader<T, E>,
    given_up: ConnectableIoReader<T, E>,
    woken: &mut WakeQueue,
    connected: Option<T>,
    new: ConnectableIoReader<T, E>,
)
    requires
        call_ensures(ConnectableIoReader::<T, E>::reset, (wrapper,), ()),
        call_ensures(ConnectableIoReader::<T, E>::release, (given_up, woken), connected),
        call_ensures(ConnectableIoReader::<T, E>::new, (), new),
    ensures
        final(wrapper)@.connected is None,
        final(wrapper)@.waker == old(wrapper)@.waker,
        !final(wrapper)@.drop_pending,
        connected == given_up@.connected,
        final(woken)@ == old(woken)@ + crate::waker_ref::wakes_of(given_up@.waker),
        new@.connected is None,
        new@.waker is None,
        !new@.drop_pending,
{
}

} // verus!
