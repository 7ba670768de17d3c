//! A lazily-connected, droppable I/O endpoint.
//!
//! [`IoPort`] wraps an optional inner I/O object and mediates access to it from
//! a consumer and a producer task.  It models a connection that may not exist
//! yet (disconnected), may be supplied later via [`IoPort::connect`], or may be
//! permanently abandoned via [`IoPort::try_predrop`].  Once connected it
//! transparently forwards the [`IoStream`], [`IoSink`], [`IoReader`], and
//! [`IoWriter`] traits to the inner value.

use bytes::Bytes;

use vstd::prelude::*;

use crate::io_reader::IoReader;
use crate::io_sink::IoSink;
use crate::io_stream::IoStream;
use crate::io_writer::IoWriter;
use crate::task::{Context, Poll, WakeQueue, Waker};
use crate::waker_ref::WakerRef;

verus! {

#[derive(Debug)]
enum PortState<T> {
    Disconnected { con_waker: WakerRef, prod_waker: WakerRef },
    Connected(T),
}

/// A connection point that holds an optional inner I/O object `T` and brokers
/// access to it from a consumer task and a producer task.
///
/// An `IoPort` starts out *disconnected*.  While disconnected, both
/// [`con_poll_connected`](IoPort::con_poll_connected) and
/// [`prod_poll_connected`](IoPort::prod_poll_connected) return
/// [`Poll::Pending`] and register their respective wakers, until either
/// [`connect`](IoPort::connect) supplies an inner value or the port is
/// *pre-dropped* (see [`try_predrop`](IoPort::try_predrop)), after which they
/// report end-of-connection.  Once connected, the port forwards the
/// [`IoStream`]/[`IoSink`]/[`IoReader`]/[`IoWriter`] traits through to the
/// inner value.
#[derive(Debug)]
pub struct IoPort<T> {
    state: PortState<T>,
    is_predropped: bool,
}

/// What there is to know about a port.
#[verifier::ext_equal]
pub struct PortModel<T> {
    /// The inner value, if the port is connected.
    pub connected: Option<T>,
    /// The consumer task, if it waits for a connection.
    pub con_waker: Option<Waker>,
    /// The producer task, if it waits for a connection.
    pub prod_waker: Option<Waker>,
    /// The port was abandoned before it was connected.
    pub predropped: bool,
}

impl<T> PortModel<T> {
    /// A port that is not connected, and that nobody waits for.
    pub open spec fn fresh() -> PortModel<T> {
        PortModel { connected: None, con_waker: None, prod_waker: None, predropped: false }
    }

    /// The tasks that wait for a connection, the consumer first.
    pub open spec fn waiting(self) -> Seq<Waker> {
        crate::waker_ref::wakes_of(self.con_waker) + crate::waker_ref::wakes_of(self.prod_waker)
    }

    /// The port can be connected.
    pub open spec fn accepts(self) -> bool {
        self.connected is None && !self.predropped
    }

    /// The port once `value` is connected to it.
    pub open spec fn connecting(self, value: T) -> PortModel<T> {
        PortModel { connected: Some(value), con_waker: None, prod_waker: None, ..self }
    }

    /// The port once it is abandoned, for which it is too late if it is connected.
    pub open spec fn predropping(self) -> PortModel<T> {
        PortModel { predropped: self.predropped || self.connected is None, ..self }
    }

    /// The port once it is ready to be connected again.
    pub open spec fn resetting(self) -> PortModel<T> {
        PortModel { connected: None, predropped: false, ..self }
    }

    /// What a consumer that finds no connection does to the port.
    pub open spec fn con_wait(self, waker: Waker) -> PortModel<T> {
        if self.predropped {
            self
        } else {
            PortModel { con_waker: Some(waker), ..self }
        }
    }

    /// What a producer that finds no connection does to the port.
    pub open spec fn prod_wait(self, waker: Waker) -> PortModel<T> {
        if self.predropped {
            self
        } else {
            PortModel { prod_waker: Some(waker), ..self }
        }
    }

    /// `after` is the same port, but for the inner value.
    pub open spec fn same_port(self, after: PortModel<T>) -> bool {
        after.connected is Some && after == (PortModel { connected: after.connected, ..self })
    }
}

impl<T> View for IoPort<T> {
    type V = PortModel<T>;

    closed spec fn view(&self) -> PortModel<T> {
        match self.state {
            PortState::Disconnected { con_waker, prod_waker } => PortModel {
                connected: None,
                con_waker: con_waker@,
                prod_waker: prod_waker@,
                predropped: self.is_predropped,
            },
            PortState::Connected(value) => PortModel {
                connected: Some(value),
                con_waker: None,
                prod_waker: None,
                predropped: self.is_predropped,
            },
        }
    }
}

impl<T> Default for IoPort<T> {
    fn default() -> (port: IoPort<T>)
        ensures
            port@ == PortModel::<T>::fresh(),
    {
        IoPort::new()
    }
}

impl<T> IoPort<T> {
    /// Creates a new, disconnected and not-pre-dropped `IoPort`.
    pub fn new() -> (port: IoPort<T>)
        ensures
            port@ == PortModel::<T>::fresh(),
    {
        IoPort {
            state: PortState::Disconnected {
                con_waker: WakerRef::new(),
                prod_waker: WakerRef::new(),
            },
            is_predropped: false,
        }
    }

    /// Attempts to set the connected value of this port.
    ///
    /// This succeeds if the port is currently disconnected and not pre-dropped,
    /// waking any consumer and producer tasks that were waiting for a
    /// connection.  If the port is pre-dropped or already connected, this has
    /// no effect and returns `Err(())`.
    pub fn connect(&mut self, value: T, woken: &mut WakeQueue) -> (result: Result<(), ()>)
        ensures
            if old(self)@.accepts() {
                &&& result is Ok
                &&& final(self)@ == old(self)@.connecting(value)
                &&& final(woken)@ == old(woken)@ + old(self)@.waiting()
            } else {
                &&& result is Err
                &&& final(self)@ == old(self)@
                &&& final(woken)@ == old(woken)@
            },
    {
        match &mut self.state {
            PortState::Disconnected { con_waker, prod_waker } => {
                if self.is_predropped {
                    Err(())
                } else {
                    con_waker.wake(woken);
                    prod_waker.wake(woken);
                    self.state = PortState::Connected(value);
                    assert(woken@ =~= old(woken)@ + old(self)@.waiting());
                    Ok(())
                }
            },
            PortState::Connected(_) => Err(()),
        }
    }

    /// Reset this port to the disconnected, non-predropped state, ready
    /// to be connected again. If this port is currently connected, the connection
    /// will be dropped.  Tasks waiting on the current connection will NOT be woken
    /// unless that is accomplished by dropping the connected value.  Tasks waiting
    /// for a connection go on waiting.
    pub fn reset(&mut self)
        ensures
            final(self)@ == old(self)@.resetting(),
    {
        match &self.state {
            PortState::Disconnected { .. } => {},
            PortState::Connected(_) => {
                self.state = PortState::Disconnected {
                    con_waker: WakerRef::new(),
                    prod_waker: WakerRef::new(),
                };
            },
        }
        self.is_predropped = false;
    }

    /// Attempts to mark the port as pre-dropped.
    /// If this port is in the disconnected state, this returns `true` and any
    /// subsequent call to `connect` will fail.
    /// Otherwise, this returns false and has no effect.
    pub fn try_predrop(&mut self) -> (predropped: bool)
        ensures
            predropped == (old(self)@.connected is None),
            final(self)@ == old(self)@.predropping(),
    {
        match &self.state {
            PortState::Disconnected { .. } => {
                self.is_predropped = true;
                true
            },
            PortState::Connected(_) => false,
        }
    }

    /// Poll for the connected value as the consumer task.
    /// If this port is currently connected, this returns `Poll::Ready(Some(&T))`.
    /// If this port is currently disconnected and not pre-dropped, this registers
    /// the current task as a consumer waker and returns `Poll::Pending`.
    /// If this port is currently disconnected and pre-dropped, this returns `Poll::Ready(None)`.
    pub fn con_poll_connected(&mut self, cx: &mut Context) -> (result: Poll<Option<&T>>)
        ensures
            *final(cx) == *old(cx),
            match old(self)@.connected {
                Some(value) => {
                    &&& result == Poll::Ready(Some(&value))
                    &&& final(self)@ == old(self)@
                },
                None => {
                    &&& result == if old(self)@.predropped {
                        Poll::Ready(None::<&T>)
                    } else {
                        Poll::Pending
                    }
                    &&& final(self)@ == old(self)@.con_wait(old(cx).waker)
                },
            },
    {
        match &mut self.state {
            PortState::Disconnected { con_waker, .. } => {
                if self.is_predropped {
                    Poll::Ready(None)
                } else {
                    con_waker.register(&cx.waker);
                    Poll::Pending
                }
            },
            PortState::Connected(connected) => Poll::Ready(Some(connected)),
        }
    }

    /// Poll for the connected value as the producer task.
    /// If this port is currently connected, this returns `Poll::Ready(Some(&T))`.
    /// If this port is currently disconnected and not pre-dropped, this registers
    /// the current task as a producer waker and returns `Poll::Pending`.
    /// If this port is currently disconnected and pre-dropped, this returns `Poll::Ready(None)`.
    pub fn prod_poll_connected(&mut self, cx: &mut Context) -> (result: Poll<Option<&T>>)
        ensures
            *final(cx) == *old(cx),
            match old(self)@.connected {
                Some(value) => {
                    &&& result == Poll::Ready(Some(&value))
                    &&& final(self)@ == old(self)@
                },
                None => {
                    &&& result == if old(self)@.predropped {
                        Poll::Ready(None::<&T>)
                    } else {
                        Poll::Pending
                    }
                    &&& final(self)@ == old(self)@.prod_wait(old(cx).waker)
                },
            },
    {
        match &mut self.state {
            PortState::Disconnected { prod_waker, .. } => {
                if self.is_predropped {
                    Poll::Ready(None)
                } else {
                    prod_waker.register(&cx.waker);
                    Poll::Pending
                }
            },
            PortState::Connected(connected) => Poll::Ready(Some(connected)),
        }
    }

    /// Gives the port up: the tasks that wait for a connection are woken, and the
    /// inner value, if any, is handed back.
    pub fn release(self, woken: &mut WakeQueue) -> (connected: Option<T>)
        ensures
            connected == self@.connected,
            final(woken)@ == old(woken)@ + self@.waiting(),
    {
        let ghost waiting = self@.waiting();
        let connected = match self.state {
            PortState::Disconnected { mut con_waker, mut prod_waker } => {
                con_waker.wake(woken);
                prod_waker.wake(woken);
                None
            },
            PortState::Connected(value) => Some(value),
        };
        assert(woken@ =~= old(woken)@ + waiting);
        connected
    }
}

impl<T: IoStream> IoStream for IoPort<T> {
    type Item = T::Item;

    type Error = T::Error;

    open spec fn stream_wf(&self) -> bool {
        self@.connected matches Some(inner) ==> inner.stream_wf()
    }

    open spec fn reads(
        &self,
        cx: Context,
        after: IoPort<T>,
        after_cx: Context,
        result: Poll<Result<Option<T::Item>, T::Error>>,
    ) -> bool {
        match self@.connected {
            Some(inner) => {
                &&& self@.same_port(after@)
                &&& inner.reads(cx, after@.connected->0, after_cx, result)
            },
            None => {
                &&& result == if self@.predropped {
                    Poll::Ready(Ok::<Option<T::Item>, T::Error>(None))
                } else {
                    Poll::Pending
                }
                &&& after@ == self@.con_wait(cx.waker)
                &&& after_cx == cx
            },
        }
    }

    open spec fn drops(&self, asked: Seq<Waker>, after: IoPort<T>, woken: Seq<Waker>) -> bool {
        match self@.connected {
            Some(inner) => {
                &&& self@.same_port(after@)
                &&& inner.drops(asked, after@.connected->0, woken)
            },
            None => {
                &&& after@ == self@.predropping()
                &&& woken == asked
            },
        }
    }

    fn con_poll_read(&mut self, cx: &mut Context) -> (result: Poll<
        Result<Option<T::Item>, T::Error>,
    >) {
        match &mut self.state {
            PortState::Connected(connected) => connected.con_poll_read(cx),
            PortState::Disconnected { con_waker, .. } => {
                if self.is_predropped {
                    Poll::Ready(Ok(None))
                } else {
                    con_waker.register(&cx.waker);
                    Poll::Pending
                }
            },
        }
    }

    fn drop_read(&mut self, woken: &mut WakeQueue) {
        if self.try_predrop() {
            return;
        }
        if let PortState::Connected(connected) = &mut self.state {
            connected.drop_read(woken);
        }
    }
}

impl<T: IoSink<ITEM>, ITEM> IoSink<ITEM> for IoPort<T> {
    type Error = T::Error;

    open spec fn sink_wf(&self) -> bool {
        self@.connected matches Some(inner) ==> inner.sink_wf()
    }

    open spec fn readies(
        &self,
        cx: Context,
        after: IoPort<T>,
        after_cx: Context,
        result: Poll<Result<(), T::Error>>,
    ) -> bool {
        match self@.connected {
            Some(inner) => {
                &&& self@.same_port(after@)
                &&& inner.readies(cx, after@.connected->0, after_cx, result)
            },
            None => {
                &&& result == if self@.predropped {
                    Poll::Ready(Ok::<(), T::Error>(()))
                } else {
                    Poll::Pending
                }
                &&& after@ == self@.prod_wait(cx.waker)
                &&& after_cx == cx
            },
        }
    }

    open spec fn sends(
        &self,
        cx: Context,
        item: Option<ITEM>,
        after: IoPort<T>,
        after_cx: Context,
        left: Option<ITEM>,
        result: Poll<Result<(), T::Error>>,
    ) -> bool {
        match self@.connected {
            Some(inner) => {
                &&& self@.same_port(after@)
                &&& inner.sends(cx, item, after@.connected->0, after_cx, left, result)
            },
            None => if item is None {
                &&& result == Poll::Ready(Ok::<(), T::Error>(()))
                &&& left is None
                &&& after@ == self@
                &&& after_cx == cx
            } else {
                &&& result == if self@.predropped {
                    Poll::Ready(Ok::<(), T::Error>(()))
                } else {
                    Poll::Pending
                }
                &&& left == if self@.predropped {
                    None
                } else {
                    item
                }
                &&& after@ == self@.prod_wait(cx.waker)
                &&& after_cx == cx
            },
        }
    }

    open spec fn flushes(
        &self,
        cx: Context,
        after: IoPort<T>,
        after_cx: Context,
        result: Poll<Result<(), T::Error>>,
    ) -> bool {
        match self@.connected {
            Some(inner) => {
                &&& self@.same_port(after@)
                &&& inner.flushes(cx, after@.connected->0, after_cx, result)
            },
            None => {
                &&& result == if self@.predropped {
                    Poll::Ready(Ok::<(), T::Error>(()))
                } else {
                    Poll::Pending
                }
                &&& after@ == self@.prod_wait(cx.waker)
                &&& after_cx == cx
            },
        }
    }

    open spec fn closes(
        &self,
        cx: Context,
        after: IoPort<T>,
        after_cx: Context,
        result: Poll<Result<(), T::Error>>,
    ) -> bool {
        match self@.connected {
            Some(inner) => {
                &&& self@.same_port(after@)
                &&& inner.closes(cx, after@.connected->0, after_cx, result)
            },
            None => {
                &&& result == if self@.predropped {
                    Poll::Ready(Ok::<(), T::Error>(()))
                } else {
                    Poll::Pending
                }
                &&& after@ == self@.prod_wait(cx.waker)
                &&& after_cx == cx
            },
        }
    }

    fn prod_poll_ready(&mut self, cx: &mut Context) -> (result: Poll<Result<(), T::Error>>) {
        match &mut self.state {
            PortState::Connected(connected) => connected.prod_poll_ready(cx),
            PortState::Disconnected { prod_waker, .. } => {
                if self.is_predropped {
                    // The peer is gone for good; nothing left to get ready for.
                    Poll::Ready(Ok(()))
                } else {
                    prod_waker.register(&cx.waker);
                    Poll::Pending
                }
            },
        }
    }

    fn prod_poll_send(&mut self, cx: &mut Context, item: &mut Option<ITEM>) -> (result: Poll<
        Result<(), T::Error>,
    >) {
        match &mut self.state {
            PortState::Connected(connected) => connected.prod_poll_send(cx, item),
            PortState::Disconnected { prod_waker, .. } => {
                if item.is_none() {
                    Poll::Ready(Ok(()))
                } else if self.is_predropped {
                    // The peer is gone for good; drop the item and report completion.
                    *item = None;
                    Poll::Ready(Ok(()))
                } else {
                    prod_waker.register(&cx.waker);
                    Poll::Pending
                }
            },
        }
    }

    fn prod_poll_flush(&mut self, cx: &mut Context) -> (result: Poll<Result<(), T::Error>>) {
        match &mut self.state {
            PortState::Connected(connected) => connected.prod_poll_flush(cx),
            PortState::Disconnected { prod_waker, .. } => {
                if self.is_predropped {
                    Poll::Ready(Ok(()))
                } else {
                    prod_waker.register(&cx.waker);
                    Poll::Pending
                }
            },
        }
    }

    fn prod_poll_close(&mut self, cx: &mut Context) -> (result: Poll<Result<(), T::Error>>) {
        match &mut self.state {
            PortState::Connected(connected) => connected.prod_poll_close(cx),
            PortState::Disconnected { prod_waker, .. } => {
                if self.is_predropped {
                    Poll::Ready(Ok(()))
                } else {
                    prod_waker.register(&cx.waker);
                    Poll::Pending
                }
            },
        }
    }
}

impl<T: IoReader> IoReader for IoPort<T> {
    type Error = T::Error;

    open spec fn reader_wf(&self) -> bool {
        self@.connected matches Some(inner) ==> inner.reader_wf()
    }

    open spec fn reads(
        &self,
        cx: Context,
        max_len: usize,
        after: IoPort<T>,
        after_cx: Context,
        result: Poll<Result<Option<Bytes>, T::Error>>,
    ) -> bool {
        match self@.connected {
            Some(inner) => {
                &&& self@.same_port(after@)
                &&& inner.reads(cx, max_len, after@.connected->0, after_cx, result)
            },
            None => {
                &&& result == if self@.predropped {
                    Poll::Ready(Ok::<Option<Bytes>, T::Error>(None))
                } else {
                    Poll::Pending
                }
                &&& after@ == self@.con_wait(cx.waker)
                &&& after_cx == cx
            },
        }
    }

    open spec fn drops(&self, asked: Seq<Waker>, after: IoPort<T>, woken: Seq<Waker>) -> bool {
        match self@.connected {
            Some(inner) => {
                &&& self@.same_port(after@)
                &&& inner.drops(asked, after@.connected->0, woken)
            },
            None => {
                &&& after@ == self@.predropping()
                &&& woken == asked
            },
        }
    }

    fn con_poll_read(&mut self, cx: &mut Context, max_len: usize) -> (result: Poll<
        Result<Option<Bytes>, T::Error>,
    >) {
        match &mut self.state {
            PortState::Connected(connected) => connected.con_poll_read(cx, max_len),
            PortState::Disconnected { con_waker, .. } => {
                if self.is_predropped {
                    Poll::Ready(Ok(None))
                } else {
                    con_waker.register(&cx.waker);
                    Poll::Pending
                }
            },
        }
    }

    fn drop_read(&mut self, woken: &mut WakeQueue) {
        if self.try_predrop() {
            return;
        }
        if let PortState::Connected(connected) = &mut self.state {
            connected.drop_read(woken);
        }
    }
}

impl<T: IoWriter> IoWriter for IoPort<T> {
    type Error = T::Error;

    open spec fn writer_wf(&self) -> bool {
        self@.connected matches Some(inner) ==> inner.writer_wf()
    }

    open spec fn writes(
        &self,
        cx: Context,
        bytes: Bytes,
        after: IoPort<T>,
        after_cx: Context,
        left: Bytes,
        result: Poll<Result<usize, T::Error>>,
    ) -> bool {
        let len = crate::byte_buf::contents(bytes).len();
        match self@.connected {
            Some(inner) => {
                &&& self@.same_port(after@)
                &&& inner.writes(cx, bytes, after@.connected->0, after_cx, left, result)
            },
            None => if len == 0 {
                &&& result == Poll::Ready(Ok::<usize, T::Error>(0))
                &&& left == bytes
                &&& after@ == self@
                &&& after_cx == cx
            } else if self@.predropped {
                &&& result == Poll::Ready(Ok::<usize, T::Error>(len as usize))
                &&& crate::byte_buf::contents(left) == Seq::<u8>::empty()
                &&& after@ == self@
                &&& after_cx == cx
            } else {
                &&& result is Pending
                &&& left == bytes
                &&& after@ == self@.prod_wait(cx.waker)
                &&& after_cx == cx
            },
        }
    }

    open spec fn flushes(
        &self,
        cx: Context,
        after: IoPort<T>,
        after_cx: Context,
        result: Poll<Result<(), T::Error>>,
    ) -> bool {
        match self@.connected {
            Some(inner) => {
                &&& self@.same_port(after@)
                &&& inner.flushes(cx, after@.connected->0, after_cx, result)
            },
            None => {
                &&& result == if self@.predropped {
                    Poll::Ready(Ok::<(), T::Error>(()))
                } else {
                    Poll::Pending
                }
                &&& after@ == self@.prod_wait(cx.waker)
                &&& after_cx == cx
            },
        }
    }

    open spec fn closes(
        &self,
        cx: Context,
        after: IoPort<T>,
        after_cx: Context,
        result: Poll<Result<(), T::Error>>,
    ) -> bool {
        match self@.connected {
            Some(inner) => {
                &&& self@.same_port(after@)
                &&& inner.closes(cx, after@.connected->0, after_cx, result)
            },
            None => {
                &&& result == if self@.predropped {
                    Poll::Ready(Ok::<(), T::Error>(()))
                } else {
                    Poll::Pending
                }
                &&& after@ == self@.prod_wait(cx.waker)
                &&& after_cx == cx
            },
        }
    }

    fn prod_poll_write(&mut self, cx: &mut Context, bytes: &mut Bytes) -> (result: Poll<
        Result<usize, T::Error>,
    >) {
        match &mut self.state {
            PortState::Connected(connected) => connected.prod_poll_write(cx, bytes),
            PortState::Disconnected { prod_waker, .. } => {
                if bytes.is_empty() {
                    Poll::Ready(Ok(0))
                } else if self.is_predropped {
                    // The peer is gone for good; report all bytes consumed and discarded.
                    let n: usize = bytes.len();
                    bytes.clear();
                    Poll::Ready(Ok(n))
                } else {
                    prod_waker.register(&cx.waker);
                    Poll::Pending
                }
            },
        }
    }

    fn prod_poll_flush(&mut self, cx: &mut Context) -> (result: Poll<Result<(), T::Error>>) {
        match &mut self.state {
            PortState::Connected(connected) => connected.prod_poll_flush(cx),
            PortState::Disconnected { prod_waker, .. } => {
                if self.is_predropped {
                    Poll::Ready(Ok(()))
                } else {
                    prod_waker.register(&cx.waker);
                    Poll::Pending
                }
            },
        }
    }

    fn prod_poll_close(&mut self, cx: &mut Context) -> (result: Poll<Result<(), T::Error>>) {
        match &mut self.state {
            PortState::Connected(connected) => connected.prod_poll_close(cx),
            PortState::Disconnected { prod_waker, .. } => {
                if self.is_predropped {
                    Poll::Ready(Ok(()))
                } else {
                    prod_waker.register(&cx.waker);
                    Poll::Pending
                }
            },
        }
    }
}

/// A port that is abandoned before it is connected refuses every connection until
/// it is reset; a port that is connected cannot be abandoned.
pub proof fn law_predrop_refuses_connections<T>(port: PortModel<T>)
    ensures
        port.connected is None ==> !port.predropping().accepts(),
        port.connected is Some ==> port.predropping() == port,
        port.predropping().resetting().accepts(),
{
}

/// A port is connected at most once: it refuses another connection until it is
/// reset.
pub proof fn law_connected_once<T>(port: PortModel<T>, value: T)
    requires
        port.accepts(),
    ensures
        port.connecting(value).connected == Some(value),
        !port.connecting(value).accepts(),
        port.connecting(value).resetting() == (PortModel {
            con_waker: None,
            prod_waker: None,
            ..port
        }),
{
}

/// Whoever waits for a connection is told of it: a consumer or a producer that was
/// told to wait is among those that a connection wakes.
pub proof fn law_connection_reaches_waiters<T>(port: PortModel<T>, waker: Waker)
    requires
        port.accepts(),
    ensures
        port.con_wait(waker).waiting().contains(waker),
        port.prod_wait(waker).waiting().contains(waker),
        port.con_wait(waker).accepts(),
        port.prod_wait(waker).accepts(),
{
    assert(port.con_wait(waker).waiting()[0] == waker);
    assert(port.prod_wait(waker).waiting().last() == waker);
}

/// A stream that is read through a port that stays connected is read as if the
/// port were not there.
pub proof fn law_connected_port_is_transparent<T: IoStream>(
    port: IoPort<T>,
    inner: T,
    cx: Context,
    after: IoPort<T>,
    after_cx: Context,
    result: Poll<Result<Option<T::Item>, T::Error>>,
)
    requires
        port@.connected == Some(inner),
        port.reads(cx, after, after_cx, result),
    ensures
        after@.connected matches Some(left) && inner.reads(cx, left, after_cx, result),
{
}

/// A read of a stream through a connected port is a read of what is connected, and
/// changes nothing else; without a connection the consumer waits for one, unless the
/// port is abandoned, in which case it sees the end.
pub proof fn law_stream_read_goes_through<T: IoStream>(
    port: &mut IoPort<T>,
    cx: &mut Context,
    result: Poll<Result<Option<T::Item>, T::Error>>,
)
    requires
        call_ensures(<IoPort<T> as IoStream>::con_poll_read, (port, cx), result),
    ensures
        old(port)@.connected matches Some(inner) ==> {
            &&& final(port)@.connected matches Some(left)
            &&& inner.reads(*old(cx), left, *final(cx), result)
            &&& final(port)@.con_waker == old(port)@.con_waker
            &&& final(port)@.prod_waker == old(port)@.prod_waker
            &&& final(port)@.predropped == old(port)@.predropped
        },
        old(port)@.connected is None ==> {
            &&& *final(cx) == *old(cx)
            &&& final(port)@.connected is None
            &&& final(port)@.predropped == old(port)@.predropped
            &&& final(port)@.prod_waker == old(port)@.prod_waker
            &&& final(port)@.con_waker == if !old(port)@.predropped {
                Some(old(cx).waker)
            } else {
                old(port)@.con_waker
            }
            &&& old(port)@.predropped ==> result == Poll::Ready(Ok::<Option<T::Item>, T::Error>(None))
            &&& !old(port)@.predropped ==> result is Pending
        },
{
}

/// A read of bytes through a connected port is a read of what is connected, and changes
/// nothing else; without a connection the consumer waits for one, unless the port is
/// abandoned, in which case it sees the end.
pub proof fn law_byte_read_goes_through<T: IoReader>(
    port: &mut IoPort<T>,
    cx: &mut Context,
    max_len: usize,
    result: Poll<Result<Option<Bytes>, T::Error>>,
)
    requires
        call_ensures(<IoPort<T> as IoReader>::con_poll_read, (port, cx, max_len), result),
    ensures
        old(port)@.connected matches Some(inner) ==> {
            &&& final(port)@.connected matches Some(left)
            &&& inner.reads(*old(cx), max_len, left, *final(cx), result)
            &&& final(port)@.con_waker == old(port)@.con_waker
            &&& final(port)@.prod_waker == old(port)@.prod_waker
            &&& final(port)@.predropped == old(port)@.predropped
        },
        old(port)@.connected is None ==> {
            &&& *final(cx) == *old(cx)
            &&& final(port)@.connected is None
            &&& final(port)@.predropped == old(port)@.predropped
            &&& final(port)@.prod_waker == old(port)@.prod_waker
            &&& final(port)@.con_waker == if !old(port)@.predropped {
                Some(old(cx).waker)
            } else {
                old(port)@.con_waker
            }
            &&& old(port)@.predropped ==> result == Poll::Ready(Ok::<Option<Bytes>, T::Error>(None))
            &&& !old(port)@.predropped ==> result is Pending
        },
{
}

/// A poll for readiness through a connected port is one of what is connected, and
/// changes nothing else; without a connection the producer waits for one, unless the
/// port is abandoned, in which case there is nothing left to do.
pub proof fn law_sink_ready_goes_through<T: IoSink<ITEM>, ITEM>(
    port: &mut IoPort<T>,
    cx: &mut Context,
    result: Poll<Result<(), T::Error>>,
)
    requires
        call_ensures(<IoPort<T> as IoSink<ITEM>>::prod_poll_ready, (port, cx), result),
    ensures
        old(port)@.connected matches Some(inner) ==> {
            &&& final(port)@.connected matches Some(left)
            &&& inner.readies(*old(cx), left, *final(cx), result)
            &&& final(port)@.con_waker == old(port)@.con_waker
            &&& final(port)@.prod_waker == old(port)@.prod_waker
            &&& final(port)@.predropped == old(port)@.predropped
        },
        old(port)@.connected is None ==> {
            &&& *final(cx) == *old(cx)
            &&& final(port)@.connected is None
            &&& final(port)@.predropped == old(port)@.predropped
            &&& final(port)@.con_waker == old(port)@.con_waker
            &&& final(port)@.prod_waker == if !old(port)@.predropped {
                Some(old(cx).waker)
            } else {
                old(port)@.prod_waker
            }
            &&& old(port)@.predropped ==> result == Poll::Ready(Ok::<(), T::Error>(()))
            &&& !old(port)@.predropped ==> result is Pending
        },
{
}

/// A flush of a sink through a connected port is one of what is connected, and changes
/// nothing else; without a connection the producer waits for one, unless the port is
/// abandoned, in which case there is nothing left to do.
pub proof fn law_sink_flush_goes_through<T: IoSink<ITEM>, ITEM>(
    port: &mut IoPort<T>,
    cx: &mut Context,
    result: Poll<Result<(), T::Error>>,
)
    requires
        call_ensures(<IoPort<T> as IoSink<ITEM>>::prod_poll_flush, (port, cx), result),
    ensures
        old(port)@.connected matches Some(inner) ==> {
            &&& final(port)@.connected matches Some(left)
            &&& inner.flushes(*old(cx), left, *final(cx), result)
            &&& final(port)@.con_waker == old(port)@.con_waker
            &&& final(port)@.prod_waker == old(port)@.prod_waker
            &&& final(port)@.predropped == old(port)@.predropped
        },
        old(port)@.connected is None ==> {
            &&& *final(cx) == *old(cx)
            &&& final(port)@.connected is None
            &&& final(port)@.predropped == old(port)@.predropped
            &&& final(port)@.con_waker == old(port)@.con_waker
            &&& final(port)@.prod_waker == if !old(port)@.predropped {
                Some(old(cx).waker)
            } else {
                old(port)@.prod_waker
            }
            &&& old(port)@.predropped ==> result == Poll::Ready(Ok::<(), T::Error>(()))
            &&& !old(port)@.predropped ==> result is Pending
        },
{
}

/// A close of a sink through a connected port is one of what is connected, and changes
/// nothing else; without a connection the producer waits for one, unless the port is
/// abandoned, in which case there is nothing left to do.
pub proof fn law_sink_close_goes_through<T: IoSink<ITEM>, ITEM>(
    port: &mut IoPort<T>,
    cx: &mut Context,
    result: Poll<Result<(), T::Error>>,
)
    requires
        call_ensures(<IoPort<T> as IoSink<ITEM>>::prod_poll_close, (port, cx), result),
    ensures
        old(port)@.connected matches Some(inner) ==> {
            &&& final(port)@.connected matches Some(left)
            &&& inner.closes(*old(cx), left, *final(cx), result)
            &&& final(port)@.con_waker == old(port)@.con_waker
            &&& final(port)@.prod_waker == old(port)@.prod_waker
            &&& final(port)@.predropped == old(port)@.predropped
        },
        old(port)@.connected is None ==> {
            &&& *final(cx) == *old(cx)
            &&& final(port)@.connected is None
            &&& final(port)@.predropped == old(port)@.predropped
            &&& final(port)@.con_waker == old(port)@.con_waker
            &&& final(port)@.prod_waker == if !old(port)@.predropped {
                Some(old(cx).waker)
            } else {
                old(port)@.prod_waker
            }
            &&& old(port)@.predropped ==> result == Poll::Ready(Ok::<(), T::Error>(()))
            &&& !old(port)@.predropped ==> result is Pending
        },
{
}

/// A send through a connected port is a send to what is connected, and changes nothing
/// else; without a connection the producer keeps its item and waits for one, unless there
/// is no item or the port is abandoned, in which case the send is done.
pub proof fn law_sink_send_goes_through<T: IoSink<ITEM>, ITEM>(
    port: &mut IoPort<T>,
    cx: &mut Context,
    item: &mut Option<ITEM>,
    result: Poll<Result<(), T::Error>>,
)
    requires
        call_ensures(<IoPort<T> as IoSink<ITEM>>::prod_poll_send, (port, cx, item), result),
    ensures
        old(port)@.connected matches Some(inner) ==> {
            &&& final(port)@.connected matches Some(left)
            &&& inner.sends(*old(cx), *old(item), left, *final(cx), *final(item), result)
            &&& final(port)@.con_waker == old(port)@.con_waker
            &&& final(port)@.prod_waker == old(port)@.prod_waker
            &&& final(port)@.predropped == old(port)@.predropped
        },
        old(port)@.connected is None ==> {
            &&& *final(cx) == *old(cx)
            &&& final(port)@.connected is None
            &&& final(port)@.predropped == old(port)@.predropped
            &&& final(port)@.con_waker == old(port)@.con_waker
            &&& final(port)@.prod_waker == if !old(port)@.predropped && *old(item) is Some {
                Some(old(cx).waker)
            } else {
                old(port)@.prod_waker
            }
            &&& *old(item) is None || old(port)@.predropped ==> result == Poll::Ready(
                Ok::<(), T::Error>(()),
            ) && *final(item) is None
            &&& *old(item) is Some && !old(port)@.predropped ==> result is Pending
                && *final(item) == *old(item)
        },
{
}

/// A flush of a writer through a connected port is one of what is connected, and
/// changes nothing else; without a connection the producer waits for one, unless the
/// port is abandoned, in which case there is nothing left to do.
pub proof fn law_writer_flush_goes_through<T: IoWriter>(
    port: &mut IoPort<T>,
    cx: &mut Context,
    result: Poll<Result<(), T::Error>>,
)
    requires
        call_ensures(<IoPort<T> as IoWriter>::prod_poll_flush, (port, cx), result),
    ensures
        old(port)@.connected matches Some(inner) ==> {
            &&& final(port)@.connected matches Some(left)
            &&& inner.flushes(*old(cx), left, *final(cx), result)
            &&& final(port)@.con_waker == old(port)@.con_waker
            &&& final(port)@.prod_waker == old(port)@.prod_waker
            &&& final(port)@.predropped == old(port)@.predropped
        },
        old(port)@.connected is None ==> {
            &&& *final(cx) == *old(cx)
            &&& final(port)@.connected is None
            &&& final(port)@.predropped == old(port)@.predropped
            &&& final(port)@.con_waker == old(port)@.con_waker
            &&& final(port)@.prod_waker == if !old(port)@.predropped {
                Some(old(cx).waker)
            } else {
                old(port)@.prod_waker
            }
            &&& old(port)@.predropped ==> result == Poll::Ready(Ok::<(), T::Error>(()))
            &&& !old(port)@.predropped ==> result is Pending
        },
{
}

/// A close of a writer through a connected port is one of what is connected, and
/// changes nothing else; without a connection the producer waits for one, unless the
/// port is abandoned, in which case there is nothing left to do.
pub proof fn law_writer_close_goes_through<T: IoWriter>(
    port: &mut IoPort<T>,
    cx: &mut Context,
    result: Poll<Result<(), T::Error>>,
)
    requires
        call_ensures(<IoPort<T> as IoWriter>::prod_poll_close, (port, cx), result),
    ensures
        old(port)@.connected matches Some(inner) ==> {
            &&& final(port)@.connected matches Some(left)
            &&& inner.closes(*old(cx), left, *final(cx), result)
            &&& final(port)@.con_waker == old(port)@.con_waker
            &&& final(port)@.prod_waker == old(port)@.prod_waker
            &&& final(port)@.predropped == old(port)@.predropped
        },
        old(port)@.connected is None ==> {
            &&& *final(cx) == *old(cx)
            &&& final(port)@.connected is None
            &&& final(port)@.predropped == old(port)@.predropped
            &&& final(port)@.con_waker == old(port)@.con_waker
            &&& final(port)@.prod_waker == if !old(port)@.predropped {
                Some(old(cx).waker)
            } else {
                old(port)@.prod_waker
            }
            &&& old(port)@.predropped ==> result == Poll::Ready(Ok::<(), T::Error>(()))
            &&& !old(port)@.predropped ==> result is Pending
        },
{
}

/// A write through a connected port is a write to what is connected, and changes nothing
/// else; without a connection the producer keeps its bytes and waits for one, unless
/// there are no bytes, or the port is abandoned, in which case they are discarded.
pub proof fn law_write_goes_through<T: IoWriter>(
    port: &mut IoPort<T>,
    cx: &mut Context,
    bytes: &mut Bytes,
    result: Poll<Result<usize, T::Error>>,
)
    requires
        call_ensures(<IoPort<T> as IoWriter>::prod_poll_write, (port, cx, bytes), result),
    ensures
        old(port)@.connected matches Some(inner) ==> {
            &&& final(port)@.connected matches Some(left)
            &&& inner.writes(*old(cx), *old(bytes), left, *final(cx), *final(bytes), result)
            &&& final(port)@.con_waker == old(port)@.con_waker
            &&& final(port)@.prod_waker == old(port)@.prod_waker
            &&& final(port)@.predropped == old(port)@.predropped
        },
        old(port)@.connected is None ==> {
            &&& *final(cx) == *old(cx)
            &&& final(port)@.connected is None
            &&& final(port)@.predropped == old(port)@.predropped
            &&& final(port)@.con_waker == old(port)@.con_waker
            &&& final(port)@.prod_waker == if !old(port)@.predropped && crate::byte_buf::contents(*old(bytes)).len() > 0 {
                Some(old(cx).waker)
            } else {
                old(port)@.prod_waker
            }
            &&& crate::byte_buf::contents(*old(bytes)).len() == 0 || old(port)@.predropped ==> {
                &&& result matches Poll::Ready(Ok(n))
                &&& n == crate::byte_buf::contents(*old(bytes)).len()
                &&& crate::byte_buf::contents(*final(bytes)).len() == 0
            }
            &&& crate::byte_buf::contents(*old(bytes)).len() > 0 && !old(port)@.predropped ==> {
                &&& result is Pending
                &&& *final(bytes) == *old(bytes)
            }
        },
{
    if let Poll::Ready(Ok(n)) = result {
        assert(crate::byte_buf::contents(*final(bytes)).len() == crate::byte_buf::contents(
            *old(bytes),
        ).len() - n);
    }
}

/// A consumer that gives up a connected stream gives up what is connected; one that gives up
/// before there is a connection abandons the port, and wakes nobody.
pub proof fn law_stream_drop_goes_through<T: IoStream>(port: &mut IoPort<T>, woken: &mut WakeQueue)
    requires
        call_ensures(<IoPort<T> as IoStream>::drop_read, (port, woken), ()),
    ensures
        old(port)@.connected matches Some(inner) ==> {
            &&& final(port)@.connected matches Some(left)
            &&& inner.drops(old(woken)@, left, final(woken)@)
            &&& final(port)@.predropped == old(port)@.predropped
        },
        old(port)@.connected is None ==> {
            &&& final(port)@.connected is None
            &&& final(port)@.predropped
            &&& final(woken)@ == old(woken)@
        },
        final(port)@.con_waker == old(port)@.con_waker,
        final(port)@.prod_waker == old(port)@.prod_waker,
{
}

/// A consumer that gives up a connected reader gives up what is connected; one that gives up
/// before there is a connection abandons the port, and wakes nobody.
pub proof fn law_reader_drop_goes_through<T: IoReader>(port: &mut IoPort<T>, woken: &mut WakeQueue)
    requires
        call_ensures(<IoPort<T> as IoReader>::drop_read, (port, woken), ()),
    ensures
        old(port)@.connected matches Some(inner) ==> {
            &&& final(port)@.connected matches Some(left)
            &&& inner.drops(old(woken)@, left, final(woken)@)
            &&& final(port)@.predropped == old(port)@.predropped
        },
        old(port)@.connected is None ==> {
            &&& final(port)@.connected is None
            &&& final(port)@.predropped
            &&& final(woken)@ == old(woken)@
        },
        final(port)@.con_waker == old(port)@.con_waker,
        final(port)@.prod_waker == old(port)@.prod_waker,
{
}

/// A consumer that asks for the connection gets it if it is there, the end if the port is
/// abandoned, and is registered otherwise.  Nothing else changes, and nobody is woken.
pub proof fn law_consumer_gets_the_connection<T>(
    port: &mut IoPort<T>,
    cx: &mut Context,
    result: Poll<Option<&T>>,
)
    requires
        call_ensures(IoPort::<T>::con_poll_connected, (port, cx), result),
    ensures
        old(port)@.connected matches Some(inner) ==> result == Poll::Ready(Some(&inner)),
        old(port)@.connected is None && old(port)@.predropped ==> result == Poll::Ready(
            None::<&T>,
        ),
        result is Pending <==> old(port)@.connected is None && !old(port)@.predropped,
        final(port)@.con_waker == if result is Pending {
            Some(old(cx).waker)
        } else {
            old(port)@.con_waker
        },
        final(port)@.prod_waker == old(port)@.prod_waker,
        final(port)@.connected == old(port)@.connected,
        final(port)@.predropped == old(port)@.predropped,
        *final(cx) == *old(cx),
{
}

/// A producer that asks for the connection gets it if it is there, the end if the port is
/// abandoned, and is registered otherwise.  Nothing else changes, and nobody is woken.
pub proof fn law_producer_gets_the_connection<T>(
    port: &mut IoPort<T>,
    cx: &mut Context,
    result: Poll<Option<&T>>,
)
    requires
        call_ensures(IoPort::<T>::prod_poll_connected, (port, cx), result),
    ensures
        old(port)@.connected matches Some(inner) ==> result == Poll::Ready(Some(&inner)),
        old(port)@.connected is None && old(port)@.predropped ==> result == Poll::Ready(
            None::<&T>,
        ),
        result is Pending <==> old(port)@.connected is None && !old(port)@.predropped,
        final(port)@.prod_waker == if result is Pending {
            Some(old(cx).waker)
        } else {
            old(port)@.prod_waker
        },
        final(port)@.con_waker == old(port)@.con_waker,
        final(port)@.connected == old(port)@.connected,
        final(port)@.predropped == old(port)@.predropped,
        *final(cx) == *old(cx),
{
}

/// A port takes a connection if it has none and was not abandoned, and then wakes the
/// consumer and the producer if they wait for it; otherwise nothing changes.
pub proof fn law_connect_reaches_both_sides<T>(
    port: &mut IoPort<T>,
    value: T,
    woken: &mut WakeQueue,
    result: Result<(), ()>,
)
    requires
        call_ensures(IoPort::<T>::connect, (port, value, woken), result),
    ensures
        result is Ok <==> old(port)@.connected is None && !old(port)@.predropped,
        result is Ok ==> {
            &&& final(port)@.connected == Some(value)
            &&& final(port)@.con_waker is None
            &&& final(port)@.prod_waker is None
            &&& !final(port)@.predropped
            &&& final(woken)@ == old(woken)@ + crate::waker_ref::wakes_of(old(port)@.con_waker)
                + crate::waker_ref::wakes_of(old(port)@.prod_waker)
        },
        result is Err ==> final(port)@ == old(port)@ && final(woken)@ == old(woken)@,
{
}

/// A reset port has no connection and is not abandoned, and who waits for a connection
/// goes on waiting.
pub proof fn law_reset_port_can_be_connected<T>(port: &mut IoPort<T>)
    requires
        call_ensures(IoPort::<T>::reset, (port,), ()),
    ensures
        final(port)@.connected is None,
        !final(port)@.predropped,
        final(port)@.con_waker == old(port)@.con_waker,
        final(port)@.prod_waker == old(port)@.prod_waker,
{
}

/// A port can be abandoned exactly as long as it is not connected, and changes in nothing
/// else.
pub proof fn law_predrop_comes_before_the_connection<T>(port: &mut IoPort<T>, predropped: bool)
    requires
        call_ensures(IoPort::<T>::try_predrop, (port,), predropped),
    ensures
        predropped == (old(port)@.connected is None),
        final(port)@.predropped == (predropped || old(port)@.predropped),
        final(port)@.connected == old(port)@.connected,
        final(port)@.con_waker == old(port)@.con_waker,
        final(port)@.prod_waker == old(port)@.prod_waker,
{
}

/// Giving a port up hands back what is connected, and wakes who waits for a connection.
/// A new port has none, is not abandoned, and nobody waits for it.
pub proof fn law_release_wakes_who_waits<T>(
    port: IoPort<T>,
    woken: &mut WakeQueue,
    connected: Option<T>,
    new: IoPort<T>,
)
    requires
        call_ensures(IoPort::<T>::release, (port, woken), connected),
        call_ensures(IoPort::<T>::new, (), new),
    ensures
        connected == port@.connected,
        final(woken)@ == old(woken)@ + crate::waker_ref::wakes_of(port@.con_waker)
            + crate::waker_ref::wakes_of(port@.prod_waker),
        new@.connected is None,
        new@.con_waker is None,
        new@.prod_waker is None,
        !new@.predropped,
{
}

/// Closing a byte exchange through a port closes the exchange: with nothing in flight the
/// close is complete at once, and the next read through the port sees the end.
pub proof fn law_close_through_a_port_ends_the_stream(
    port: &mut IoPort<crate::io_bytes_exchange::IoBytesExchange>,
    cx: &mut Context,
    closed: Poll<Result<(), crate::io_exchange::ExchangeWriteError>>,
    after: &mut IoPort<crate::io_bytes_exchange::IoBytesExchange>,
    reader_cx: &mut Context,
    max_len: usize,
    read: Poll<Result<Option<Bytes>, crate::io_error::IoError>>,
)
    requires
        old(port)@.connected matches Some(inner) && inner.wf() && inner@.slot.len() == 0
            && inner@.handshake.state != crate::exchange_state::ExchangeState::Dropped,
        call_ensures(<IoPort<crate::io_bytes_exchange::IoBytesExchange> as IoWriter>::prod_poll_close, (port, cx), closed),
        *after == *final(port),
        call_ensures(
            <IoPort<crate::io_bytes_exchange::IoBytesExchange> as IoReader>::con_poll_read,
            (after, reader_cx, max_len),
            read,
        ),
    ensures
        closed == Poll::Ready(Ok::<(), crate::io_exchange::ExchangeWriteError>(())),
        final(port)@.connected matches Some(left) && left@.handshake.state == crate::exchange_state::ExchangeState::Done,
        read == Poll::Ready(Ok::<Option<Bytes>, crate::io_error::IoError>(None)),
{
}

} // verus!
