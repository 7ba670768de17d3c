//! Pollable building blocks for procedural state machines, with verified behaviour.
//!
//! It's often advantageous to encapsulate logic in a *state machine*: a simple
//! object with all of its inputs and outputs on its surface, disconnected from
//! any I/O or infrastructure so that it is easy to test and reuse.  This crate
//! has the parts that such machines communicate through:
//!
//! - the [`IoStream`], [`IoSink`], [`IoReader`] and [`IoWriter`] traits, with
//!   [`IoExchange`] and [`IoBytesExchange`] as single-slot rendezvous channels;
//! - [`IoPort`] and the wrappers in [`connectables`] for connecting I/O objects
//!   at runtime, and [`StreamIoStream`], [`SinkIoSink`], [`ReaderIoReader`] and
//!   [`WriterIoWriter`] for I/O handles;
//! - [`InputValue`] and [`WatchableValue`] for observable values;
//! - [`AlarmClock`] and [`ClockAlarm`] for time, which is just another input;
//! - the [`wait_loop()`] helper for manual `poll`-style loops.
//!
//! # Tasks and wake-ups
//!
//! The crate runs no task and touches no executor.  A task is known by a number,
//! a [`Waker`] carries that number, and a wake-up is an entry in a [`WakeQueue`];
//! see [`task`].  Nothing here has interior mutability either: whoever shares an
//! object keeps it behind a lock, and delivers the wake-ups once the lock is
//! released.
//!
//! # Polling roles and semantics
//!
//! The objects are polled much like futures, but some are polled by more than one
//! task, and most can be polled many times and be ready many times.  Every polling
//! method has a prefix indicating the role of the calling task; for each object one
//! task is allowed per role, and the object remembers one waker per role:
//!
//! - `external_poll_*` — for an external process that manages or controls the
//!   object.
//! - `prod_poll_*` — for an item/information *producer*.  These provide no
//!   special behaviour when they are ready.
//! - `con_poll_*` — for an item/information *consumer*.  When a ready return
//!   indicates that something was *consumed*, the caller is woken again when more
//!   might be available, often by pre-waking it before the return.
//! - `alarm_poll_*` — for a task waiting for an event or condition.  Once it
//!   is ready, it stays ready until the condition is reset.
//! - `watch_poll_*` — for a task watching for changes.  The caller is woken the
//!   next time the watched item changes, whether the call was ready or not.
//!
//! What each method does is stated by its contract over a model of the object (the
//! `view` of each type), and the promises that span several calls are stated by the
//! proof functions whose names begin with `law_`.

pub mod alarm_clock;
pub mod buf_provider;
pub mod byte_buf;
pub mod connectables;
pub mod exchange_state;
pub mod formatting;
pub mod input_value;
pub mod intrusive_list;
pub mod io_bytes_exchange;
pub mod io_error;
pub mod io_exchange;
pub mod io_port;
pub mod io_reader;
pub mod io_sink;
pub mod io_stream;
pub mod io_writer;
mod seq_facts;
pub mod task;
pub mod tokio_reader_writer;
pub mod wait_loop;
pub mod waker_ref;
pub mod watchable_value;

pub use alarm_clock::{AlarmClock, ClockAlarm};
pub use buf_provider::{AsyncBufProvider, CyclicBufProvider};
pub use connectables::{
    ConnectableIoReader, ConnectableIoSink, ConnectableIoStream, ConnectableIoWriter,
};
pub use exchange_state::ExchangeState;
pub use input_value::InputValue;
pub use io_bytes_exchange::IoBytesExchange;
pub use io_error::IoError;
pub use io_exchange::{ExchangeWriteError, IoExchange};
pub use io_port::IoPort;
pub use io_reader::IoReader;
pub use io_sink::{IoSink, SendPlan, SinkIoSink};
pub use io_stream::{IoStream, StreamIoStream};
pub use io_writer::IoWriter;
pub use task::{Context, Poll, WakeQueue, Waker};
pub use tokio_reader_writer::{
    plan_read, FillOutcome, ReadPlan, ReadStart, ReaderIoReader, WriterIoWriter,
};
pub use wait_loop::{wait_loop, Loop, WaitLoop};
pub use waker_ref::WakerRef;
pub use watchable_value::{ValueWatch, WatchableValue};
