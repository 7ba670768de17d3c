# procmachines

Pollable building blocks for procedural state machines, verified with
[Verus](https://github.com/verus-lang/verus).

A state machine is easiest to test and to reuse when all of its inputs and outputs
are on its surface and none of them touches real I/O.  This crate has the parts that
such machines communicate through: single-slot exchanges for items and bytes, ports
and connectable wrappers, observable values, clocks with alarms, wait loops, and the
decisions behind adapters for asynchronous streams, sinks, readers and writers.

## Layout

- `src/` is the library.  Every item of it is verified: each function has a contract
  over a mathematical model of the object it works on, and the promises that span
  several calls are proof functions named `law_*`.
- `app/` surrounds the library with locks, the wakers of an executor, futures, and
  the I/O handles of `futures` and `tokio`.  A handle in a `Plug` can be connected to
  a port or a connectable wrapper in place of an exchange.
- `tests/` runs the library on concrete values.

## Tasks and wake-ups

The library runs no task.  A task is a number, a `Waker` carries it, and a wake-up is
an entry in a `WakeQueue`; a poll method gets a `Context` with both.  So contracts can
say exactly which tasks a call wakes, and in which order:

```rust
let mut ex = IoExchange::new();
let mut reader = Context::from_waker(&Waker::new(1));
let mut writer = Context::from_waker(&Waker::new(2));

assert!(ex.con_poll_read(&mut reader).is_pending());
assert!(ex.prod_poll_send(&mut writer, &mut Some(42)).is_ready());
assert_eq!(writer.woken.drain(), vec![Waker::new(1)]);
```

## Modules

| Module | What it has |
|--------|-------------|
| `task`, `waker_ref` | wakers, wake queues, poll contexts |
| `io_stream`, `io_sink`, `io_reader`, `io_writer` | the four I/O traits, and adapters for streams and sinks |
| `exchange_state`, `io_exchange`, `io_bytes_exchange` | single-slot rendezvous channels and their state machine |
| `io_port`, `connectables` | endpoints that are connected at runtime |
| `tokio_reader_writer`, `buf_provider` | buffering for asynchronous readers and writers |
| `input_value`, `watchable_value` | observable values |
| `intrusive_list`, `alarm_clock` | the list of waiting nodes, clocks and alarms |
| `wait_loop` | manual polling loops |
| `io_error` | the common error type |
| `byte_buf`, `formatting` | what is used of the `bytes` crate and of `core::fmt` |
