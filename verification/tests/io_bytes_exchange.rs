use bytes::Bytes;

use procmachines::exchange_state::ExchangeState;
use procmachines::io_bytes_exchange::IoBytesExchange;
use procmachines::io_exchange::ExchangeWriteError;
use procmachines::io_reader::IoReader;
use procmachines::io_writer::IoWriter;
use procmachines::{Context, Poll, WakeQueue, Waker};

#[test]
fn new_exchange_starts_empty() {
    let mut ex = IoBytesExchange::new();
    assert_eq!(ex.state(), ExchangeState::Empty);
    assert!(ex.in_flight() == 0);
}

#[test]
fn write_then_read() {
    let mut ex = IoBytesExchange::new();
    let ww = Waker::new(1);
    let mut wcx = Context::from_waker(&ww);
    let rw = Waker::new(2);
    let mut rcx = Context::from_waker(&rw);

    let mut payload = Bytes::from_static(b"hello");
    let n = match ex.prod_poll_write(&mut wcx, &mut payload) {
        Poll::Ready(Ok(n)) => n,
        other => panic!("expected Ready(Ok(_)), got {:?}", other),
    };
    assert_eq!(n, 5);
    assert!(payload.is_empty());
    assert_eq!(ex.state(), ExchangeState::Full);

    match ex.con_poll_read(&mut rcx, 1024) {
        Poll::Ready(Ok(Some(data))) => assert_eq!(&data[..], b"hello"),
        other => panic!("expected Ready(Ok(Some(hello))), got {:?}", other),
    }
    assert_eq!(ex.state(), ExchangeState::Empty);
}

#[test]
fn write_empty_bytes_is_noop() {
    let mut ex = IoBytesExchange::new();
    let ww = Waker::new(1);
    let mut wcx = Context::from_waker(&ww);

    let mut empty = Bytes::new();
    match ex.prod_poll_write(&mut wcx, &mut empty) {
        Poll::Ready(Ok(0)) => {}
        other => panic!("expected Ready(Ok(0)), got {:?}", other),
    }
    // State should still be EMPTY — nothing was sent.
    assert_eq!(ex.state(), ExchangeState::Empty);
}

#[test]
fn read_zero_on_empty_returns_pending() {
    let mut ex = IoBytesExchange::new();
    let rw = Waker::new(1);
    let mut rcx = Context::from_waker(&rw);

    // max_len=0 on an empty exchange should return Pending (no data,
    // and we can't say the stream is in error).
    match ex.con_poll_read(&mut rcx, 0) {
        Poll::Pending => {}
        other => panic!("expected Pending, got {:?}", other),
    }
}

#[test]
fn read_zero_on_full_returns_some_empty() {
    let mut ex = IoBytesExchange::new();
    let ww = Waker::new(1);
    let mut wcx = Context::from_waker(&ww);
    let rwaker = Waker::new(2);
    let mut rcx = Context::from_waker(&rwaker);

    let mut payload = Bytes::from_static(b"data");
    let _ = ex.prod_poll_write(&mut wcx, &mut payload);

    wcx.woken.drain();
    rcx.woken.drain();
    // max_len=0 on a full exchange: "stream is alive" → Some(empty).
    match ex.con_poll_read(&mut rcx, 0) {
        Poll::Ready(Ok(Some(data))) => assert!(data.is_empty()),
        other => panic!("expected Ready(Ok(Some(empty))), got {:?}", other),
    }
    // Data should still be in the slot (not consumed).
    assert_eq!(ex.state(), ExchangeState::Full);
    // con_poll* contract: a non-consuming Ready (max_len == 0 probe on
    // a live stream) must not pre-wake the caller.
    assert_eq!(wcx.woken.count(&rwaker) + rcx.woken.count(&rwaker), 0, "max_len=0 probe must not pre-wake");
}

#[test]
fn partial_read_splits_data() {
    let mut ex = IoBytesExchange::new();
    let ww = Waker::new(1);
    let mut wcx = Context::from_waker(&ww);
    let rwaker = Waker::new(2);
    let mut rcx = Context::from_waker(&rwaker);

    let mut payload = Bytes::from_static(b"abcdef");
    let _ = ex.prod_poll_write(&mut wcx, &mut payload);

    // Read only 3 bytes.
    wcx.woken.drain();
    rcx.woken.drain();
    match ex.con_poll_read(&mut rcx, 3) {
        Poll::Ready(Ok(Some(data))) => assert_eq!(&data[..], b"abc"),
        other => panic!("expected 'abc', got {:?}", other),
    }
    // State should still be FULL (remainder in slot).
    assert_eq!(ex.state(), ExchangeState::Full);
    // Reader should have been pre-emptively woken (more data available).
    assert!(
        wcx.woken.count(&rwaker) + rcx.woken.count(&rwaker) > 0,
        "reader waker should fire after partial read"
    );

    // Read the rest.
    match ex.con_poll_read(&mut rcx, 1024) {
        Poll::Ready(Ok(Some(data))) => assert_eq!(&data[..], b"def"),
        other => panic!("expected 'def', got {:?}", other),
    }
    assert_eq!(ex.state(), ExchangeState::Empty);
}

#[test]
fn write_when_full_returns_pending() {
    let mut ex = IoBytesExchange::new();
    let ww = Waker::new(1);
    let mut wcx = Context::from_waker(&ww);

    let mut a = Bytes::from_static(b"first");
    let _ = ex.prod_poll_write(&mut wcx, &mut a);
    assert_eq!(ex.state(), ExchangeState::Full);

    let mut b = Bytes::from_static(b"second");
    match ex.prod_poll_write(&mut wcx, &mut b) {
        Poll::Pending => {}
        other => panic!("expected Pending, got {:?}", other),
    }
}

#[test]
fn read_on_empty_returns_pending() {
    let mut ex = IoBytesExchange::new();
    let rw = Waker::new(1);
    let mut rcx = Context::from_waker(&rw);

    match ex.con_poll_read(&mut rcx, 1024) {
        Poll::Pending => {}
        other => panic!("expected Pending, got {:?}", other),
    }
}

#[test]
fn writer_is_woken_after_read_frees_slot() {
    let mut ex = IoBytesExchange::new();
    let wwaker = Waker::new(1);
    let mut wcx = Context::from_waker(&wwaker);
    let rw = Waker::new(2);
    let mut rcx = Context::from_waker(&rw);

    let mut payload = Bytes::from_static(b"x");
    let _ = ex.prod_poll_write(&mut wcx, &mut payload);

    // Second write should Pend and register the writer waker.
    wcx.woken.drain();
    rcx.woken.drain();
    let mut more = Bytes::from_static(b"y");
    assert!(matches!(
        ex.prod_poll_write(&mut wcx, &mut more),
        Poll::Pending
    ));

    // Reader consumes → writer should be woken.
    wcx.woken.drain();
    rcx.woken.drain();
    let _ = ex.con_poll_read(&mut rcx, 1024);
    assert!(wcx.woken.count(&wwaker) + rcx.woken.count(&wwaker) > 0, "writer should be woken when slot is freed");
}

#[test]
fn reader_is_woken_after_write_fills_slot() {
    let mut ex = IoBytesExchange::new();
    let rwaker = Waker::new(1);
    let mut rcx = Context::from_waker(&rwaker);
    let ww = Waker::new(2);
    let mut wcx = Context::from_waker(&ww);

    // Reader tries to read an empty slot.
    rcx.woken.drain();
    wcx.woken.drain();
    assert!(matches!(
        ex.con_poll_read(&mut rcx, 1024),
        Poll::Pending
    ));

    // Writer places data → reader should be woken.
    rcx.woken.drain();
    wcx.woken.drain();
    let mut payload = Bytes::from_static(b"wake-up");
    let _ = ex.prod_poll_write(&mut wcx, &mut payload);
    assert!(rcx.woken.count(&rwaker) + wcx.woken.count(&rwaker) > 0, "reader should be woken when data arrives");
}

#[test]
fn flush_on_empty_completes_after_reader_ack() {
    let mut ex = IoBytesExchange::new();
    let ww = Waker::new(1);
    let mut wcx = Context::from_waker(&ww);
    let rw = Waker::new(2);
    let mut rcx = Context::from_waker(&rw);

    // Flush on an empty slot: writer requests flush.
    match ex.prod_poll_flush(&mut wcx) {
        Poll::Pending => {}
        other => panic!("expected Pending, got {:?}", other),
    }
    assert_eq!(ex.state(), ExchangeState::EmptyFlush);

    // Reader polls and acknowledges the flush.
    match ex.con_poll_read(&mut rcx, 1024) {
        Poll::Pending => {}
        other => panic!("expected Pending (ack), got {:?}", other),
    }
    assert_eq!(ex.state(), ExchangeState::EmptyFlushed);

    // Writer sees the acknowledgement.
    match ex.prod_poll_flush(&mut wcx) {
        Poll::Ready(Ok(())) => {}
        other => panic!("expected Ready(Ok(())), got {:?}", other),
    }
}

#[test]
fn flush_on_full_completes_after_read_and_ack() {
    let mut ex = IoBytesExchange::new();
    let ww = Waker::new(1);
    let mut wcx = Context::from_waker(&ww);
    let rw = Waker::new(2);
    let mut rcx = Context::from_waker(&rw);

    // Write data, then flush.
    let mut payload = Bytes::from_static(b"flush-me");
    let _ = ex.prod_poll_write(&mut wcx, &mut payload);
    match ex.prod_poll_flush(&mut wcx) {
        Poll::Pending => {}
        other => panic!("expected Pending, got {:?}", other),
    }
    assert_eq!(ex.state(), ExchangeState::FullFlush);

    // Reader consumes the data → state becomes EMPTY_FLUSH.
    match ex.con_poll_read(&mut rcx, 1024) {
        Poll::Ready(Ok(Some(data))) => assert_eq!(&data[..], b"flush-me"),
        other => panic!("expected data, got {:?}", other),
    }
    assert_eq!(ex.state(), ExchangeState::EmptyFlush);

    // Reader polls again → acknowledges the flush.
    match ex.con_poll_read(&mut rcx, 1024) {
        Poll::Pending => {}
        other => panic!("expected Pending (ack), got {:?}", other),
    }
    assert_eq!(ex.state(), ExchangeState::EmptyFlushed);

    // Writer sees flush complete.
    match ex.prod_poll_flush(&mut wcx) {
        Poll::Ready(Ok(())) => {}
        other => panic!("expected Ready(Ok(())), got {:?}", other),
    }
}

#[test]
fn flush_already_flushed_returns_ready() {
    let mut ex = IoBytesExchange::new();
    let ww = Waker::new(1);
    let mut wcx = Context::from_waker(&ww);
    let rw = Waker::new(2);
    let mut rcx = Context::from_waker(&rw);

    // Get to EMPTY_FLUSHED via the normal path.
    let _ = ex.prod_poll_flush(&mut wcx); // EMPTY → EMPTY_FLUSH
    let _ = ex.con_poll_read(&mut rcx, 1024); // EMPTY_FLUSH → EMPTY_FLUSHED

    // A second flush should return Ready immediately.
    match ex.prod_poll_flush(&mut wcx) {
        Poll::Ready(Ok(())) => {}
        other => panic!("expected immediate Ready(Ok(())), got {:?}", other),
    }
}

#[test]
fn close_on_empty_goes_to_done() {
    let mut ex = IoBytesExchange::new();
    let ww = Waker::new(1);
    let mut wcx = Context::from_waker(&ww);
    let rw = Waker::new(2);
    let mut rcx = Context::from_waker(&rw);

    match ex.prod_poll_close(&mut wcx) {
        Poll::Ready(Ok(())) => {}
        other => panic!("expected Ready(Ok(())), got {:?}", other),
    }
    assert_eq!(ex.state(), ExchangeState::Done);

    // Reader sees EOF.
    match ex.con_poll_read(&mut rcx, 1024) {
        Poll::Ready(Ok(None)) => {}
        other => panic!("expected Ready(Ok(None)), got {:?}", other),
    }
}

#[test]
fn close_on_full_delivers_last_item_then_eof() {
    let mut ex = IoBytesExchange::new();
    let ww = Waker::new(1);
    let mut wcx = Context::from_waker(&ww);
    let rw = Waker::new(2);
    let mut rcx = Context::from_waker(&rw);

    // Write data then close.
    let mut payload = Bytes::from_static(b"last");
    let _ = ex.prod_poll_write(&mut wcx, &mut payload);
    match ex.prod_poll_close(&mut wcx) {
        Poll::Pending => {}
        other => panic!("expected Pending, got {:?}", other),
    }
    assert_eq!(ex.state(), ExchangeState::FullClosed);

    // Reader gets the last item.
    match ex.con_poll_read(&mut rcx, 1024) {
        Poll::Ready(Ok(Some(data))) => assert_eq!(&data[..], b"last"),
        other => panic!("expected data, got {:?}", other),
    }
    assert_eq!(ex.state(), ExchangeState::Done);

    // Subsequent read returns EOF.
    match ex.con_poll_read(&mut rcx, 1024) {
        Poll::Ready(Ok(None)) => {}
        other => panic!("expected EOF, got {:?}", other),
    }
}

#[test]
fn close_is_idempotent() {
    let mut ex = IoBytesExchange::new();
    let ww = Waker::new(1);
    let mut wcx = Context::from_waker(&ww);

    let _ = ex.prod_poll_close(&mut wcx);
    assert_eq!(ex.state(), ExchangeState::Done);

    // Closing again should still return Ok.
    match ex.prod_poll_close(&mut wcx) {
        Poll::Ready(Ok(())) => {}
        other => panic!("expected Ready(Ok(())), got {:?}", other),
    }
}

#[test]
fn drop_read_signals_writer() {
    let mut ex = IoBytesExchange::new();
    let mut woken = WakeQueue::new();
    let wwaker = Waker::new(1);
    let mut wcx = Context::from_waker(&wwaker);

    // Fill the slot so a second write has to block (Pending path
    // registers the writer's waker, per the prod_poll* contract).
    let mut payload = Bytes::from_static(b"first");
    let _ = ex.prod_poll_write(&mut wcx, &mut payload);
    let mut more = Bytes::from_static(b"second");
    assert!(matches!(
        ex.prod_poll_write(&mut wcx, &mut more),
        Poll::Pending
    ));

    // Reader drops — the registered writer waker should fire.
    wcx.woken.drain();
    ex.drop_read(&mut woken);
    assert_eq!(ex.state(), ExchangeState::Dropped);
    // In-flight data should be discarded.
    assert!(ex.in_flight() == 0);
    assert!(woken.count(&wwaker) > 0, "writer should be woken on reader drop");

    // Subsequent write returns ReaderDropped.
    let mut more = Bytes::from_static(b"nope");
    match ex.prod_poll_write(&mut wcx, &mut more) {
        Poll::Ready(Err(ExchangeWriteError::ReaderDropped)) => {}
        other => panic!("expected ReaderDropped, got {:?}", other),
    }
}

#[test]
fn drop_read_on_empty() {
    let mut ex = IoBytesExchange::new();
    let mut woken = WakeQueue::new();
    let ww = Waker::new(1);
    let mut wcx = Context::from_waker(&ww);

    ex.drop_read(&mut woken);
    assert_eq!(ex.state(), ExchangeState::Dropped);

    let mut data = Bytes::from_static(b"x");
    match ex.prod_poll_write(&mut wcx, &mut data) {
        Poll::Ready(Err(ExchangeWriteError::ReaderDropped)) => {}
        other => panic!("expected ReaderDropped, got {:?}", other),
    }
}

#[test]
fn drop_read_is_idempotent() {
    let mut ex = IoBytesExchange::new();
    let mut woken = WakeQueue::new();
    ex.drop_read(&mut woken);
    ex.drop_read(&mut woken); // should not panic
    assert_eq!(ex.state(), ExchangeState::Dropped);
}

#[test]
fn drop_read_after_done_is_noop() {
    let mut ex = IoBytesExchange::new();
    let mut woken = WakeQueue::new();
    let ww = Waker::new(1);
    let mut wcx = Context::from_waker(&ww);
    let _ = ex.prod_poll_close(&mut wcx);
    assert_eq!(ex.state(), ExchangeState::Done);

    ex.drop_read(&mut woken);
    // Should stay DONE, not change to DROPPED.
    assert_eq!(ex.state(), ExchangeState::Done);
}

#[test]
fn read_after_done_returns_none() {
    let mut ex = IoBytesExchange::new();
    let ww = Waker::new(1);
    let mut wcx = Context::from_waker(&ww);
    let rw = Waker::new(2);
    let mut rcx = Context::from_waker(&rw);

    let _ = ex.prod_poll_close(&mut wcx);

    for _ in 0..3 {
        match ex.con_poll_read(&mut rcx, 1024) {
            Poll::Ready(Ok(None)) => {}
            other => panic!("expected None, got {:?}", other),
        }
    }
}

#[test]
fn read_after_dropped_returns_none() {
    let mut ex = IoBytesExchange::new();
    let mut woken = WakeQueue::new();
    let rw = Waker::new(1);
    let mut rcx = Context::from_waker(&rw);

    ex.drop_read(&mut woken);

    match ex.con_poll_read(&mut rcx, 1024) {
        Poll::Ready(Ok(None)) => {}
        other => panic!("expected None, got {:?}", other),
    }
}

#[test]
fn write_after_done_returns_error() {
    let mut ex = IoBytesExchange::new();
    let ww = Waker::new(1);
    let mut wcx = Context::from_waker(&ww);

    let _ = ex.prod_poll_close(&mut wcx);

    let mut data = Bytes::from_static(b"too late");
    match ex.prod_poll_write(&mut wcx, &mut data) {
        Poll::Ready(Err(_)) => {}
        other => panic!("expected error after DONE, got {:?}", other),
    }
}

#[test]
fn flush_after_done_returns_ok() {
    let mut ex = IoBytesExchange::new();
    let ww = Waker::new(1);
    let mut wcx = Context::from_waker(&ww);

    let _ = ex.prod_poll_close(&mut wcx);

    match ex.prod_poll_flush(&mut wcx) {
        Poll::Ready(Ok(())) => {}
        other => panic!("expected Ok after DONE, got {:?}", other),
    }
}

#[test]
fn flush_after_dropped_returns_ok() {
    let mut ex = IoBytesExchange::new();
    let mut woken = WakeQueue::new();
    let ww = Waker::new(1);
    let mut wcx = Context::from_waker(&ww);

    ex.drop_read(&mut woken);

    match ex.prod_poll_flush(&mut wcx) {
        Poll::Ready(Ok(())) => {}
        other => panic!("expected Ok after DROPPED, got {:?}", other),
    }
}

#[test]
fn close_after_dropped_returns_ok() {
    let mut ex = IoBytesExchange::new();
    let mut woken = WakeQueue::new();
    let ww = Waker::new(1);
    let mut wcx = Context::from_waker(&ww);

    ex.drop_read(&mut woken);

    match ex.prod_poll_close(&mut wcx) {
        Poll::Ready(Ok(())) => {}
        other => panic!("expected Ok after DROPPED, got {:?}", other),
    }
}

#[test]
fn close_on_full_flush_transitions_to_full_closed() {
    let mut ex = IoBytesExchange::new();
    let ww = Waker::new(1);
    let mut wcx = Context::from_waker(&ww);
    let rw = Waker::new(2);
    let mut rcx = Context::from_waker(&rw);

    // Write + flush → FULL_FLUSH.
    let mut payload = Bytes::from_static(b"data");
    let _ = ex.prod_poll_write(&mut wcx, &mut payload);
    let _ = ex.prod_poll_flush(&mut wcx);
    assert_eq!(ex.state(), ExchangeState::FullFlush);

    // Close should supersede the flush.
    match ex.prod_poll_close(&mut wcx) {
        Poll::Pending => {}
        other => panic!("expected Pending, got {:?}", other),
    }
    assert_eq!(ex.state(), ExchangeState::FullClosed);

    // Reader gets the data.
    match ex.con_poll_read(&mut rcx, 1024) {
        Poll::Ready(Ok(Some(data))) => assert_eq!(&data[..], b"data"),
        other => panic!("expected data, got {:?}", other),
    }
    assert_eq!(ex.state(), ExchangeState::Done);
}

#[test]
fn multiple_write_read_cycles() {
    let mut ex = IoBytesExchange::new();
    let ww = Waker::new(1);
    let mut wcx = Context::from_waker(&ww);
    let rw = Waker::new(2);
    let mut rcx = Context::from_waker(&rw);

    for i in 0u32..10 {
        let msg = format!("msg-{}", i);
        let mut payload = Bytes::from(msg.clone());
        match ex.prod_poll_write(&mut wcx, &mut payload) {
            Poll::Ready(Ok(n)) => assert_eq!(n, msg.len()),
            other => panic!("cycle {}: write failed: {:?}", i, other),
        }

        match ex.con_poll_read(&mut rcx, 1024) {
            Poll::Ready(Ok(Some(data))) => assert_eq!(data, Bytes::from(msg)),
            other => panic!("cycle {}: read failed: {:?}", i, other),
        }
    }
}

#[test]
fn partial_reads_drain_slot_correctly() {
    let mut ex = IoBytesExchange::new();
    let ww = Waker::new(1);
    let mut wcx = Context::from_waker(&ww);
    let rw = Waker::new(2);
    let mut rcx = Context::from_waker(&rw);

    let mut payload = Bytes::from_static(b"0123456789");
    let _ = ex.prod_poll_write(&mut wcx, &mut payload);

    // Read 4 at a time.
    match ex.con_poll_read(&mut rcx, 4) {
        Poll::Ready(Ok(Some(data))) => assert_eq!(&data[..], b"0123"),
        other => panic!("unexpected: {:?}", other),
    }
    assert_eq!(ex.state(), ExchangeState::Full);

    match ex.con_poll_read(&mut rcx, 4) {
        Poll::Ready(Ok(Some(data))) => assert_eq!(&data[..], b"4567"),
        other => panic!("unexpected: {:?}", other),
    }
    assert_eq!(ex.state(), ExchangeState::Full);

    // Last 2 bytes — less than max_len, so slot becomes empty.
    match ex.con_poll_read(&mut rcx, 4) {
        Poll::Ready(Ok(Some(data))) => assert_eq!(&data[..], b"89"),
        other => panic!("unexpected: {:?}", other),
    }
    assert_eq!(ex.state(), ExchangeState::Empty);
}

#[test]
fn partial_read_with_close_defers_done() {
    let mut ex = IoBytesExchange::new();
    let ww = Waker::new(1);
    let mut wcx = Context::from_waker(&ww);
    let rw = Waker::new(2);
    let mut rcx = Context::from_waker(&rw);

    let mut payload = Bytes::from_static(b"abcd");
    let _ = ex.prod_poll_write(&mut wcx, &mut payload);
    let _ = ex.prod_poll_close(&mut wcx);
    assert_eq!(ex.state(), ExchangeState::FullClosed);

    // Partial read — slot stays FULL_CLOSED because data remains.
    match ex.con_poll_read(&mut rcx, 2) {
        Poll::Ready(Ok(Some(data))) => assert_eq!(&data[..], b"ab"),
        other => panic!("unexpected: {:?}", other),
    }
    assert_eq!(ex.state(), ExchangeState::FullClosed);

    // Drain the rest — now it should transition to DONE.
    match ex.con_poll_read(&mut rcx, 1024) {
        Poll::Ready(Ok(Some(data))) => assert_eq!(&data[..], b"cd"),
        other => panic!("unexpected: {:?}", other),
    }
    assert_eq!(ex.state(), ExchangeState::Done);

    // EOF.
    match ex.con_poll_read(&mut rcx, 1024) {
        Poll::Ready(Ok(None)) => {}
        other => panic!("expected EOF, got {:?}", other),
    }
}

#[test]
fn eof_with_max_len_gt_zero_wakes_reader() {
    let mut ex = IoBytesExchange::new();
    let rwaker = Waker::new(1);
    let mut rcx = Context::from_waker(&rwaker);
    let ww = Waker::new(2);
    let mut wcx = Context::from_waker(&ww);

    let _ = ex.prod_poll_close(&mut wcx);

    rcx.woken.drain();
    wcx.woken.drain();
    match ex.con_poll_read(&mut rcx, 1024) {
        Poll::Ready(Ok(None)) => {}
        other => panic!("expected None, got {:?}", other),
    }
    // The reader should pre-emptively wake itself for consumption
    // requests on terminal states.
    assert!(
        rcx.woken.count(&rwaker) + wcx.woken.count(&rwaker) > 0,
        "reader should self-wake on EOF consumption request"
    );
}

#[test]
fn eof_with_max_len_zero_pre_wakes_reader() {
    let mut ex = IoBytesExchange::new();
    let rwaker = Waker::new(1);
    let mut rcx = Context::from_waker(&rwaker);
    let ww = Waker::new(2);
    let mut wcx = Context::from_waker(&ww);

    let _ = ex.prod_poll_close(&mut wcx);

    rcx.woken.drain();
    wcx.woken.drain();
    match ex.con_poll_read(&mut rcx, 0) {
        Poll::Ready(Ok(None)) => {}
        other => panic!("expected None, got {:?}", other),
    }
    // con_poll* contract: each EOS return counts as consumption, so
    // it pre-wakes even with max_len == 0.  The caller is responsible
    // for recognising the signal and breaking out of its loop.
    assert!(
        rcx.woken.count(&rwaker) + wcx.woken.count(&rwaker) > 0,
        "reader should self-wake on EOF regardless of max_len"
    );
}

#[test]
fn close_on_empty_flush_goes_to_done() {
    let mut ex = IoBytesExchange::new();
    let ww = Waker::new(1);
    let mut wcx = Context::from_waker(&ww);

    // Get to EMPTY_FLUSH.
    let _ = ex.prod_poll_flush(&mut wcx);
    assert_eq!(ex.state(), ExchangeState::EmptyFlush);

    // Close should transition directly to DONE.
    match ex.prod_poll_close(&mut wcx) {
        Poll::Ready(Ok(())) => {}
        other => panic!("expected Ready(Ok(())), got {:?}", other),
    }
    assert_eq!(ex.state(), ExchangeState::Done);
}

#[test]
fn close_on_empty_flushed_goes_to_done() {
    let mut ex = IoBytesExchange::new();
    let ww = Waker::new(1);
    let mut wcx = Context::from_waker(&ww);
    let rw = Waker::new(2);
    let mut rcx = Context::from_waker(&rw);

    // Get to EMPTY_FLUSHED.
    let _ = ex.prod_poll_flush(&mut wcx);
    let _ = ex.con_poll_read(&mut rcx, 1024);
    assert_eq!(ex.state(), ExchangeState::EmptyFlushed);

    match ex.prod_poll_close(&mut wcx) {
        Poll::Ready(Ok(())) => {}
        other => panic!("expected Ready(Ok(())), got {:?}", other),
    }
    assert_eq!(ex.state(), ExchangeState::Done);
}

#[test]
fn drop_read_during_flush() {
    let mut ex = IoBytesExchange::new();
    let mut woken = WakeQueue::new();
    let ww = Waker::new(1);
    let mut wcx = Context::from_waker(&ww);

    let mut payload = Bytes::from_static(b"data");
    let _ = ex.prod_poll_write(&mut wcx, &mut payload);
    let _ = ex.prod_poll_flush(&mut wcx);
    assert_eq!(ex.state(), ExchangeState::FullFlush);

    ex.drop_read(&mut woken);
    assert_eq!(ex.state(), ExchangeState::Dropped);

    // Flush should now return Ok (terminal state).
    match ex.prod_poll_flush(&mut wcx) {
        Poll::Ready(Ok(())) => {}
        other => panic!("expected Ok after drop, got {:?}", other),
    }
}

#[test]
fn write_after_done_is_an_invalid_state_and_keeps_the_bytes() {
    let mut ex = IoBytesExchange::new();
    let mut cx = Context::from_waker(&Waker::new(1));
    assert_eq!(ex.prod_poll_close(&mut cx), Poll::Ready(Ok(())));
    let mut data = Bytes::from_static(b"late");
    assert_eq!(
        ex.prod_poll_write(&mut cx, &mut data),
        Poll::Ready(Err(ExchangeWriteError::InvalidState))
    );
    assert_eq!(&data[..], b"late");
}

#[test]
fn blocked_write_keeps_the_bytes() {
    let mut ex = IoBytesExchange::new();
    let mut cx = Context::from_waker(&Waker::new(1));
    let mut first = Bytes::from_static(b"first");
    let mut second = Bytes::from_static(b"second");
    assert_eq!(ex.prod_poll_write(&mut cx, &mut first), Poll::Ready(Ok(5)));
    assert_eq!(ex.prod_poll_write(&mut cx, &mut second), Poll::Pending);
    assert_eq!(&second[..], b"second");
    assert_eq!(ex.in_flight(), 5);
}

#[test]
fn reads_of_any_length_make_up_what_was_written() {
    let text = b"the quick brown fox";
    for len in 1..25 {
        let mut ex = IoBytesExchange::new();
        let mut cx = Context::from_waker(&Waker::new(1));
        let mut data = Bytes::from_static(text);
        assert_eq!(ex.prod_poll_write(&mut cx, &mut data), Poll::Ready(Ok(text.len())));
        assert!(data.is_empty());
        assert_eq!(ex.prod_poll_close(&mut cx), Poll::Pending);
        let mut all: Vec<u8> = Vec::new();
        loop {
            match ex.con_poll_read(&mut cx, len) {
                Poll::Ready(Ok(Some(piece))) => {
                    assert!(!piece.is_empty() && piece.len() <= len);
                    all.extend_from_slice(&piece);
                }
                Poll::Ready(Ok(None)) => break,
                other => panic!("unexpected {:?}", other),
            }
        }
        assert_eq!(&all[..], text);
    }
}

#[test]
fn reset_discards_data_and_wakes_both_sides() {
    let mut ex = IoBytesExchange::new();
    let reader = Waker::new(1);
    let writer = Waker::new(2);
    let mut rcx = Context::from_waker(&reader);
    let mut wcx = Context::from_waker(&writer);
    assert!(ex.con_poll_read(&mut rcx, 8).is_pending());
    assert!(ex.prod_poll_flush(&mut wcx).is_ready());
    let mut data = Bytes::from_static(b"gone");
    assert_eq!(ex.prod_poll_write(&mut wcx, &mut data), Poll::Ready(Ok(4)));
    assert_eq!(wcx.woken.drain(), vec![reader]);
    assert!(ex.prod_poll_close(&mut wcx).is_pending());
    let mut woken = WakeQueue::new();
    ex.reset(&mut woken);
    assert_eq!(woken.drain(), vec![writer]);
    assert_eq!(ex.state(), ExchangeState::Empty);
    assert_eq!(ex.in_flight(), 0);
}

#[test]
fn default_bytes_exchange_is_empty() {
    let ex = IoBytesExchange::default();
    assert_eq!(ex.state(), ExchangeState::Empty);
    assert_eq!(ex.in_flight(), 0);
}

/// What the writing task does, one after the other.
enum Deed {
    Write(&'static [u8]),
    Flush,
    Close,
}

/// Runs a writing and a reading task on one exchange, each only when it has been woken,
/// until both are finished.  Returns the chunks that the reader has got before the end.
fn run_tasks(deeds: Vec<Deed>) -> Vec<Bytes> {
    let writer = Waker::new(1);
    let reader = Waker::new(2);
    let mut ex = IoBytesExchange::new();
    let mut deeds = deeds.into_iter().peekable();
    let mut received = Vec::new();
    let mut ended = false;
    let mut ready = std::collections::VecDeque::from(vec![writer, reader]);
    while let Some(task) = ready.pop_front() {
        let mut cx = Context::from_waker(&task);
        if task == writer {
            while let Some(deed) = deeds.peek() {
                let done = match deed {
                    Deed::Write(chunk) => {
                        let mut data = Bytes::from_static(chunk);
                        match ex.prod_poll_write(&mut cx, &mut data) {
                            Poll::Ready(result) => {
                                assert_eq!(result, Ok(chunk.len()));
                                true
                            }
                            Poll::Pending => false,
                        }
                    }
                    Deed::Flush => match ex.prod_poll_flush(&mut cx) {
                        Poll::Ready(result) => {
                            assert_eq!(result, Ok(()));
                            assert_eq!(ex.in_flight(), 0);
                            true
                        }
                        Poll::Pending => false,
                    },
                    Deed::Close => match ex.prod_poll_close(&mut cx) {
                        Poll::Ready(result) => {
                            assert_eq!(result, Ok(()));
                            true
                        }
                        Poll::Pending => false,
                    },
                };
                if !done {
                    break;
                }
                deeds.next();
            }
        } else if !ended {
            match ex.con_poll_read(&mut cx, 1024) {
                Poll::Ready(Ok(Some(data))) => received.push(data),
                Poll::Ready(Ok(None)) => ended = true,
                Poll::Ready(Err(err)) => panic!("unexpected {:?}", err),
                Poll::Pending => {}
            }
        }
        ready.extend(cx.woken.drain());
    }
    assert!(deeds.peek().is_none(), "the writer was never woken again");
    assert!(ended, "expected EOF");
    received
}

#[test]
fn async_write_read_roundtrip() {
    let received = run_tasks(vec![Deed::Write(b"async-hello"), Deed::Close]);
    assert_eq!(received, vec![Bytes::from_static(b"async-hello")]);
}

#[test]
fn async_multiple_chunks() {
    let received = run_tasks(vec![
        Deed::Write(b"one"),
        Deed::Write(b"two"),
        Deed::Write(b"three"),
        Deed::Close,
    ]);
    let all: Vec<&[u8]> = received.iter().map(|b| &b[..]).collect();
    assert_eq!(all, vec![b"one" as &[u8], b"two", b"three"]);
}

#[test]
fn async_flush_handshake() {
    let received = run_tasks(vec![
        Deed::Write(b"flush-test"),
        Deed::Flush,
        Deed::Write(b"post-flush"),
        Deed::Close,
    ]);
    assert_eq!(received.len(), 2);
    assert_eq!(&received[0][..], b"flush-test");
    assert_eq!(&received[1][..], b"post-flush");
}
