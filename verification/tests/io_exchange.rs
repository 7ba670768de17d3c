use procmachines::exchange_state::ExchangeState;
use procmachines::io_error::IoError;
use procmachines::io_exchange::IoExchange;
use procmachines::io_sink::IoSink;
use procmachines::io_stream::IoStream;
use procmachines::{Context, Poll, WakeQueue, Waker};

/// Runs a closure with the context of a task that nobody looks at.
fn with_noop_cx<T>(f: impl FnOnce(&mut Context) -> T) -> T {
    let mut cx = Context::from_waker(&Waker::new(0));
    f(&mut cx)
}

#[test]
fn send_receive_single_item() {
    let mut r = IoExchange::new();

    let pending = with_noop_cx(|cx| r.con_poll_read(cx));
    assert!(matches!(pending, Poll::Pending));

    let ready = with_noop_cx(|cx| r.prod_poll_ready(cx));
    assert!(matches!(ready, Poll::Ready(Ok(()))));

    match with_noop_cx(|cx| r.prod_poll_send(cx, &mut Some(42))) {
        Poll::Ready(Ok(_)) => (),
        _ => panic!(),
    }

    let pending = with_noop_cx(|cx| r.prod_poll_ready(cx));
    assert!(matches!(pending, Poll::Pending));

    let next = with_noop_cx(|cx| r.con_poll_read(cx));
    assert!(matches!(next, Poll::Ready(Ok(Some(42)))));

    let ready = with_noop_cx(|cx| r.prod_poll_ready(cx));
    assert!(matches!(ready, Poll::Ready(Ok(()))));

    let pending = with_noop_cx(|cx| r.con_poll_read(cx));
    assert!(matches!(pending, Poll::Pending));
}

#[test]
fn flush_on_empty_requires_check() {
    let mut r: IoExchange<i32> = IoExchange::new();

    let flushed = with_noop_cx(|cx| r.prod_poll_flush(cx));
    assert!(matches!(flushed, Poll::Pending));

    let flushed = with_noop_cx(|cx| r.prod_poll_flush(cx));
    assert!(matches!(flushed, Poll::Pending));

    let read = with_noop_cx(|cx| r.con_poll_read(cx));
    assert!(matches!(read, Poll::Pending));

    let flushed = with_noop_cx(|cx| r.prod_poll_flush(cx));
    assert!(matches!(flushed, Poll::Ready(Ok(()))));

    let ready = with_noop_cx(|cx| r.prod_poll_ready(cx));
    assert!(matches!(ready, Poll::Ready(Ok(()))));
}

#[test]
fn flush_waits_for_in_flight_item_and_check() {
    let mut r = IoExchange::new();
    match with_noop_cx(|cx| r.prod_poll_send(cx, &mut Some(7))) {
        Poll::Ready(Ok(_)) => (),
        _ => panic!(),
    }

    let pending = with_noop_cx(|cx| r.prod_poll_flush(cx));
    assert!(matches!(pending, Poll::Pending));

    let next = with_noop_cx(|cx| r.con_poll_read(cx));
    assert!(matches!(next, Poll::Ready(Ok(Some(7)))));

    let flushed = with_noop_cx(|cx| r.prod_poll_flush(cx));
    assert!(matches!(flushed, Poll::Pending));

    let next = with_noop_cx(|cx| r.con_poll_read(cx));
    assert!(matches!(next, Poll::Pending));

    let flushed = with_noop_cx(|cx| r.prod_poll_flush(cx));
    assert!(matches!(flushed, Poll::Ready(Ok(()))));
}

#[test]
fn close_when_empty_finishes_stream() {
    let mut r: IoExchange<i32> = IoExchange::new();

    let closed = with_noop_cx(|cx| r.prod_poll_close(cx));
    assert!(matches!(closed, Poll::Ready(Ok(()))));

    let end = with_noop_cx(|cx| r.con_poll_read(cx));
    assert!(matches!(end, Poll::Ready(Ok(None))));
}

#[test]
fn close_after_full_delivers_last_item() {
    let mut r = IoExchange::new();
    match with_noop_cx(|cx| r.prod_poll_send(cx, &mut Some(11))) {
        Poll::Ready(Ok(_)) => (),
        _ => panic!(),
    }

    let pending = with_noop_cx(|cx| r.prod_poll_close(cx));
    assert!(matches!(pending, Poll::Pending));

    let next = with_noop_cx(|cx| r.con_poll_read(cx));
    assert!(matches!(next, Poll::Ready(Ok(Some(11)))));

    let end = with_noop_cx(|cx| r.con_poll_read(cx));
    assert!(matches!(end, Poll::Ready(Ok(None))));

    let closed = with_noop_cx(|cx| r.prod_poll_close(cx));
    assert!(matches!(closed, Poll::Ready(Ok(()))));
}

#[test]
fn start_send_on_full_is_invalid_state() {
    let mut r: IoExchange<i32> = IoExchange::new();
    match with_noop_cx(|cx| r.prod_poll_send(cx, &mut Some(1))) {
        Poll::Ready(Ok(_)) => (),
        _ => panic!(),
    }
    match with_noop_cx(|cx| r.prod_poll_send(cx, &mut Some(2))) {
        Poll::Pending => (),
        _ => panic!(),
    }
}

#[test]
fn reader_dropped_errors() {
    let mut r = IoExchange::<i32>::new();
    r.drop_read(&mut WakeQueue::new());
    assert_eq!(r.state(), ExchangeState::Dropped);

    let ready = with_noop_cx(|cx| r.prod_poll_ready(cx));
    assert!(matches!(ready, Poll::Ready(Err(IoError::BrokenPipe))));
    let ready = with_noop_cx(|cx| r.prod_poll_send(cx, &mut Some(1)));
    assert!(matches!(ready, Poll::Ready(Err(IoError::BrokenPipe))));
}

#[test]
fn con_poll_read_pre_wakes_on_consume_and_eof() {
    // Pre-wake when an item is consumed, and again when EOS is
    // consumed (each EOS return counts as consumption).
    let mut r = IoExchange::new();
    let w = Waker::new(1);
    let mut cx = Context::from_waker(&w);

    match r.prod_poll_send(&mut cx, &mut Some(99)) {
        Poll::Ready(Ok(())) => {}
        other => panic!("expected send Ok, got {:?}", other),
    }
    cx.woken.drain();
    match r.con_poll_read(&mut cx) {
        Poll::Ready(Ok(Some(99))) => {}
        other => panic!("expected Ready(Some(99)), got {:?}", other),
    }
    assert!(cx.woken.count(&w) > 0, "consuming an item must pre-wake");

    match r.prod_poll_close(&mut cx) {
        Poll::Ready(Ok(())) => {}
        other => panic!("expected close Ok, got {:?}", other),
    }
    cx.woken.drain();
    match r.con_poll_read(&mut cx) {
        Poll::Ready(Ok(None)) => {}
        other => panic!("expected Ready(None), got {:?}", other),
    }
    assert!(cx.woken.count(&w) > 0, "consuming EOS must pre-wake");
}

#[test]
fn sent_item_is_read_once() {
    let mut r = IoExchange::new();
    let mut item = Some(5);
    assert_eq!(with_noop_cx(|cx| r.prod_poll_send(cx, &mut item)), Poll::Ready(Ok(())));
    assert_eq!(item, None);
    assert_eq!(with_noop_cx(|cx| r.con_poll_read(cx)), Poll::Ready(Ok(Some(5))));
    assert_eq!(r.state(), ExchangeState::Empty);
    assert_eq!(with_noop_cx(|cx| r.con_poll_read(cx)), Poll::Pending);
}

#[test]
fn refused_item_stays_with_the_writer() {
    let mut r = IoExchange::new();
    let mut item = Some(2);
    assert_eq!(with_noop_cx(|cx| r.prod_poll_send(cx, &mut Some(1))), Poll::Ready(Ok(())));
    assert_eq!(with_noop_cx(|cx| r.prod_poll_send(cx, &mut item)), Poll::Pending);
    assert_eq!(item, Some(2));
    assert_eq!(with_noop_cx(|cx| r.con_poll_read(cx)), Poll::Ready(Ok(Some(1))));
}

#[test]
fn sending_nothing_does_nothing() {
    let mut r: IoExchange<i32> = IoExchange::new();
    assert_eq!(with_noop_cx(|cx| r.prod_poll_send(cx, &mut None)), Poll::Ready(Ok(())));
    assert_eq!(r.state(), ExchangeState::Empty);
    r.drop_read(&mut WakeQueue::new());
    assert_eq!(with_noop_cx(|cx| r.prod_poll_send(cx, &mut None)), Poll::Ready(Ok(())));
}

#[test]
fn closed_exchange_refuses_items() {
    let mut r: IoExchange<i32> = IoExchange::new();
    assert_eq!(with_noop_cx(|cx| r.prod_poll_close(cx)), Poll::Ready(Ok(())));
    assert_eq!(
        with_noop_cx(|cx| r.prod_poll_ready(cx)),
        Poll::Ready(Err(IoError::InvalidState))
    );
    let mut item = Some(3);
    assert_eq!(
        with_noop_cx(|cx| r.prod_poll_send(cx, &mut item)),
        Poll::Ready(Err(IoError::InvalidState))
    );
    assert_eq!(item, Some(3));
}

#[test]
fn read_after_drop_is_an_error() {
    let mut r: IoExchange<i32> = IoExchange::new();
    r.drop_read(&mut WakeQueue::new());
    assert_eq!(
        with_noop_cx(|cx| r.con_poll_read(cx)),
        Poll::Ready(Err(IoError::InvalidState))
    );
}

#[test]
fn drop_read_wakes_the_writer_and_discards_the_item() {
    let mut r = IoExchange::new();
    let w = Waker::new(9);
    let mut cx = Context::from_waker(&w);
    assert_eq!(r.prod_poll_send(&mut cx, &mut Some(1)), Poll::Ready(Ok(())));
    assert_eq!(r.prod_poll_ready(&mut cx), Poll::Pending);
    let mut woken = WakeQueue::new();
    r.drop_read(&mut woken);
    assert_eq!(woken.drain(), vec![w]);
    assert_eq!(r.state(), ExchangeState::Dropped);
}

#[test]
fn reset_starts_over_and_wakes_both_sides() {
    let mut r = IoExchange::new();
    let reader = Waker::new(1);
    let writer = Waker::new(2);
    let mut reader_cx = Context::from_waker(&reader);
    let mut writer_cx = Context::from_waker(&writer);
    assert_eq!(r.con_poll_read(&mut reader_cx), Poll::Pending);
    assert_eq!(r.prod_poll_send(&mut writer_cx, &mut Some(1)), Poll::Ready(Ok(())));
    // The waiting reader was woken by the item.
    assert_eq!(writer_cx.woken.drain(), vec![reader]);
    assert_eq!(r.prod_poll_close(&mut writer_cx), Poll::Pending);
    let mut woken = WakeQueue::new();
    r.reset(&mut woken);
    assert_eq!(woken.drain(), vec![writer]);
    assert_eq!(r.state(), ExchangeState::Empty);
    assert_eq!(r.con_poll_read(&mut reader_cx), Poll::Pending);
}

#[test]
fn flush_survives_the_item_and_completes_when_the_reader_sees_the_empty_slot() {
    let mut r = IoExchange::new();
    let reader = Waker::new(1);
    let writer = Waker::new(2);
    let mut reader_cx = Context::from_waker(&reader);
    let mut writer_cx = Context::from_waker(&writer);
    assert_eq!(r.prod_poll_send(&mut writer_cx, &mut Some(1)), Poll::Ready(Ok(())));
    assert_eq!(r.prod_poll_flush(&mut writer_cx), Poll::Pending);
    assert_eq!(r.state(), ExchangeState::FullFlush);
    assert_eq!(r.con_poll_read(&mut reader_cx), Poll::Ready(Ok(Some(1))));
    assert_eq!(reader_cx.woken.drain(), vec![writer, reader]);
    assert_eq!(r.state(), ExchangeState::EmptyFlush);
    assert_eq!(r.prod_poll_flush(&mut writer_cx), Poll::Pending);
    assert_eq!(r.con_poll_read(&mut reader_cx), Poll::Pending);
    assert_eq!(reader_cx.woken.drain(), vec![writer]);
    assert_eq!(r.prod_poll_flush(&mut writer_cx), Poll::Ready(Ok(())));
}

#[test]
fn default_exchange_is_empty() {
    let r: IoExchange<i32> = IoExchange::default();
    assert_eq!(r.state(), ExchangeState::Empty);
}
