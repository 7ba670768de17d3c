use procmachines::watchable_value::{ValueWatch, WatchableValue};
use procmachines::{Context, Poll, WakeQueue, Waker};

/// The wake-ups that were asked for so far.
struct Log {
    woken: WakeQueue,
    next_task: u64,
}

impl Log {
    fn new() -> Log {
        Log { woken: WakeQueue::new(), next_task: 0 }
    }

    fn task(&mut self) -> Waker {
        self.next_task += 1;
        Waker::new(self.next_task)
    }

    fn count(&self, waker: &Waker) -> usize {
        self.woken.count(waker)
    }

    fn note(&mut self, mut cx: Context) {
        for waker in cx.woken.drain() {
            self.woken.push(waker);
        }
    }
}

fn poll_watch<T: Clone>(
    watch: &ValueWatch,
    wv: &mut WatchableValue<T>,
    waker: &Waker,
    log: &mut Log,
) -> Poll<T> {
    let mut cx = Context::from_waker(waker);
    let result = watch.watch_poll(wv, &mut cx);
    log.note(cx);
    result
}

#[test]
fn watchable_value_new_and_get() {
    let wv = WatchableValue::new(42u64);
    assert_eq!(wv.get(), 42);
}

#[test]
fn watchable_value_set_and_get() {
    let mut log = Log::new();
    let mut wv = WatchableValue::new(0u64);
    wv.set(100, &mut log.woken);
    assert_eq!(wv.get(), 100);
}

#[test]
fn watchable_value_debug() {
    let wv = WatchableValue::new(99u64);
    let dbg = format!("{:?}", wv);
    assert!(dbg.contains("WatchableValue"));
    assert!(dbg.contains("99"));
}

#[test]
fn first_poll_returns_ready() {
    let mut log = Log::new();
    let mut wv = WatchableValue::new(42u64);
    let watch = ValueWatch::new(&mut wv);
    let waker = log.task();

    assert_eq!(poll_watch(&watch, &mut wv, &waker, &mut log), Poll::Ready(42u64));
}

#[test]
fn pending_when_value_unchanged() {
    let mut log = Log::new();
    let mut wv = WatchableValue::new(42u64);
    let watch = ValueWatch::new(&mut wv);
    let waker = log.task();
    assert_eq!(poll_watch(&watch, &mut wv, &waker, &mut log), Poll::Ready(42));

    assert_eq!(poll_watch(&watch, &mut wv, &waker, &mut log), Poll::Pending);
    // Poll again without changing the value
    assert_eq!(poll_watch(&watch, &mut wv, &waker, &mut log), Poll::Pending);
}

#[test]
fn ready_when_value_changed() {
    let mut log = Log::new();
    let mut wv = WatchableValue::new(42u64);
    let watch = ValueWatch::new(&mut wv);
    let waker = log.task();

    assert_eq!(poll_watch(&watch, &mut wv, &waker, &mut log), Poll::Ready(42));
    wv.set(99, &mut log.woken);
    assert_eq!(poll_watch(&watch, &mut wv, &waker, &mut log), Poll::Ready(99));
}

#[test]
fn ready_returns_latest_value() {
    let mut log = Log::new();
    let mut wv = WatchableValue::new(0u64);
    let watch = ValueWatch::new(&mut wv);
    let waker = log.task();

    assert_eq!(poll_watch(&watch, &mut wv, &waker, &mut log), Poll::Ready(0));
    // Multiple changes before next poll
    wv.set(10, &mut log.woken);
    wv.set(20, &mut log.woken);
    wv.set(30, &mut log.woken);
    // Should return the latest value
    assert_eq!(poll_watch(&watch, &mut wv, &waker, &mut log), Poll::Ready(30));
}

#[test]
fn ready_then_ready_then_pending() {
    let mut log = Log::new();
    let mut wv = WatchableValue::new(0u64);
    let watch = ValueWatch::new(&mut wv);
    let waker = log.task();

    wv.set(0, &mut log.woken);
    assert_eq!(poll_watch(&watch, &mut wv, &waker, &mut log), Poll::Ready(0));
    assert_eq!(log.count(&waker), 0);
    // Multiple changes before next poll
    wv.set(10, &mut log.woken);
    assert_eq!(log.count(&waker), 1);
    assert_eq!(poll_watch(&watch, &mut wv, &waker, &mut log), Poll::Ready(10));
    assert_eq!(log.count(&waker), 1);
    wv.set(20, &mut log.woken);
    assert_eq!(log.count(&waker), 2);
    assert_eq!(poll_watch(&watch, &mut wv, &waker, &mut log), Poll::Ready(20));
    assert_eq!(log.count(&waker), 2);
    assert_eq!(poll_watch(&watch, &mut wv, &waker, &mut log), Poll::Pending);
}

#[test]
fn set_wakes_watcher() {
    let mut log = Log::new();
    let mut wv = WatchableValue::new(0u64);
    let watch = ValueWatch::new(&mut wv);
    let waker = log.task();

    assert_eq!(poll_watch(&watch, &mut wv, &waker, &mut log), Poll::Ready(0));
    assert_eq!(poll_watch(&watch, &mut wv, &waker, &mut log), Poll::Pending);
    assert_eq!(log.count(&waker), 0);

    wv.set(42, &mut log.woken);
    assert_eq!(log.count(&waker), 1);
}

#[test]
fn set_same_value_still_wakes() {
    // Setting the value always counts as a change and wakes watchers,
    // even when the new value equals the old (T: !PartialEq).
    let mut log = Log::new();
    let mut wv = WatchableValue::new(42u64);
    let watch = ValueWatch::new(&mut wv);
    let waker = log.task();

    assert_eq!(poll_watch(&watch, &mut wv, &waker, &mut log), Poll::Ready(42));
    assert_eq!(poll_watch(&watch, &mut wv, &waker, &mut log), Poll::Pending);
    wv.set(42, &mut log.woken);
    assert_eq!(log.count(&waker), 1);
    assert_eq!(poll_watch(&watch, &mut wv, &waker, &mut log), Poll::Ready(42));
}

#[test]
fn multiple_watchers_all_notified() {
    let mut log = Log::new();
    let mut wv = WatchableValue::new(0u64);
    let w1 = ValueWatch::new(&mut wv);
    let w2 = ValueWatch::new(&mut wv);

    let wk1 = log.task();
    let wk2 = log.task();

    assert_eq!(poll_watch(&w1, &mut wv, &wk1, &mut log), Poll::Ready(0));
    assert_eq!(poll_watch(&w2, &mut wv, &wk2, &mut log), Poll::Ready(0));
    assert_eq!(poll_watch(&w1, &mut wv, &wk1, &mut log), Poll::Pending);
    assert_eq!(poll_watch(&w2, &mut wv, &wk2, &mut log), Poll::Pending);

    wv.set(99, &mut log.woken);
    assert_eq!(log.count(&wk1), 1);
    assert_eq!(log.count(&wk2), 1);
    assert_eq!(poll_watch(&w1, &mut wv, &wk1, &mut log), Poll::Ready(99));
    assert_eq!(poll_watch(&w2, &mut wv, &wk2, &mut log), Poll::Ready(99));
}

#[test]
fn can_watch_again_after_ready() {
    let mut log = Log::new();
    let mut wv = WatchableValue::new(0u64);
    let watch = ValueWatch::new(&mut wv);
    let waker = log.task();

    // First cycle
    assert_eq!(poll_watch(&watch, &mut wv, &waker, &mut log), Poll::Ready(0));
    wv.set(10, &mut log.woken);
    assert_eq!(poll_watch(&watch, &mut wv, &waker, &mut log), Poll::Ready(10));

    // Second cycle: pending again until next change
    assert_eq!(poll_watch(&watch, &mut wv, &waker, &mut log), Poll::Pending);
    wv.set(20, &mut log.woken);
    assert_eq!(log.count(&waker), 2);
    assert_eq!(poll_watch(&watch, &mut wv, &waker, &mut log), Poll::Ready(20));
}

#[test]
fn drop_watch_while_linked() {
    let mut log = Log::new();
    let mut wv = WatchableValue::new(0u64);
    let waker = log.task();

    let watch = ValueWatch::new(&mut wv);
    assert_eq!(poll_watch(&watch, &mut wv, &waker, &mut log), Poll::Ready(0));
    // watch is linked and leaves here
    watch.release(&mut wv);

    // Should not panic
    wv.set(99, &mut log.woken);
    assert_eq!(log.count(&waker), 0);
}

#[test]
fn drop_watch_before_polling() {
    let mut log = Log::new();
    let mut wv = WatchableValue::new(0u64);
    let watch = ValueWatch::new(&mut wv);
    watch.release(&mut wv);
    // Should not panic
    wv.set(100, &mut log.woken);
}

#[test]
fn drop_multiple_watches() {
    let mut log = Log::new();
    let mut wv = WatchableValue::new(0u64);
    let waker = log.task();

    let w1 = ValueWatch::new(&mut wv);
    let w2 = ValueWatch::new(&mut wv);

    assert_eq!(poll_watch(&w1, &mut wv, &waker, &mut log), Poll::Ready(0));
    assert_eq!(poll_watch(&w2, &mut wv, &waker, &mut log), Poll::Ready(0));
    // w2 leaves here
    w2.release(&mut wv);
    // w1 should still work
    wv.set(42, &mut log.woken);
    assert_eq!(poll_watch(&w1, &mut wv, &waker, &mut log), Poll::Ready(42));
    w1.release(&mut wv);
}

#[test]
fn repoll_updates_waker() {
    let mut log = Log::new();
    let mut wv = WatchableValue::new(0u64);
    let watch = ValueWatch::new(&mut wv);

    let wk1 = log.task();
    assert_eq!(poll_watch(&watch, &mut wv, &wk1, &mut log), Poll::Ready(0));
    assert_eq!(poll_watch(&watch, &mut wv, &wk1, &mut log), Poll::Pending);

    let wk2 = log.task();
    assert_eq!(poll_watch(&watch, &mut wv, &wk2, &mut log), Poll::Pending);

    wv.set(5, &mut log.woken);
    assert_eq!(log.count(&wk1), 0);
    assert_eq!(log.count(&wk2), 1);
}

#[test]
fn watch_poll_returns_ready_then_ready() {
    let mut log = Log::new();
    let mut wv = WatchableValue::new(0u64);
    let watch = ValueWatch::new(&mut wv);
    let waker = log.task();
    let mut cx = Context::from_waker(&waker);

    assert_eq!(watch.watch_poll(&mut wv, &mut cx), Poll::Ready(0));
    wv.set(77, &mut log.woken);
    assert_eq!(watch.watch_poll(&mut wv, &mut cx), Poll::Ready(77));
}

#[test]
fn watch_check_returns_value_and_arms_the_watch() {
    let mut log = Log::new();
    let mut wv = WatchableValue::new(1u64);
    let watch = ValueWatch::new(&mut wv);
    let waker = log.task();
    let mut cx = Context::from_waker(&waker);

    assert_eq!(watch.watch_check(&mut wv, &mut cx), 1);
    // The change is consumed.
    assert_eq!(watch.watch_poll(&mut wv, &mut cx), Poll::Pending);
    // Checking is not edge-triggered.
    assert_eq!(watch.watch_check(&mut wv, &mut cx), 1);
    wv.set(2, &mut log.woken);
    assert_eq!(log.count(&waker), 1);
    assert_eq!(watch.watch_check(&mut wv, &mut cx), 2);
    assert_eq!(watch.watch_poll(&mut wv, &mut cx), Poll::Pending);
    assert_eq!(cx.woken.len(), 0);
}

#[test]
fn several_changes_wake_once() {
    let mut log = Log::new();
    let mut wv = WatchableValue::new(0u64);
    let watch = ValueWatch::new(&mut wv);
    let waker = log.task();
    assert_eq!(poll_watch(&watch, &mut wv, &waker, &mut log), Poll::Ready(0));
    wv.set(1, &mut log.woken);
    wv.set(2, &mut log.woken);
    assert_eq!(log.count(&waker), 1);
}

#[test]
fn watchers_are_woken_in_the_order_in_which_they_began_to_wait() {
    let mut log = Log::new();
    let mut wv = WatchableValue::new(0u64);
    let a = ValueWatch::new(&mut wv);
    let b = ValueWatch::new(&mut wv);
    let wk1 = log.task();
    let wk2 = log.task();
    assert_eq!(poll_watch(&b, &mut wv, &wk2, &mut log), Poll::Ready(0));
    assert_eq!(poll_watch(&a, &mut wv, &wk1, &mut log), Poll::Ready(0));
    wv.set(1, &mut log.woken);
    assert_eq!(log.woken.drain(), vec![wk2, wk1]);
}

#[test]
fn tokio_watch_resolves() {
    let mut log = Log::new();
    let mut wv = WatchableValue::new(0u64);
    let watch = ValueWatch::new(&mut wv);
    let waker = log.task();
    assert_eq!(poll_watch(&watch, &mut wv, &waker, &mut log), Poll::Ready(0));
    assert_eq!(poll_watch(&watch, &mut wv, &waker, &mut log), Poll::Pending);
    wv.set(42, &mut log.woken);
    assert_eq!(log.count(&waker), 1);
    assert_eq!(poll_watch(&watch, &mut wv, &waker, &mut log), Poll::Ready(42));
}
