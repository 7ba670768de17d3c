use procmachines::alarm_clock::{AlarmClock, ClockAlarm};
use procmachines::{Context, Poll, WakeQueue, Waker};

type TestClock = AlarmClock<u64>;

/// The wake-ups that were asked for so far.
struct Log {
    woken: WakeQueue,
    next_task: u64,
}

impl Log {
    fn new() -> Log {
        Log { woken: WakeQueue::new(), next_task: 0 }
    }

    fn task(&mut self) -> Waker {
        self.next_task += 1;
        Waker::new(self.next_task)
    }

    fn count(&self, waker: &Waker) -> usize {
        self.woken.count(waker)
    }

    fn note(&mut self, mut cx: Context) {
        for waker in cx.woken.drain() {
            self.woken.push(waker);
        }
    }
}

/// Polls an alarm and notes the wake-ups that the poll asks for.
fn poll_alarm(alarm: &ClockAlarm, clock: &mut TestClock, waker: &Waker, log: &mut Log) -> Poll<()> {
    let mut cx = Context::from_waker(waker);
    let result = alarm.alarm_poll(clock, &mut cx);
    log.note(cx);
    result
}

fn clock_set(clock: &mut TestClock, val: u64, log: &mut Log) {
    clock.advance(val, &mut log.woken);
}

/// Registers external interest, asserting (as the method guarantees) that it
/// always returns `Pending`.
fn ext_poll(clock: &mut TestClock, waker: &Waker, threshold: Option<u64>) {
    let mut cx = Context::from_waker(waker);
    assert!(clock.external_poll_new_alarm(&mut cx, threshold).is_pending());
    assert_eq!(cx.woken.len(), 0);
}

fn ext_threshold(clock: &TestClock) -> Option<u64> {
    clock.external_threshold().copied()
}

#[test]
fn alarm_clock_new_and_get() {
    let clock = TestClock::new(42u64);
    assert_eq!(clock.get(), 42);
}

#[test]
fn alarm_clock_set() {
    let mut log = Log::new();
    let mut clock = TestClock::new(0u64);
    clock.advance(100, &mut log.woken);
    assert_eq!(clock.get(), 100);
    // can't advance backward
    clock.advance(50, &mut log.woken);
    assert_eq!(clock.get(), 100);
}

#[test]
fn alarm_clock_advance_only_forward() {
    let mut log = Log::new();
    let mut clock = TestClock::new(10u64);
    // Advance to a larger value succeeds
    assert_eq!(clock.advance(20, &mut log.woken), None);
    assert_eq!(clock.get(), 20);
    // Advance to same value fails
    assert_eq!(clock.advance(20, &mut log.woken), None);
    assert_eq!(clock.get(), 20);
    // Advance to smaller value fails
    assert_eq!(clock.advance(20, &mut log.woken), None);
    assert_eq!(clock.get(), 20);
}

#[test]
fn alarm_clock_debug() {
    let clock = TestClock::new(99u64);
    let dbg = format!("{:?}", clock);
    assert!(dbg.contains("AlarmClock"));
    assert!(dbg.contains("99"));
}

#[test]
fn clock_alarm_new_and_get() {
    let mut clock = TestClock::new(0u64);
    let alarm = ClockAlarm::new(&mut clock, Some(10));
    assert_eq!(alarm.get_alarm(&clock), Some(&10));
}

#[test]
fn clock_alarm_new_none_threshold() {
    let mut clock = TestClock::new(0u64);
    let alarm = ClockAlarm::new(&mut clock, None);
    assert_eq!(alarm.get_alarm(&clock), None);
}

#[test]
fn clock_alarm_set_threshold() {
    let mut clock = TestClock::new(0u64);
    let alarm = ClockAlarm::new(&mut clock, Some(10));
    alarm.set_alarm(&mut clock, Some(20));
    assert_eq!(alarm.get_alarm(&clock), Some(&20));
    alarm.set_alarm(&mut clock, None);
    assert_eq!(alarm.get_alarm(&clock), None);
}

#[test]
fn poll_pending_when_clock_below_threshold() {
    let mut log = Log::new();
    let mut clock = TestClock::new(0u64);
    let alarm = ClockAlarm::new(&mut clock, Some(10));
    let waker = log.task();

    assert_eq!(poll_alarm(&alarm, &mut clock, &waker, &mut log), Poll::Pending);
}

#[test]
fn poll_ready_when_clock_at_threshold() {
    let mut log = Log::new();
    let mut clock = TestClock::new(10u64);
    let alarm = ClockAlarm::new(&mut clock, Some(10));
    let waker = log.task();

    assert_eq!(poll_alarm(&alarm, &mut clock, &waker, &mut log), Poll::Ready(()));
}

#[test]
fn poll_ready_when_clock_above_threshold() {
    let mut log = Log::new();
    let mut clock = TestClock::new(20u64);
    let alarm = ClockAlarm::new(&mut clock, Some(10));
    let waker = log.task();

    assert_eq!(poll_alarm(&alarm, &mut clock, &waker, &mut log), Poll::Ready(()));
}

#[test]
fn poll_pending_when_threshold_is_none() {
    let mut log = Log::new();
    let mut clock = TestClock::new(100u64);
    let alarm = ClockAlarm::new(&mut clock, None);
    let waker = log.task();

    // Even with a large clock value, None threshold means Never → Pending
    assert_eq!(poll_alarm(&alarm, &mut clock, &waker, &mut log), Poll::Pending);
}

#[test]
fn advance_clock_wakes_alarm() {
    let mut log = Log::new();
    let mut clock = TestClock::new(0u64);
    let alarm = ClockAlarm::new(&mut clock, Some(10));
    let waker = log.task();

    // First poll: pending, registers waker
    assert_eq!(poll_alarm(&alarm, &mut clock, &waker, &mut log), Poll::Pending);
    assert_eq!(log.count(&waker), 0);

    // Advance clock past threshold
    clock_set(&mut clock, 10, &mut log);

    // Waker should have been called
    assert_eq!(log.count(&waker), 1);

    // Next poll: ready
    assert_eq!(poll_alarm(&alarm, &mut clock, &waker, &mut log), Poll::Ready(()));
}

#[test]
fn advance_clock_below_threshold_does_not_wake() {
    let mut log = Log::new();
    let mut clock = TestClock::new(0u64);
    let alarm = ClockAlarm::new(&mut clock, Some(10));
    let waker = log.task();

    assert_eq!(poll_alarm(&alarm, &mut clock, &waker, &mut log), Poll::Pending);

    // Advance, but not enough
    clock_set(&mut clock, 5, &mut log);
    assert_eq!(log.count(&waker), 0);

    // Still pending
    assert_eq!(poll_alarm(&alarm, &mut clock, &waker, &mut log), Poll::Pending);
}

#[test]
fn set_alarm_to_already_passed_value_does_not_wake() {
    let mut log = Log::new();
    let mut clock = TestClock::new(50u64);
    let alarm = ClockAlarm::new(&mut clock, Some(100));
    let waker = log.task();

    // Poll to register the waker
    assert_eq!(poll_alarm(&alarm, &mut clock, &waker, &mut log), Poll::Pending);
    assert_eq!(log.count(&waker), 0);

    // Change the alarm threshold to something already passed.
    // set_alarm never wakes — registration is dropped.
    alarm.set_alarm(&mut clock, Some(30));
    assert_eq!(log.count(&waker), 0);

    // But next poll sees clock(50) >= alarm(30) → Ready
    assert_eq!(poll_alarm(&alarm, &mut clock, &waker, &mut log), Poll::Ready(()));
}

#[test]
fn set_alarm_to_none_does_not_wake() {
    let mut log = Log::new();
    let mut clock = TestClock::new(50u64);
    let alarm = ClockAlarm::new(&mut clock, Some(100));
    let waker = log.task();

    assert_eq!(poll_alarm(&alarm, &mut clock, &waker, &mut log), Poll::Pending);

    // Disable the alarm
    alarm.set_alarm(&mut clock, None);
    // Never → no wake
    assert_eq!(log.count(&waker), 0);

    // Still pending (disabled)
    assert_eq!(poll_alarm(&alarm, &mut clock, &waker, &mut log), Poll::Pending);
}

#[test]
fn multiple_alarms_different_thresholds() {
    let mut log = Log::new();
    let mut clock = TestClock::new(0u64);

    let a1 = ClockAlarm::new(&mut clock, Some(5));
    let a2 = ClockAlarm::new(&mut clock, Some(10));
    let a3 = ClockAlarm::new(&mut clock, Some(15));

    let w1 = log.task();
    let w2 = log.task();
    let w3 = log.task();

    // All pending
    assert_eq!(poll_alarm(&a1, &mut clock, &w1, &mut log), Poll::Pending);
    assert_eq!(poll_alarm(&a2, &mut clock, &w2, &mut log), Poll::Pending);
    assert_eq!(poll_alarm(&a3, &mut clock, &w3, &mut log), Poll::Pending);

    // Advance to 5: only a1 fires
    clock_set(&mut clock, 5, &mut log);
    assert_eq!(log.count(&w1), 1);
    assert_eq!(log.count(&w2), 0);
    assert_eq!(log.count(&w3), 0);
    assert_eq!(poll_alarm(&a1, &mut clock, &w1, &mut log), Poll::Ready(()));
    assert_eq!(poll_alarm(&a2, &mut clock, &w2, &mut log), Poll::Pending);
    assert_eq!(poll_alarm(&a3, &mut clock, &w3, &mut log), Poll::Pending);

    // Advance to 12: a2 fires, a3 still pending
    clock_set(&mut clock, 12, &mut log);
    assert_eq!(log.count(&w2), 1);
    assert_eq!(log.count(&w3), 0);
    assert_eq!(poll_alarm(&a2, &mut clock, &w2, &mut log), Poll::Ready(()));
    assert_eq!(poll_alarm(&a3, &mut clock, &w3, &mut log), Poll::Pending);

    // Advance to 20: a3 fires
    clock_set(&mut clock, 20, &mut log);
    assert_eq!(log.count(&w3), 1);
    assert_eq!(poll_alarm(&a3, &mut clock, &w3, &mut log), Poll::Ready(()));
}

#[test]
fn multiple_alarms_same_threshold() {
    let mut log = Log::new();
    let mut clock = TestClock::new(0u64);
    let a1 = ClockAlarm::new(&mut clock, Some(10));
    let a2 = ClockAlarm::new(&mut clock, Some(10));

    let w1 = log.task();
    let w2 = log.task();

    assert_eq!(poll_alarm(&a1, &mut clock, &w1, &mut log), Poll::Pending);
    assert_eq!(poll_alarm(&a2, &mut clock, &w2, &mut log), Poll::Pending);

    clock_set(&mut clock, 10, &mut log);
    assert_eq!(log.count(&w1), 1);
    assert_eq!(log.count(&w2), 1);
    assert_eq!(poll_alarm(&a1, &mut clock, &w1, &mut log), Poll::Ready(()));
    assert_eq!(poll_alarm(&a2, &mut clock, &w2, &mut log), Poll::Ready(()));
}

#[test]
fn alarm_can_be_rearmed_after_firing() {
    let mut log = Log::new();
    let mut clock = TestClock::new(0u64);
    let alarm = ClockAlarm::new(&mut clock, Some(5));
    let waker = log.task();

    assert_eq!(poll_alarm(&alarm, &mut clock, &waker, &mut log), Poll::Pending);
    clock_set(&mut clock, 5, &mut log);
    assert_eq!(poll_alarm(&alarm, &mut clock, &waker, &mut log), Poll::Ready(()));

    // Re-arm with a new threshold
    alarm.set_alarm(&mut clock, Some(20));
    assert_eq!(poll_alarm(&alarm, &mut clock, &waker, &mut log), Poll::Pending);

    clock_set(&mut clock, 20, &mut log);
    assert_eq!(log.count(&waker), 2); // woken twice total
    assert_eq!(poll_alarm(&alarm, &mut clock, &waker, &mut log), Poll::Ready(()));
}

#[test]
fn drop_alarm_while_linked() {
    let mut log = Log::new();
    let mut clock = TestClock::new(0u64);
    let waker = log.task();

    let alarm = ClockAlarm::new(&mut clock, Some(10));
    assert_eq!(poll_alarm(&alarm, &mut clock, &waker, &mut log), Poll::Pending);
    // alarm is linked and leaves here
    alarm.release(&mut clock);

    // Clock advance should not panic (the dropped alarm was properly unlinked)
    clock_set(&mut clock, 10, &mut log);
    assert_eq!(log.count(&waker), 0); // waker was taken during drop/unlink
}

#[test]
fn drop_alarm_before_polling() {
    let mut log = Log::new();
    let mut clock = TestClock::new(0u64);
    let alarm = ClockAlarm::new(&mut clock, Some(10));
    // Never polled, just given up
    alarm.release(&mut clock);
    // Should not panic
    clock_set(&mut clock, 100, &mut log);
}

#[test]
fn drop_multiple_alarms() {
    let mut log = Log::new();
    let mut clock = TestClock::new(0u64);
    let waker = log.task();

    let a1 = ClockAlarm::new(&mut clock, Some(10));
    let a2 = ClockAlarm::new(&mut clock, Some(20));

    assert_eq!(poll_alarm(&a1, &mut clock, &waker, &mut log), Poll::Pending);
    assert_eq!(poll_alarm(&a2, &mut clock, &waker, &mut log), Poll::Pending);
    // a2 leaves here while both are linked
    a2.release(&mut clock);
    // a1 should still work
    clock_set(&mut clock, 10, &mut log);
    assert_eq!(poll_alarm(&a1, &mut clock, &waker, &mut log), Poll::Ready(()));
}

#[test]
fn poll_ready_immediately_no_waker_stored() {
    // If the clock already meets the threshold on first poll, the alarm
    // should return Ready without storing a waker.
    let mut log = Log::new();
    let mut clock = TestClock::new(100u64);
    let alarm = ClockAlarm::new(&mut clock, Some(50));
    let waker = log.task();

    assert_eq!(poll_alarm(&alarm, &mut clock, &waker, &mut log), Poll::Ready(()));
    // No spurious wakes
    assert_eq!(log.count(&waker), 0);
}

#[test]
fn repoll_pending_alarm_updates_waker() {
    // Polling twice with different wakers should update the stored waker.
    let mut log = Log::new();
    let mut clock = TestClock::new(0u64);
    let alarm = ClockAlarm::new(&mut clock, Some(10));

    let w1 = log.task();
    assert_eq!(poll_alarm(&alarm, &mut clock, &w1, &mut log), Poll::Pending);

    let w2 = log.task();
    assert_eq!(poll_alarm(&alarm, &mut clock, &w2, &mut log), Poll::Pending);

    // Advance: should wake tw2, not tw1
    clock_set(&mut clock, 10, &mut log);
    assert_eq!(log.count(&w1), 0);
    assert_eq!(log.count(&w2), 1);
}

#[test]
fn advance_does_not_go_backwards() {
    let mut log = Log::new();
    let mut clock = TestClock::new(10u64);
    let alarm = ClockAlarm::new(&mut clock, Some(5));
    let waker = log.task();

    // Already past threshold
    assert_eq!(poll_alarm(&alarm, &mut clock, &waker, &mut log), Poll::Ready(()));

    // Re-arm alarm at 15
    alarm.set_alarm(&mut clock, Some(15));
    assert_eq!(poll_alarm(&alarm, &mut clock, &waker, &mut log), Poll::Pending);

    // Try to advance backwards — should fail
    assert_eq!(clock.advance(5, &mut log.woken), Some(15));
    assert_eq!(clock.get(), 10);
    assert_eq!(log.count(&waker), 0);

    // Advance forward
    assert_eq!(clock.advance(15, &mut log.woken), None);
    assert_eq!(log.count(&waker), 1);
}

#[test]
fn set_clock_backwards_wakes_appropriate_alarms() {
    let mut log = Log::new();
    let mut clock = TestClock::new(0u64);
    let alarm = ClockAlarm::new(&mut clock, Some(10));
    let waker = log.task();

    assert_eq!(poll_alarm(&alarm, &mut clock, &waker, &mut log), Poll::Pending);

    // Set clock to 20, alarm at 10 should fire
    clock_set(&mut clock, 20, &mut log);
    assert_eq!(log.count(&waker), 1);
    assert_eq!(poll_alarm(&alarm, &mut clock, &waker, &mut log), Poll::Ready(()));

    // Re-arm at 30
    alarm.set_alarm(&mut clock, Some(30));
    assert_eq!(poll_alarm(&alarm, &mut clock, &waker, &mut log), Poll::Pending);

    // Set clock backwards to 5 — alarm at 30 should NOT fire
    clock_set(&mut clock, 5, &mut log);
    assert_eq!(log.count(&waker), 1); // unchanged
    assert_eq!(poll_alarm(&alarm, &mut clock, &waker, &mut log), Poll::Pending);
}

#[test]
fn ready_is_idempotent() {
    let mut log = Log::new();
    let mut clock = TestClock::new(10u64);
    let alarm = ClockAlarm::new(&mut clock, Some(5));
    let waker = log.task();

    // Condition is met from the start — Ready every time, no wakes.
    assert_eq!(poll_alarm(&alarm, &mut clock, &waker, &mut log), Poll::Ready(()));
    assert_eq!(poll_alarm(&alarm, &mut clock, &waker, &mut log), Poll::Ready(()));
    assert_eq!(poll_alarm(&alarm, &mut clock, &waker, &mut log), Poll::Ready(()));
    assert_eq!(log.count(&waker), 0);
}

#[test]
fn set_alarm_drops_registration() {
    let mut log = Log::new();
    let mut clock = TestClock::new(0u64);
    let alarm = ClockAlarm::new(&mut clock, Some(10));
    let waker = log.task();

    // Register the waker
    assert_eq!(poll_alarm(&alarm, &mut clock, &waker, &mut log), Poll::Pending);

    // set_alarm drops the registration — even though the new threshold
    // is still not met, the waker is cleared and the node is unlinked.
    alarm.set_alarm(&mut clock, Some(20));

    // Advance clock past BOTH old and new thresholds.
    // The task must NOT be woken because set_alarm dropped the registration.
    clock_set(&mut clock, 25, &mut log);
    assert_eq!(log.count(&waker), 0);

    // But alarm_poll sees clock(25) >= alarm(20) → Ready
    assert_eq!(poll_alarm(&alarm, &mut clock, &waker, &mut log), Poll::Ready(()));
}

#[test]
fn set_alarm_none_drops_registration() {
    let mut log = Log::new();
    let mut clock = TestClock::new(0u64);
    let alarm = ClockAlarm::new(&mut clock, Some(10));
    let waker = log.task();

    // Register the waker
    assert_eq!(poll_alarm(&alarm, &mut clock, &waker, &mut log), Poll::Pending);

    // Disable the alarm — drops registration
    alarm.set_alarm(&mut clock, None);

    // Advance clock — task must not be woken
    clock_set(&mut clock, 100, &mut log);
    assert_eq!(log.count(&waker), 0);

    // alarm_poll with None threshold → Pending forever
    assert_eq!(poll_alarm(&alarm, &mut clock, &waker, &mut log), Poll::Pending);
}

#[test]
fn alarm_poll_returns_pending_then_ready() {
    let mut log = Log::new();
    let mut clock = TestClock::new(0u64);
    let alarm = ClockAlarm::new(&mut clock, Some(10));
    let waker = log.task();
    let mut cx = Context::from_waker(&waker);

    assert_eq!(alarm.alarm_poll(&mut clock, &mut cx), Poll::Pending);
    clock_set(&mut clock, 10, &mut log);
    assert_eq!(alarm.alarm_poll(&mut clock, &mut cx), Poll::Ready(()));
}

#[test]
fn external_poll_always_pending() {
    // The method is infallible-pending: `Poll<Never>` can only ever be
    // `Pending`, but assert it explicitly for both threshold shapes.
    let mut log = Log::new();
    let mut clock = TestClock::new(0u64);
    let w = log.task();
    ext_poll(&mut clock, &w, None);
    ext_poll(&mut clock, &w, Some(5));
}

#[test]
fn external_poll_records_threshold() {
    let mut log = Log::new();
    let mut clock = TestClock::new(0u64);
    let w = log.task();

    // Fresh clock starts with no recorded threshold.
    assert_eq!(ext_threshold(&clock), None);

    ext_poll(&mut clock, &w, Some(5));
    assert_eq!(ext_threshold(&clock), Some(5));

    // A subsequent registration overwrites the threshold.
    ext_poll(&mut clock, &w, None);
    assert_eq!(ext_threshold(&clock), None);

    ext_poll(&mut clock, &w, Some(99));
    assert_eq!(ext_threshold(&clock), Some(99));
}

#[test]
fn external_woken_on_any_alarm_when_threshold_none() {
    // threshold == None means "wake me on ANY new alarm".
    let mut log = Log::new();
    let mut clock = TestClock::new(0u64);
    let ew = log.task();
    ext_poll(&mut clock, &ew, None);

    let alarm = ClockAlarm::new(&mut clock, Some(1000));
    let w = log.task();

    assert_eq!(poll_alarm(&alarm, &mut clock, &w, &mut log), Poll::Pending);
    assert_eq!(log.count(&ew), 1);
    // With a `None` threshold the recorded threshold stays `None`.
    assert_eq!(ext_threshold(&clock), None);
}

#[test]
fn external_woken_on_earlier_alarm_resets_threshold() {
    // threshold == Some(50) means "wake me when an alarm < 50 is set".
    let mut log = Log::new();
    let mut clock = TestClock::new(0u64);
    let ew = log.task();
    ext_poll(&mut clock, &ew, Some(50));

    let alarm = ClockAlarm::new(&mut clock, Some(30));
    let w = log.task();

    assert_eq!(poll_alarm(&alarm, &mut clock, &w, &mut log), Poll::Pending);
    assert_eq!(log.count(&ew), 1);
    // After firing, the threshold is reset to `None` so the provider is
    // expected to re-register on its next poll.
    assert_eq!(ext_threshold(&clock), None);
}

#[test]
fn external_not_woken_on_equal_or_later_alarm() {
    let mut log = Log::new();
    let mut clock = TestClock::new(0u64);
    let ew = log.task();
    ext_poll(&mut clock, &ew, Some(50));

    let w = log.task();

    // An alarm exactly at the threshold (50) is NOT earlier → no wake.
    let a_eq = ClockAlarm::new(&mut clock, Some(50));
    assert_eq!(poll_alarm(&a_eq, &mut clock, &w, &mut log), Poll::Pending);
    assert_eq!(log.count(&ew), 0);
    assert_eq!(ext_threshold(&clock), Some(50)); // untouched

    // A later alarm (60) is also not earlier → no wake.
    let a_late = ClockAlarm::new(&mut clock, Some(60));
    assert_eq!(poll_alarm(&a_late, &mut clock, &w, &mut log), Poll::Pending);
    assert_eq!(log.count(&ew), 0);
    assert_eq!(ext_threshold(&clock), Some(50)); // still untouched
}

#[test]
fn external_not_woken_by_ready_alarm() {
    // An alarm whose threshold is already met resolves immediately and is
    // never "registered" — the provider has nothing to schedule, so it
    // must not be woken.
    let mut log = Log::new();
    let mut clock = TestClock::new(100u64);
    let ew = log.task();
    ext_poll(&mut clock, &ew, None);

    let alarm = ClockAlarm::new(&mut clock, Some(50));
    let w = log.task();

    assert_eq!(poll_alarm(&alarm, &mut clock, &w, &mut log), Poll::Ready(()));
    assert_eq!(log.count(&ew), 0);
    // Threshold left as-is (the ready path returns before touching it).
    assert_eq!(ext_threshold(&clock), None);
}

#[test]
fn external_not_woken_by_disabled_alarm() {
    // A disabled (`None`) alarm has no deadline, so the provider must not
    // be woken when it is polled.
    let mut log = Log::new();
    let mut clock = TestClock::new(0u64);
    let ew = log.task();
    ext_poll(&mut clock, &ew, None);

    let alarm = ClockAlarm::new(&mut clock, None);
    let w = log.task();

    assert_eq!(poll_alarm(&alarm, &mut clock, &w, &mut log), Poll::Pending);
    assert_eq!(log.count(&ew), 0);
}

#[test]
fn external_reregistration_updates_waker() {
    // Registering a second provider waker replaces the first.
    let mut log = Log::new();
    let mut clock = TestClock::new(0u64);
    let ew1 = log.task();
    let ew2 = log.task();

    ext_poll(&mut clock, &ew1, None);
    ext_poll(&mut clock, &ew2, None); // replaces ew1

    let alarm = ClockAlarm::new(&mut clock, Some(10));
    let w = log.task();

    assert_eq!(poll_alarm(&alarm, &mut clock, &w, &mut log), Poll::Pending);
    assert_eq!(log.count(&ew1), 0);
    assert_eq!(log.count(&ew2), 1);
}

#[test]
fn external_not_woken_without_registration() {
    // No `external_poll_new_alarm` call → no provider waker → polling an
    // alarm must not panic and obviously cannot wake anything.
    let mut log = Log::new();
    let mut clock = TestClock::new(0u64);
    let alarm = ClockAlarm::new(&mut clock, Some(10));
    let w = log.task();

    assert_eq!(poll_alarm(&alarm, &mut clock, &w, &mut log), Poll::Pending);
    assert_eq!(ext_threshold(&clock), None);
}

#[test]
fn external_only_first_earlier_alarm_wakes() {
    // Once an earlier alarm fires the provider, the threshold resets to
    // `None`, but the waker slot has been consumed — so a second earlier
    // alarm does not double-wake the (now absent) provider until it
    // re-registers.
    let mut log = Log::new();
    let mut clock = TestClock::new(0u64);
    let ew = log.task();
    ext_poll(&mut clock, &ew, Some(50));

    let w = log.task();

    let a1 = ClockAlarm::new(&mut clock, Some(40));
    assert_eq!(poll_alarm(&a1, &mut clock, &w, &mut log), Poll::Pending);
    assert_eq!(log.count(&ew), 1);

    // Provider has not re-registered; another earlier alarm finds an empty
    // waker slot (threshold is now `None`, so it takes the "any" path).
    let a2 = ClockAlarm::new(&mut clock, Some(20));
    assert_eq!(poll_alarm(&a2, &mut clock, &w, &mut log), Poll::Pending);
    assert_eq!(log.count(&ew), 1); // not woken again
}

#[test]
fn advance_resets_external_threshold_without_waking() {
    let mut log = Log::new();
    let mut clock = TestClock::new(0u64);
    let ew = log.task();
    ext_poll(&mut clock, &ew, Some(50));
    assert_eq!(ext_threshold(&clock), Some(50));

    // Advancing the clock resets the interest threshold to `None` but does
    // NOT itself wake the provider.
    clock.advance(10, &mut log.woken);
    assert_eq!(ext_threshold(&clock), None);
    assert_eq!(log.count(&ew), 0);

    // Because the threshold is now `None` (and the provider waker is still
    // registered — advance does not consume it), the very next alarm of any
    // deadline wakes the provider.
    let alarm = ClockAlarm::new(&mut clock, Some(100));
    let w = log.task();
    assert_eq!(poll_alarm(&alarm, &mut clock, &w, &mut log), Poll::Pending);
    assert_eq!(log.count(&ew), 1);
}

#[test]
fn advance_that_does_not_move_the_clock_keeps_the_external_threshold() {
    let mut log = Log::new();
    let mut clock = TestClock::new(10u64);
    let ew = log.task();
    ext_poll(&mut clock, &ew, Some(50));
    for time in [5, 10] {
        assert_eq!(clock.advance(time, &mut log.woken), None);
        assert_eq!(clock.get(), 10);
        assert_eq!(ext_threshold(&clock), Some(50));
    }
    // An alarm that does not meet the interest leaves the provider alone.
    let alarm = ClockAlarm::new(&mut clock, Some(100));
    let w = log.task();
    assert_eq!(poll_alarm(&alarm, &mut clock, &w, &mut log), Poll::Pending);
    assert_eq!(log.count(&ew), 0);
}

#[test]
fn external_provider_full_cycle() {
    // End-to-end shape of how a timer provider uses the external API.
    let mut log = Log::new();
    let mut clock = TestClock::new(0u64);
    let ew = log.task();

    let w = log.task();

    // No alarms yet: provider asks to be woken on ANY alarm.
    ext_poll(&mut clock, &ew, None);

    // A far alarm (100) appears → provider notified.
    let far = ClockAlarm::new(&mut clock, Some(100));
    assert_eq!(poll_alarm(&far, &mut clock, &w, &mut log), Poll::Pending);
    assert_eq!(log.count(&ew), 1);

    // Provider reschedules for the earliest deadline (100): only wake me if
    // something strictly earlier than 100 shows up.
    ext_poll(&mut clock, &ew, Some(100));

    // A later alarm (200) must not disturb the provider.
    let later = ClockAlarm::new(&mut clock, Some(200));
    assert_eq!(poll_alarm(&later, &mut clock, &w, &mut log), Poll::Pending);
    assert_eq!(log.count(&ew), 1);

    // An earlier alarm (50) must wake the provider and reset the threshold.
    let earlier = ClockAlarm::new(&mut clock, Some(50));
    assert_eq!(poll_alarm(&earlier, &mut clock, &w, &mut log), Poll::Pending);
    assert_eq!(log.count(&ew), 2);
    assert_eq!(ext_threshold(&clock), None);
}

#[test]
fn advance_returns_the_earliest_deadline_left() {
    let mut log = Log::new();
    let mut clock = TestClock::new(0u64);
    let waker = log.task();
    for at in [30, 10, 20, 10] {
        let alarm = ClockAlarm::new(&mut clock, Some(at));
        assert_eq!(poll_alarm(&alarm, &mut clock, &waker, &mut log), Poll::Pending);
    }
    assert_eq!(clock.advance(5, &mut log.woken), Some(10));
    assert_eq!(log.count(&waker), 0);
    assert_eq!(clock.advance(10, &mut log.woken), Some(20));
    assert_eq!(log.count(&waker), 2);
    assert_eq!(clock.advance(25, &mut log.woken), Some(30));
    assert_eq!(clock.advance(30, &mut log.woken), None);
    assert_eq!(log.count(&waker), 4);
}

#[test]
fn due_alarms_are_woken_in_the_order_in_which_they_began_to_wait() {
    let mut log = Log::new();
    let mut clock = TestClock::new(0u64);
    let late = ClockAlarm::new(&mut clock, Some(9));
    let early = ClockAlarm::new(&mut clock, Some(3));
    let w1 = log.task();
    let w2 = log.task();
    assert_eq!(poll_alarm(&late, &mut clock, &w1, &mut log), Poll::Pending);
    assert_eq!(poll_alarm(&early, &mut clock, &w2, &mut log), Poll::Pending);
    clock.advance(10, &mut log.woken);
    assert_eq!(log.woken.drain(), vec![w1, w2]);
}

#[test]
fn ready_stays_ready_as_the_clock_advances() {
    let mut log = Log::new();
    let mut clock = TestClock::new(5u64);
    let alarm = ClockAlarm::new(&mut clock, Some(5));
    let waker = log.task();
    assert_eq!(poll_alarm(&alarm, &mut clock, &waker, &mut log), Poll::Ready(()));
    for time in [7, 3, 100] {
        clock_set(&mut clock, time, &mut log);
        assert_eq!(poll_alarm(&alarm, &mut clock, &waker, &mut log), Poll::Ready(()));
    }
    assert_eq!(log.count(&waker), 0);
}

#[test]
fn tokio_alarm_resolves() {
    let mut log = Log::new();
    let mut clock = TestClock::new(0u64);
    let alarm = ClockAlarm::new(&mut clock, Some(10));
    let waker = log.task();
    assert!(poll_alarm(&alarm, &mut clock, &waker, &mut log).is_pending());
    clock.advance(10, &mut log.woken);
    assert_eq!(log.count(&waker), 1);
    assert!(poll_alarm(&alarm, &mut clock, &waker, &mut log).is_ready());
}

#[test]
fn tokio_multiple_alarms_resolve_in_order() {
    let mut log = Log::new();
    let mut clock = TestClock::new(0u64);
    let a1 = ClockAlarm::new(&mut clock, Some(5));
    let a2 = ClockAlarm::new(&mut clock, Some(10));
    let waker = log.task();
    assert!(poll_alarm(&a1, &mut clock, &waker, &mut log).is_pending());
    clock.advance(5, &mut log.woken);
    assert_eq!(log.count(&waker), 1);
    assert!(poll_alarm(&a1, &mut clock, &waker, &mut log).is_ready());
    assert!(poll_alarm(&a2, &mut clock, &waker, &mut log).is_pending());
    clock.advance(10, &mut log.woken);
    assert_eq!(log.count(&waker), 2);
    assert!(poll_alarm(&a2, &mut clock, &waker, &mut log).is_ready());
}
