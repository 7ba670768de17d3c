//! Alarm clock primitives for timeout management, built on the list in
//! [`crate::intrusive_list`].
//!
//! An [`AlarmClock`] holds a clock value that only moves forward, and any number
//! of [`ClockAlarm`]s can register thresholds to be woken when the clock reaches
//! or exceeds their target.
//!
//! Every `ClockAlarm` owns a leaf of the clock's list.  When the clock advances,
//! [`AlarmClock::advance`] walks the list and wakes every alarm whose threshold
//! has been met.  When a `ClockAlarm` is polled, it checks its threshold and
//! links itself into the list if it needs to wait.

use core::convert::Infallible;
use core::fmt::{Debug, Formatter};

use vstd::prelude::*;
use vstd::std_specs::cmp::{PartialOrdIs, PartialOrdSpec};

use crate::intrusive_list::{IntrusiveListGuard, IntrusiveNodeValue};
use crate::task::{Context, Poll, WakeQueue, Waker};
use crate::waker_ref::WakerRef;

verus! {

/// What the clock knows besides its alarms.
struct ClockHeadInner<T> {
    // Current time in the clock
    time: T,
    // If this is `None`, then the external waker, if any, needs to be woken when any alarm is set.
    // If this is `Some(t)`, then the external waker needs to be woken only if an alarm is set with
    // deadline < t.
    external_threshold: Option<T>,
    // Waker for the provider task, if it's waiting for an alarm to be set.
    external_waker: WakerRef,
}

/// An alarm as the clock keeps it: its threshold, and the task that waits for it.
struct ClockNodeValue<T> {
    val: Option<T>,
    waker: Option<Waker>,
}

impl<T> IntrusiveNodeValue for ClockNodeValue<T> {
    type HeadValue = ();
}

/// `a` comes before `b`.
pub open spec fn before<T: PartialOrd>(a: T, b: T) -> bool {
    a.is_lt(&b)
}

/// A threshold of `val` is met at `time`, or there is no threshold to wait for.
pub open spec fn is_due<T: PartialOrd>(time: T, val: Option<T>) -> bool {
    match val {
        Some(alarm) => time.is_ge(&alarm),
        None => true,
    }
}

impl<T: PartialOrd> ClockNodeValue<T> {
    spec fn model(&self) -> AlarmModel<T> {
        AlarmModel { val: self.val, waker: self.waker }
    }

    /// Takes the stored waker, if any, and wakes it.
    fn wake(&mut self, woken: &mut WakeQueue)
        ensures
            final(self).val == old(self).val,
            final(self).waker is None,
            final(woken)@ == old(woken)@ + crate::waker_ref::wakes_of(old(self).waker),
    {
        if let Some(waker) = self.waker.take() {
            woken.push(waker);
        }
        assert(woken@ =~= old(woken)@ + crate::waker_ref::wakes_of(old(self).waker));
    }

    /// Stores the waker of the task that waits for this alarm.
    fn set_waker(&mut self, new_waker: &Waker)
        ensures
            final(self).val == old(self).val,
            final(self).waker == Some(*new_waker),
    {
        match self.waker {
            None => {
                self.waker = Some(*new_waker);
            },
            Some(old_waker) => {
                if !old_waker.will_wake(new_waker) {
                    self.waker = Some(*new_waker);
                }
            },
        }
    }

    /// Returns `true` if the threshold is met at `time`, or there is none.
    fn due(&self, time: &T) -> (due: bool)
        requires
            T::obeys_partial_cmp_spec(),
        ensures
            due == is_due(*time, self.val),
    {
        match &self.val {
            Some(alarm) => *time >= *alarm,
            None => true,
        }
    }
}

/// One alarm of a clock.
pub struct AlarmModel<T> {
    /// The threshold; `None` disables the alarm.
    pub val: Option<T>,
    /// The task that is woken when the clock meets the threshold.
    pub waker: Option<Waker>,
}

/// What there is to know about a clock.
#[verifier::ext_equal]
pub struct ClockModel<T> {
    /// The current time.
    pub time: T,
    /// Which new alarms the provider is woken for: those before this threshold,
    /// or all of them.
    pub external_threshold: Option<T>,
    /// The provider, if it waits for a new alarm.
    pub external_waker: Option<Waker>,
    /// All alarms against the clock, by number.
    pub alarms: Map<usize, AlarmModel<T>>,
    /// The alarms that wait for the clock, in the order in which they began to.
    pub waiting: Seq<usize>,
}

impl<T: PartialOrd> ClockModel<T> {
    /// Holds of the alarms that are due at `time`.
    pub open spec fn due_at(self, time: T) -> spec_fn(usize) -> bool {
        |id: usize| is_due(time, self.alarms[id].val)
    }

    /// Holds of the alarms that are not yet due at `time`.
    pub open spec fn later_than(self, time: T) -> spec_fn(usize) -> bool {
        |id: usize| !is_due(time, self.alarms[id].val)
    }

    /// The tasks that wait for the alarms `ids`, in that order.
    pub open spec fn wakers(self, ids: Seq<usize>) -> Seq<Waker> {
        Seq::new(ids.len(), |i: int| self.alarms[ids[i]].waker->0)
    }

    /// The thresholds of the alarms `ids`, in that order.
    pub open spec fn deadlines(self, ids: Seq<usize>) -> Seq<T> {
        Seq::new(ids.len(), |i: int| self.alarms[ids[i]].val->0)
    }

    /// The alarms once those in `ids` have been woken.
    pub open spec fn without_wakers(self, ids: Seq<usize>) -> Map<usize, AlarmModel<T>> {
        self.alarms.map_entries(
            |id: usize, alarm: AlarmModel<T>|
                if ids.contains(id) {
                    AlarmModel { waker: None, ..alarm }
                } else {
                    alarm
                },
        )
    }

    /// The provider asked to be woken for a new alarm at `alarm`.
    pub open spec fn interested_in(self, alarm: T) -> bool {
        match self.external_threshold {
            Some(threshold) => before(alarm, threshold),
            None => true,
        }
    }

    /// Where the clock stands once it has been advanced to `new_time`, if that is
    /// later.
    pub open spec fn time_after(self, new_time: T) -> T {
        if new_time.is_gt(&self.time) {
            new_time
        } else {
            self.time
        }
    }

    /// The alarms that advancing the clock to `new_time` wakes, in the order in
    /// which they began to wait.
    pub open spec fn fired_by(self, new_time: T) -> Seq<usize> {
        self.waiting.filter(self.due_at(self.time_after(new_time)))
    }

    /// The clock once it has been advanced to `new_time`.
    pub open spec fn advancing(self, new_time: T) -> ClockModel<T> {
        ClockModel {
            time: self.time_after(new_time),
            external_threshold: if new_time.is_gt(&self.time) {
                None
            } else {
                self.external_threshold
            },
            external_waker: self.external_waker,
            alarms: self.without_wakers(self.fired_by(new_time)),
            waiting: self.waiting.filter(self.later_than(self.time_after(new_time))),
        }
    }

    /// The clock once the alarm `id` has been set to `wake_at`.
    pub open spec fn setting(self, id: usize, wake_at: Option<T>) -> ClockModel<T> {
        ClockModel {
            alarms: self.alarms.insert(id, AlarmModel { val: wake_at, waker: None }),
            waiting: self.waiting.filter(crate::intrusive_list::other_than(id)),
            ..self
        }
    }

    /// The clock once `waker`'s task waits for the alarm `id`, which is set to
    /// `alarm`.  A provider that is interested in such an alarm has been woken.
    pub open spec fn registering(self, id: usize, alarm: T, waker: Waker) -> ClockModel<T> {
        let wakes = self.interested_in(alarm);
        ClockModel {
            time: self.time,
            external_threshold: if wakes {
                None
            } else {
                self.external_threshold
            },
            external_waker: if wakes {
                None
            } else {
                self.external_waker
            },
            alarms: self.alarms.insert(id, AlarmModel { val: Some(alarm), waker: Some(waker) }),
            waiting: if self.waiting.contains(id) {
                self.waiting
            } else {
                self.waiting.push(id)
            },
        }
    }

    /// The clock's invariant: exactly the waiting alarms have a task to wake, and
    /// each of them has a threshold that the clock has not met.
    pub open spec fn consistent(self) -> bool {
        &&& self.waiting.no_duplicates()
        &&& forall|i: int|
            0 <= i < self.waiting.len() ==> self.alarms.contains_key(#[trigger] self.waiting[i])
                && !is_due(self.time, self.alarms[self.waiting[i]].val)
        &&& forall|id: usize| #[trigger]
            self.alarms.contains_key(id) ==> (self.alarms[id].waker is Some
                <==> self.waiting.contains(id))
    }
}

/// The first of the smallest elements: each element is compared with the
/// smallest one so far, and takes its place if it is smaller.
pub open spec fn earliest<T: PartialOrd>(deadlines: Seq<T>) -> Option<T>
    decreases deadlines.len(),
{
    if deadlines.len() == 0 {
        None
    } else {
        match earliest(deadlines.drop_last()) {
            Some(min) => if before(deadlines.last(), min) {
                Some(deadlines.last())
            } else {
                Some(min)
            },
            None => Some(deadlines.last()),
        }
    }
}

/// A monotonically increasing clock that can wake [`ClockAlarm`]s.
///
/// When the clock advances to or past an alarm's threshold, the task that waits
/// for the alarm is woken, and the alarm is ready when it is next polled.
pub struct AlarmClock<T> {
    head: ClockHeadInner<T>,
    alarms: IntrusiveListGuard<ClockNodeValue<T>>,
}

impl<T: PartialOrd + Clone + Debug> Debug for AlarmClock<T> {
    /// Shows the current clock value.
    fn fmt(&self, f: &mut Formatter<'_>) -> core::fmt::Result {
        f.debug_struct("AlarmClock").field("val", &self.head.time).finish()
    }
}

impl<T: PartialOrd> View for AlarmClock<T> {
    type V = ClockModel<T>;

    closed spec fn view(&self) -> ClockModel<T> {
        ClockModel {
            time: self.head.time,
            external_threshold: self.head.external_threshold,
            external_waker: self.head.external_waker@,
            alarms: self.alarms.leaves().map_values(|value: ClockNodeValue<T>| value.model()),
            waiting: self.alarms.order(),
        }
    }
}

impl<T: PartialOrd + Clone> AlarmClock<T> {
    /// The clock is well formed, and so is the order of its values: comparing two
    /// values gives the same answer every time.
    pub closed spec fn wf(&self) -> bool {
        &&& T::obeys_partial_cmp_spec()
        &&& self.alarms.wf()
        &&& self@.consistent()
    }

    /// A well-formed clock is consistent, and its values can be compared.
    pub proof fn wf_consistent(&self)
        requires
            self.wf(),
        ensures
            self@.consistent(),
            T::obeys_partial_cmp_spec(),
    {
    }

    /// Creates a new alarm clock with the given initial clock value.
    pub fn new(time: T) -> (clock: AlarmClock<T>)
        requires
            T::obeys_partial_cmp_spec(),
        ensures
            clock.wf(),
            clock@ == (ClockModel {
                time,
                external_threshold: None,
                external_waker: None,
                alarms: Map::empty(),
                waiting: Seq::empty(),
            }),
    {
        let clock = AlarmClock {
            head: ClockHeadInner {
                time,
                external_threshold: None,
                external_waker: WakerRef::new(),
            },
            alarms: IntrusiveListGuard::new(()),
        };
        assert(clock@.alarms =~= Map::empty());
        clock
    }

    /// Returns a clone of the current clock value.
    pub fn get(&self) -> (time: T)
        ensures
            cloned(self@.time, time),
    {
        self.head.time.clone()
    }

    /// Returns the threshold that the provider last registered, unless it has
    /// been reset since.
    pub fn external_threshold(&self) -> (threshold: Option<&T>)
        ensures
            threshold == match self@.external_threshold {
                Some(t) => Some(&t),
                None => None,
            },
    {
        match &self.head.external_threshold {
            Some(threshold) => Some(threshold),
            None => None,
        }
    }

    /// Advances the clock to `new_time` only if `new_time` is strictly greater than the
    /// current time value, and wakes any alarms set for times <= the time of the clock.
    ///
    /// If the time is advanced and there is a waker registered by `external_poll_new_alarm`, then
    /// the wake threshold is reset to `None`, so if nothing else is done, then it will be woken when
    /// the next alarm is set.  Usually if external polling is being used, then that behaviour should
    /// be reset by a new call to `external_poll_new_alarm` with a new threshold.
    ///
    /// Returns `None` if there are no remaining alarms set.  If there is a remaining alarm set, then
    /// returns `Some(t)` where `t` is the earliest alarm deadline still set after this call.
    pub fn advance(&mut self, new_time: T, woken: &mut WakeQueue) -> (next: Option<T>)
        requires
            old(self).wf(),
        ensures
            final(self).wf(),
            final(self)@ == old(self)@.advancing(new_time),
            final(woken)@ == old(woken)@ + old(self)@.wakers(old(self)@.fired_by(new_time)),
            match earliest(final(self)@.deadlines(final(self)@.waiting)) {
                Some(t) => next is Some && cloned(t, next->0),
                None => next is None,
            },
    {
        let ghost before = self@;
        if new_time > self.head.time {
            self.head.time = new_time;
            self.head.external_threshold = None;
        }
        let ghost time = self.head.time;
        let ghost leaves = self.alarms.leaves();
        let ghost ids = self.alarms.order();
        let time_ref = &self.head.time;
        let later = |node: &ClockNodeValue<T>| -> (stay: bool)
            requires
                T::obeys_partial_cmp_spec(),
            ensures
                stay == !is_due(*time_ref, node.val),
        { !node.due(time_ref) };
        proof {
            self.alarms.order_wf();
        }
        let fired = self.alarms.filter(later);
        let ghost due = before.waiting.filter(before.due_at(time));
        proof {
            let stays = before.later_than(time);
            assert forall|i: int| 0 <= i < ids.len() implies stays(#[trigger] ids[i])
                == !fired@.contains(ids[i]) by {
                assert(leaves.contains_key(ids[i]));
                assert(before.alarms[ids[i]].val == leaves[ids[i]].val);
            }
            crate::intrusive_list::law_filter_splits(ids, fired@, stays);
            crate::seq_facts::lemma_filter_agree(ids, |id: usize| !stays(id), before.due_at(time));
            assert(fired@ == due);
        }
        let ghost between = self@;
        proof {
            crate::seq_facts::lemma_filter_distinct(ids, before.due_at(time));
            crate::seq_facts::lemma_filter_members(ids, before.due_at(time));
            assert forall|i: int| 0 <= i < fired@.len() implies between.alarms.contains_key(
                #[trigger] fired@[i],
            ) by {
                assert(fired@.contains(fired@[i]));
                assert(ids.contains(fired@[i]));
            }
        }
        self.wake_all(&fired, woken);
        proof {
            crate::seq_facts::lemma_filter_distinct(ids, before.later_than(time));
            crate::seq_facts::lemma_filter_members(ids, before.later_than(time));
            assert(between.wakers(due) =~= before.wakers(due));
            assert(between.without_wakers(due) =~= before.without_wakers(due));
            let after = self@;
            assert forall|i: int| 0 <= i < after.waiting.len() implies after.alarms.contains_key(
                #[trigger] after.waiting[i],
            ) && !is_due(after.time, after.alarms[after.waiting[i]].val) by {
                assert(after.waiting.contains(after.waiting[i]));
                assert(ids.contains(after.waiting[i]));
            }
            assert forall|id: usize| #[trigger] after.alarms.contains_key(id) implies (
            after.alarms[id].waker is Some <==> after.waiting.contains(id)) by {
                assert(before.alarms.contains_key(id));
                assert(due.contains(id) <==> ids.contains(id) && is_due(
                    time,
                    before.alarms[id].val,
                ));
            }
        }
        self.earliest_alarm()
    }

    /// Registers an interest in a new alarm being set.
    ///
    /// If `wake_threshold` is `None`, then an interest is registered in any alarm being set.  Otherwise,
    /// an interest is registered in any alarm being set with an alarm time < `wake_threshold`.
    ///
    /// If a new alarm is subsequently set that meets the interest, then the provider's waker is awoken.
    ///
    /// Note that the provider's waker is NOT automatically awoken if there are existing alarms that meet
    /// the interest.  Normally, `advance` would be called before this method to determine if there are
    /// any alarms that require immediate action.
    ///
    /// Returns `Poll::Pending` ALWAYS.
    pub fn external_poll_new_alarm(
        &mut self,
        cx: &mut Context,
        wake_threshold: Option<T>,
    ) -> (never: Poll<Infallible>)
        requires
            old(self).wf(),
        ensures
            final(self).wf(),
            never is Pending,
            final(self)@ == (ClockModel {
                external_threshold: wake_threshold,
                external_waker: Some(old(cx).waker),
                ..old(self)@
            }),
            *final(cx) == *old(cx),
    {
        self.head.external_threshold = wake_threshold;
        self.head.external_waker.register(&cx.waker);
        Poll::Pending
    }

    /// Wakes the tasks that wait for the given alarms, in that order.
    fn wake_all(&mut self, fired: &Vec<usize>, woken: &mut WakeQueue)
        requires
            old(self).alarms.wf(),
            fired@.no_duplicates(),
            forall|i: int|
                0 <= i < fired@.len() ==> old(self)@.alarms.contains_key(#[trigger] fired@[i])
                    && old(self)@.alarms[fired@[i]].waker is Some,
        ensures
            final(self).alarms.wf(),
            final(self)@ == (ClockModel {
                alarms: old(self)@.without_wakers(fired@),
                ..old(self)@
            }),
            final(woken)@ == old(woken)@ + old(self)@.wakers(fired@),
    {
        let ghost before = self@;
        let mut i: usize = 0;
        assert(fired@.take(0) =~= Seq::<usize>::empty());
        assert(before.without_wakers(fired@.take(0)) =~= before.alarms);
        assert(woken@ =~= old(woken)@ + before.wakers(fired@.take(0)));
        while i < fired.len()
            invariant
                i <= fired@.len(),
                before == old(self)@,
                fired@.no_duplicates(),
                forall|j: int|
                    0 <= j < fired@.len() ==> before.alarms.contains_key(#[trigger] fired@[j])
                        && before.alarms[fired@[j]].waker is Some,
                self.alarms.wf(),
                self@ == (ClockModel {
                    alarms: before.without_wakers(fired@.take(i as int)),
                    ..before
                }),
                woken@ == old(woken)@ + before.wakers(fired@.take(i as int)),
            decreases fired@.len() - i,
        {
            let id: usize = fired[i];
            let ghost leaves = self.alarms.leaves();
            let ghost done = fired@.take(i as int);
            proof {
                assert(before.alarms.contains_key(fired@[i as int]));
                assert(self@.alarms.contains_key(id));
                assert(fired@.take(i + 1) =~= done.push(id));
                assert(!done.contains(id));
                assert(self@.alarms[id].waker == leaves[id].waker);
            }
            self.alarms.get_mut(id).wake(woken);
            proof {
                assert forall|other: usize| done.push(id).contains(other) <==> (done.contains(other)
                    || other == id) by {
                    crate::seq_facts::lemma_push_members(done, id, other);
                }
                let alarms = before.without_wakers(done.push(id));
                assert forall|other: usize| #[trigger]
                    self@.alarms.contains_key(other) implies self@.alarms[other]
                    == alarms[other] by {
                    if other != id {
                        assert(self.alarms.leaves()[other] == leaves[other]);
                        assert(leaves[other].model() == before.without_wakers(done)[other]);
                    }
                }
                assert(self@.alarms =~= alarms);
                assert(woken@ =~= old(woken)@ + before.wakers(done.push(id)));
            }
            i = i + 1;
        }
        assert(fired@.take(i as int) =~= fired@);
    }

    /// Returns a clone of the earliest deadline among the alarms that wait.
    fn earliest_alarm(&self) -> (next: Option<T>)
        requires
            self.wf(),
        ensures
            match earliest(self@.deadlines(self@.waiting)) {
                Some(t) => next is Some && cloned(t, next->0),
                None => next is None,
            },
    {
        let ids: Vec<usize> = self.alarms.linked_leaves();
        let ghost deadlines = self@.deadlines(ids@);
        let mut min_alarm: Option<&T> = None;
        let mut i: usize = 0;
        while i < ids.len()
            invariant
                self.wf(),
                ids@ == self@.waiting,
                deadlines == self@.deadlines(ids@),
                i <= ids@.len(),
                earliest(deadlines.take(i as int)) == match min_alarm {
                    Some(min) => Some(*min),
                    None => None,
                },
            decreases ids@.len() - i,
        {
            proof {
                assert(self@.alarms.contains_key(self@.waiting[i as int]));
                assert(deadlines.take(i + 1).drop_last() =~= deadlines.take(i as int));
                assert(deadlines.take(i + 1).last() == deadlines[i as int]);
            }
            if let Some(alarm_time) = &self.alarms.get(ids[i]).val {
                if let Some(min_time) = min_alarm {
                    if *alarm_time < *min_time {
                        min_alarm = Some(alarm_time);
                    }
                } else {
                    min_alarm = Some(alarm_time);
                }
            }
            i = i + 1;
        }
        assert(deadlines.take(i as int) =~= deadlines);
        match min_alarm {
            Some(min_time) => Some(min_time.clone()),
            None => None,
        }
    }
}

/// An alarm against an [`AlarmClock`], which fires when the clock's value reaches
/// a threshold.
///
/// The alarm threshold can be changed at any time via
/// [`set_alarm`](Self::set_alarm), and setting it to `None` disables the alarm
/// (it will pend indefinitely).
///
/// [`alarm_poll`](Self::alarm_poll) monitors an edge-triggered, idempotent event:
/// the clock time first meeting or exceeding the alarm threshold.
///
/// - If the condition is **not yet met**, the call returns [`Poll::Pending`]
///   and the task's waker is registered.  The waker will fire when the clock
///   advances past the threshold.
/// - If the condition **is currently met**, the call returns
///   [`Poll::Ready`].  Further calls continue to return `Ready` (the event
///   is idempotent) until the alarm is reset via [`set_alarm`](Self::set_alarm).
///   The task is not registered to be woken.
/// - [`set_alarm`](Self::set_alarm) resets the alarm threshold but **never**
///   registers or wakes the task — only `alarm_poll` does that.  If the
///   task was previously registered to wake, that registration is dropped.
///
/// An alarm is a number that its clock knows, so every method takes the clock
/// that the alarm was created against.
pub struct ClockAlarm {
    node: usize,
}

impl Debug for ClockAlarm {
    fn fmt(&self, f: &mut Formatter<'_>) -> core::fmt::Result {
        f.debug_struct("ClockAlarm").finish_non_exhaustive()
    }
}

impl ClockAlarm {
    /// The number under which the clock knows this alarm.
    pub closed spec fn id(&self) -> usize {
        self.node
    }

    /// Creates a new alarm against the given clock.
    ///
    /// `wake_at` is the threshold value; the alarm fires when the clock reaches
    /// or exceeds it.  Pass `None` to create a disabled alarm that can be armed
    /// later via [`set_alarm`](Self::set_alarm).
    pub fn new<T: PartialOrd + Clone>(clock: &mut AlarmClock<T>, wake_at: Option<T>) -> (alarm:
        ClockAlarm)
        requires
            old(clock).wf(),
        ensures
            final(clock).wf(),
            !old(clock)@.alarms.contains_key(alarm.id()),
            !old(clock)@.waiting.contains(alarm.id()),
            final(clock)@ == (ClockModel {
                alarms: old(clock)@.alarms.insert(
                    alarm.id(),
                    AlarmModel { val: wake_at, waker: None },
                ),
                ..old(clock)@
            }),
    {
        proof {
            clock.alarms.order_wf();
        }
        let node = clock.alarms.new_leaf(ClockNodeValue { val: wake_at, waker: None });
        assert(clock@.alarms =~= old(clock)@.alarms.insert(
            node,
            AlarmModel { val: wake_at, waker: None },
        ));
        ClockAlarm { node }
    }

    /// Changes the alarm threshold.
    ///
    /// Any previous registration (waker + list link) is unconditionally
    /// dropped.  The task will not be woken by a subsequent clock advance
    /// unless [`alarm_poll`](Self::alarm_poll) is called again to
    /// re-register.
    ///
    /// This method **never** registers or wakes the task — only
    /// `alarm_poll` does that.
    pub fn set_alarm<T: PartialOrd + Clone>(&self, clock: &mut AlarmClock<T>, wake_at: Option<T>)
        requires
            old(clock).wf(),
            old(clock)@.alarms.contains_key(self.id()),
        ensures
            final(clock).wf(),
            final(clock)@ == old(clock)@.setting(self.id(), wake_at),
    {
        proof {
            clock.alarms.order_wf();
        }
        clock.alarms.unlink(self.node);
        let value = clock.alarms.get_mut(self.node);
        value.waker = None;
        value.val = wake_at;
        proof {
            lemma_leave(old(clock)@, self.node);
            assert(clock@.alarms =~= old(clock)@.alarms.insert(
                self.node,
                AlarmModel { val: wake_at, waker: None },
            ));
        }
    }

    /// Returns the current alarm threshold, or `None` if disabled.
    pub fn get_alarm<'a, T: PartialOrd + Clone>(&self, clock: &'a AlarmClock<T>) -> (wake_at:
        Option<&'a T>)
        requires
            clock.wf(),
            clock@.alarms.contains_key(self.id()),
        ensures
            wake_at == match clock@.alarms[self.id()].val {
                Some(t) => Some(&t),
                None => None,
            },
    {
        match &clock.alarms.get(self.node).val {
            Some(wake_at) => Some(wake_at),
            None => None,
        }
    }

    /// Polls the alarm.
    ///
    /// - Returns [`Poll::Pending`] if the clock has not yet reached the
    ///   threshold.  The task's waker is registered and will fire when the
    ///   clock advances past the threshold.  A provider that registered an
    ///   interest in such an alarm is woken.
    /// - Returns [`Poll::Ready`] if the threshold is currently met.
    ///   Further calls continue to return `Ready` until the alarm is reset
    ///   via [`set_alarm`](Self::set_alarm).
    /// - If the alarm is disabled (`None` threshold), always returns
    ///   `Pending`.
    pub fn alarm_poll<T: PartialOrd + Clone>(
        &self,
        clock: &mut AlarmClock<T>,
        cx: &mut Context,
    ) -> (fired: Poll<()>)
        requires
            old(clock).wf(),
            old(clock)@.alarms.contains_key(self.id()),
        ensures
            final(clock).wf(),
            ({
                let before = old(clock)@;
                let after = final(clock)@;
                match before.alarms[self.id()].val {
                    None => {
                        &&& fired is Pending
                        &&& after == before
                        &&& *final(cx) == *old(cx)
                    },
                    Some(alarm) => if is_due(before.time, Some(alarm)) {
                        &&& fired is Ready
                        &&& after == before
                        &&& *final(cx) == *old(cx)
                    } else {
                        &&& fired is Pending
                        &&& after == before.registering(self.id(), alarm, old(cx).waker)
                        &&& old(cx).woke(
                            *final(cx),
                            if before.interested_in(alarm) {
                                crate::waker_ref::wakes_of(before.external_waker)
                            } else {
                                Seq::empty()
                            },
                        )
                    },
                }
            }),
    {
        let ghost before = clock@;
        let ghost id = self.node;
        proof {
            clock.alarms.order_wf();
        }
        match &clock.alarms.get(self.node).val {
            None => {
                // Alarm disabled — unlink and pend forever.
                proof {
                    lemma_not_waiting(before, id);
                }
                clock.alarms.unlink(self.node);
                return Poll::Pending;
            },
            Some(alarm) => {
                if clock.head.time >= *alarm {
                    // Threshold met — unlink without registering a waker.
                    // Any previous waker was already consumed by the clock
                    // advance that triggered this re-poll, or was never
                    // stored (first poll with condition already met).
                    proof {
                        lemma_not_waiting(before, id);
                    }
                    clock.alarms.unlink(self.node);
                    return Poll::Ready(());
                } else if let Some(threshold) = &clock.head.external_threshold {
                    if *alarm < *threshold {
                        clock.head.external_threshold = None;
                        clock.head.external_waker.wake(&mut cx.woken);
                    }
                } else {
                    clock.head.external_waker.wake(&mut cx.woken);
                }
            },
        }
        // Clock hasn't reached our threshold yet.
        // Store / update the waker so a future clock change can notify us.
        clock.alarms.get_mut(self.node).set_waker(&cx.waker);
        // Link into the list so a future clock change can wake us.
        clock.alarms.link(self.node);
        proof {
            let after = clock@;
            assert(after.alarms =~= before.alarms.insert(
                id,
                AlarmModel { val: before.alarms[id].val, waker: Some(cx.waker) },
            ));
            assert forall|other: usize| before.waiting.push(id).contains(other) <==> (
            before.waiting.contains(other) || other == id) by {
                crate::seq_facts::lemma_push_members(before.waiting, id, other);
            }
            clock.alarms.order_wf();
            assert(old(cx).woken@ + Seq::<Waker>::empty() =~= old(cx).woken@);
        }
        Poll::Pending
    }

    /// Gives the alarm up: it leaves its clock, and the task that waits for it is
    /// not woken any more.
    pub fn release<T: PartialOrd + Clone>(self, clock: &mut AlarmClock<T>)
        requires
            old(clock).wf(),
            old(clock)@.alarms.contains_key(self.id()),
        ensures
            final(clock).wf(),
            final(clock)@ == (ClockModel {
                alarms: old(clock)@.alarms.remove(self.id()),
                waiting: old(clock)@.waiting.filter(crate::intrusive_list::other_than(self.id())),
                ..old(clock)@
            }),
    {
        clock.alarms.remove_leaf(self.node);
        proof {
            lemma_leave(old(clock)@, self.node);
            assert(clock@.alarms =~= old(clock)@.alarms.remove(self.node));
        }
    }
}

/// An alarm that is due, or disabled, does not wait.
proof fn lemma_not_waiting<T: PartialOrd>(clock: ClockModel<T>, id: usize)
    requires
        clock.consistent(),
        is_due(clock.time, clock.alarms[id].val),
    ensures
        !clock.waiting.contains(id),
        clock.waiting.filter(crate::intrusive_list::other_than(id)) == clock.waiting,
{
    if clock.waiting.contains(id) {
        let i = choose|i: int| 0 <= i < clock.waiting.len() && clock.waiting[i] == id;
        assert(!is_due(clock.time, clock.alarms[clock.waiting[i]].val));
    }
    crate::intrusive_list::lemma_without_absent(clock.waiting, id);
}

/// The other alarms wait as before once an alarm has left the list.
proof fn lemma_leave<T: PartialOrd>(clock: ClockModel<T>, id: usize)
    requires
        clock.consistent(),
    ensures
        ({
            let waiting = clock.waiting.filter(crate::intrusive_list::other_than(id));
            &&& waiting.no_duplicates()
            &&& forall|i: int|
                0 <= i < waiting.len() ==> (#[trigger] waiting[i]) != id
                    && clock.alarms.contains_key(waiting[i]) && !is_due(
                    clock.time,
                    clock.alarms[waiting[i]].val,
                )
            &&& forall|other: usize| #[trigger]
                waiting.contains(other) <==> clock.waiting.contains(other) && other != id
        }),
{
    let waiting = clock.waiting.filter(crate::intrusive_list::other_than(id));
    crate::seq_facts::lemma_filter_distinct(clock.waiting, crate::intrusive_list::other_than(id));
    crate::seq_facts::lemma_filter_members(clock.waiting, crate::intrusive_list::other_than(id));
    assert forall|i: int| 0 <= i < waiting.len() implies (#[trigger] waiting[i]) != id
        && clock.alarms.contains_key(waiting[i]) && !is_due(
        clock.time,
        clock.alarms[waiting[i]].val,
    ) by {
        assert(waiting.contains(waiting[i]));
        let j = choose|j: int| 0 <= j < clock.waiting.len() && clock.waiting[j] == waiting[i];
        assert(clock.alarms.contains_key(clock.waiting[j]));
    }
}

/// No alarm that waits has a threshold that the clock has met, and every alarm
/// that waits has a task to wake.
pub proof fn law_no_waiting_alarm_is_due<T: PartialOrd + Clone>(clock: AlarmClock<T>, id: usize)
    requires
        clock.wf(),
        clock@.waiting.contains(id),
    ensures
        clock@.alarms.contains_key(id),
        clock@.alarms[id].waker is Some,
        clock@.alarms[id].val matches Some(alarm) && !clock@.time.is_ge(&alarm),
{
    let i = choose|i: int| 0 <= i < clock@.waiting.len() && clock@.waiting[i] == id;
    assert(clock@.alarms.contains_key(clock@.waiting[i]));
}

/// Comparing values is a matter of a total order.
pub open spec fn totally_ordered<T: PartialOrd>() -> bool {
    &&& forall|a: T, b: T, c: T|
        !(#[trigger] before(b, a)) && !(#[trigger] before(c, b)) ==> !before(c, a)
    &&& forall|a: T, b: T| (#[trigger] before(a, b)) ==> !before(b, a)
    &&& forall|a: T, b: T| (#[trigger] before(a, b)) == b.is_gt(&a)
    &&& forall|a: T, b: T| (#[trigger] before(a, b)) == !a.is_ge(&b)
}

/// The clock never goes back, and an alarm that is due stays due, whatever the
/// clock is advanced to.
pub proof fn law_due_stays_due<T: PartialOrd>(clock: ClockModel<T>, new_time: T, alarm: T)
    requires
        totally_ordered::<T>(),
    ensures
        !before(clock.advancing(new_time).time, clock.time),
        !before(clock.advancing(new_time).time, new_time),
        clock.time.is_ge(&alarm) ==> clock.advancing(new_time).time.is_ge(&alarm),
{
    let time = clock.time;
    assert(before(time, new_time) == new_time.is_gt(&time));
    assert(before(time, new_time) ==> !before(new_time, time));
    assert(before(time, time) ==> !before(time, time));
    assert(before(time, alarm) == !time.is_ge(&alarm));
    assert(before(new_time, alarm) == !new_time.is_ge(&alarm));
    assert(before(new_time, new_time) ==> !before(new_time, new_time));
    if before(time, new_time) {
        assert(!before(new_time, time));
        assert(!before(time, alarm) ==> !before(new_time, alarm));
    }
}

/// The earliest deadline is one of the deadlines, and where the values of the
/// clock are totally ordered no deadline is before it.
pub proof fn law_earliest_is_first<T: PartialOrd>(deadlines: Seq<T>)
    requires
        totally_ordered::<T>(),
    ensures
        earliest(deadlines) is None <==> deadlines.len() == 0,
        earliest(deadlines) matches Some(min) ==> {
            &&& deadlines.contains(min)
            &&& forall|i: int| 0 <= i < deadlines.len() ==> !before(#[trigger] deadlines[i], min)
        },
    decreases deadlines.len(),
{
    if deadlines.len() > 0 {
        let rest = deadlines.drop_last();
        let last = deadlines.last();
        law_earliest_is_first(rest);
        assert(deadlines[deadlines.len() - 1] == last);
        if let Some(min) = earliest(rest) {
            let k = choose|k: int| 0 <= k < rest.len() && rest[k] == min;
            assert(deadlines[k] == min);
            assert forall|i: int|
                0 <= i < deadlines.len() implies !before(
                #[trigger] deadlines[i],
                earliest(deadlines)->0,
            ) by {
                if i < rest.len() {
                    assert(!before(rest[i], min));
                    assert(before(last, min) ==> !before(min, last));
                } else {
                    assert(before(last, last) ==> !before(last, last));
                }
            }
        }
    }
}

/// An alarm that is due when the clock advances leaves the list, and its task is
/// woken once for it; an alarm that is not due keeps its task, and goes on waiting.
/// No alarm's threshold changes.
pub proof fn law_advance_wakes_due_alarms<T: PartialOrd>(
    clock: ClockModel<T>,
    new_time: T,
    id: usize,
)
    requires
        clock.consistent(),
        clock.waiting.contains(id),
    ensures
        ({
            let fired = clock.fired_by(new_time);
            let after = clock.advancing(new_time);
            let due = is_due(after.time, clock.alarms[id].val);
            &&& fired.no_duplicates()
            &&& fired.contains(id) == due
            &&& due ==> clock.wakers(fired).contains(clock.alarms[id].waker->0)
            &&& after.waiting.contains(id) == !due
            &&& after.alarms.contains_key(id)
            &&& after.alarms[id].val == clock.alarms[id].val
            &&& after.alarms[id].waker == if due {
                None
            } else {
                clock.alarms[id].waker
            }
        }),
{
    let time = clock.time_after(new_time);
    let fired = clock.fired_by(new_time);
    crate::seq_facts::lemma_filter_members(clock.waiting, clock.due_at(time));
    crate::seq_facts::lemma_filter_members(clock.waiting, clock.later_than(time));
    crate::seq_facts::lemma_filter_distinct(clock.waiting, clock.due_at(time));
    let i = choose|i: int| 0 <= i < clock.waiting.len() && clock.waiting[i] == id;
    assert(clock.alarms.contains_key(clock.waiting[i]));
    if fired.contains(id) {
        let k = choose|k: int| 0 <= k < fired.len() && fired[k] == id;
        assert(clock.wakers(fired)[k] == clock.alarms[id].waker->0);
    }
}

/// A time that is not later than the clock's changes nothing and wakes nobody.
pub proof fn law_clock_only_moves_forward<T: PartialOrd>(clock: ClockModel<T>, new_time: T)
    requires
        clock.consistent(),
        !new_time.is_gt(&clock.time),
    ensures
        clock.advancing(new_time) == clock,
        clock.fired_by(new_time) == Seq::<usize>::empty(),
{
    let due = clock.due_at(clock.time);
    let later = clock.later_than(clock.time);
    assert forall|i: int| 0 <= i < clock.waiting.len() implies !due(#[trigger] clock.waiting[i])
        && later(clock.waiting[i]) by {
        assert(clock.alarms.contains_key(clock.waiting[i]));
    }
    crate::seq_facts::lemma_filter_none(clock.waiting, due);
    crate::seq_facts::lemma_filter_all(clock.waiting, later);
    assert(clock.without_wakers(Seq::empty()) =~= clock.alarms);
}

/// A task that was told to wait for an alarm is woken by the advance of the clock
/// that meets the alarm's threshold, and the next poll of the alarm is ready.
pub proof fn law_pending_alarm_is_woken<T: PartialOrd>(
    clock: ClockModel<T>,
    id: usize,
    alarm: T,
    waker: Waker,
    new_time: T,
)
    requires
        clock.consistent(),
        clock.alarms.contains_key(id),
        clock.alarms[id].val == Some(alarm),
        !clock.time.is_ge(&alarm),
        clock.time_after(new_time).is_ge(&alarm),
    ensures
        ({
            let polled = clock.registering(id, alarm, waker);
            let after = polled.advancing(new_time);
            &&& polled.consistent()
            &&& polled.wakers(polled.fired_by(new_time)).contains(waker)
            &&& after.alarms[id].val == Some(alarm)
            &&& after.time.is_ge(&alarm)
            &&& !after.waiting.contains(id)
        }),
{
    let polled = clock.registering(id, alarm, waker);
    assert forall|other: usize| clock.waiting.push(id).contains(other) <==> (
    clock.waiting.contains(other) || other == id) by {
        crate::seq_facts::lemma_push_members(clock.waiting, id, other);
    }
    assert forall|i: int| 0 <= i < polled.waiting.len() implies polled.alarms.contains_key(
        #[trigger] polled.waiting[i],
    ) && !is_due(polled.time, polled.alarms[polled.waiting[i]].val) by {
        if i < clock.waiting.len() {
            assert(clock.alarms.contains_key(clock.waiting[i]));
        }
    }
    law_advance_wakes_due_alarms(polled, new_time, id);
}

/// Setting an alarm drops its registration: whatever the clock is advanced to
/// next, the task that waited for the alarm is not woken for it.
pub proof fn law_set_alarm_drops_registration<T: PartialOrd>(
    clock: ClockModel<T>,
    id: usize,
    wake_at: Option<T>,
    new_time: T,
)
    ensures
        ({
            let after = clock.setting(id, wake_at);
            &&& after.alarms[id] == (AlarmModel { val: wake_at, waker: None })
            &&& !after.waiting.contains(id)
            &&& !after.fired_by(new_time).contains(id)
        }),
{
    let after = clock.setting(id, wake_at);
    crate::seq_facts::lemma_filter_members(clock.waiting, crate::intrusive_list::other_than(id));
    crate::seq_facts::lemma_filter_members(
        after.waiting,
        after.due_at(after.time_after(new_time)),
    );
    assert(!after.waiting.contains(id));
}

/// A provider that registered an interest is woken by the first alarm to be waited
/// for that meets it, and by no other: an alarm that does not meet it leaves the
/// registration as it was, and one that does uses the registration up.
pub proof fn law_provider_is_woken_once<T: PartialOrd>(
    clock: ClockModel<T>,
    id: usize,
    alarm: T,
    waker: Waker,
)
    ensures
        ({
            let after = clock.registering(id, alarm, waker);
            if clock.interested_in(alarm) {
                after.external_waker is None && after.external_threshold is None
            } else {
                &&& after.external_waker == clock.external_waker
                &&& after.external_threshold == clock.external_threshold
                &&& clock.external_threshold matches Some(threshold) && !before(alarm, threshold)
            }
        }),
{
}

/// A threshold is due at a time that has reached it, and one that is not there is due at
/// any time; coming before is being less.
pub proof fn law_due_means_reached<T: PartialOrd>(time: T, alarm: T)
    ensures
        is_due(time, Some(alarm)) == time.is_ge(&alarm),
        is_due(time, None::<T>),
        before(alarm, time) == alarm.is_lt(&time),
{
}

/// Integers are totally ordered, so that what is said of totally ordered times holds of
/// them.
pub proof fn law_integers_are_totally_ordered()
    ensures
        totally_ordered::<u64>(),
        totally_ordered::<i64>(),
        forall|time: u64, alarm: u64| #[trigger] is_due(time, Some(alarm)) == (time >= alarm),
        forall|a: u64, b: u64| #[trigger] before(a, b) == (a < b),
{
}

/// Advancing a clock returns the earliest deadline that is still set: nothing exactly if
/// no alarm waits, and otherwise a clone of the threshold of an alarm that waits, than
/// which no alarm that waits has an earlier one.  Of several alarms with the same deadline
/// it is that of the one which began to wait first.
pub proof fn law_advance_returns_the_earliest_deadline<T: PartialOrd + Clone>(
    clock: &mut AlarmClock<T>,
    new_time: T,
    woken: &mut WakeQueue,
    next: Option<T>,
)
    requires
        totally_ordered::<T>(),
        old(clock).wf(),
        call_ensures(AlarmClock::<T>::advance, (clock, new_time, woken), next),
    ensures
        next is None <==> final(clock)@.waiting.len() == 0,
        forall|id: usize| #[trigger]
            final(clock)@.waiting.contains(id) ==> final(clock)@.alarms[id].val is Some,
        next matches Some(t) ==> exists|k: int|
            #![trigger final(clock)@.waiting[k]]
            {
                let first = final(clock)@.alarms[final(clock)@.waiting[k]].val->0;
                &&& 0 <= k < final(clock)@.waiting.len()
                &&& cloned(first, t)
                &&& forall|id: usize| #[trigger]
                    final(clock)@.waiting.contains(id) ==> !before(
                        final(clock)@.alarms[id].val->0,
                        first,
                    )
                &&& forall|j: int|
                    0 <= j < k ==> before(
                        first,
                        final(clock)@.alarms[#[trigger] final(clock)@.waiting[j]].val->0,
                    )
            },
{
    let after = final(clock)@;
    let deadlines = after.deadlines(after.waiting);
    final(clock).wf_consistent();
    assert forall|id: usize| #[trigger] after.waiting.contains(id) implies after.alarms[id].val
        is Some by {
        law_no_waiting_alarm_is_due(*final(clock), id);
    }
    if let Some(t) = next {
        let k = lemma_first_of_the_earliest(deadlines);
        let first = after.alarms[after.waiting[k]].val->0;
        assert(after.waiting.contains(after.waiting[k]));
        assert(deadlines[k] == first);
        assert(cloned(first, t));
        assert forall|id: usize| #[trigger] after.waiting.contains(id) implies !before(
            after.alarms[id].val->0,
            first,
        ) by {
            let i = choose|i: int| 0 <= i < after.waiting.len() && after.waiting[i] == id;
            assert(!before(deadlines[i], first));
        }
        assert forall|j: int| 0 <= j < k implies before(
            first,
            after.alarms[#[trigger] after.waiting[j]].val->0,
        ) by {
            assert(before(first, deadlines[j]));
        }
    }
}

/// Where the earliest of the deadlines is: no deadline is before it, and it is before all
/// those that precede it.
proof fn lemma_first_of_the_earliest<T: PartialOrd>(deadlines: Seq<T>) -> (k: int)
    requires
        totally_ordered::<T>(),
        deadlines.len() > 0,
    ensures
        0 <= k < deadlines.len(),
        earliest(deadlines) == Some(deadlines[k]),
        forall|i: int| 0 <= i < deadlines.len() ==> !before(#[trigger] deadlines[i], deadlines[k]),
        forall|j: int| 0 <= j < k ==> before(deadlines[k], #[trigger] deadlines[j]),
    decreases deadlines.len(),
{
    law_earliest_is_first(deadlines);
    let rest = deadlines.drop_last();
    let last = deadlines.last();
    if rest.len() == 0 {
        assert(earliest(rest) is None);
        0
    } else {
        let m = lemma_first_of_the_earliest(rest);
        if before(last, rest[m]) {
            let k = deadlines.len() - 1;
            assert forall|j: int| 0 <= j < k implies before(
                deadlines[k],
                #[trigger] deadlines[j],
            ) by {
                assert(deadlines[j] == rest[j]);
                assert(!before(rest[j], rest[m]));
            }
            k
        } else {
            assert forall|j: int| 0 <= j < m implies before(
                deadlines[m],
                #[trigger] deadlines[j],
            ) by {
                assert(deadlines[j] == rest[j]);
            }
            m
        }
    }
}

/// Advancing a clock moves it to the new time if that is later, and leaves it where it is
/// otherwise.  Only a clock that moves forgets the threshold of its provider, and the
/// provider itself stays registered.
pub proof fn law_advance_moves_the_clock<T: PartialOrd + Clone>(
    clock: &mut AlarmClock<T>,
    new_time: T,
    woken: &mut WakeQueue,
    next: Option<T>,
)
    requires
        old(clock).wf(),
        call_ensures(AlarmClock::<T>::advance, (clock, new_time, woken), next),
    ensures
        new_time.is_gt(&old(clock)@.time) ==> {
            &&& final(clock)@.time == new_time
            &&& final(clock)@.external_threshold is None
        },
        !new_time.is_gt(&old(clock)@.time) ==> {
            &&& final(clock)@ == old(clock)@
            &&& final(woken)@ == old(woken)@
        },
        final(clock)@.external_waker == old(clock)@.external_waker,
{
    if !new_time.is_gt(&old(clock)@.time) {
        old(clock).wf_consistent();
        law_clock_only_moves_forward(old(clock)@, new_time);
        assert(final(woken)@ =~= old(woken)@);
    }
}

/// Advancing a clock ends the wait of every alarm whose threshold the clock has met, and
/// of no other.  No alarm comes, goes or changes its threshold, those that go on
/// waiting keep their order and their tasks, and those that do not have no task any
/// more.
pub proof fn law_advance_ends_the_wait_of_due_alarms<T: PartialOrd + Clone>(
    clock: &mut AlarmClock<T>,
    new_time: T,
    woken: &mut WakeQueue,
    next: Option<T>,
    id: usize,
)
    requires
        old(clock).wf(),
        call_ensures(AlarmClock::<T>::advance, (clock, new_time, woken), next),
    ensures
        ({
            let before = old(clock)@;
            let after = final(clock)@;
            let goes_on = |waiting: usize| !is_due(after.time, before.alarms[waiting].val);
            &&& after.waiting == before.waiting.filter(goes_on)
            &&& after.waiting.contains(id) <==> before.waiting.contains(id) && goes_on(id)
            &&& after.alarms.contains_key(id) == before.alarms.contains_key(id)
            &&& before.alarms.contains_key(id) ==> {
                &&& after.alarms[id].val == before.alarms[id].val
                &&& after.alarms[id].waker == if after.waiting.contains(id) {
                    before.alarms[id].waker
                } else {
                    None
                }
            }
        }),
{
    let before = old(clock)@;
    let after = final(clock)@;
    let goes_on = |waiting: usize| !is_due(after.time, before.alarms[waiting].val);
    old(clock).wf_consistent();
    let time = before.time_after(new_time);
    crate::seq_facts::lemma_filter_agree(before.waiting, before.later_than(time), goes_on);
    crate::seq_facts::lemma_filter_members(before.waiting, goes_on);
    assert(before.waiting.filter(goes_on).contains(id) <==> before.waiting.contains(id) && goes_on(
        id,
    ));
    crate::seq_facts::lemma_filter_members(before.waiting, before.due_at(time));
    assert(before.fired_by(new_time).contains(id) <==> before.waiting.contains(id)
        && before.due_at(time)(id));
    if before.alarms.contains_key(id) {
        assert(before.alarms[id].waker is Some <==> before.waiting.contains(id));
    }
}

/// Advancing a clock wakes the task of every alarm whose wait it ends, once for each, in
/// the order in which they began to wait, and nobody else.
pub proof fn law_advance_wakes_whom_it_releases<T: PartialOrd + Clone>(
    clock: &mut AlarmClock<T>,
    new_time: T,
    woken: &mut WakeQueue,
    next: Option<T>,
)
    requires
        old(clock).wf(),
        call_ensures(AlarmClock::<T>::advance, (clock, new_time, woken), next),
    ensures
        ({
            let before = old(clock)@;
            let released = before.waiting.filter(
                |id: usize| is_due(final(clock)@.time, before.alarms[id].val),
            );
            &&& final(woken)@.len() == old(woken)@.len() + released.len()
            &&& final(woken)@.take(old(woken)@.len() as int) == old(woken)@
            &&& forall|i: int|
                0 <= i < released.len() ==> before.alarms[#[trigger] released[i]].waker == Some(
                    final(woken)@[old(woken)@.len() + i],
                )
        }),
{
    let before = old(clock)@;
    let time = before.time_after(new_time);
    let is_released = |id: usize| is_due(final(clock)@.time, before.alarms[id].val);
    let released = before.waiting.filter(is_released);
    old(clock).wf_consistent();
    crate::seq_facts::lemma_filter_agree(before.waiting, before.due_at(time), is_released);
    crate::seq_facts::lemma_filter_members(before.waiting, is_released);
    assert(final(woken)@.take(old(woken)@.len() as int) =~= old(woken)@);
    assert forall|i: int| 0 <= i < released.len() implies before.alarms[
        #[trigger] released[i]
    ].waker == Some(final(woken)@[old(woken)@.len() + i]) by {
        assert(released.contains(released[i]));
        law_no_waiting_alarm_is_due(*old(clock), released[i]);
    }
}

/// A poll of an alarm is ready exactly if its threshold is met, and then, or if it is
/// disabled, nothing changes and nobody is woken.
pub proof fn law_poll_is_ready_once_due<T: PartialOrd + Clone>(
    alarm: &ClockAlarm,
    clock: &mut AlarmClock<T>,
    cx: &mut Context,
    fired: Poll<()>,
)
    requires
        old(clock).wf(),
        old(clock)@.alarms.contains_key(alarm.id()),
        call_ensures(ClockAlarm::alarm_poll::<T>, (alarm, clock, cx), fired),
    ensures
        fired is Ready <==> (old(clock)@.alarms[alarm.id()].val matches Some(threshold) && old(clock)@.time.is_ge(&threshold)),
        fired is Ready || old(clock)@.alarms[alarm.id()].val is None ==> final(clock)@ == old(clock)@ && final(cx).woken@ == old(cx).woken@,
        final(cx).waker == old(cx).waker,
{
}

/// A poll that has to wait for the clock registers the polling task with the alarm, at
/// the end of those that wait unless it waits already.  The threshold and the time stay
/// as they are.
pub proof fn law_pending_poll_registers_the_task<T: PartialOrd + Clone>(
    alarm: &ClockAlarm,
    clock: &mut AlarmClock<T>,
    cx: &mut Context,
    fired: Poll<()>,
)
    requires
        old(clock).wf(),
        old(clock)@.alarms.contains_key(alarm.id()),
        old(clock)@.alarms[alarm.id()].val is Some,
        call_ensures(ClockAlarm::alarm_poll::<T>, (alarm, clock, cx), fired),
        fired is Pending,
    ensures
        final(clock)@.time == old(clock)@.time,
        final(clock)@.alarms.contains_key(alarm.id()),
        final(clock)@.alarms[alarm.id()].val == old(clock)@.alarms[alarm.id()].val,
        final(clock)@.alarms[alarm.id()].waker == Some(old(cx).waker),
        final(clock)@.waiting == if old(clock)@.waiting.contains(alarm.id()) {
            old(clock)@.waiting
        } else {
            old(clock)@.waiting.push(alarm.id())
        },
        final(clock)@.waiting.contains(alarm.id()),
{
    crate::seq_facts::lemma_push_members(old(clock)@.waiting, alarm.id(), alarm.id());
}

/// Polling one alarm leaves all others alone.
pub proof fn law_poll_leaves_other_alarms_alone<T: PartialOrd + Clone>(
    alarm: &ClockAlarm,
    clock: &mut AlarmClock<T>,
    cx: &mut Context,
    fired: Poll<()>,
    other: usize,
)
    requires
        old(clock).wf(),
        old(clock)@.alarms.contains_key(alarm.id()),
        call_ensures(ClockAlarm::alarm_poll::<T>, (alarm, clock, cx), fired),
        other != alarm.id(),
    ensures
        final(clock)@.alarms.contains_key(other) == old(clock)@.alarms.contains_key(other),
        final(clock)@.alarms[other] == old(clock)@.alarms[other],
        final(clock)@.waiting.contains(other) == old(clock)@.waiting.contains(other),
{
    crate::seq_facts::lemma_push_members(old(clock)@.waiting, alarm.id(), other);
}

/// A provider that waits is woken by a poll that begins to wait for an alarm before the
/// provider's threshold, or for any alarm if it gave none; its registration is then used
/// up.  Any other poll leaves the provider alone, and wakes nobody.
pub proof fn law_poll_tells_the_provider<T: PartialOrd + Clone>(
    alarm: &ClockAlarm,
    clock: &mut AlarmClock<T>,
    cx: &mut Context,
    fired: Poll<()>,
)
    requires
        old(clock).wf(),
        old(clock)@.alarms.contains_key(alarm.id()),
        call_ensures(ClockAlarm::alarm_poll::<T>, (alarm, clock, cx), fired),
    ensures
        ({
            let before = old(clock)@;
            let after = final(clock)@;
            let tells = fired is Pending && (before.alarms[alarm.id()].val matches Some(deadline)
                && (before.external_threshold matches Some(threshold) ==> deadline.is_lt(
                &threshold,
            )));
            &&& after.external_threshold == if tells {
                None
            } else {
                before.external_threshold
            }
            &&& after.external_waker == if tells {
                None
            } else {
                before.external_waker
            }
            &&& final(cx).woken@ == match before.external_waker {
                Some(provider) if tells => old(cx).woken@.push(provider),
                _ => old(cx).woken@,
            }
        }),
{
    if let Some(provider) = old(clock)@.external_waker {
        assert(old(cx).woken@ + seq![provider] =~= old(cx).woken@.push(provider));
    }
}

/// A provider is registered with the threshold that it gives; the alarms and the time
/// stay as they are, and the provider is never ready.
pub proof fn law_provider_is_registered<T: PartialOrd + Clone>(
    clock: &mut AlarmClock<T>,
    cx: &mut Context,
    wake_threshold: Option<T>,
    never: Poll<Infallible>,
)
    requires
        old(clock).wf(),
        call_ensures(
            AlarmClock::<T>::external_poll_new_alarm,
            (clock, cx, wake_threshold),
            never,
        ),
    ensures
        never is Pending,
        final(clock)@.external_threshold == wake_threshold,
        final(clock)@.external_waker == Some(old(cx).waker),
        final(clock)@.time == old(clock)@.time,
        final(clock)@.alarms == old(clock)@.alarms,
        final(clock)@.waiting == old(clock)@.waiting,
        *final(cx) == *old(cx),
{
}

/// Setting an alarm gives it its new threshold and ends its wait without waking its task;
/// all other alarms, their order, the time and the provider stay as they are.
pub proof fn law_set_alarm_changes_one_alarm<T: PartialOrd + Clone>(
    alarm: &ClockAlarm,
    clock: &mut AlarmClock<T>,
    wake_at: Option<T>,
    other: usize,
)
    requires
        old(clock).wf(),
        old(clock)@.alarms.contains_key(alarm.id()),
        call_ensures(ClockAlarm::set_alarm::<T>, (alarm, clock, wake_at), ()),
        other != alarm.id(),
    ensures
        final(clock)@.alarms.contains_key(alarm.id()),
        final(clock)@.alarms[alarm.id()].val == wake_at,
        final(clock)@.alarms[alarm.id()].waker is None,
        !final(clock)@.waiting.contains(alarm.id()),
        final(clock)@.alarms.contains_key(other) == old(clock)@.alarms.contains_key(other),
        final(clock)@.alarms[other] == old(clock)@.alarms[other],
        final(clock)@.waiting == old(clock)@.waiting.filter(|id: usize| id != alarm.id()),
        final(clock)@.waiting.contains(other) == old(clock)@.waiting.contains(other),
        final(clock)@.time == old(clock)@.time,
        final(clock)@.external_threshold == old(clock)@.external_threshold,
        final(clock)@.external_waker == old(clock)@.external_waker,
{
    lemma_others_stay(old(clock)@.waiting, alarm.id(), other);
}

/// A new alarm is an alarm of its own with the threshold that it was given: it was not
/// there before, it does not wait, and it leaves everything else alone.
pub proof fn law_new_alarm_does_not_wait<T: PartialOrd + Clone>(
    clock: &mut AlarmClock<T>,
    wake_at: Option<T>,
    alarm: ClockAlarm,
    other: usize,
)
    requires
        old(clock).wf(),
        call_ensures(ClockAlarm::new::<T>, (clock, wake_at), alarm),
        other != alarm.id(),
    ensures
        !old(clock)@.alarms.contains_key(alarm.id()),
        final(clock)@.alarms.contains_key(alarm.id()),
        final(clock)@.alarms[alarm.id()].val == wake_at,
        final(clock)@.alarms[alarm.id()].waker is None,
        !final(clock)@.waiting.contains(alarm.id()),
        final(clock)@.alarms.contains_key(other) == old(clock)@.alarms.contains_key(other),
        final(clock)@.alarms[other] == old(clock)@.alarms[other],
        final(clock)@.waiting == old(clock)@.waiting,
        final(clock)@.time == old(clock)@.time,
        final(clock)@.external_threshold == old(clock)@.external_threshold,
        final(clock)@.external_waker == old(clock)@.external_waker,
{
}

/// An alarm that is released is gone, and its task is not woken for it any more;
/// everything else stays as it is.
pub proof fn law_released_alarm_is_gone<T: PartialOrd + Clone>(
    alarm: ClockAlarm,
    clock: &mut AlarmClock<T>,
    other: usize,
)
    requires
        old(clock).wf(),
        old(clock)@.alarms.contains_key(alarm.id()),
        call_ensures(ClockAlarm::release::<T>, (alarm, clock), ()),
        other != alarm.id(),
    ensures
        !final(clock)@.alarms.contains_key(alarm.id()),
        !final(clock)@.waiting.contains(alarm.id()),
        final(clock)@.alarms.contains_key(other) == old(clock)@.alarms.contains_key(other),
        final(clock)@.alarms[other] == old(clock)@.alarms[other],
        final(clock)@.waiting == old(clock)@.waiting.filter(|id: usize| id != alarm.id()),
        final(clock)@.waiting.contains(other) == old(clock)@.waiting.contains(other),
        final(clock)@.time == old(clock)@.time,
        final(clock)@.external_threshold == old(clock)@.external_threshold,
        final(clock)@.external_waker == old(clock)@.external_waker,
{
    lemma_others_stay(old(clock)@.waiting, alarm.id(), other);
}

/// A new clock stands at the time that it was given, and has no alarms and no provider.
pub proof fn law_new_clock_has_no_alarms<T: PartialOrd + Clone>(
    time: T,
    clock: AlarmClock<T>,
    id: usize,
)
    requires
        call_ensures(AlarmClock::<T>::new, (time,), clock),
    ensures
        clock@.time == time,
        !clock@.alarms.contains_key(id),
        clock@.waiting.len() == 0,
        clock@.external_threshold is None,
        clock@.external_waker is None,
{
}

proof fn lemma_others_stay(waiting: Seq<usize>, id: usize, other: usize)
    requires
        other != id,
    ensures
        ({
            let rest = waiting.filter(crate::intrusive_list::other_than(id));
            &&& rest == waiting.filter(|n: usize| n != id)
            &&& !rest.contains(id)
            &&& rest.contains(other) == waiting.contains(other)
        }),
{
    let differs = crate::intrusive_list::other_than(id);
    crate::seq_facts::lemma_filter_members(waiting, differs);
    crate::seq_facts::lemma_filter_agree(waiting, differs, |n: usize| n != id);
    assert(waiting.filter(differs).contains(other) == waiting.contains(other));
    assert(!waiting.filter(differs).contains(id));
}

/// A look at a clock or an alarm tells what was last set, and nothing else.
pub proof fn law_clock_and_alarm_can_be_read<T: PartialOrd + Clone>(
    clock: &AlarmClock<T>,
    time: T,
    threshold: Option<&T>,
    alarm: &ClockAlarm,
    wake_at: Option<&T>,
)
    requires
        clock.wf(),
        clock@.alarms.contains_key(alarm.id()),
        call_ensures(AlarmClock::<T>::get, (clock,), time),
        call_ensures(AlarmClock::<T>::external_threshold, (clock,), threshold),
        call_ensures(ClockAlarm::get_alarm::<T>, (alarm, clock), wake_at),
    ensures
        cloned(clock@.time, time),
        threshold is Some <==> clock@.external_threshold is Some,
        threshold matches Some(t) ==> clock@.external_threshold == Some(*t),
        wake_at is Some <==> clock@.alarms[alarm.id()].val is Some,
        wake_at matches Some(t) ==> clock@.alarms[alarm.id()].val == Some(*t),
{
}

} // verus!
