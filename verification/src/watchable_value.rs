//! Watchable value primitives for change notification, built on the list in
//! [`crate::intrusive_list`].
//!
//! A [`WatchableValue`] holds a value of type `T`, and any number of
//! [`ValueWatch`]es can wait to be notified when the value changes.
//!
//! When the value changes, [`WatchableValue::set`] walks the list and wakes every
//! waiting watch.  When a `ValueWatch` is polled, it checks to see if it is linked
//! into the list.  If so, then it is pending.  If not (which includes the first
//! poll), it is ready with the current value.  Either way it will be linked into
//! the list, so it won't be ready again until the value changes.

use core::fmt::{Debug, Formatter};
use core::marker::PhantomData;

use vstd::prelude::*;

use crate::intrusive_list::{IntrusiveListGuard, IntrusiveNodeValue};
use crate::task::{Context, Poll, WakeQueue, Waker};

verus! {

/// A watch as the value keeps it: the task that waits for a change.  Readiness is
/// determined by link state: an unlinked watch is ready, a linked watch is
/// pending.
struct WatchNodeValue<T> {
    waker: Option<Waker>,
    value: PhantomData<T>,
}

impl<T> IntrusiveNodeValue for WatchNodeValue<T> {
    type HeadValue = T;
}

impl<T> WatchNodeValue<T> {
    /// Takes and wakes the stored waker, if any.
    fn wake(&mut self, woken: &mut WakeQueue)
        ensures
            final(self).waker is None,
            final(woken)@ == old(woken)@ + crate::waker_ref::wakes_of(old(self).waker),
    {
        if let Some(waker) = self.waker.take() {
            woken.push(waker);
        }
        assert(woken@ =~= old(woken)@ + crate::waker_ref::wakes_of(old(self).waker));
    }

    /// Stores the waker of the task that waits for a change.
    fn set_waker(&mut self, new_waker: &Waker)
        ensures
            final(self).waker == Some(*new_waker),
    {
        match self.waker {
            None => {
                self.waker = Some(*new_waker);
            },
            Some(old_waker) => {
                if !new_waker.will_wake(&old_waker) {
                    self.waker = Some(*new_waker);
                }
            },
        }
    }
}

/// What there is to know about a watchable value.
#[verifier::ext_equal]
pub struct WatchModel<T> {
    /// The current value.
    pub value: T,
    /// All watches of the value by number, each with the task that it wakes.
    pub watches: Map<usize, Option<Waker>>,
    /// The watches that wait for a change, in the order in which they began to.
    pub waiting: Seq<usize>,
}

impl<T> WatchModel<T> {
    /// The invariant: exactly the waiting watches have a task to wake.
    pub open spec fn consistent(self) -> bool {
        &&& self.waiting.no_duplicates()
        &&& forall|i: int|
            0 <= i < self.waiting.len() ==> self.watches.contains_key(#[trigger] self.waiting[i])
        &&& forall|id: usize| #[trigger]
            self.watches.contains_key(id) ==> (self.watches[id] is Some <==> self.waiting.contains(
                id,
            ))
    }

    /// The tasks that wait for a change, in order.
    pub open spec fn wakers(self, ids: Seq<usize>) -> Seq<Waker> {
        Seq::new(ids.len(), |i: int| self.watches[ids[i]]->0)
    }

    /// The watches once those in `ids` have been woken.
    pub open spec fn without_wakers(self, ids: Seq<usize>) -> Map<usize, Option<Waker>> {
        self.watches.map_entries(
            |id: usize, waker: Option<Waker>|
                if ids.contains(id) {
                    None
                } else {
                    waker
                },
        )
    }

    /// The watchable value once `waker`'s task waits on the watch `id`.
    pub open spec fn armed(self, id: usize, waker: Waker) -> WatchModel<T> {
        WatchModel {
            value: self.value,
            watches: self.watches.insert(id, Some(waker)),
            waiting: if self.waiting.contains(id) {
                self.waiting
            } else {
                self.waiting.push(id)
            },
        }
    }

    /// The watchable value once it was set to `value`: every watch is idle.
    pub open spec fn changed(self, value: T) -> WatchModel<T> {
        WatchModel {
            value,
            watches: self.without_wakers(self.waiting),
            waiting: Seq::empty(),
        }
    }
}

/// A value that can wake [`ValueWatch`]es when it changes.
///
/// When the value is updated via [`set`](Self::set), all linked watches are
/// unlinked and woken.
pub struct WatchableValue<T> {
    list: IntrusiveListGuard<WatchNodeValue<T>>,
}

impl<T: Clone + Debug> Debug for WatchableValue<T> {
    /// Shows the current value.
    fn fmt(&self, f: &mut Formatter<'_>) -> core::fmt::Result {
        f.debug_struct("WatchableValue").field("value", self.list.head()).finish()
    }
}

impl<T> View for WatchableValue<T> {
    type V = WatchModel<T>;

    closed spec fn view(&self) -> WatchModel<T> {
        WatchModel {
            value: self.list.head_value(),
            watches: self.list.leaves().map_values(|node: WatchNodeValue<T>| node.waker),
            waiting: self.list.order(),
        }
    }
}

impl<T: Clone> WatchableValue<T> {
    /// The watchable value is well formed.
    pub closed spec fn wf(&self) -> bool {
        self.list.wf() && self@.consistent()
    }

    /// A well-formed watchable value is consistent.
    pub proof fn wf_consistent(&self)
        requires
            self.wf(),
        ensures
            self@.consistent(),
    {
    }

    /// Creates a new watchable value with the given initial value.
    pub fn new(val: T) -> (value: WatchableValue<T>)
        ensures
            value.wf(),
            value@ == (WatchModel { value: val, watches: Map::empty(), waiting: Seq::empty() }),
    {
        let value = WatchableValue { list: IntrusiveListGuard::new(val) };
        assert(value@.watches =~= Map::empty());
        value
    }

    /// Sets the value and wakes all watches.
    ///
    /// Every call to `set` counts as a change, regardless of whether the new
    /// value equals the old.  `T` is therefore not required to implement
    /// [`PartialEq`] — watches are woken unconditionally, and the next
    /// `watch_poll` will be ready.
    pub fn set(&mut self, val: T, woken: &mut WakeQueue)
        requires
            old(self).wf(),
        ensures
            final(self).wf(),
            final(self)@ == old(self)@.changed(val),
            final(woken)@ == old(woken)@ + old(self)@.wakers(old(self)@.waiting),
    {
        let ghost before = self@;
        *self.list.head_mut() = val;
        let ghost ids = self.list.order();
        proof {
            self.list.order_wf();
        }
        let never = |node: &WatchNodeValue<T>| -> (stay: bool)
            ensures
                !stay,
        { false };
        let fired = self.list.filter(never);
        proof {
            let nothing = |id: usize| false;
            crate::intrusive_list::law_filter_splits(ids, fired@, nothing);
            crate::seq_facts::lemma_filter_none(ids, nothing);
            crate::seq_facts::lemma_filter_all(ids, |id: usize| !nothing(id));
            assert(fired@ == ids);
        }
        let mut i: usize = 0;
        assert(fired@.take(0) =~= Seq::<usize>::empty());
        assert(self@.watches =~= before.without_wakers(fired@.take(0)));
        assert(woken@ =~= old(woken)@ + before.wakers(fired@.take(0)));
        while i < fired.len()
            invariant
                i <= fired@.len(),
                before == old(self)@,
                before.consistent(),
                fired@ == before.waiting,
                self.list.wf(),
                self@ == (WatchModel {
                    value: val,
                    watches: before.without_wakers(fired@.take(i as int)),
                    waiting: Seq::empty(),
                }),
                woken@ == old(woken)@ + before.wakers(fired@.take(i as int)),
            decreases fired@.len() - i,
        {
            let id: usize = fired[i];
            let ghost leaves = self.list.leaves();
            let ghost done = fired@.take(i as int);
            proof {
                assert(before.watches.contains_key(before.waiting[i as int]));
                assert(before.waiting.contains(id));
                assert(self@.watches.contains_key(id));
                assert(fired@.take(i + 1) =~= done.push(id));
                assert(!done.contains(id));
                assert(self@.watches[id] == leaves[id].waker);
            }
            self.list.get_mut(id).wake(woken);
            proof {
                assert forall|other: usize| done.push(id).contains(other) <==> (done.contains(other)
                    || other == id) by {
                    crate::seq_facts::lemma_push_members(done, id, other);
                }
                let watches = before.without_wakers(done.push(id));
                assert forall|other: usize| #[trigger]
                    self@.watches.contains_key(other) implies self@.watches[other]
                    == watches[other] by {
                    if other != id {
                        assert(self.list.leaves()[other] == leaves[other]);
                        assert(leaves[other].waker == before.without_wakers(done)[other]);
                    }
                }
                assert(self@.watches =~= watches);
                assert(woken@ =~= old(woken)@ + before.wakers(done.push(id)));
            }
            i = i + 1;
        }
        assert(fired@.take(i as int) =~= fired@);
    }

    /// Returns a clone of the current value.
    pub fn get(&self) -> (value: T)
        ensures
            cloned(self@.value, value),
    {
        self.list.head().clone()
    }
}

/// A watch that is ready when a [`WatchableValue`]'s value changes.
///
/// The first poll is always ready; subsequent polls are ready only if the value
/// has changed since the last poll, and pending otherwise.  The task is always
/// (re-)registered to be woken on the next change, and a ready result consumes
/// the pending change — callers must be prepared to process it on the spot,
/// because they will not be notified of it again.
///
/// A watch is a number that its value knows, so every method takes the value
/// that the watch was created against.
#[derive(Debug)]
pub struct ValueWatch {
    node: usize,
}

impl ValueWatch {
    /// The number under which the value knows this watch.
    pub closed spec fn id(&self) -> usize {
        self.node
    }

    /// Creates a new watch against the given watchable value.
    pub fn new<T: Clone>(value: &mut WatchableValue<T>) -> (watch: ValueWatch)
        requires
            old(value).wf(),
        ensures
            final(value).wf(),
            !old(value)@.watches.contains_key(watch.id()),
            !old(value)@.waiting.contains(watch.id()),
            final(value)@ == (WatchModel {
                watches: old(value)@.watches.insert(watch.id(), None),
                ..old(value)@
            }),
    {
        proof {
            value.list.order_wf();
        }
        let node = value.list.new_leaf(WatchNodeValue { waker: None, value: PhantomData });
        assert(value@.watches =~= old(value)@.watches.insert(node, None));
        ValueWatch { node }
    }

    /// Links the watch into the list and stores the waker of the polling task.
    fn arm<T: Clone>(&self, value: &mut WatchableValue<T>, cx: &Context)
        requires
            old(value).wf(),
            old(value)@.watches.contains_key(self.id()),
        ensures
            final(value).wf(),
            final(value)@ == old(value)@.armed(self.id(), cx.waker),
            final(value)@.waiting.contains(self.id()),
    {
        let ghost before = value@;
        let ghost id = self.node;
        value.list.link(self.node);
        value.list.get_mut(self.node).set_waker(&cx.waker);
        proof {
            value.list.order_wf();
            assert(value@.watches =~= before.watches.insert(id, Some(cx.waker)));
            assert forall|other: usize| before.waiting.push(id).contains(other) <==> (
            before.waiting.contains(other) || other == id) by {
                crate::seq_facts::lemma_push_members(before.waiting, id, other);
            }
        }
    }

    /// Returns the current value and registers the task to be woken on the
    /// next change.
    ///
    /// Behaves like a [`watch_poll`](Self::watch_poll) call that is always
    /// ready: any pending change is consumed, the current value is returned,
    /// and the task is armed for the next change.  Unlike `watch_poll`, the
    /// caller does not learn whether a change had occurred since the last poll.
    ///
    /// Useful when the caller wants the current value regardless of whether
    /// it has changed — for example, to seed local state and arm the watch
    /// in a single step.
    pub fn watch_check<T: Clone>(&self, value: &mut WatchableValue<T>, cx: &mut Context) -> (current:
        T)
        requires
            old(value).wf(),
            old(value)@.watches.contains_key(self.id()),
        ensures
            final(value).wf(),
            final(value)@ == old(value)@.armed(self.id(), old(cx).waker),
            final(value)@.waiting.contains(self.id()),
            cloned(old(value)@.value, current),
            *final(cx) == *old(cx),
    {
        self.arm(value, cx);
        value.get()
    }

    /// Polls the watch for changes since the last poll.
    ///
    /// - The first poll of a watch is always ready.
    /// - Subsequent polls are ready if a change has occurred since the
    ///   last poll, and pending otherwise.
    /// - In ALL cases, the task is registered to be woken on the next change,
    ///   even when the poll is ready.
    ///
    /// Polling *consumes* any changes since the last poll: the next poll will be
    /// pending unless further changes have occurred.
    pub fn watch_poll<T: Clone>(&self, value: &mut WatchableValue<T>, cx: &mut Context) -> (change:
        Poll<T>)
        requires
            old(value).wf(),
            old(value)@.watches.contains_key(self.id()),
        ensures
            final(value).wf(),
            final(value)@ == old(value)@.armed(self.id(), old(cx).waker),
            final(value)@.waiting.contains(self.id()),
            match change {
                Poll::Ready(current) => !old(value)@.waiting.contains(self.id()) && cloned(
                    old(value)@.value,
                    current,
                ),
                Poll::Pending => old(value)@.waiting.contains(self.id()),
            },
            *final(cx) == *old(cx),
    {
        proof {
            value.list.order_wf();
        }
        let ready: bool = !value.list.is_linked(self.node);
        self.arm(value, cx);
        if ready {
            // Value has changed since last poll.
            Poll::Ready(value.get())
        } else {
            Poll::Pending
        }
    }

    /// Gives the watch up: the task that waits on it is not woken any more.
    pub fn release<T: Clone>(self, value: &mut WatchableValue<T>)
        requires
            old(value).wf(),
            old(value)@.watches.contains_key(self.id()),
        ensures
            final(value).wf(),
            final(value)@ == (WatchModel {
                value: old(value)@.value,
                watches: old(value)@.watches.remove(self.id()),
                waiting: old(value)@.waiting.filter(crate::intrusive_list::other_than(self.id())),
            }),
    {
        let ghost before = value@;
        value.list.remove_leaf(self.node);
        proof {
            let other_than = crate::intrusive_list::other_than(self.node);
            crate::seq_facts::lemma_filter_distinct(before.waiting, other_than);
            crate::seq_facts::lemma_filter_members(before.waiting, other_than);
            assert(value@.watches =~= before.watches.remove(self.node));
            assert forall|i: int| 0 <= i < value@.waiting.len() implies value@.watches.contains_key(
                #[trigger] value@.waiting[i],
            ) by {
                assert(value@.waiting.contains(value@.waiting[i]));
                let j = choose|j: int|
                    0 <= j < before.waiting.len() && before.waiting[j] == value@.waiting[i];
                assert(before.watches.contains_key(before.waiting[j]));
            }
        }
    }
}

/// A poll consumes the change: right after it the watch waits, so that another
/// poll without a change in between is pending.
pub proof fn law_poll_consumes_change<T>(value: WatchModel<T>, id: usize, waker: Waker)
    ensures
        value.armed(id, waker).waiting.contains(id),
        value.armed(id, waker).watches[id] == Some(waker),
        value.armed(id, waker).value == value.value,
{
    crate::seq_facts::lemma_push_members(value.waiting, id, id);
}

/// A change makes every watch ready: none waits any more, whatever the new value
/// is, and each task that waited is woken, once for each of its watches.
pub proof fn law_change_reaches_every_watch<T>(value: WatchModel<T>, new_value: T, id: usize)
    requires
        value.consistent(),
        value.watches.contains_key(id),
    ensures
        !value.changed(new_value).waiting.contains(id),
        value.changed(new_value).watches[id] is None,
        value.changed(new_value).value == new_value,
        value.watches[id] matches Some(waker) ==> value.wakers(value.waiting).contains(waker),
{
    if value.watches[id] is Some {
        assert(value.waiting.contains(id));
        let i = choose|i: int| 0 <= i < value.waiting.len() && value.waiting[i] == id;
        assert(value.wakers(value.waiting)[i] == value.watches[id]->0);
    }
}

/// Of several changes between two polls only the last one is seen.
pub proof fn law_latest_change_wins<T>(value: WatchModel<T>, first: T, second: T)
    requires
        value.consistent(),
    ensures
        value.changed(first).changed(second) == value.changed(second),
        value.changed(first).wakers(value.changed(first).waiting) == Seq::<Waker>::empty(),
{
    assert(value.changed(first).changed(second).watches =~= value.changed(second).watches);
}

/// Polling one watch leaves all others alone: whichever watch is polled, and however many
/// there are, every other one waits for a change exactly if it did before, for the same
/// task, and none comes or goes.
pub proof fn law_poll_leaves_other_watches_alone<T: Clone>(
    watch: &ValueWatch,
    value: &mut WatchableValue<T>,
    cx: &mut Context,
    change: Poll<T>,
    other: usize,
)
    requires
        old(value).wf(),
        old(value)@.watches.contains_key(watch.id()),
        call_ensures(ValueWatch::watch_poll::<T>, (watch, value, cx), change),
        other != watch.id(),
    ensures
        final(value)@.watches.contains_key(other) == old(value)@.watches.contains_key(other),
        final(value)@.watches[other] == old(value)@.watches[other],
        final(value)@.waiting.contains(other) == old(value)@.waiting.contains(other),
        forall|i: int|
            0 <= i < old(value)@.waiting.len() ==> i < final(value)@.waiting.len() && final(value)@.waiting[i] == #[trigger] old(value)@.waiting[i],
        final(value)@.waiting.len() <= old(value)@.waiting.len() + 1,
{
    crate::seq_facts::lemma_push_members(old(value)@.waiting, watch.id(), other);
}

/// A poll is pending exactly if the watch was polled before and the value has not
/// changed since.  In all cases the polling task is registered for the next change, the
/// value stays as it is, and nobody is woken.
pub proof fn law_poll_registers_in_all_cases<T: Clone>(
    watch: &ValueWatch,
    value: &mut WatchableValue<T>,
    cx: &mut Context,
    change: Poll<T>,
)
    requires
        old(value).wf(),
        old(value)@.watches.contains_key(watch.id()),
        call_ensures(ValueWatch::watch_poll::<T>, (watch, value, cx), change),
    ensures
        change is Pending <==> old(value)@.waiting.contains(watch.id()),
        change matches Poll::Ready(current) ==> cloned(old(value)@.value, current),
        final(value)@.value == old(value)@.value,
        final(value)@.watches.contains_key(watch.id()),
        final(value)@.watches[watch.id()] == Some(old(cx).waker),
        final(value)@.waiting.contains(watch.id()),
        *final(cx) == *old(cx),
{
}

/// A check does to a watch and its value what a poll does, and always returns the value.
pub proof fn law_check_is_a_ready_poll<T: Clone>(
    watch: &ValueWatch,
    value: &mut WatchableValue<T>,
    cx: &mut Context,
    current: T,
    polled: &mut WatchableValue<T>,
    polled_cx: &mut Context,
    change: Poll<T>,
)
    requires
        call_ensures(ValueWatch::watch_check::<T>, (watch, value, cx), current),
        *polled == *old(value),
        *polled_cx == *old(cx),
        call_ensures(ValueWatch::watch_poll::<T>, (watch, polled, polled_cx), change),
    ensures
        cloned(old(value)@.value, current),
        final(value)@ == final(polled)@,
        *final(cx) == *old(cx),
{
}

/// A change wakes the task of every watch that waits, once for each, in the order in
/// which they began to wait, and nobody else.  Every watch stays, and none waits any
/// more.
pub proof fn law_set_wakes_every_watch<T: Clone>(
    value: &mut WatchableValue<T>,
    new_value: T,
    woken: &mut WakeQueue,
    id: usize,
)
    requires
        old(value).wf(),
        call_ensures(WatchableValue::<T>::set, (value, new_value, woken), ()),
    ensures
        final(value)@.value == new_value,
        final(value)@.waiting.len() == 0,
        final(value)@.watches.contains_key(id) == old(value)@.watches.contains_key(id),
        old(value)@.watches.contains_key(id) ==> final(value)@.watches[id] is None,
        final(woken)@.len() == old(woken)@.len() + old(value)@.waiting.len(),
        final(woken)@.take(old(woken)@.len() as int) == old(woken)@,
        forall|i: int|
            0 <= i < old(value)@.waiting.len() ==> old(value)@.watches[#[trigger] old(value)@.waiting[i]] == Some(final(woken)@[old(woken)@.len() + i]),
{
    let before = old(value)@;
    old(value).wf_consistent();
    assert(final(woken)@.take(old(woken)@.len() as int) =~= old(woken)@);
    assert forall|i: int| 0 <= i < before.waiting.len() implies before.watches[
        #[trigger] before.waiting[i]
    ] == Some(final(woken)@[old(woken)@.len() + i]) by {
        assert(before.watches.contains_key(before.waiting[i]));
        assert(before.waiting.contains(before.waiting[i]));
    }
    if before.watches.contains_key(id) {
        law_change_reaches_every_watch(before, new_value, id);
    }
}

/// A task whose watch was polled is woken by the next change, whatever other watch was
/// polled in between, and the poll after the change is ready with the new value.
pub proof fn law_polled_watch_is_woken_by_the_change<T: Clone>(
    watch: &ValueWatch,
    value: &mut WatchableValue<T>,
    cx: &mut Context,
    change: Poll<T>,
    other: &ValueWatch,
    polled: &mut WatchableValue<T>,
    other_cx: &mut Context,
    other_change: Poll<T>,
    armed: &mut WatchableValue<T>,
    new_value: T,
    woken: &mut WakeQueue,
    set: &mut WatchableValue<T>,
    next_cx: &mut Context,
    next: Poll<T>,
)
    requires
        old(value).wf(),
        old(value)@.watches.contains_key(watch.id()),
        old(value)@.watches.contains_key(other.id()),
        other.id() != watch.id(),
        call_ensures(ValueWatch::watch_poll::<T>, (watch, value, cx), change),
        *polled == *final(value),
        call_ensures(ValueWatch::watch_poll::<T>, (other, polled, other_cx), other_change),
        *armed == *final(polled),
        call_ensures(WatchableValue::<T>::set, (armed, new_value, woken), ()),
        *set == *final(armed),
        call_ensures(ValueWatch::watch_poll::<T>, (watch, set, next_cx), next),
    ensures
        final(woken)@.skip(old(woken)@.len() as int).contains(old(cx).waker),
        final(woken)@.skip(old(woken)@.len() as int).contains(old(other_cx).waker),
        next matches Poll::Ready(current) && cloned(new_value, current),
{
    let waiting = final(polled)@.waiting;
    let asked = old(woken)@.len() as int;
    crate::seq_facts::lemma_push_members(final(value)@.waiting, other.id(), watch.id());
    final(polled).wf_consistent();
    assert(waiting.contains(watch.id()));
    assert(waiting.contains(other.id()));
    let i = choose|i: int| 0 <= i < waiting.len() && waiting[i] == watch.id();
    let j = choose|j: int| 0 <= j < waiting.len() && waiting[j] == other.id();
    assert(final(polled)@.watches.contains_key(waiting[i]));
    assert(final(polled)@.watches.contains_key(waiting[j]));
    assert(final(woken)@.skip(asked)[i] == old(cx).waker);
    assert(final(woken)@.skip(asked)[j] == old(other_cx).waker);
}

/// A new watch is a watch of its own: it was not there before, it does not wait yet, so
/// that its first poll is ready, and it leaves all others alone.
pub proof fn law_new_watch_is_ready<T: Clone>(
    value: &mut WatchableValue<T>,
    watch: ValueWatch,
    other: usize,
)
    requires
        old(value).wf(),
        call_ensures(ValueWatch::new::<T>, (value,), watch),
        other != watch.id(),
    ensures
        !old(value)@.watches.contains_key(watch.id()),
        final(value)@.watches.contains_key(watch.id()),
        final(value)@.watches[watch.id()] is None,
        !final(value)@.waiting.contains(watch.id()),
        final(value)@.value == old(value)@.value,
        final(value)@.waiting == old(value)@.waiting,
        final(value)@.watches.contains_key(other) == old(value)@.watches.contains_key(other),
        final(value)@.watches[other] == old(value)@.watches[other],
{
}

/// A watch that is released is gone, and its task is not woken for it any more; all others
/// stay, and wait as they did.
pub proof fn law_released_watch_is_gone<T: Clone>(
    watch: ValueWatch,
    value: &mut WatchableValue<T>,
    other: usize,
)
    requires
        old(value).wf(),
        old(value)@.watches.contains_key(watch.id()),
        call_ensures(ValueWatch::release::<T>, (watch, value), ()),
        other != watch.id(),
    ensures
        !final(value)@.watches.contains_key(watch.id()),
        !final(value)@.waiting.contains(watch.id()),
        final(value)@.value == old(value)@.value,
        final(value)@.watches.contains_key(other) == old(value)@.watches.contains_key(other),
        final(value)@.watches[other] == old(value)@.watches[other],
        final(value)@.waiting.contains(other) == old(value)@.waiting.contains(other),
        final(value)@.waiting == old(value)@.waiting.filter(|id: usize| id != watch.id()),
{
    let differs = crate::intrusive_list::other_than(watch.id());
    crate::seq_facts::lemma_filter_members(old(value)@.waiting, differs);
    crate::seq_facts::lemma_filter_agree(
        old(value)@.waiting,
        differs,
        |id: usize| id != watch.id(),
    );
    assert(final(value)@.waiting.contains(other) == old(value)@.waiting.contains(other));
    assert(!final(value)@.waiting.contains(watch.id()));
}

/// A new value holds what it was given, and nobody watches it.
pub proof fn law_new_value_is_unwatched<T: Clone>(initial: T, value: WatchableValue<T>, id: usize)
    requires
        call_ensures(WatchableValue::<T>::new, (initial,), value),
    ensures
        value@.value == initial,
        !value@.watches.contains_key(id),
        value@.waiting.len() == 0,
{
}

/// A look at a value tells what was last set.
pub proof fn law_value_can_be_read<T: Clone>(value: &WatchableValue<T>, current: T)
    requires
        call_ensures(WatchableValue::<T>::get, (value,), current),
    ensures
        cloned(value@.value, current),
{
}

} // verus!
