//! Tasks, wakers and poll results.
//!
//! Everything in this crate is polled the way a future is polled.  The crate
//! itself runs no task: it only decides *which* task has to run again.  A task
//! is known by a number, a [`Waker`] carries that number, and a wake-up is an
//! entry in a [`WakeQueue`] that the caller hands to its executor once the call
//! has returned.

use vstd::prelude::*;

pub use core::task::Poll;

verus! {

/// Makes `core::task::Poll` known to the verifier, with both of its variants.
#[verifier::external_type_specification]
#[verifier::reject_recursive_types(T)]
pub struct ExPoll<T>(core::task::Poll<T>);

/// The right to wake one task, which is known by its number.
#[derive(Debug, Clone, Copy, PartialEq, Eq, Structural)]
pub struct Waker {
    /// The number of the task that this waker wakes.
    pub task: u64,
}

impl Waker {
    /// Creates the waker of the task with the given number.
    pub fn new(task: u64) -> (waker: Waker)
        ensures
            waker.task == task,
    {
        Waker { task }
    }

    /// Returns `true` if both wakers wake the same task.
    pub fn will_wake(&self, other: &Waker) -> (same: bool)
        ensures
            same == (*self == *other),
    {
        self.task == other.task
    }
}

/// The wake-ups that were asked for and not yet delivered, oldest first.
#[derive(Debug)]
pub struct WakeQueue {
    woken: Vec<Waker>,
}

impl View for WakeQueue {
    type V = Seq<Waker>;

    closed spec fn view(&self) -> Seq<Waker> {
        self.woken@
    }
}

impl WakeQueue {
    /// Creates an empty queue.
    pub fn new() -> (queue: WakeQueue)
        ensures
            queue@ == Seq::<Waker>::empty(),
    {
        WakeQueue { woken: Vec::new() }
    }

    /// Asks for `waker`'s task to be woken.
    pub fn push(&mut self, waker: Waker)
        ensures
            final(self)@ == old(self)@.push(waker),
    {
        self.woken.push(waker);
    }

    /// The number of wake-ups in the queue.
    pub fn len(&self) -> (n: usize)
        ensures
            n == self@.len(),
    {
        self.woken.len()
    }

    /// Counts the wake-ups of the task that `waker` wakes.
    pub fn count(&self, waker: &Waker) -> (n: usize)
        ensures
            n == self@.filter(|w: Waker| w == *waker).len(),
    {
        let ghost pred = |w: Waker| w == *waker;
        let mut n: usize = 0;
        let mut i: usize = 0;
        assert(self.woken@.take(0).filter(pred).len() == 0) by {
            reveal(Seq::filter);
        }
        while i < self.woken.len()
            invariant
                i <= self.woken@.len(),
                n <= i,
                pred == (|w: Waker| w == *waker),
                n == self.woken@.take(i as int).filter(pred).len(),
            decreases self.woken@.len() - i,
        {
            proof {
                let longer = self.woken@.take(i + 1);
                assert(longer.drop_last() =~= self.woken@.take(i as int));
                assert(longer.last() == self.woken@[i as int]);
                reveal(Seq::filter);
            }
            if self.woken[i].will_wake(waker) {
                n = n + 1;
            }
            i = i + 1;
        }
        assert(self.woken@.take(i as int) =~= self.woken@);
        n
    }

    /// Takes every wake-up out of the queue, oldest first.
    pub fn drain(&mut self) -> (woken: Vec<Waker>)
        ensures
            woken@ == old(self)@,
            final(self)@ == Seq::<Waker>::empty(),
    {
        let mut woken: Vec<Waker> = Vec::new();
        core::mem::swap(&mut woken, &mut self.woken);
        woken
    }
}

/// What a poll method is told about its caller: the waker of the polling task,
/// and the queue that takes the wake-ups the poll asks for.
#[derive(Debug)]
pub struct Context {
    /// The waker of the task that polls.
    pub waker: Waker,
    /// The wake-ups that were asked for while this context was in use.
    pub woken: WakeQueue,
}

impl Context {
    /// Creates the context of a poll made by `waker`'s task.
    pub fn from_waker(waker: &Waker) -> (cx: Context)
        ensures
            cx.waker == *waker,
            cx.woken@ == Seq::<Waker>::empty(),
    {
        Context { waker: *waker, woken: WakeQueue::new() }
    }

    /// Asks for the polling task itself to be woken, so that it polls again.
    pub fn wake_by_ref(&mut self)
        ensures
            old(self).woke(*final(self), seq![old(self).waker]),
    {
        let waker = self.waker;
        self.woken.push(waker);
        assert(self.woken@ =~= old(self).woken@ + seq![old(self).waker]);
    }

    /// `after` is this context once the wake-ups `woken` were asked for, in that
    /// order, and nothing else was done to it.
    pub open spec fn woke(self, after: Context, woken: Seq<Waker>) -> bool {
        &&& after.waker == self.waker
        &&& after.woken@ == self.woken@ + woken
    }
}

/// A poll that asks for its own task adds that wake-up behind those that were asked for
/// before, and stays a poll of the same task.
pub proof fn law_wake_by_ref_adds_one(cx: &mut Context)
    requires
        call_ensures(Context::wake_by_ref, (cx,), ()),
    ensures
        final(cx).waker == old(cx).waker,
        final(cx).woken@ == old(cx).woken@.push(old(cx).waker),
{
    assert(old(cx).woken@ + seq![old(cx).waker] =~= old(cx).woken@.push(old(cx).waker));
}

/// Wake-ups come out of a queue in the order in which they went in, each once.
pub proof fn law_queue_is_first_in_first_out(
    queue: &mut WakeQueue,
    waker: Waker,
    pushed: &mut WakeQueue,
    woken: Vec<Waker>,
)
    requires
        call_ensures(WakeQueue::push, (queue, waker), ()),
        *pushed == *final(queue),
        call_ensures(WakeQueue::drain, (pushed,), woken),
    ensures
        woken@.drop_last() == old(queue)@,
        woken@.last() == waker,
        woken@.len() == old(queue)@.len() + 1,
        final(pushed)@.len() == 0,
{
}

/// Asking for a wake-up makes the count of that task one larger, and leaves the count
/// of every other task as it was.
pub proof fn law_count_goes_by_task(
    queue: &mut WakeQueue,
    waker: Waker,
    counted: &Waker,
    pushed: &WakeQueue,
    before: usize,
    after: usize,
)
    requires
        call_ensures(WakeQueue::push, (queue, waker), ()),
        *pushed == *final(queue),
        call_ensures(WakeQueue::count, (&*old(queue), counted), before),
        call_ensures(WakeQueue::count, (pushed, counted), after),
    ensures
        after == before + if *counted == waker {
            1int
        } else {
            0
        },
{
    crate::seq_facts::lemma_filter_push(old(queue)@, waker, |w: Waker| w == *counted);
}

} // verus!
