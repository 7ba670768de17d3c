//! A polling helper for driving manual `poll`-style loops to completion.
//!
//! [`wait_loop`] wraps a closure that is called with a [`Context`] and returns
//! a [`Loop`] verdict.  This is convenient when a task repeatedly polls several
//! sub-objects (for example the consumer and producer halves of an
//! [`IoExchange`](crate::io_exchange::IoExchange)) and wants to either retry
//! immediately, suspend, or finish.

use core::fmt::{Debug, Formatter};

use vstd::prelude::*;

use crate::task::{Context, Poll};

verus! {

/// The verdict returned by a [`wait_loop`] closure on each poll.
#[derive(Debug, Clone, Copy, PartialEq, Eq)]
pub enum Loop<T> {
    /// Work is complete; resolve the loop with the given value.
    Done(T),
    /// Made progress — poll the closure again immediately without yielding.
    Again,
    /// No progress is possible right now; suspend.  A waker must already have
    /// been registered so the task is woken later.
    Wait,
}

/// What a verdict means for the poll that got it: it is over with this result, or
/// the closure is called again.
pub open spec fn verdict_result<T>(verdict: Loop<T>) -> Option<Poll<T>> {
    match verdict {
        Loop::Done(value) => Some(Poll::Ready(value)),
        Loop::Again => None,
        Loop::Wait => Some(Poll::Pending),
    }
}

impl<T> Loop<T> {
    /// Returns the result of the poll, or `None` if the closure has to be called
    /// again.
    pub fn result(self) -> (result: Option<Poll<T>>)
        ensures
            result == verdict_result(self),
    {
        match self {
            Loop::Done(value) => Some(Poll::Ready(value)),
            Loop::Again => None,
            Loop::Wait => Some(Poll::Pending),
        }
    }
}

/// Creates a loop that repeatedly calls `f` until it returns [`Loop::Done`].
///
/// On each poll the closure is invoked with the task's [`Context`]:
/// [`Loop::Again`] re-invokes it immediately, [`Loop::Wait`] suspends, and
/// [`Loop::Done`] resolves the loop.
pub fn wait_loop<T, F>(f: F) -> (wait: WaitLoop<F>)
    where F: FnMut(&mut Context) -> Loop<T>
    ensures
        wait.closure() == f,
{
    WaitLoop { f }
}

/// The loop returned by [`wait_loop`].
pub struct WaitLoop<F> {
    f: F,
}

impl<F> Debug for WaitLoop<F> {
    fn fmt(&self, f: &mut Formatter<'_>) -> core::fmt::Result {
        f.debug_struct("WaitLoop").finish()
    }
}

impl<F> WaitLoop<F> {
    /// The closure that the loop calls.
    pub closed spec fn closure(&self) -> F {
        self.f
    }
}

impl<F> WaitLoop<F> {
    /// Calls the closure once.  Returns the result of the poll, or `None` if the
    /// closure asks to be called again.
    pub fn turn<T>(&mut self, cx: &mut Context) -> (out: Option<Poll<T>>)
        where F: FnMut(&mut Context) -> Loop<T>
        requires
            forall|arg: &mut Context|
                *arg == *old(cx) ==> call_requires(old(self).closure(), (arg,)),
        ensures
            exists|arg: &mut Context, verdict: Loop<T>|
                {
                    &&& *arg == *old(cx)
                    &&& *final(arg) == *final(cx)
                    &&& #[trigger] call_ensures(old(self).closure(), (arg,), verdict)
                    &&& out == verdict_result(verdict)
                },
            final(self).closure() == old(self).closure(),
    {
        let verdict: Loop<T> = self.call(cx);
        verdict.result()
    }

    fn call<T>(&mut self, cx: &mut Context) -> (verdict: Loop<T>)
        where F: FnMut(&mut Context) -> Loop<T>
        requires
            forall|arg: &mut Context|
                *arg == *old(cx) ==> call_requires(old(self).closure(), (arg,)),
        ensures
            exists|arg: &mut Context|
                {
                    &&& *arg == *old(cx)
                    &&& *final(arg) == *final(cx)
                    &&& #[trigger] call_ensures(old(self).closure(), (arg,), verdict)
                },
            final(self).closure() == old(self).closure(),
    {
        (self.f)(cx)
    }

    /// Polls the loop, calling the closure at most `max_turns` times.
    ///
    /// Returns the result of the poll, or `None` if the closure still asks to be
    /// called again after that many turns.  The closure is called with the context
    /// as the call before has left it; every call but the last one asks to be
    /// called again, and the last one says how the poll ends.
    pub fn poll<T>(&mut self, cx: &mut Context, max_turns: usize) -> (out: Option<Poll<T>>)
        where F: FnMut(&mut Context) -> Loop<T>
        requires
            forall|arg: &mut Context| call_requires(old(self).closure(), (arg,)),
        ensures
            exists|states: Seq<Context>, verdicts: Seq<Loop<T>>|
                {
                    &&& states.len() == verdicts.len() + 1
                    &&& states[0] == *old(cx)
                    &&& (#[trigger] states.last()) == *final(cx)
                    &&& forall|i: int|
                        0 <= i < verdicts.len() ==> (verdicts.len() == i + 1 || (
                        #[trigger] verdicts[i]) is Again) && exists|arg: &mut Context|
                            *arg == states[i] && *final(arg) == states[i + 1]
                                && #[trigger] call_ensures(
                                old(self).closure(),
                                (arg,),
                                verdicts[i],
                            )
                    &&& #[trigger] ended(verdicts, max_turns as nat, out)
                },
            final(self).closure() == old(self).closure(),
    {
        let ghost f0 = self.f;
        let ghost mut states: Seq<Context> = seq![*cx];
        let ghost mut verdicts: Seq<Loop<T>> = Seq::empty();
        let mut left: usize = max_turns;
        while left > 0
            invariant
                left <= max_turns,
                self.f == f0,
                f0 == old(self).closure(),
                forall|arg: &mut Context| call_requires(f0, (arg,)),
                states.len() == verdicts.len() + 1,
                verdicts.len() == max_turns - left,
                states[0] == *old(cx),
                states.last() == *cx,
                forall|i: int|
                    0 <= i < verdicts.len() ==> (#[trigger] verdicts[i]) is Again && exists|
                        arg: &mut Context,
                    |
                        *arg == states[i] && *final(arg) == states[i + 1]
                            && #[trigger] call_ensures(f0, (arg,), verdicts[i]),
            decreases left,
        {
            left = left - 1;
            let ghost old_states = states;
            let ghost old_verdicts = verdicts;
            let verdict: Loop<T> = self.call(cx);
            proof {
                states = states.push(*cx);
                verdicts = verdicts.push(verdict);
                assert forall|i: int| 0 <= i < verdicts.len() implies (verdicts.len() == i + 1 || (
                #[trigger] verdicts[i]) is Again) && exists|arg: &mut Context|
                    *arg == states[i] && *final(arg) == states[i + 1] && #[trigger] call_ensures(
                        f0,
                        (arg,),
                        verdicts[i],
                    ) by {
                    if i < old_verdicts.len() {
                        assert(old_verdicts[i] == verdicts[i]);
                        assert(old_states[i] == states[i]);
                        assert(old_states[i + 1] == states[i + 1]);
                    } else {
                        assert(verdicts[i] == verdict);
                    }
                }
            }
            if let Some(result) = verdict.result() {
                assert(states.last() == *cx && states[0] == *old(cx));
                assert(ended(verdicts, max_turns as nat, Some(result)));
                return Some(result);
            }
        }
        assert(ended(verdicts, max_turns as nat, None::<Poll<T>>));
        None
    }
}

/// A poll of at most `turns` calls ends with `out` if the closure answers with
/// `verdicts`, one after the other.
pub open spec fn ended<T>(verdicts: Seq<Loop<T>>, turns: nat, out: Option<Poll<T>>) -> bool {
    &&& verdicts.len() <= turns
    &&& forall|i: int| 0 <= i < verdicts.len() - 1 ==> (#[trigger] verdicts[i]) is Again
    &&& match out {
        Some(result) => verdicts.len() > 0 && verdict_result(verdicts.last()) == Some(result),
        None => verdicts.len() == turns && (verdicts.len() > 0 ==> verdicts.last() is Again),
    }
}

/// A verdict of done ends the poll with its value, one of wait suspends it, and one of
/// again does neither.
pub proof fn law_verdict_decides<T>(verdict: Loop<T>, result: Option<Poll<T>>)
    requires
        call_ensures(Loop::<T>::result, (verdict,), result),
    ensures
        verdict matches Loop::Done(value) ==> result == Some(Poll::Ready(value)),
        verdict is Wait ==> result == Some(Poll::<T>::Pending),
        verdict is Again <==> result is None,
{
}

/// One turn calls the closure once, with the context of the turn, and its verdict decides
/// how the turn ends.
pub proof fn law_turn_is_one_call<T, F: FnMut(&mut Context) -> Loop<T>>(
    wait: &mut WaitLoop<F>,
    cx: &mut Context,
    out: Option<Poll<T>>,
)
    requires
        call_ensures(WaitLoop::<F>::turn::<T>, (wait, cx), out),
    ensures
        exists|arg: &mut Context, verdict: Loop<T>|
            {
                &&& *arg == *old(cx)
                &&& *final(arg) == *final(cx)
                &&& #[trigger] call_ensures(old(wait).closure(), (arg,), verdict)
                &&& verdict is Again <==> out is None
                &&& verdict matches Loop::Done(value) ==> out == Some(Poll::Ready(value))
                &&& verdict is Wait ==> out == Some(Poll::<T>::Pending)
            },
        final(wait).closure() == old(wait).closure(),
{
}

/// A poll goes on exactly as long as the closure asks for it: it ends with the first verdict
/// that is not to call again, as that verdict says, and it gives up only after as many
/// calls as it may make, all of which asked for another one.
pub proof fn law_poll_ends_with_the_first_verdict<T>(
    verdicts: Seq<Loop<T>>,
    turns: nat,
    out: Option<Poll<T>>,
)
    requires
        ended(verdicts, turns, out),
    ensures
        verdicts.len() <= turns,
        out is None ==> verdicts.len() == turns && forall|i: int|
            0 <= i < verdicts.len() ==> (#[trigger] verdicts[i]) is Again,
        out is Some ==> {
            &&& verdicts.len() > 0
            &&& !(verdicts.last() is Again)
            &&& forall|i: int|
                0 <= i < verdicts.len() - 1 ==> (#[trigger] verdicts[i]) is Again
            &&& verdicts.last() matches Loop::Done(value) ==> out == Some(Poll::Ready(value))
            &&& verdicts.last() is Wait ==> out == Some(Poll::<T>::Pending)
        },
{
}

/// What polls the loop is the closure that it was made from.
pub proof fn law_loop_calls_its_closure<T, F: FnMut(&mut Context) -> Loop<T>>(
    f: F,
    wait: WaitLoop<F>,
)
    requires
        call_ensures(wait_loop::<T, F>, (f,), wait),
    ensures
        wait.closure() == f,
{
}

/// A closure that always asks to be called again is called as often as the poll may call
/// it, and the poll does not end; one that never asks for it decides at the first call.
pub proof fn law_poll_goes_on_while_asked<T, F: FnMut(&mut Context) -> Loop<T>>(
    wait: &mut WaitLoop<F>,
    cx: &mut Context,
    max_turns: usize,
    out: Option<Poll<T>>,
)
    requires
        call_ensures(WaitLoop::<F>::poll::<T>, (wait, cx, max_turns), out),
    ensures
        (forall|arg: &mut Context, verdict: Loop<T>| #[trigger]
            call_ensures(old(wait).closure(), (arg,), verdict) ==> verdict is Again) ==> out
            is None,
        max_turns > 0 && (forall|arg: &mut Context, verdict: Loop<T>| #[trigger]
            call_ensures(old(wait).closure(), (arg,), verdict) ==> !(verdict is Again))
            ==> exists|arg: &mut Context, verdict: Loop<T>|
            {
                &&& *arg == *old(cx)
                &&& *final(arg) == *final(cx)
                &&& #[trigger] call_ensures(old(wait).closure(), (arg,), verdict)
                &&& verdict matches Loop::Done(value) ==> out == Some(Poll::Ready(value))
                &&& verdict is Wait ==> out == Some(Poll::<T>::Pending)
            },
        max_turns == 0 ==> out is None && *final(cx) == *old(cx),
        final(wait).closure() == old(wait).closure(),
{
    let (states, verdicts) = choose|states: Seq<Context>, verdicts: Seq<Loop<T>>|
        {
            &&& states.len() == verdicts.len() + 1
            &&& states[0] == *old(cx)
            &&& (#[trigger] states.last()) == *final(cx)
            &&& forall|i: int|
                0 <= i < verdicts.len() ==> (verdicts.len() == i + 1 || (
                #[trigger] verdicts[i]) is Again) && exists|arg: &mut Context|
                    *arg == states[i] && *final(arg) == states[i + 1] && #[trigger] call_ensures(
                        old(wait).closure(),
                        (arg,),
                        verdicts[i],
                    )
            &&& #[trigger] ended(verdicts, max_turns as nat, out)
        };
    law_poll_ends_with_the_first_verdict(verdicts, max_turns as nat, out);
    if verdicts.len() > 0 {
        let last = verdicts[verdicts.len() - 1];
        let first = verdicts[0];
        assert(verdicts.last() == last);
    }
}

} // verus!
