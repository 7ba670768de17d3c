//! A slot for at most one [`Waker`].

use core::fmt::{Debug, Formatter};

use vstd::prelude::*;

use crate::task::{WakeQueue, Waker};

verus! {

/// The wake-ups that waking a slot asks for: its waker's, if it holds one.
pub open spec fn wakes_of(slot: Option<Waker>) -> Seq<Waker> {
    match slot {
        Some(waker) => seq![waker],
        None => Seq::empty(),
    }
}

/// A slot that remembers which task to wake, one task at most.
pub struct WakerRef {
    waker: Option<Waker>,
}

impl Debug for WakerRef {
    /// Shows whether a waker is registered.
    fn fmt(&self, f: &mut Formatter<'_>) -> core::fmt::Result {
        let has: bool = self.waker.is_some();
        f.debug_struct("WakerRef").field("registered", &has).finish()
    }
}

impl View for WakerRef {
    type V = Option<Waker>;

    closed spec fn view(&self) -> Option<Waker> {
        self.waker
    }
}

impl Default for WakerRef {
    fn default() -> (slot: WakerRef)
        ensures
            slot@ == None::<Waker>,
    {
        WakerRef::new()
    }
}

impl WakerRef {
    /// Creates a new, empty slot.
    pub fn new() -> (slot: WakerRef)
        ensures
            slot@ == None::<Waker>,
    {
        WakerRef { waker: None }
    }

    /// Records `waker` as the task to notify on the next [`wake`](Self::wake),
    /// replacing any previously registered waker unless that one already wakes
    /// the same task.
    pub fn register(&mut self, waker: &Waker)
        ensures
            final(self)@ == Some(*waker),
    {
        match self.waker.take() {
            Some(prev) => {
                if prev.will_wake(waker) {
                    self.waker = Some(prev);
                } else {
                    self.waker = Some(*waker);
                }
            },
            None => {
                self.waker = Some(*waker);
            },
        }
    }

    /// Wakes the registered waker, if any, and clears the slot.
    pub fn wake(&mut self, woken: &mut WakeQueue)
        ensures
            final(self)@ == None::<Waker>,
            final(woken)@ == old(woken)@ + wakes_of(old(self)@),
    {
        if let Some(waker) = self.waker.take() {
            woken.push(waker);
        }
        assert(woken@ =~= old(woken)@ + wakes_of(old(self)@));
    }

    /// Removes and returns the registered waker, if any, without waking it.
    pub fn take(&mut self) -> (waker: Option<Waker>)
        ensures
            waker == old(self)@,
            final(self)@ == None::<Waker>,
    {
        self.waker.take()
    }
}

/// A slot asks for the wake-up of the task that it holds, once, and an empty slot for
/// none.
pub proof fn law_slot_wakes_its_task(waker: Waker)
    ensures
        wakes_of(Some(waker)) == seq![waker],
        wakes_of(None::<Waker>) == Seq::<Waker>::empty(),
{
}

/// Waking a slot wakes the task that was registered last, whichever was registered
/// before, and leaves nobody to be woken again.
pub proof fn law_last_registered_is_woken(
    slot: &mut WakerRef,
    waker: &Waker,
    registered: &mut WakerRef,
    woken: &mut WakeQueue,
)
    requires
        call_ensures(WakerRef::register, (slot, waker), ()),
        *registered == *final(slot),
        call_ensures(WakerRef::wake, (registered, woken), ()),
    ensures
        final(woken)@ == old(woken)@.push(*waker),
        final(registered)@ is None,
{
    assert(old(woken)@ + seq![*waker] =~= old(woken)@.push(*waker));
}

/// Waking an empty slot wakes nobody.
pub proof fn law_empty_slot_wakes_nobody(slot: &mut WakerRef, woken: &mut WakeQueue)
    requires
        old(slot)@ is None,
        call_ensures(WakerRef::wake, (slot, woken), ()),
    ensures
        final(slot)@ is None,
        final(woken)@ == old(woken)@,
{
}

/// A waker that is taken out of a slot is not woken by it any more.
pub proof fn law_taken_waker_is_gone(
    slot: &mut WakerRef,
    waker: &Waker,
    registered: &mut WakerRef,
    taken: Option<Waker>,
)
    requires
        call_ensures(WakerRef::register, (slot, waker), ()),
        *registered == *final(slot),
        call_ensures(WakerRef::take, (registered,), taken),
    ensures
        taken == Some(*waker),
        final(registered)@ is None,
{
}

} // verus!
