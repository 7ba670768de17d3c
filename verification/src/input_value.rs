//! A single-consumer observable input value.
//!
//! [`InputValue`] holds a value that an external caller writes and a single
//! consumer task reads via a `con_poll_*` method.  Reading registers the
//! consumer's waker, and every write wakes it, so the consumer is notified
//! whenever the value changes.  It is typically used to feed input into a
//! state machine from outside.

use vstd::prelude::*;

use crate::task::{Context, WakeQueue, Waker};
use crate::waker_ref::WakerRef;

verus! {

/// What there is to know about an input value.
#[verifier::ext_equal]
pub struct InputModel<T> {
    /// The value.
    pub value: T,
    /// The consumer, if it has looked at the value since it was last written.
    pub consumer: Option<Waker>,
}

impl<T> InputModel<T> {
    /// The input once `waker`'s task has looked at the value.
    pub open spec fn looked_at(self, waker: Waker) -> InputModel<T> {
        InputModel { consumer: Some(waker), ..self }
    }

    /// The input once `value` has been written to it.
    pub open spec fn written(self, value: T) -> InputModel<T> {
        InputModel { value, consumer: None }
    }

    /// The wake-ups that a write asks for.
    pub open spec fn write_wakes(self) -> Seq<Waker> {
        crate::waker_ref::wakes_of(self.consumer)
    }
}

/// A simple value that can be observed by a single consumer.
///
/// The consumer uses `con_poll_*` methods that provide access to the value,
/// and also register the consumer task to be awoken whenever the value is
/// modified.
///
/// The external caller uses the `set` or the `as_mut` methods to set the value
/// for the consumer.  `as_mut` assumes that the caller will modify the value,
/// and therefore wakes the consumer.
#[derive(Debug)]
pub struct InputValue<T> {
    consumer: WakerRef,
    value: T,
}

impl<T> View for InputValue<T> {
    type V = InputModel<T>;

    closed spec fn view(&self) -> InputModel<T> {
        InputModel { value: self.value, consumer: self.consumer@ }
    }
}

impl<T> InputValue<T> {
    /// Creates a new `InputValue` holding `value`, with no consumer registered.
    pub fn new(value: T) -> (input: InputValue<T>)
        ensures
            input@ == (InputModel { value, consumer: None }),
    {
        InputValue { consumer: WakerRef::new(), value }
    }

    /// Get a reference to the stored value as the single consumer,
    /// and also register the consumer's task to be awoken whenever
    /// the value is changed.
    pub fn con_poll_ref(&mut self, cx: &mut Context) -> (value: &T)
        ensures
            *value == old(self)@.value,
            final(self)@ == old(self)@.looked_at(old(cx).waker),
            *final(cx) == *old(cx),
    {
        self.consumer.register(&cx.waker);
        &self.value
    }

    /// Set the stored value and wake the consumer
    pub fn set(&mut self, value: T, woken: &mut WakeQueue)
        ensures
            final(self)@ == old(self)@.written(value),
            final(woken)@ == old(woken)@ + old(self)@.write_wakes(),
    {
        self.value = value;
        self.consumer.wake(woken);
    }

    /// Get a reference to the stored value, without registering anybody.
    pub fn as_ref(&self) -> (value: &T)
        ensures
            *value == self@.value,
    {
        &self.value
    }

    /// Get the stored value to be modified in place, and wake the consumer.
    pub fn as_mut(&mut self, woken: &mut WakeQueue) -> (value: &mut T)
        ensures
            *value == old(self)@.value,
            final(self)@ == old(self)@.written(*final(value)),
            final(woken)@ == old(woken)@ + old(self)@.write_wakes(),
    {
        self.consumer.wake(woken);
        &mut self.value
    }
}

/// A consumer that has looked at the value is woken by the next write, once: it is
/// not woken again before it has looked at the new value.
pub proof fn law_write_wakes_consumer_once<T>(input: InputModel<T>, waker: Waker, value: T)
    ensures
        input.looked_at(waker).value == input.value,
        input.looked_at(waker).write_wakes() == seq![waker],
        input.written(value).value == value,
        input.written(value).write_wakes() == Seq::<Waker>::empty(),
{
}

/// A look at the value changes nothing but who is told of the next write, and wakes
/// nobody.
pub proof fn law_look_registers_the_consumer<T>(
    input: &mut InputValue<T>,
    cx: &mut Context,
    value: &T,
)
    requires
        call_ensures(InputValue::<T>::con_poll_ref, (input, cx), value),
    ensures
        *value == old(input)@.value,
        final(input)@.value == old(input)@.value,
        final(input)@.consumer == Some(old(cx).waker),
        *final(cx) == *old(cx),
{
}

/// Every write wakes the consumer that has looked at the value since the write before,
/// and nobody else; what was written is what the consumer finds.
pub proof fn law_write_reaches_the_consumer<T>(
    input: &mut InputValue<T>,
    value: T,
    woken: &mut WakeQueue,
)
    requires
        call_ensures(InputValue::<T>::set, (input, value, woken), ()),
    ensures
        final(input)@.value == value,
        final(input)@.consumer is None,
        final(woken)@ == match old(input)@.consumer {
            Some(waker) => old(woken)@.push(waker),
            None => old(woken)@,
        },
{
    if let Some(waker) = old(input)@.consumer {
        assert(old(woken)@ + seq![waker] =~= old(woken)@.push(waker));
    }
}

/// Handing out the value to be modified is a write of what it is modified to.
pub proof fn law_modification_is_a_write<T>(
    input: &mut InputValue<T>,
    woken: &mut WakeQueue,
    value: &mut T,
)
    requires
        call_ensures(InputValue::<T>::as_mut, (input, woken), value),
    ensures
        *old(value) == old(input)@.value,
        final(input)@.value == *final(value),
        final(input)@.consumer is None,
        final(woken)@ == match old(input)@.consumer {
            Some(waker) => old(woken)@.push(waker),
            None => old(woken)@,
        },
{
    if let Some(waker) = old(input)@.consumer {
        assert(old(woken)@ + seq![waker] =~= old(woken)@.push(waker));
    }
}

/// A new input holds what it was given, nobody has looked at it, and a look from outside
/// finds what is there.
pub proof fn law_new_input_is_unobserved<T>(
    value: T,
    new: InputValue<T>,
    input: &InputValue<T>,
    found: &T,
)
    requires
        call_ensures(InputValue::<T>::new, (value,), new),
        call_ensures(InputValue::<T>::as_ref, (input,), found),
    ensures
        new@.value == value,
        new@.consumer is None,
        *found == input@.value,
{
}

} // verus!
