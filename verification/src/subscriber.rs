//! Subscribers: callbacks that are handed the shared state.

use std::marker::PhantomData;
use std::rc::Rc;
use vstd::prelude::*;

verus! {

/// Something that can be handed the current state.
///
/// A subscriber is described by its history: the values it has been handed so
/// far, oldest first. One call appends one value to it, and nothing else does.
pub trait Callable<S> {
    /// The values this subscriber has been handed, in the order of the calls.
    spec fn received(&self) -> Seq<S>;

    /// Hands `value` to the subscriber.
    fn call(&mut self, value: Rc<S>)
        ensures
            final(self).received() == old(self).received().push(*value),
    ;
}

/// The history `seen` after one more call with `value`.
spec fn extended<S>(seen: Seq<S>, value: Rc<S>) -> Seq<S> {
    seen.push(*value)
}

/// A subscriber made of a closure that accepts every state. Its history is
/// kept for the proofs alone: a call costs what calling the closure costs.
pub struct Listener<S, F: Fn(Rc<S>)> {
    on_change: F,
    seen: Ghost<Seq<S>>,
}

impl<S, F: Fn(Rc<S>)> Listener<S, F> {
    #[verifier::type_invariant]
    spec fn accepts_every_state(self) -> bool {
        forall|value: Rc<S>| call_requires(self.on_change, (value,))
    }

    /// The closure of this listener has returned from a call with `value`.
    pub closed spec fn ran_on(&self, value: Rc<S>) -> bool {
        call_ensures(self.on_change, (value,), ())
    }

    /// Wraps `on_change`, which has not been called yet. What the listener
    /// runs from now on is that closure.
    pub fn new(on_change: F) -> (listener: Self)
        requires
            forall|value: Rc<S>| call_requires(on_change, (value,)),
        ensures
            listener.received() == Seq::<S>::empty(),
            forall|value: Rc<S>| #[trigger]
                listener.ran_on(value) <==> call_ensures(on_change, (value,), ()),
    {
        Listener { on_change, seen: Ghost(Seq::empty()) }
    }
}

impl<S, F: Fn(Rc<S>)> Callable<S> for Listener<S, F> {
    closed spec fn received(&self) -> Seq<S> {
        self.seen@
    }

    /// Runs the closure on `value`, once, and notes the value in the history.
    /// The closure stays the one the listener was made of.
    fn call(&mut self, value: Rc<S>)
        ensures
            old(self).ran_on(value),
            forall|other: Rc<S>| #[trigger] final(self).ran_on(other) == old(self).ran_on(other),
    {
        proof {
            use_type_invariant(&*self);
        }
        let ghost handed = value;
        (self.on_change)(value);
        self.seen = Ghost(extended(self.seen@, handed));
    }
}

/// The handle of a subscription to the state of type `S`.
pub struct SubscriberId<S> {
    key: usize,
    _store_type: PhantomData<S>,
}

impl<S> View for SubscriberId<S> {
    type V = usize;

    closed spec fn view(&self) -> usize {
        self.key
    }
}

impl<S> SubscriberId<S> {
    pub(crate) fn new(key: usize) -> (id: Self)
        ensures
            id@ == key,
    {
        SubscriberId { key, _store_type: PhantomData }
    }

    /// The handle as a number, as `unsubscribe` takes it.
    pub fn key(&self) -> (key: usize)
        ensures
            key == self@,
    {
        self.key
    }
}

} // verus!
