//! The context of one state type: the shared value and its subscribers.

use crate::store::Store;
use crate::subscriber::{Callable, SubscriberId};
use crate::subscribers::{told, Subscribers};
use std::rc::Rc;
use vstd::prelude::*;
use vstd::std_specs::cmp::PartialEqSpec;

verus! {

/// What a context is, to its users: the current value, and for each live
/// handle the values that its subscriber has been handed so far.
pub struct ContextView<S> {
    pub state: S,
    pub received: Map<usize, Seq<S>>,
}

impl<S> ContextView<S> {
    /// The same subscribers around another value.
    pub open spec fn with_state(self, state: S) -> Self {
        ContextView { state, received: self.received }
    }

    /// Every live subscriber has been handed the current value once more.
    pub open spec fn notified(self) -> Self {
        ContextView { state: self.state, received: told(self.received, self.state) }
    }

    /// A subscriber with the history `seen` has been handed the current value
    /// and registered under `key`.
    pub open spec fn subscribed(self, key: usize, seen: Seq<S>) -> Self {
        ContextView { state: self.state, received: self.received.insert(key, seen.push(self.state)) }
    }

    /// The subscriber under `key`, if there was one, is gone.
    pub open spec fn unsubscribed(self, key: usize) -> Self {
        ContextView { state: self.state, received: self.received.remove(key) }
    }

    /// The outcome of a reduction that left `next` as the value: when the
    /// value changed every live subscriber is handed it, else nobody is.
    pub open spec fn reduced(self, next: S, changed: bool) -> Self {
        if changed {
            self.with_state(next).notified()
        } else {
            self.with_state(next)
        }
    }
}

/// How one reduction ended: the value it left, and whether that value was
/// found to differ from the one before.
pub struct Outcome<S> {
    pub next: S,
    pub changed: bool,
}

impl<S> ContextView<S> {
    /// The context after the reductions `outcomes`, in their order.
    pub open spec fn replayed(self, outcomes: Seq<Outcome<S>>) -> Self
        decreases outcomes.len(),
    {
        if outcomes.len() == 0 {
            self
        } else {
            self.replayed(outcomes.drop_last()).reduced(
                outcomes.last().next,
                outcomes.last().changed,
            )
        }
    }
}

/// One shared value of type `S` and the subscribers of type `C` that watch it.
pub struct Context<S, C> {
    store: Rc<S>,
    subscribers: Subscribers<S, C>,
}

impl<S, C: Callable<S>> View for Context<S, C> {
    type V = ContextView<S>;

    closed spec fn view(&self) -> ContextView<S> {
        ContextView { state: *self.store, received: self.subscribers@ }
    }
}

impl<S: Store, C: Callable<S>> Context<S, C> {
    /// The subscriber registry is sound.
    pub closed spec fn wf(&self) -> bool {
        self.subscribers.wf()
    }

    /// A context around the initial value of `S`, without subscribers.
    pub fn new() -> (context: Self)
        ensures
            context.wf(),
            call_ensures(S::new, (), context@.state),
            context@.received == Map::<usize, Seq<S>>::empty(),
    {
        Context { store: Rc::new(S::new()), subscribers: Subscribers::new() }
    }

    /// The current value. Whoever keeps it goes on seeing this value, whatever
    /// is reduced later.
    pub fn store(&self) -> (store: Rc<S>)
        ensures
            *store == self@.state,
    {
        Rc::clone(&self.store)
    }

    /// Applies `mutation` to a private copy of the value and keeps the result.
    ///
    /// Whoever holds the value from before goes on seeing it unchanged. The
    /// result is compared with the value from before by the type's own `!=`:
    /// when they differ, the `changed` hook of the state runs once on the
    /// result, every live subscriber is handed what the hook left, and the
    /// answer is `true`; when they do not, neither the hook nor any subscriber
    /// is called, and the answer is `false`.
    pub fn reduce(&mut self, mutation: impl FnOnce(&mut S)) -> (changed: bool)
        requires
            old(self).wf(),
            forall|state: &mut S|
                cloned(old(self)@.state, *state) ==> #[trigger] call_requires(mutation, (state,)),
        ensures
            final(self).wf(),
            !changed ==> final(self)@.received == old(self)@.received,
            changed ==> final(self)@.received == told(old(self)@.received, final(self)@.state),
            exists|mutated: &mut S|
                {
                    &&& cloned(old(self)@.state, *mutated)
                    &&& #[trigger] call_ensures(mutation, (mutated,), ())
                    &&& call_ensures(S::ne, (&old(self)@.state, &*final(mutated)), changed)
                    &&& S::obeys_eq_spec() ==> changed == !old(self)@.state.eq_spec(
                        &*final(mutated),
                    )
                    &&& if changed {
                        exists|hooked: &mut S|
                            {
                                &&& *hooked == *final(mutated)
                                &&& #[trigger] call_ensures(S::changed, (hooked,), ())
                                &&& final(self)@ == old(self)@.reduced(*final(hooked), true)
                            }
                    } else {
                        final(self)@ == old(self)@.reduced(*final(mutated), false)
                    }
                },
    {
        let previous = Rc::clone(&self.store);
        let mut next: S = (*previous).clone();
        mutation(&mut next);
        let changed = *previous != next;
        if changed {
            next.changed();
        }
        self.store = Rc::new(next);
        if changed {
            self.notify_subscribers();
        }
        changed
    }

    /// Hands the current value to `on_change`, once and at once, then
    /// registers it and returns its handle. The handle is one that no live
    /// subscriber has.
    pub fn subscribe(&mut self, on_change: C) -> (id: SubscriberId<S>)
        requires
            old(self).wf(),
        ensures
            final(self).wf(),
            !old(self)@.received.dom().contains(id@),
            final(self)@ == old(self)@.subscribed(id@, on_change.received()),
    {
        let mut callback = on_change;
        callback.call(Rc::clone(&self.store));
        let key = self.subscribers.insert(callback);
        SubscriberId::new(key)
    }

    /// Removes the subscriber registered under `id`, which is told nothing
    /// from then on. A handle that no live subscriber has is left alone: the
    /// call changes nothing.
    pub fn unsubscribe(&mut self, id: usize)
        requires
            old(self).wf(),
        ensures
            final(self).wf(),
            final(self)@ == old(self)@.unsubscribed(id),
    {
        let _ = self.subscribers.remove(id);
    }

    /// Hands the current value to every live subscriber, once each.
    ///
    /// A callback cannot reach the context it is called from, so the set of
    /// subscribers cannot change while they are being told.
    pub fn notify_subscribers(&mut self)
        requires
            old(self).wf(),
        ensures
            final(self).wf(),
            final(self)@ == old(self)@.notified(),
    {
        self.subscribers.notify(&self.store);
    }
}

} // verus!
