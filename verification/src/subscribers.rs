//! The subscriber registry of one context: callbacks under reusable handles.

use crate::handles::{slab_insert, slab_keys, slab_new, slab_try_remove};
use crate::subscriber::Callable;
use slab::Slab;
use std::marker::PhantomData;
use std::rc::Rc;
use vstd::prelude::*;

verus! {

/// Callbacks of type `C` for the state `S`, each under a handle of its own.
///
/// Handles come from a slab, so one that has been released may be handed out
/// again, but never while a live subscriber has it. The callbacks stand
/// beside the slab in the order of their registration, each at the position
/// of its handle in `keys`.
pub struct Subscribers<S, C> {
    handles: Slab<()>,
    keys: Vec<usize>,
    callbacks: Vec<C>,
    _state: PhantomData<S>,
}

impl<S, C: Callable<S>> View for Subscribers<S, C> {
    type V = Map<usize, Seq<S>>;

    /// For each live handle, the values that its callback has been handed.
    closed spec fn view(&self) -> Map<usize, Seq<S>> {
        Map::new(
            |key: usize| self.keys@.contains(key),
            |key: usize| self.callbacks@[self.keys@.index_of(key)].received(),
        )
    }
}

impl<S, C: Callable<S>> Subscribers<S, C> {
    /// Every live handle stands once in `keys`, beside its callback.
    pub closed spec fn wf(&self) -> bool {
        &&& self.keys@.len() == self.callbacks@.len()
        &&& self.keys@.no_duplicates()
        &&& self.keys@.to_set() == slab_keys(self.handles)
    }

    /// A registry without subscribers.
    pub fn new() -> (subscribers: Self)
        ensures
            subscribers.wf(),
            subscribers@ == Map::<usize, Seq<S>>::empty(),
    {
        let subscribers = Subscribers {
            handles: slab_new(),
            keys: Vec::new(),
            callbacks: Vec::new(),
            _state: PhantomData,
        };
        proof {
            assert(subscribers@ =~= Map::<usize, Seq<S>>::empty());
            assert(subscribers.keys@.to_set() =~= Set::<usize>::empty());
        }
        subscribers
    }

    /// Registers `callback` under a handle that no live subscriber has, and
    /// returns the handle.
    pub fn insert(&mut self, callback: C) -> (key: usize)
        requires
            old(self).wf(),
        ensures
            final(self).wf(),
            !old(self)@.dom().contains(key),
            final(self)@ == old(self)@.insert(key, callback.received()),
    {
        let key = slab_insert(&mut self.handles);
        self.keys.push(key);
        self.callbacks.push(callback);
        proof {
            lemma_push_fresh(old(self).keys@, key);
            assert(self@ =~= old(self)@.insert(key, callback.received()));
        }
        key
    }

    /// Removes the subscriber under `key` and says whether there was one. A
    /// handle that no live subscriber has changes nothing.
    pub fn remove(&mut self, key: usize) -> (found: bool)
        requires
            old(self).wf(),
        ensures
            final(self).wf(),
            found == old(self)@.dom().contains(key),
            final(self)@ == old(self)@.remove(key),
    {
        if slab_try_remove(&mut self.handles, key).is_some() {
            let ghost position = self.keys@.index_of(key);
            let count = self.keys.len();
            let mut at: usize = 0;
            while self.keys[at] != key
                invariant
                    self.keys@ == old(self).keys@,
                    0 <= at <= position < self.keys@.len() == count,
                    self.keys@[position] == key,
                decreases position - at,
            {
                at += 1;
            }
            self.keys.remove(at);
            self.callbacks.remove(at);
            proof {
                lemma_remove_at(old(self).keys@, at as int);
                assert(self@ =~= old(self)@.remove(key));
            }
            true
        } else {
            proof {
                assert(self@ =~= old(self)@.remove(key));
            }
            false
        }
    }

    /// Hands `value` to every live subscriber, once each.
    pub fn notify(&mut self, value: &Rc<S>)
        requires
            old(self).wf(),
        ensures
            final(self).wf(),
            final(self)@ == told(old(self)@, **value),
    {
        let count = self.callbacks.len();
        let mut at: usize = 0;
        while at < count
            invariant
                at <= count,
                count == self.callbacks@.len(),
                count == old(self).callbacks@.len(),
                self.handles == old(self).handles,
                self.keys == old(self).keys,
                forall|i: int|
                    0 <= i < at ==> (#[trigger] self.callbacks@[i]).received() == old(
                        self,
                    ).callbacks@[i].received().push(**value),
                forall|i: int| at <= i < count ==> self.callbacks@[i] == old(self).callbacks@[i],
            decreases count - at,
        {
            self.callbacks[at].call(Rc::clone(value));
            at += 1;
        }
        proof {
            assert(self@ =~= told(old(self)@, **value)) by {
                assert forall|key: usize| self.keys@.contains(key) implies self@[key] == told(
                    old(self)@,
                    **value,
                )[key] by {
                    let i = self.keys@.index_of(key);
                    assert(0 <= i < count);
                }
            }
        }
    }
}

/// The histories `received` after every live subscriber has been handed
/// `value` once more.
pub open spec fn told<S>(received: Map<usize, Seq<S>>, value: S) -> Map<usize, Seq<S>> {
    Map::new(|key: usize| received.dom().contains(key), |key: usize| received[key].push(value))
}

/// Appending a key that is not among `keys` keeps every key at its position
/// and puts the new one last.
proof fn lemma_push_fresh(keys: Seq<usize>, key: usize)
    requires
        keys.no_duplicates(),
        !keys.contains(key),
    ensures
        keys.push(key).no_duplicates(),
        keys.push(key).to_set() == keys.to_set().insert(key),
        keys.push(key).index_of(key) == keys.len(),
        forall|other: usize| #[trigger]
            keys.contains(other) ==> keys.push(key).index_of(other) == keys.index_of(other),
{
    let longer = keys.push(key);
    assert(longer[keys.len() as int] == key);
    assert forall|other: usize| #[trigger] keys.contains(other) implies longer.contains(other)
        && longer.index_of(other) == keys.index_of(other) by {
        assert(longer[keys.index_of(other)] == other);
    }
    assert(longer.to_set() =~= keys.to_set().insert(key));
}

/// Taking the key at `at` out of `keys` takes that key alone out of the set,
/// and moves the keys behind it one position forward.
proof fn lemma_remove_at(keys: Seq<usize>, at: int)
    requires
        keys.no_duplicates(),
        0 <= at < keys.len(),
    ensures
        keys.remove(at).no_duplicates(),
        keys.remove(at).to_set() == keys.to_set().remove(keys[at]),
        forall|other: usize| #[trigger]
            keys.remove(at).contains(other) ==> keys.contains(other) && keys.index_of(other) == (
            if keys.remove(at).index_of(other) < at {
                keys.remove(at).index_of(other)
            } else {
                keys.remove(at).index_of(other) + 1
            }),
{
    let shorter = keys.remove(at);
    assert forall|other: usize| #[trigger] shorter.contains(other) implies keys.contains(other)
        && other != keys[at] && keys.index_of(other) == (if shorter.index_of(other) < at {
        shorter.index_of(other)
    } else {
        shorter.index_of(other) + 1
    }) by {
        let i = shorter.index_of(other);
        if i < at {
            assert(keys[i] == other);
        } else {
            assert(keys[i + 1] == other);
        }
    }
    assert forall|other: usize| keys.contains(other) && other != keys[at] implies shorter.contains(
        other,
    ) by {
        let i = keys.index_of(other);
        if i < at {
            assert(shorter[i] == other);
        } else {
            assert(shorter[i - 1] == other);
        }
    }
    assert(shorter.to_set() =~= keys.to_set().remove(keys[at]));
}

} // verus!
