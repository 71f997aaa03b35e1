//! What holds of a context across calls, proved over its view.

use crate::context::{ContextView, Outcome};
use vstd::prelude::*;

verus! {

/// Reductions neither add nor remove a subscriber.
pub proof fn lemma_reductions_keep_subscribers<S>(view: ContextView<S>, outcomes: Seq<Outcome<S>>)
    ensures
        view.replayed(outcomes).received.dom() == view.received.dom(),
    decreases outcomes.len(),
{
    if outcomes.len() > 0 {
        lemma_reductions_keep_subscribers(view, outcomes.drop_last());
        let before = view.replayed(outcomes.drop_last());
        let last = outcomes.last();
        assert(before.reduced(last.next, last.changed).received.dom() =~= before.received.dom());
    }
}

/// However many reductions leave the value unchanged, one after another, no
/// subscriber is handed anything: every history stays as it was.
pub proof fn lemma_unchanged_reductions_tell_nobody<S>(
    view: ContextView<S>,
    outcomes: Seq<Outcome<S>>,
)
    requires
        forall|i: int| 0 <= i < outcomes.len() ==> !(#[trigger] outcomes[i]).changed,
    ensures
        view.replayed(outcomes).received == view.received,
    decreases outcomes.len(),
{
    if outcomes.len() > 0 {
        lemma_unchanged_reductions_tell_nobody(view, outcomes.drop_last());
        assert(!outcomes[outcomes.len() - 1].changed);
    }
}

/// A reduction that changes the value leaves that value in the context and
/// hands it to every live subscriber, exactly once each.
pub proof fn lemma_changed_reduction_tells_everyone_once<S>(view: ContextView<S>, next: S)
    ensures
        view.reduced(next, true).state == next,
        view.reduced(next, true).received.dom() == view.received.dom(),
        forall|key: usize| #[trigger]
            view.received.dom().contains(key) ==> view.reduced(next, true).received[key]
                == view.received[key].push(next),
{
    assert(view.reduced(next, true).received.dom() =~= view.received.dom());
}

/// Whatever a subscriber had been handed stays at the head of its history
/// through later reductions, which can only add to it.
pub proof fn lemma_reductions_only_append<S>(
    view: ContextView<S>,
    key: usize,
    outcomes: Seq<Outcome<S>>,
)
    requires
        view.received.dom().contains(key),
    ensures
        view.replayed(outcomes).received.dom().contains(key),
        view.received[key].is_prefix_of(view.replayed(outcomes).received[key]),
    decreases outcomes.len(),
{
    if outcomes.len() > 0 {
        lemma_reductions_only_append(view, key, outcomes.drop_last());
        let before = view.replayed(outcomes.drop_last());
        let last = outcomes.last();
        if last.changed {
            assert(before.received[key].is_prefix_of(before.received[key].push(last.next)));
        }
    }
}

/// Subscribing hands the subscriber the value as it stands at that moment,
/// once, and later reductions do not alter that: the history it came with,
/// followed by that value, stays the head of its history.
pub proof fn lemma_subscriber_is_first_told_the_value_at_subscription<S>(
    view: ContextView<S>,
    key: usize,
    seen: Seq<S>,
    outcomes: Seq<Outcome<S>>,
)
    ensures
        view.subscribed(key, seen).received[key] == seen.push(view.state),
        view.subscribed(key, seen).replayed(outcomes).received.dom().contains(key),
        seen.push(view.state).is_prefix_of(
            view.subscribed(key, seen).replayed(outcomes).received[key],
        ),
{
    lemma_reductions_only_append(view.subscribed(key, seen), key, outcomes);
}

/// Once a handle is unsubscribed, no later reduction hands anything under it:
/// the context keeps no history for it.
pub proof fn lemma_unsubscribed_is_told_nothing<S>(
    view: ContextView<S>,
    key: usize,
    outcomes: Seq<Outcome<S>>,
)
    ensures
        !view.unsubscribed(key).replayed(outcomes).received.dom().contains(key),
{
    lemma_reductions_keep_subscribers(view.unsubscribed(key), outcomes);
}

} // verus!
