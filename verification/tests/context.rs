use std::cell::RefCell;
use std::rc::Rc;

use yewdux::{Context, Listener, Store};

#[derive(Clone, PartialEq)]
struct TestState(u32);

impl Store for TestState {
    fn new() -> Self {
        Self(0)
    }

    fn changed(&mut self) {
        self.0 += 1;
    }
}

#[derive(Clone, PartialEq, Debug)]
struct Counter {
    n: u32,
}

impl Store for Counter {
    fn new() -> Self {
        Counter { n: 0 }
    }
}

/// A state whose equality looks at `id` alone.
#[derive(Clone, Debug)]
struct Tagged {
    id: u32,
    note: u32,
    hooks: u32,
}

impl PartialEq for Tagged {
    fn eq(&self, other: &Self) -> bool {
        self.id == other.id
    }
}

impl Store for Tagged {
    fn new() -> Self {
        Tagged { id: 7, note: 0, hooks: 0 }
    }

    fn changed(&mut self) {
        self.hooks += 1;
    }
}

/// A subscriber of any closure.
type Subscriber<S> = Listener<S, Box<dyn Fn(Rc<S>)>>;

fn listener<S: 'static>(on_change: impl Fn(Rc<S>) + 'static) -> Subscriber<S> {
    Listener::new(Box::new(on_change))
}

type Seen = Rc<RefCell<Vec<u32>>>;

fn recorder(seen: &Seen) -> Subscriber<Counter> {
    let seen = Rc::clone(seen);
    listener(move |state: Rc<Counter>| seen.borrow_mut().push(state.n))
}

#[test]
fn store_changed_is_called() {
    let mut context: Context<TestState, Subscriber<TestState>> = Context::new();

    context.reduce(|state| state.0 += 1);

    assert!(context.store().0 == 2);
}

#[test]
fn store_changed_is_not_called_when_state_is_same() {
    let mut context: Context<TestState, Subscriber<TestState>> = Context::new();

    context.reduce(|_| {});

    assert!(context.store().0 == 0);
}

#[test]
fn new_context_holds_the_initial_value() {
    let context: Context<Counter, Subscriber<Counter>> = Context::new();
    assert_eq!(*context.store(), Counter { n: 0 });
    let tagged: Context<Tagged, Subscriber<Tagged>> = Context::new();
    assert_eq!(tagged.store().id, 7);
    assert_eq!(tagged.store().hooks, 0);
}

#[test]
fn counter_scenario() {
    let seen: Seen = Rc::new(RefCell::new(Vec::new()));
    let mut context: Context<Counter, Subscriber<Counter>> = Context::new();

    let id = context.subscribe(recorder(&seen));
    assert_eq!(*seen.borrow(), vec![0]);

    assert!(context.reduce(|s| s.n += 1));
    assert_eq!(*seen.borrow(), vec![0, 1]);

    assert!(!context.reduce(|_| {}));
    assert_eq!(*seen.borrow(), vec![0, 1]);

    context.unsubscribe(id.key());
    assert!(context.reduce(|s| s.n += 1));
    assert_eq!(*seen.borrow(), vec![0, 1]);
    assert_eq!(context.store().n, 2);
}

#[test]
fn reduce_reports_change_and_keeps_the_new_value() {
    let mut context: Context<Counter, Subscriber<Counter>> = Context::new();
    assert!(context.reduce(|s| s.n = 41));
    assert_eq!(context.store().n, 41);
    assert!(context.reduce(|s| s.n += 1));
    assert_eq!(context.store().n, 42);
}

#[test]
fn unchanged_reductions_never_notify() {
    let seen: Seen = Rc::new(RefCell::new(Vec::new()));
    let mut context: Context<Counter, Subscriber<Counter>> = Context::new();
    context.subscribe(recorder(&seen));
    for _ in 0..5 {
        assert!(!context.reduce(|_| {}));
        assert!(!context.reduce(|s| {
            s.n += 3;
            s.n -= 3;
        }));
    }
    assert_eq!(*seen.borrow(), vec![0]);
    assert_eq!(context.store().n, 0);
}

#[test]
fn change_is_judged_by_the_type_equality() {
    let notes: Seen = Rc::new(RefCell::new(Vec::new()));
    let sink = Rc::clone(&notes);
    let mut context: Context<Tagged, Subscriber<Tagged>> = Context::new();
    context.subscribe(listener(move |state: Rc<Tagged>| sink.borrow_mut().push(state.note)));

    // `note` is not part of the equality: nothing changed, the hook stays
    // out, nobody is told, and the mutated value is what the context holds.
    assert!(!context.reduce(|s| s.note = 5));
    assert_eq!(context.store().note, 5);
    assert_eq!(context.store().hooks, 0);
    assert_eq!(*notes.borrow(), vec![0]);

    assert!(context.reduce(|s| {
        s.id = 8;
        s.note = 6;
    }));
    assert_eq!(context.store().hooks, 1);
    assert_eq!(*notes.borrow(), vec![0, 6]);
}

#[test]
fn hook_runs_once_before_subscribers_are_told() {
    let seen: Rc<RefCell<Vec<u32>>> = Rc::new(RefCell::new(Vec::new()));
    let sink = Rc::clone(&seen);
    let mut context: Context<TestState, Subscriber<TestState>> = Context::new();
    context.subscribe(listener(move |state: Rc<TestState>| sink.borrow_mut().push(state.0)));
    assert!(context.reduce(|state| state.0 = 10));
    // 10 from the mutation, one more from the hook, seen as 11 by everyone.
    assert_eq!(context.store().0, 11);
    assert_eq!(*seen.borrow(), vec![0, 11]);
}

#[test]
fn every_subscriber_is_told_once_per_change() {
    let first: Seen = Rc::new(RefCell::new(Vec::new()));
    let second: Seen = Rc::new(RefCell::new(Vec::new()));
    let third: Seen = Rc::new(RefCell::new(Vec::new()));
    let mut context: Context<Counter, Subscriber<Counter>> = Context::new();
    context.subscribe(recorder(&first));
    assert!(context.reduce(|s| s.n = 1));
    context.subscribe(recorder(&second));
    assert!(context.reduce(|s| s.n = 2));
    context.subscribe(recorder(&third));
    assert!(context.reduce(|s| s.n = 3));
    assert_eq!(*first.borrow(), vec![0, 1, 2, 3]);
    assert_eq!(*second.borrow(), vec![1, 2, 3]);
    assert_eq!(*third.borrow(), vec![2, 3]);
}

#[test]
fn subscribe_calls_back_at_once_with_the_current_value() {
    let early: Seen = Rc::new(RefCell::new(Vec::new()));
    let late: Seen = Rc::new(RefCell::new(Vec::new()));
    let mut context: Context<Counter, Subscriber<Counter>> = Context::new();
    context.subscribe(recorder(&early));
    assert_eq!(*early.borrow(), vec![0]);
    context.reduce(|s| s.n = 9);
    context.subscribe(recorder(&late));
    assert_eq!(*late.borrow(), vec![9]);
    assert_eq!(*early.borrow(), vec![0, 9]);
}

#[test]
fn unsubscribed_callback_is_never_called_again() {
    let kept: Seen = Rc::new(RefCell::new(Vec::new()));
    let dropped: Seen = Rc::new(RefCell::new(Vec::new()));
    let mut context: Context<Counter, Subscriber<Counter>> = Context::new();
    let _kept_id = context.subscribe(recorder(&kept));
    let dropped_id = context.subscribe(recorder(&dropped));
    context.reduce(|s| s.n = 1);
    context.unsubscribe(dropped_id.key());
    context.reduce(|s| s.n = 2);
    context.reduce(|s| s.n = 3);
    context.notify_subscribers();
    assert_eq!(*dropped.borrow(), vec![0, 1]);
    assert_eq!(*kept.borrow(), vec![0, 1, 2, 3, 3]);
}

#[test]
fn unsubscribing_an_unknown_handle_changes_nothing() {
    let seen: Seen = Rc::new(RefCell::new(Vec::new()));
    let mut context: Context<Counter, Subscriber<Counter>> = Context::new();
    context.unsubscribe(0);
    context.unsubscribe(123);
    let id = context.subscribe(recorder(&seen));
    context.unsubscribe(id.key() + 1);
    context.reduce(|s| s.n = 4);
    assert_eq!(*seen.borrow(), vec![0, 4]);
    context.unsubscribe(id.key());
    context.unsubscribe(id.key());
    context.reduce(|s| s.n = 5);
    assert_eq!(*seen.borrow(), vec![0, 4]);
}

#[test]
fn handles_of_live_subscribers_differ_and_released_ones_return() {
    let seen: Seen = Rc::new(RefCell::new(Vec::new()));
    let mut context: Context<Counter, Subscriber<Counter>> = Context::new();
    let a = context.subscribe(recorder(&seen)).key();
    let b = context.subscribe(recorder(&seen)).key();
    let c = context.subscribe(recorder(&seen)).key();
    assert_eq!((a, b, c), (0, 1, 2));
    context.unsubscribe(b);
    let d = context.subscribe(recorder(&seen)).key();
    assert_eq!(d, b);
    assert!(d != a && d != c);
    let e = context.subscribe(recorder(&seen)).key();
    assert_eq!(e, 3);
}

#[test]
fn notify_subscribers_hands_out_the_current_value() {
    let first: Seen = Rc::new(RefCell::new(Vec::new()));
    let second: Seen = Rc::new(RefCell::new(Vec::new()));
    let mut context: Context<Counter, Subscriber<Counter>> = Context::new();
    context.notify_subscribers();
    context.subscribe(recorder(&first));
    context.subscribe(recorder(&second));
    context.notify_subscribers();
    context.notify_subscribers();
    assert_eq!(*first.borrow(), vec![0, 0, 0]);
    assert_eq!(*second.borrow(), vec![0, 0, 0]);
}

#[test]
fn earlier_readers_keep_the_value_they_took() {
    let mut context: Context<Counter, Subscriber<Counter>> = Context::new();
    let before = context.store();
    assert!(context.reduce(|s| s.n = 5));
    let after = context.store();
    assert_eq!(before.n, 0);
    assert_eq!(after.n, 5);
    assert!(!context.reduce(|_| {}));
    assert_eq!(after.n, 5);
    assert_eq!(context.store().n, 5);
}

#[test]
fn subscriber_keeps_the_value_it_was_handed() {
    let held: Rc<RefCell<Vec<Rc<Counter>>>> = Rc::new(RefCell::new(Vec::new()));
    let sink = Rc::clone(&held);
    let mut context: Context<Counter, Subscriber<Counter>> = Context::new();
    context.subscribe(listener(move |state: Rc<Counter>| sink.borrow_mut().push(state)));
    context.reduce(|s| s.n = 1);
    context.reduce(|s| s.n = 2);
    let values: Vec<u32> = held.borrow().iter().map(|state| state.n).collect();
    assert_eq!(values, vec![0, 1, 2]);
}

#[test]
fn contexts_of_different_types_do_not_share_state() {
    let mut counters: Context<Counter, Subscriber<Counter>> = Context::new();
    let mut tests: Context<TestState, Subscriber<TestState>> = Context::new();
    counters.reduce(|s| s.n = 3);
    assert_eq!(tests.store().0, 0);
    tests.reduce(|s| s.0 = 8);
    assert_eq!(counters.store().n, 3);
    assert_eq!(tests.store().0, 9);
}
