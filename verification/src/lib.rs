//! An observable-state container: one shared value per state type, changed
//! through copy-on-write reducers, with subscribers told exactly when the
//! value actually changes.
//!
//! - [`store`]: what a state type provides: its initial value, and a hook
//!   that runs after each change.
//! - [`subscriber`]: callbacks, described by the values they have been handed.
//! - [`handles`]: the slab that allocates subscriber handles, with what is
//!   taken on trust about it.
//! - [`subscribers`]: the callbacks of one context under their handles.
//! - [`context`]: the value and its subscribers: `reduce`, `subscribe`,
//!   `unsubscribe`, `notify_subscribers`.
//! - [`laws`]: what holds across calls, proved over the view of a context.

pub mod context;
pub mod handles;
pub mod laws;
pub mod store;
pub mod subscriber;
pub mod subscribers;

pub use context::{Context, ContextView, Outcome};
pub use store::Store;
pub use subscriber::{Callable, Listener, SubscriberId};
