//! What a value type must provide to be managed as shared state.

use vstd::prelude::*;

verus! {

/// A state type: it can build its initial value, be cloned, be compared, and
/// may react to its own changes.
///
/// Both methods are the implementor's; contracts that involve them speak of
/// whatever they return, through `call_ensures`.
pub trait Store: Clone + PartialEq + Sized + 'static {
    /// Builds the initial value. It takes no input, so every call is expected
    /// to build the same value.
    fn new() -> Self;

    /// Runs once after every reduction that altered the value, after the
    /// mutation and before subscribers are told, so that the state can derive
    /// further fields from its own update. Does nothing unless overridden.
    fn changed(&mut self)
        default_ensures
            *final(self) == *old(self),
    {
    }
}

} // verus!
