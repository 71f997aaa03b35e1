//! Subscriber handles, allocated by a `slab::Slab`.
//!
//! The slab is used as the allocator of handles: it holds one unit entry per
//! live subscriber, and the key it assigns to that entry is the subscriber's
//! handle. Nothing here is proved; each contract states what the slab's
//! documentation and source say of the call.

use slab::Slab;
use vstd::prelude::*;

verus! {

/// `slab::Slab`, taken as it is: the verifier sees nothing inside it.
#[verifier::external_type_specification]
#[verifier::external_body]
#[verifier::reject_recursive_types(T)]
pub struct ExSlab<T>(Slab<T>);

/// The keys that are associated with an entry of the slab at the moment.
pub uninterp spec fn slab_keys(slab: Slab<()>) -> Set<usize>;

/// `Slab::new`: a slab without entries.
#[verifier::external_body]
pub(crate) fn slab_new() -> (slab: Slab<()>)
    ensures
        slab_keys(slab) == Set::<usize>::empty(),
{
    Slab::new()
}

/// `Slab::insert`: stores an entry and returns the key assigned to it. The key
/// was vacant before the call and is the only one to become occupied. Which
/// vacant key is chosen is left open: a released key may come back.
///
/// Like `Vec::push`, the call aborts when the allocator cannot hold one more
/// slot; that is not modelled.
#[verifier::external_body]
pub(crate) fn slab_insert(slab: &mut Slab<()>) -> (key: usize)
    ensures
        !slab_keys(*old(slab)).contains(key),
        slab_keys(*final(slab)) == slab_keys(*old(slab)).insert(key),
{
    slab.insert(())
}

/// `Slab::try_remove`: releases `key` if an entry is associated with it, and
/// hands the entry back; without one it returns `None`. No other key is
/// touched, and a key without an entry leaves the slab as it was.
#[verifier::external_body]
pub(crate) fn slab_try_remove(slab: &mut Slab<()>, key: usize) -> (entry: Option<()>)
    ensures
        entry.is_some() == slab_keys(*old(slab)).contains(key),
        slab_keys(*final(slab)) == slab_keys(*old(slab)).remove(key),
{
    slab.try_remove(key)
}

} // verus!
