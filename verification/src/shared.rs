//! Shared ownership through `Arc`, as the library uses it.
use std::sync::Arc;
use vstd::prelude::*;

verus! {

/// `Arc::clone`: another handle to the same allocation, so it holds the same value.
#[verifier::external_body]
pub fn share<T>(shared: &Arc<T>) -> (copy: Arc<T>)
    ensures
        copy == *shared,
{
    Arc::clone(shared)
}

/// `Arc::make_mut`: a mutable reference to the shared value, cloning it first
/// where other handles still hold it. What the reference starts with is the
/// value or a clone of it; what is left in it afterwards is what the `Arc` holds.
#[verifier::external_body]
pub fn make_mut<T: Clone>(shared: &mut Arc<T>) -> (value: &mut T)
    ensures
        cloned(**old(shared), *value),
        **final(shared) == *final(value),
{
    Arc::make_mut(shared)
}

} // verus!
