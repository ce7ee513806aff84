//! Shared ownership of immutable values.

use vstd::prelude::*;
use std::sync::Arc;

verus! {

/// Another handle to a shared value, by `<Arc<T> as Clone>::clone` of the
/// standard library: the new handle points to the allocation of the old
/// one, so it holds the same value, and nothing is copied.
#[verifier::external_body]
pub(crate) fn share<T>(handle: &Arc<T>) -> (r: Arc<T>)
    ensures
        r == *handle,
{
    Arc::clone(handle)
}

} // verus!
