//! Values that are shared by reference count.

use std::sync::Arc;
use vstd::prelude::*;

verus! {

/// Calls `Arc::clone` of the standard library, which is not verified here. The
/// contract claims what its documentation says: the new pointer points to the
/// same value.
#[verifier::external_body]
pub(crate) fn share<T>(value: &Arc<T>) -> (shared: Arc<T>)
    ensures
        shared == *value,
{
    Arc::clone(value)
}

} // verus!
