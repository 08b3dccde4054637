//! Values that the controller keeps and hands out at the same time.

use std::sync::Arc;
use vstd::prelude::*;

verus! {

/// Calls `Arc::clone` of the standard library, which makes another pointer to the same value.
#[verifier::external_body]
pub(crate) fn share<T: ?Sized>(pointer: &Arc<T>) -> (shared: Arc<T>)
    ensures
        shared == *pointer,
{
    Arc::clone(pointer)
}

/// The value behind a pointer that may be missing.
pub open spec fn pointed_to<T>(pointer: Option<Arc<T>>) -> Option<T> {
    match pointer {
        Some(pointer) => Some(*pointer),
        None => None,
    }
}

} // verus!
