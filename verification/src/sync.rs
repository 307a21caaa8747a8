//! Sharing between threads.

use std::sync::Arc;
use vstd::prelude::*;

verus! {

/// Another handle to the same shared value (`Arc::clone`).
///
/// Trusted contract: the new handle points to the value the old one points to.
#[verifier::external_body]
pub(crate) fn arc_clone<T>(shared: &Arc<T>) -> (cloned: Arc<T>)
    ensures
        cloned == *shared,
{
    Arc::clone(shared)
}

} // verus!
