//! Keeping memory accesses on their side of a status check.

use vstd::prelude::*;

verus! {

/// A full compiler fence, `core::sync::atomic::compiler_fence` with
/// sequentially consistent ordering: the compiler moves no memory access from
/// one side of the call to the other. It computes nothing, so nothing is
/// claimed of it.
#[verifier::external_body]
pub(crate) fn fence() {
    core::sync::atomic::compiler_fence(core::sync::atomic::Ordering::SeqCst);
}

} // verus!
