//! The three-way result of an operation that never blocks.
//!
//! Such an operation answers with `Ok`, with `Err(nb::Error::Other(e))` for an
//! error that ends it, or with `Err(nb::Error::WouldBlock)` when the hardware
//! is not ready yet and the caller should ask again later.

use vstd::prelude::*;
use nb::Error as NonBlocking;

verus! {

/// `nb::Error`, the error half of `nb::Result`, read by Verus as the crate
/// defines it: an enum of `Other(E)` and `WouldBlock`. Nothing is assumed of
/// it beyond that definition.
#[verifier::external_type_specification]
#[verifier::reject_recursive_types(E)]
pub struct ExNonBlocking<E>(NonBlocking<E>);

/// An operation's answer when it must be asked again.
pub open spec fn would_block<T, E>() -> Result<T, nb::Error<E>> {
    Err(nb::Error::WouldBlock)
}

/// An operation's answer when it has failed for good with `error`.
pub open spec fn failed<T, E>(error: E) -> Result<T, nb::Error<E>> {
    Err(nb::Error::Other(error))
}

} // verus!
