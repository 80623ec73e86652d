//! Quadrature Encoder Interface (QEI)

use vstd::prelude::*;
use embedded_hal::Direction as Counting;
use crate::bits::{bit, is_set};

verus! {

/// `embedded_hal::Direction`, read as the crate defines it: counting down
/// or counting up.
#[verifier::external_type_specification]
pub struct ExCounting(Counting);

/// Control bit: the counter counts down.
pub const DIR: u32 = 4;

/// Which way the encoder turns, going by the timer's first control word.
pub fn direction(cr1: u32) -> (way: Counting)
    ensures
        way == (if bit(cr1, DIR) {
            Counting::Downcounting
        } else {
            Counting::Upcounting
        }),
{
    if is_set(cr1, DIR) {
        Counting::Downcounting
    } else {
        Counting::Upcounting
    }
}

} // verus!
