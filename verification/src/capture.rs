//! Input capture

use vstd::prelude::*;
use crate::bits::{bit, is_set};
use crate::checked::narrow;
use crate::nonblocking::{failed, would_block};
use crate::time::MicroSeconds;

verus! {

/// Input capture error
#[derive(Clone, Copy, Debug, PartialEq, Eq, Structural)]
#[non_exhaustive]
pub enum Error {
    /// Previous capture value was overwritten
    Overcapture,
}

/// Channel 1 of timer 4
pub struct T4C1 {
    _0: (),
}

/// Status bit: channel 1 has captured a value.
pub const CC1IF: u32 = 1;

/// Status bit: channel 1 captured a value before the last one was read.
pub const CC1OF: u32 = 9;

/// Whether channel 1 holds a captured value, going by the status word `sr`:
/// a capture that was overwritten is an error, whatever else is set.
pub open spec fn answer(sr: u32) -> Result<(), nb::Error<Error>> {
    if bit(sr, CC1OF) {
        failed(Error::Overcapture)
    } else if bit(sr, CC1IF) {
        Ok(())
    } else {
        would_block()
    }
}

/// The prescaler with which a timer that runs at `clock` hertz ticks once
/// in `resolution`.
pub open spec fn prescaler_for(clock: int, resolution: MicroSeconds) -> int {
    ((clock - 1) / 1_000_000) * resolution.0
}

/// Whether the captured value can be read, going by the status word `sr`.
pub fn capture(sr: u32) -> (r: Result<(), nb::Error<Error>>)
    ensures
        r == answer(sr),
{
    if is_set(sr, CC1OF) {
        Err(nb::Error::Other(Error::Overcapture))
    } else if is_set(sr, CC1IF) {
        Ok(())
    } else {
        Err(nb::Error::WouldBlock)
    }
}

/// The value of the prescaler register for a capture timer that runs at
/// `clock` hertz and is to tick once in `resolution`. The clock must run,
/// and the value must fit the register.
pub fn prescaler(clock: u32, resolution: MicroSeconds) -> (psc: u16)
    requires
        clock >= 1,
        prescaler_for(clock as int, resolution) <= u16::MAX,
    ensures
        psc == prescaler_for(clock as int, resolution),
{
    let whole = (clock - 1) / 1_000_000;
    assert(whole * resolution.0 >= 0) by (nonlinear_arith)
        requires
            whole >= 0,
            resolution.0 >= 0,
    ;
    narrow(whole * resolution.0)
}

} // verus!
