//! Timers: from a frequency to the prescaler and the reload value.

use vstd::prelude::*;
use crate::bits::{bit, is_set};
use crate::checked::{narrow, widen};
use crate::nonblocking::would_block;
use crate::time::Hertz;

verus! {

/// Status bit: the counter has wrapped round.
pub const UIF: u32 = 0;

/// What a timer counts with: the clock is divided by `prescaler + 1`, and
/// the counter wraps round after `reload` ticks of the divided clock.
#[derive(Clone, Copy, Debug, PartialEq, Eq, Structural)]
pub struct Reload {
    /// For the prescaler register
    pub prescaler: u16,
    /// For the auto-reload register
    pub reload: u16,
}

/// The clock that the timers on the first peripheral bus run at: the bus
/// clock itself where the bus divides the system clock by one, and twice
/// the bus clock where it divides by more.
pub open spec fn timer_clock(pclk1: Hertz, ppre1: u8) -> int {
    if ppre1 == 1 {
        pclk1.0 as int
    } else {
        2 * pclk1.0
    }
}

/// How many ticks of a clock of `clock` hertz make one period of a signal
/// of `frequency` hertz, rounded down.
pub open spec fn ticks(clock: int, frequency: Hertz) -> int {
    clock / (frequency.0 as int)
}

/// The prescaler and reload value for a period of `ticks` clock ticks: the
/// smallest prescaler with which the reload value fits its register, and the
/// reload value that comes closest from below.
pub open spec fn reload_for(ticks: int) -> (int, int) {
    let prescaler = (ticks - 1) / 65536;
    (prescaler, ticks / (prescaler + 1))
}

/// The clock of the timers on the first peripheral bus, in hertz.
pub fn clock(pclk1: Hertz, ppre1: u8) -> (hz: u32)
    requires
        timer_clock(pclk1, ppre1) <= u32::MAX,
    ensures
        hz == timer_clock(pclk1, ppre1),
{
    if ppre1 == 1 {
        pclk1.0
    } else {
        pclk1.0 * 2
    }
}

/// The prescaler and the reload value with which a timer that runs at
/// `clock` hertz wraps round `frequency` times a second.
///
/// The period, in ticks of the clock, must be at least one tick, no
/// multiple of 65536, and short enough for the prescaler.
pub fn start(clock: u32, frequency: Hertz) -> (r: Reload)
    requires
        frequency.0 > 0,
        ticks(clock as int, frequency) >= 1,
        ticks(clock as int, frequency) % 65536 != 0,
        ticks(clock as int, frequency) <= 65535 * 65536,
    ensures
        (r.prescaler as int, r.reload as int) == reload_for(ticks(clock as int, frequency)),
        (r.prescaler + 1) * r.reload <= ticks(clock as int, frequency) < (r.prescaler + 1) * (
        r.reload + 1),
{
    let ticks = clock / frequency.0;
    let psc = narrow((ticks - 1) / 65536);
    let divisor = widen(psc + 1);
    proof {
        lemma_reload_fits(ticks as int);
    }
    let arr = narrow(ticks / divisor);
    Reload { prescaler: psc, reload: arr }
}

/// For a period that is no multiple of 65536 ticks the reload value fits in
/// 16 bits, and the timer's period is the longest that does not exceed the
/// period asked for.
pub proof fn lemma_reload_fits(ticks: int)
    requires
        ticks >= 1,
        ticks % 65536 != 0,
    ensures
        0 <= reload_for(ticks).1 <= 65535,
        (reload_for(ticks).0 + 1) * reload_for(ticks).1 <= ticks < (reload_for(ticks).0 + 1) * (
        reload_for(ticks).1 + 1),
{
    let p = (ticks - 1) / 65536;
    let d = p + 1;
    let a = ticks / d;
    assert(65536 * p <= ticks - 1 < 65536 * p + 65536);
    assert(ticks != 65536 * d);
    assert(ticks < 65536 * d);
    assert(a <= 65535) by (nonlinear_arith)
        requires
            a == ticks / d,
            d >= 1,
            0 <= ticks < 65536 * d,
    ;
    assert(0 <= a && d * a <= ticks < d * (a + 1)) by (nonlinear_arith)
        requires
            a == ticks / d,
            d >= 1,
            ticks >= 0,
    ;
}

/// Whether the timer has wrapped round since it was last asked, going by
/// the status word `sr`: `Ok` with the word to write back to the status
/// register, in which the flag is cleared, or "not yet".
pub fn wait(sr: u32) -> (r: Result<u32, nb::Error<()>>)
    ensures
        r == (if bit(sr, UIF) {
            Ok(crate::bits::with_bit(sr, UIF, false))
        } else {
            would_block::<u32, ()>()
        }),
{
    if is_set(sr, UIF) {
        Ok(crate::bits::assign(sr, UIF, false))
    } else {
        Err(nb::Error::WouldBlock)
    }
}

} // verus!
