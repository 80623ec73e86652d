//! Pulse width modulation: channels, and the registers that set the period.

use vstd::prelude::*;
use core::marker::PhantomData;
use crate::checked::{narrow, widen};
use crate::time::Hertz;

verus! {

/// The four channels of a timer.
#[derive(Clone, Copy, Debug, PartialEq, Eq, Structural)]
pub enum Channel {
    /// Channel 1
    _1,
    /// Channel 2
    _2,
    /// Channel 3
    _3,
    /// Channel 4
    _4,
}

impl Channel {
    /// The channel's number, counted from one.
    pub open spec fn number(self) -> int {
        match self {
            Channel::_1 => 1,
            Channel::_2 => 2,
            Channel::_3 => 3,
            Channel::_4 => 4,
        }
    }
}

/// Names the channels that a set of pins gives access to.
pub trait TimerMapping<TIM> {
    /// The channels
    type Channels;
}

/// A timer that drives PWM outputs.
pub struct PwmTimer<TIM, BUS, REGISTERBLOCK, MAPPING> {
    _tim: PhantomData<TIM>,
    _bus: PhantomData<BUS>,
    _mapping: PhantomData<MAPPING>,
    _register: PhantomData<REGISTERBLOCK>,
    clock_freq: Hertz,
}

/// What sets a timer's period: the clock is divided by `prescaler + 1`, and
/// the counter counts up to `reload`.
#[derive(Clone, Copy, Debug, PartialEq, Eq, Structural)]
pub struct Period {
    /// For the prescaler register
    pub prescaler: u16,
    /// For the auto-reload register
    pub reload: u16,
}

/// How many ticks of a clock of `clock` hertz make one period of a signal
/// of `frequency` hertz, rounded down.
pub open spec fn ticks(clock: Hertz, frequency: Hertz) -> int {
    (clock.0 as int) / (frequency.0 as int)
}

/// The prescaler and reload value for a period of `ticks` clock ticks: the
/// smallest prescaler with which the reload value fits its register, and the
/// reload value that comes closest from below.
pub open spec fn period_for(ticks: int) -> (int, int) {
    let prescaler = ticks / 65536;
    (prescaler, ticks / (prescaler + 1))
}

/// By how much the clock is divided in all: the prescaler's share times the
/// counter's.
pub open spec fn division(period: Period) -> int {
    (period.prescaler + 1) * (period.reload + 1)
}

impl<TIM, BUS, REGISTERBLOCK, MAPPING> PwmTimer<TIM, BUS, REGISTERBLOCK, MAPPING> {
    /// The frequency of the clock that the timer counts.
    pub closed spec fn clock(&self) -> Hertz {
        self.clock_freq
    }

    /// A timer that counts a clock of `clock_freq`.
    pub fn new(clock_freq: Hertz) -> (timer: Self)
        ensures
            timer.clock() == clock_freq,
    {
        PwmTimer {
            _tim: PhantomData,
            _bus: PhantomData,
            _mapping: PhantomData,
            _register: PhantomData,
            clock_freq,
        }
    }

    /// The frequency of the clock that the timer counts.
    pub fn clock_freq(&self) -> (clock: Hertz)
        ensures
            clock == self.clock(),
    {
        self.clock_freq
    }

    /// The bit of the capture/compare enable register that switches
    /// `channel` on: each channel has four bits, the first of which does.
    pub fn channel_to_ccer_bit(channel: Channel) -> (bit: u8)
        ensures
            bit == 4 * (channel.number() - 1),
    {
        match channel {
            Channel::_1 => 0u8,
            Channel::_2 => 4u8,
            Channel::_3 => 8u8,
            Channel::_4 => 12u8,
        }
    }

    /// The frequency of the output when the registers hold `period`. The
    /// two registers must not both hold their greatest value.
    pub fn get_period(&self, period: Period) -> (frequency: Hertz)
        requires
            division(period) <= u32::MAX,
        ensures
            frequency.0 == self.clock().0 as int / division(period),
    {
        let prescaler = widen(period.prescaler) + 1;
        let reload = widen(period.reload) + 1;
        assert(prescaler * reload >= 1) by (nonlinear_arith)
            requires
                prescaler >= 1,
                reload >= 1,
        ;
        Hertz(self.clock_freq.0 / (prescaler * reload))
    }

    /// The register values for an output of frequency `period`, which must
    /// not be zero nor so low that the prescaler cannot reach it.
    pub fn set_period(&self, period: Hertz) -> (r: Period)
        requires
            period.0 > 0,
            ticks(self.clock(), period) < 65535 * 65536,
        ensures
            (r.prescaler as int, r.reload as int) == period_for(ticks(self.clock(), period)),
            (r.prescaler + 1) * r.reload <= ticks(self.clock(), period) < (r.prescaler + 1) * (
            r.reload + 1),
    {
        let ticks = self.clock_freq.0 / period.0;
        let psc = narrow(ticks / 65536);
        let divisor = widen(psc + 1);
        proof {
            lemma_period_fits(ticks as int);
        }
        let arr = narrow(ticks / divisor);
        Period { prescaler: psc, reload: arr }
    }
}

/// The reload value fits in 16 bits whatever the period, and the timer's
/// period is the longest that does not exceed the period asked for.
pub proof fn lemma_period_fits(ticks: int)
    requires
        ticks >= 0,
    ensures
        0 <= period_for(ticks).1 <= 65535,
        (period_for(ticks).0 + 1) * period_for(ticks).1 <= ticks < (period_for(ticks).0 + 1) * (
        period_for(ticks).1 + 1),
{
    let p = ticks / 65536;
    let d = p + 1;
    let a = ticks / d;
    assert(65536 * p <= ticks < 65536 * p + 65536);
    assert(a <= 65535) by (nonlinear_arith)
        requires
            a == ticks / d,
            d >= 1,
            0 <= ticks < 65536 * d,
    ;
    assert(0 <= a && d * a <= ticks < d * (a + 1)) by (nonlinear_arith)
        requires
            a == ticks / d,
            d >= 1,
            ticks >= 0,
    ;
}

} // verus!
