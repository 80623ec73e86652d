//! Pulse width modulation: the channels as types.

use vstd::prelude::*;
use core::marker::PhantomData;
use crate::pwm2::Channel;

verus! {

/// A PWM output: channel `CHANNEL` of timer `TIM`.
pub struct Pwm<TIM, CHANNEL> {
    _channel: PhantomData<CHANNEL>,
    _tim: PhantomData<TIM>,
}

/// Channel 1
pub struct C1;

/// Channel 2
pub struct C2;

/// Channel 3
pub struct C3;

/// Channel 4
pub struct C4;

/// A channel of a timer, known at compile time.
pub trait PwmChannel {
    /// Which channel it is.
    spec fn channel() -> Channel;

    /// The bit of the capture/compare enable register that switches the
    /// channel's output on.
    fn ccer_bit() -> (bit: u8)
        ensures
            bit == 4 * (Self::channel().number() - 1),
    ;
}

impl PwmChannel for C1 {
    open spec fn channel() -> Channel {
        Channel::_1
    }

    fn ccer_bit() -> (bit: u8) {
        0
    }
}

impl PwmChannel for C2 {
    open spec fn channel() -> Channel {
        Channel::_2
    }

    fn ccer_bit() -> (bit: u8) {
        4
    }
}

impl PwmChannel for C3 {
    open spec fn channel() -> Channel {
        Channel::_3
    }

    fn ccer_bit() -> (bit: u8) {
        8
    }
}

impl PwmChannel for C4 {
    open spec fn channel() -> Channel {
        Channel::_4
    }

    fn ccer_bit() -> (bit: u8) {
        12
    }
}

impl<TIM, CHANNEL: PwmChannel> Pwm<TIM, CHANNEL> {
    /// The output of channel `CHANNEL` of timer `TIM`.
    pub fn new() -> Self {
        Pwm { _channel: PhantomData, _tim: PhantomData }
    }

    /// The bit of the capture/compare enable register that switches this
    /// output on and off.
    pub fn ccer_bit(&self) -> (bit: u8)
        ensures
            bit == 4 * (CHANNEL::channel().number() - 1),
    {
        CHANNEL::ccer_bit()
    }
}

} // verus!
