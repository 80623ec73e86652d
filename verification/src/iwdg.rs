//! Independent Watchdog

use vstd::prelude::*;

verus! {

/// What is written to the key register.
#[derive(Clone, Copy, Debug, PartialEq, Eq, Structural)]
pub enum Key {
    /// Reloads the counter, so that the watchdog does not bite
    Feed,
    /// Opens the prescaler and reload registers for writing
    Unlock,
    /// Closes them again
    Lock,
    /// Starts the watchdog
    Start,
}

impl Key {
    /// The value that the hardware knows the key by.
    pub open spec fn word(self) -> u16 {
        match self {
            Key::Feed => 0xAAAA,
            Key::Unlock => 0x5555,
            Key::Lock => 0x0,
            Key::Start => 0xCCCC,
        }
    }

    /// The value to write to the key register.
    pub fn bits(self) -> (word: u16)
        ensures
            word == self.word(),
    {
        match self {
            Key::Feed => 0xAAAA,
            Key::Unlock => 0x5555,
            Key::Lock => 0x0,
            Key::Start => 0xCCCC,
        }
    }
}

/// Maximum watchdog timeout is 26.214 seconds
pub const MAX_TIMEOUT_MS: u32 = 26214;

/// The greatest reload value
pub const MAX_RELOAD: u16 = 0xFFF;

/// The greatest prescaler
pub const MAX_PRESCALE: u8 = 6;

/// What the watchdog counts with.
#[derive(Clone, Copy, Debug, PartialEq, Eq, Structural)]
pub struct Settings {
    /// For the prescaler register
    pub prescaler: u8,
    /// For the reload register
    pub reload: u16,
}

/// The longest timeout, in milliseconds, that the watchdog reaches with
/// `prescaler`: each step of the prescaler doubles it, up to the maximum.
pub open spec fn longest(prescaler: u8) -> int {
    if prescaler == 0 {
        409
    } else if prescaler == 1 {
        819
    } else if prescaler == 2 {
        1638
    } else if prescaler == 3 {
        3276
    } else if prescaler == 4 {
        6553
    } else if prescaler == 5 {
        13107
    } else {
        26214
    }
}

/// Each step down of the prescaler halves the longest timeout, rounding
/// down.
pub proof fn lemma_longest_halves(prescaler: u8)
    requires
        1 <= prescaler <= MAX_PRESCALE,
    ensures
        longest((prescaler - 1) as u8) == longest(prescaler) / 2,
        longest(MAX_PRESCALE) == MAX_TIMEOUT_MS,
{
}

/// The prescaler and reload value for a timeout of `timeout_ms`
/// milliseconds, which must not exceed the maximum.
///
/// The prescaler is the smallest that reaches the timeout, for the finest
/// resolution, and the reload value is the timeout's share of what that
/// prescaler reaches, out of the greatest reload value.
pub fn start(timeout_ms: u32) -> (r: Settings)
    requires
        timeout_ms <= MAX_TIMEOUT_MS,
    ensures
        r.prescaler <= MAX_PRESCALE,
        timeout_ms <= longest(r.prescaler),
        r.prescaler > 0 ==> timeout_ms > longest((r.prescaler - 1) as u8),
        r.reload == (MAX_RELOAD * timeout_ms) / longest(r.prescaler),
        r.reload <= MAX_RELOAD,
{
    let mut max_timeout_ms: u32 = MAX_TIMEOUT_MS;
    let mut prescaler: u8 = MAX_PRESCALE;
    while prescaler > 0 && timeout_ms <= max_timeout_ms / 2
        invariant
            prescaler <= MAX_PRESCALE,
            max_timeout_ms == longest(prescaler),
            timeout_ms <= max_timeout_ms,
        decreases prescaler,
    {
        proof {
            lemma_longest_halves(prescaler);
        }
        prescaler -= 1;
        max_timeout_ms /= 2;
    }
    proof {
        if prescaler > 0 {
            lemma_longest_halves(prescaler);
        }
        assert(4095 * timeout_ms / (max_timeout_ms as int) <= 4095) by (nonlinear_arith)
            requires
                0 <= timeout_ms <= max_timeout_ms,
                max_timeout_ms > 0,
        ;
    }
    let reload = ((MAX_RELOAD as u32) * timeout_ms / max_timeout_ms) as u16;
    Settings { prescaler, reload }
}

} // verus!
