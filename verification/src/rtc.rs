//! Real time clock: the 32-bit count of seconds in its two 16-bit registers.

use vstd::prelude::*;

verus! {

/// The prescaler that makes the clock count once a second from the
/// 32.768 kHz crystal.
pub const PRESCALER: u32 = 0x7fff;

/// A count of seconds as the two registers hold it.
#[derive(Clone, Copy, Debug, PartialEq, Eq, Structural)]
pub struct Halves {
    /// The upper 16 bits
    pub high: u16,
    /// The lower 16 bits
    pub low: u16,
}

/// The count that the two registers stand for.
pub open spec fn count(halves: Halves) -> int {
    halves.high * 65536 + halves.low
}

/// The register values for an alarm at `time_seconds`.
pub fn set_alarm(time_seconds: u32) -> (halves: Halves)
    ensures
        count(halves) == time_seconds,
{
    let high = (time_seconds >> 16) as u16;
    let low = (time_seconds & 0x0000ffff) as u16;
    assert(time_seconds >> 16 <= 0xffff && time_seconds & 0x0000ffff <= 0xffff && (time_seconds
        >> 16) * 65536 + (time_seconds & 0x0000ffff) == time_seconds) by (bit_vector);
    Halves { high, low }
}

/// The count of seconds that the two counter registers hold.
pub fn read(halves: Halves) -> (seconds: u32)
    ensures
        seconds == count(halves),
{
    let high = halves.high as u32;
    let low = halves.low as u32;
    assert(high << 16 == high * 65536) by (bit_vector)
        requires
            high <= 0xffff,
    ;
    (high << 16) + low
}

} // verus!
