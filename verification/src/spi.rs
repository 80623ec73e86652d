//! Serial Peripheral Interface (SPI) bus

use vstd::prelude::*;
use embedded_hal::spi::Mode as ClockMode;
use embedded_hal::spi::Phase as ClockPhase;
use embedded_hal::spi::Polarity as ClockPolarity;
use crate::bits::{bit, is_set, lone, lone_word};
use crate::nonblocking::{failed, would_block};

verus! {

/// `embedded_hal::spi::Polarity`, read as the crate defines it: the clock
/// idles low or high.
#[verifier::external_type_specification]
pub struct ExClockPolarity(ClockPolarity);

/// `embedded_hal::spi::Phase`, read as the crate defines it: data is
/// captured on the first or on the second clock transition.
#[verifier::external_type_specification]
pub struct ExClockPhase(ClockPhase);

/// `embedded_hal::spi::Mode`, read as the crate defines it: a polarity and a
/// phase.
#[verifier::external_type_specification]
pub struct ExClockMode(ClockMode);

/// SPI error
#[derive(Clone, Copy, Debug, PartialEq, Eq, Structural)]
#[non_exhaustive]
pub enum Error {
    /// Overrun occurred
    Overrun,
    /// Mode fault occurred
    ModeFault,
    /// CRC error
    Crc,
}

/// Status bit: the receive buffer holds a byte.
pub const RXNE: u32 = 0;

/// Status bit: the transmit buffer is empty.
pub const TXE: u32 = 1;

/// Status bit: CRC error.
pub const CRCERR: u32 = 4;

/// Status bit: mode fault.
pub const MODF: u32 = 5;

/// Status bit: overrun.
pub const OVR: u32 = 6;

/// Status bit: the bus is busy.
pub const BSY: u32 = 7;

/// The code of the baud rate field for a peripheral clock that is `ratio`
/// times the bus frequency asked for: the clock is divided by two to the
/// power of the code plus one.
pub open spec fn divider_code(ratio: u32) -> u8 {
    if ratio <= 2 {
        0
    } else if ratio <= 5 {
        1
    } else if ratio <= 11 {
        2
    } else if ratio <= 23 {
        3
    } else if ratio <= 47 {
        4
    } else if ratio <= 95 {
        5
    } else if ratio <= 191 {
        6
    } else {
        7
    }
}

/// The first of the errors that the status word `sr` flags, if any:
/// overrun (unless `overrun` says that it does not matter), then mode
/// fault, then CRC error.
pub open spec fn fault(sr: u32, overrun: bool) -> Option<Error> {
    if overrun && bit(sr, OVR) {
        Some(Error::Overrun)
    } else if bit(sr, MODF) {
        Some(Error::ModeFault)
    } else if bit(sr, CRCERR) {
        Some(Error::Crc)
    } else {
        None
    }
}

/// Whether the data register can be used, going by the status word `sr`:
/// an error that is flagged comes first, then the bit `ready` decides.
pub open spec fn answer(sr: u32, overrun: bool, ready: u32) -> Result<(), nb::Error<Error>> {
    match fault(sr, overrun) {
        Some(error) => failed(error),
        None => if bit(sr, ready) {
            Ok(())
        } else {
            would_block()
        },
    }
}

/// The control word of a bus master with 8-bit frames, most significant bit
/// first, the slave-select pin managed by software, and the peripheral
/// enabled.
pub open spec fn control_word(mode: ClockMode, code: u8) -> u32 {
    lone(mode.phase == ClockPhase::CaptureOnSecondTransition, 0) | lone(
        mode.polarity == ClockPolarity::IdleHigh,
        1,
    ) | (1u32 << 2) | ((code as u32) << 3) | (1u32 << 6) | (1u32 << 8) | (1u32 << 9)
}

/// In the control word the clock phase and polarity stand in the two
/// lowest bits and the baud rate code in the three bits from the fourth;
/// master mode, the enable bit and software slave management are set, and
/// everything else is clear: 8-bit frames, most significant bit first, two
/// lines, no CRC.
pub proof fn lemma_control_word_fields(mode: ClockMode, code: u8)
    requires
        code <= 7,
    ensures
        ({
            let word = control_word(mode, code);
            &&& bit(word, 0) == (mode.phase == ClockPhase::CaptureOnSecondTransition)
            &&& bit(word, 1) == (mode.polarity == ClockPolarity::IdleHigh)
            &&& bit(word, 2)
            &&& (word >> 3) & 7 == code
            &&& bit(word, 6)
            &&& !bit(word, 7)
            &&& bit(word, 8)
            &&& bit(word, 9)
            &&& word >> 10 == 0
        }),
{
    let a = lone(mode.phase == ClockPhase::CaptureOnSecondTransition, 0);
    let b = lone(mode.polarity == ClockPolarity::IdleHigh, 1);
    let c = code as u32;
    let word = control_word(mode, code);
    assert(1u32 << 0 != 0 && 1u32 << 1 != 0) by (bit_vector);
    assert({
        &&& bit(word, 0) == (a != 0)
        &&& bit(word, 1) == (b != 0)
        &&& bit(word, 2)
        &&& (word >> 3) & 7 == c
        &&& bit(word, 6)
        &&& !bit(word, 7)
        &&& bit(word, 8)
        &&& bit(word, 9)
        &&& word >> 10 == 0
    }) by (bit_vector)
        requires
            word == a | b | (1u32 << 2) | (c << 3) | (1u32 << 6) | (1u32 << 8) | (1u32 << 9),
            a == 0 || a == 1u32 << 0,
            b == 0 || b == 1u32 << 1,
            c <= 7,
    ;
}

fn decide(sr: u32, overrun: bool, ready: u32) -> (r: Result<(), nb::Error<Error>>)
    requires
        ready < 32,
    ensures
        r == answer(sr, overrun, ready),
{
    if overrun && is_set(sr, OVR) {
        Err(nb::Error::Other(Error::Overrun))
    } else if is_set(sr, MODF) {
        Err(nb::Error::Other(Error::ModeFault))
    } else if is_set(sr, CRCERR) {
        Err(nb::Error::Other(Error::Crc))
    } else if is_set(sr, ready) {
        Ok(())
    } else {
        Err(nb::Error::WouldBlock)
    }
}

/// The baud rate field for a bus frequency of `freq` hertz, chosen by the
/// ratio of the peripheral clock `pclk2` to `freq`, both in hertz. The bus
/// cannot run faster than the peripheral clock, and not at zero hertz.
pub fn baud_rate(pclk2: u32, freq: u32) -> (code: u8)
    requires
        0 < freq <= pclk2,
    ensures
        code == divider_code(pclk2 / freq),
        code <= 7,
{
    let ratio = pclk2 / freq;
    if ratio <= 2 {
        0b000
    } else if ratio <= 5 {
        0b001
    } else if ratio <= 11 {
        0b010
    } else if ratio <= 23 {
        0b011
    } else if ratio <= 47 {
        0b100
    } else if ratio <= 95 {
        0b101
    } else if ratio <= 191 {
        0b110
    } else {
        0b111
    }
}

/// The word to write to the first control register to bring the bus up as
/// master in `mode` with the baud rate field `code`.
pub fn control(mode: ClockMode, code: u8) -> (word: u32)
    requires
        code <= 7,
    ensures
        word == control_word(mode, code),
{
    let cpha = match mode.phase {
        ClockPhase::CaptureOnSecondTransition => true,
        ClockPhase::CaptureOnFirstTransition => false,
    };
    let cpol = match mode.polarity {
        ClockPolarity::IdleHigh => true,
        ClockPolarity::IdleLow => false,
    };
    lone_word(cpha, 0) | lone_word(cpol, 1) | (1u32 << 2) | ((code as u32) << 3) | (1u32 << 6) | (
    1u32 << 8) | (1u32 << 9)
}

/// Whether a byte can be read, going by the status word `sr`.
pub fn read(sr: u32) -> (r: Result<(), nb::Error<Error>>)
    ensures
        r == answer(sr, true, RXNE),
{
    decide(sr, true, RXNE)
}

/// Whether a byte can be sent, going by the status word `sr`.
pub fn send(sr: u32) -> (r: Result<(), nb::Error<Error>>)
    ensures
        r == answer(sr, true, TXE),
{
    decide(sr, true, TXE)
}

/// Whether the next byte of a write can be sent, going by the status word
/// `sr`. What comes in is not looked at, so an overrun is no error here.
pub fn write(sr: u32) -> (r: Result<(), nb::Error<Error>>)
    ensures
        r == answer(sr, false, TXE),
{
    decide(sr, false, TXE)
}

/// Whether the last byte of a write has left, going by the status word `sr`.
pub fn idle(sr: u32) -> (r: bool)
    ensures
        r == !bit(sr, BSY),
{
    !is_set(sr, BSY)
}

} // verus!
