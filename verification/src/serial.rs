//! Serial communication (USART)

use vstd::prelude::*;
use crate::bits::{bit, is_set};
use crate::nonblocking::{failed, would_block};
use crate::time::{Bps, Hertz};

verus! {

/// Interrupt event
#[derive(Clone, Copy, Debug, PartialEq, Eq, Structural)]
pub enum Event {
    /// New data has been received
    Rxne,
    /// New data can be sent
    Txe,
}

/// Serial error
#[derive(Clone, Copy, Debug, PartialEq, Eq, Structural)]
#[non_exhaustive]
pub enum Error {
    /// Framing error
    Framing,
    /// Noise error
    Noise,
    /// RX buffer overrun
    Overrun,
    /// Parity check error
    Parity,
}

/// Status bit: parity error.
pub const PE: u32 = 0;

/// Status bit: framing error.
pub const FE: u32 = 1;

/// Status bit: noise error.
pub const NE: u32 = 2;

/// Status bit: overrun error.
pub const ORE: u32 = 3;

/// Status bit: a byte has been received.
pub const RXNE: u32 = 5;

/// Status bit: transmission complete.
pub const TC: u32 = 6;

/// Status bit: the transmit register is empty.
pub const TXE: u32 = 7;

/// Whether a byte can be read, going by the status word `sr`. The errors
/// come first, in the order parity, framing, noise, overrun.
pub open spec fn read_answer(sr: u32) -> Result<(), nb::Error<Error>> {
    if bit(sr, PE) {
        failed(Error::Parity)
    } else if bit(sr, FE) {
        failed(Error::Framing)
    } else if bit(sr, NE) {
        failed(Error::Noise)
    } else if bit(sr, ORE) {
        failed(Error::Overrun)
    } else if bit(sr, RXNE) {
        Ok(())
    } else {
        would_block()
    }
}

/// Whether the flag at bit `flag` of the status word `sr` is up.
pub open spec fn flag_answer(sr: u32, flag: u32) -> Result<(), nb::Error<()>> {
    if bit(sr, flag) {
        Ok(())
    } else {
        would_block()
    }
}

/// The value of the baud rate register: how many ticks of the peripheral
/// clock one bit takes.
pub open spec fn divisor(pclk: Hertz, baud_rate: Bps) -> int {
    (pclk.0 as int) / (baud_rate.0 as int)
}

/// The value to write to the baud rate register for `baud_rate` with a
/// peripheral clock of `pclk`. A bit must take at least 16 ticks of the
/// clock; a faster baud rate is impossible.
pub fn baud_rate_divisor(pclk: Hertz, baud_rate: Bps) -> (brr: u32)
    requires
        baud_rate.0 > 0,
        divisor(pclk, baud_rate) >= 16,
    ensures
        brr == divisor(pclk, baud_rate),
{
    pclk.0 / baud_rate.0
}

/// Whether a byte can be read from the data register, going by the status
/// word `sr`.
pub fn read(sr: u32) -> (r: Result<(), nb::Error<Error>>)
    ensures
        r == read_answer(sr),
{
    if is_set(sr, PE) {
        Err(nb::Error::Other(Error::Parity))
    } else if is_set(sr, FE) {
        Err(nb::Error::Other(Error::Framing))
    } else if is_set(sr, NE) {
        Err(nb::Error::Other(Error::Noise))
    } else if is_set(sr, ORE) {
        Err(nb::Error::Other(Error::Overrun))
    } else if is_set(sr, RXNE) {
        Ok(())
    } else {
        Err(nb::Error::WouldBlock)
    }
}

/// Whether a byte can be written to the data register, going by the status
/// word `sr`.
pub fn write(sr: u32) -> (r: Result<(), nb::Error<()>>)
    ensures
        r == flag_answer(sr, TXE),
{
    if is_set(sr, TXE) {
        Ok(())
    } else {
        Err(nb::Error::WouldBlock)
    }
}

/// Whether all that was written has been sent, going by the status word
/// `sr`.
pub fn flush(sr: u32) -> (r: Result<(), nb::Error<()>>)
    ensures
        r == flag_answer(sr, TC),
{
    if is_set(sr, TC) {
        Ok(())
    } else {
        Err(nb::Error::WouldBlock)
    }
}

} // verus!
