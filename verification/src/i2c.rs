//! Inter-Integrated Circuit (I2C) bus

use vstd::prelude::*;
use crate::bits::{bit, is_set};

verus! {

/// I2C error
#[derive(Clone, Copy, Debug, PartialEq, Eq, Structural)]
#[non_exhaustive]
pub enum Error {
    /// Timed out busy waiting
    Timeout,
    /// Bus error
    Bus,
    /// Arbitration loss
    Arbitration,
    /// No ack received
    Acknowledge,
    /// Overrun/underrun
    Overrun,
}

/// How the clock's high time stands to its low time in fast mode.
#[derive(Clone, Copy, Debug, PartialEq, Eq, Structural)]
pub enum DutyCycle {
    /// Low as long as high
    Ratio1to1,
    /// Low sixteen parts to nine high
    Ratio16to9,
}

/// The speed class of the bus.
#[derive(Clone, Copy, Debug, PartialEq, Eq, Structural)]
pub enum Mode {
    /// Up to 100 kHz
    Standard {
        /// Bus frequency in hertz
        frequency: u32,
    },
    /// Up to 400 kHz
    Fast {
        /// Bus frequency in hertz
        frequency: u32,
        /// Shape of the clock
        duty_cycle: DutyCycle,
    },
}

impl Mode {
    /// The bus frequency in hertz.
    pub open spec fn frequency(self) -> u32 {
        match self {
            Mode::Standard { frequency } => frequency,
            Mode::Fast { frequency, .. } => frequency,
        }
    }

    /// The bus frequency in hertz.
    pub fn get_frequency(&self) -> (frequency: u32)
        ensures
            frequency == self.frequency(),
    {
        match *self {
            Mode::Standard { frequency } => frequency,
            Mode::Fast { frequency, .. } => frequency,
        }
    }
}

/// The greatest bus frequency, in hertz.
pub const MAX_FREQUENCY: u32 = 400_000;

/// Status bit: start condition sent.
pub const SB: u32 = 0;

/// Status bit: address sent.
pub const ADDR: u32 = 1;

/// Status bit: byte transfer finished.
pub const BTF: u32 = 2;

/// Status bit: a byte has been received.
pub const RXNE: u32 = 6;

/// Status bit: the data register is empty.
pub const TXE: u32 = 7;

/// Status bit: bus error.
pub const BERR: u32 = 8;

/// Status bit: arbitration lost.
pub const ARLO: u32 = 9;

/// Status bit: no acknowledge received.
pub const AF: u32 = 10;

/// Status bit: overrun or underrun.
pub const OVR: u32 = 11;

/// What is written to the peripheral to set the bus speed.
#[derive(Clone, Copy, Debug, PartialEq, Eq, Structural)]
pub struct Timing {
    /// The peripheral clock in megahertz, for the frequency field
    pub freq: u8,
    /// The longest rise time, in ticks of the peripheral clock, plus one
    pub trise: u8,
    /// Half a bus period, or its share in fast mode, in ticks of the
    /// peripheral clock
    pub ccr: u16,
    /// The bus runs in fast mode
    pub fast: bool,
    /// In fast mode, the clock is low sixteen parts to nine high
    pub duty: bool,
}

/// The greater of `a` and `b`.
pub open spec fn at_least(a: int, b: int) -> int {
    if a >= b {
        a
    } else {
        b
    }
}

/// The settings for a bus in `mode` on a peripheral clock of `pclk1` hertz.
///
/// In standard mode the clock is high for half a period and may take a
/// microsecond to rise; in fast mode it is high for a third of the period,
/// or for nine parts in twenty-five, and may take 300 nanoseconds to rise.
/// The registers keep the low bits of what does not fit them.
pub open spec fn timing_for(mode: Mode, pclk1: u32) -> Timing {
    let mhz = (pclk1 / 1_000_000) as u16;
    match mode {
        Mode::Standard { frequency } => Timing {
            freq: mhz as u8,
            trise: (mhz + 1) as u8,
            ccr: at_least(((pclk1 as int / (frequency * 2)) as u16) as int, 4) as u16,
            fast: false,
            duty: false,
        },
        Mode::Fast { frequency, duty_cycle } => Timing {
            freq: mhz as u8,
            trise: (mhz * 300 / 1000 + 1) as u8,
            ccr: at_least(
                ((pclk1 as int / (frequency * (if duty_cycle == DutyCycle::Ratio16to9 {
                    25int
                } else {
                    3int
                }))) as u16) as int,
                1,
            ) as u16,
            fast: true,
            duty: duty_cycle == DutyCycle::Ratio16to9,
        },
    }
}

/// How many turns of a busy wait the bus is given: about 25 milliseconds at
/// a system clock of `sysclk` hertz, and ten turns at the least.
pub fn bus_timeout(sysclk: u32) -> (cycles: u32)
    ensures
        cycles == at_least(sysclk as int / 400, 10),
{
    let cycles = sysclk / 400;
    if cycles >= 10 {
        cycles
    } else {
        10
    }
}

/// The settings to write for a bus in `mode` on a peripheral clock of
/// `pclk1` hertz. The bus frequency must not be zero nor above the
/// greatest, and in fast mode the clock must be slow enough for the rise
/// time to be computed in 16 bits.
pub fn timing(mode: Mode, pclk1: u32) -> (r: Timing)
    requires
        0 < mode.frequency() <= MAX_FREQUENCY,
        mode matches Mode::Fast { .. } ==> pclk1 / 1_000_000 * 300 <= u16::MAX,
    ensures
        r == timing_for(mode, pclk1),
{
    let pclk1_mhz = (pclk1 / 1000000) as u16;
    let freq = #[verifier::truncate] (pclk1_mhz as u8);
    match mode {
        Mode::Standard { frequency } => {
            let ccr = #[verifier::truncate] ((pclk1 / (frequency * 2)) as u16);
            Timing {
                freq,
                trise: #[verifier::truncate] ((pclk1_mhz + 1) as u8),
                ccr: if ccr >= 4 {
                    ccr
                } else {
                    4
                },
                fast: false,
                duty: false,
            }
        },
        Mode::Fast { frequency, duty_cycle } => {
            let (parts, duty): (u32, bool) = match duty_cycle {
                DutyCycle::Ratio1to1 => (3, false),
                DutyCycle::Ratio16to9 => (25, true),
            };
            let ccr = #[verifier::truncate] ((pclk1 / (frequency * parts)) as u16);
            Timing {
                freq,
                trise: #[verifier::truncate] ((pclk1_mhz * 300 / 1000 + 1) as u8),
                ccr: if ccr >= 1 {
                    ccr
                } else {
                    1
                },
                fast: true,
                duty,
            }
        },
    }
}

/// One turn of a busy wait.
#[derive(Clone, Copy, Debug, PartialEq, Eq)]
pub enum BusyWait {
    /// The wait is over, for better or worse.
    Done(Result<(), Error>),
    /// The flag is not up yet: wait on, with so many turns left.
    Again(u32),
}

/// What one turn of a busy wait for the flag at bit `flag` comes to, with
/// `cycles_left` turns left and the status word `sr`.
///
/// With no turn left the wait has timed out, whatever the status. Else an
/// error that is flagged ends it, bus error first, then arbitration loss,
/// missing acknowledge and overrun; then the flag ends it well.
pub open spec fn busy_wait_answer(cycles_left: u32, sr: u32, flag: u32) -> BusyWait {
    if cycles_left == 0 {
        BusyWait::Done(Err(Error::Timeout))
    } else if bit(sr, BERR) {
        BusyWait::Done(Err(Error::Bus))
    } else if bit(sr, ARLO) {
        BusyWait::Done(Err(Error::Arbitration))
    } else if bit(sr, AF) {
        BusyWait::Done(Err(Error::Acknowledge))
    } else if bit(sr, OVR) {
        BusyWait::Done(Err(Error::Overrun))
    } else if bit(sr, flag) {
        BusyWait::Done(Ok(()))
    } else {
        BusyWait::Again((cycles_left - 1) as u32)
    }
}

/// One turn of a busy wait for the flag at bit `flag` of the first status
/// register, which reads `sr`.
pub fn busy_wait(cycles_left: u32, sr: u32, flag: u32) -> (r: BusyWait)
    requires
        flag < 32,
    ensures
        r == busy_wait_answer(cycles_left, sr, flag),
{
    if cycles_left == 0 {
        BusyWait::Done(Err(Error::Timeout))
    } else if is_set(sr, BERR) {
        BusyWait::Done(Err(Error::Bus))
    } else if is_set(sr, ARLO) {
        BusyWait::Done(Err(Error::Arbitration))
    } else if is_set(sr, AF) {
        BusyWait::Done(Err(Error::Acknowledge))
    } else if is_set(sr, OVR) {
        BusyWait::Done(Err(Error::Overrun))
    } else if is_set(sr, flag) {
        BusyWait::Done(Ok(()))
    } else {
        BusyWait::Again(cycles_left - 1)
    }
}

/// A busy wait that starts with `cycles` turns ends after `cycles` turns
/// at the latest, however the status reads: each turn that does not end it
/// leaves one turn fewer.
pub proof fn lemma_busy_wait_ends(cycles_left: u32, sr: u32, flag: u32)
    ensures
        match busy_wait_answer(cycles_left, sr, flag) {
            BusyWait::Again(left) => left < cycles_left,
            BusyWait::Done(_) => true,
        },
        cycles_left == 0 ==> busy_wait_answer(cycles_left, sr, flag) == BusyWait::Done(
            Err(Error::Timeout),
        ),
{
}

/// How a read of so many bytes is carried out. The peripheral must be told
/// before the last byte arrives that no more are wanted, so short reads
/// differ from long ones.
#[derive(Clone, Copy, Debug, PartialEq, Eq, Structural)]
pub enum Receive {
    /// A single byte: the stop is sent before the byte is fetched.
    One,
    /// Two bytes, fetched together once both have arrived.
    Two,
    /// Three bytes or more: so many are fetched one by one as they arrive,
    /// and the last three around the stop.
    Many {
        /// How many bytes come before the last three
        single: usize,
    },
}

/// How to read `len` bytes, of which there must be at least one.
pub fn receive(len: usize) -> (plan: Receive)
    requires
        len > 0,
    ensures
        plan == (if len == 1 {
            Receive::One
        } else if len == 2 {
            Receive::Two
        } else {
            (Receive::Many { single: (len - 3) as usize })
        }),
{
    match len {
        1 => Receive::One,
        2 => Receive::Two,
        buffer_len => Receive::Many { single: buffer_len - 3 },
    }
}

/// The byte that opens a transfer: the 7-bit address of the device, and
/// after it a bit that is set for a read.
pub fn address_byte(addr: u8, read: bool) -> (byte: u8)
    ensures
        byte == (addr as int * 2) % 256 + (if read {
            1int
        } else {
            0int
        }),
{
    let shifted = addr << 1;
    assert(addr << 1u8 == (addr as int * 2) % 256 && (addr << 1u8) | 1u8 == (addr << 1u8) + 1 && (
    addr << 1u8) | 0u8 == addr << 1u8) by (bit_vector);
    shifted | (if read {
        1
    } else {
        0
    })
}

} // verus!
