//! Units of time

use vstd::prelude::*;

verus! {

/// Bits per second
#[derive(Clone, Copy, Debug, PartialEq, Eq, Structural, PartialOrd)]
pub struct Bps(pub u32);

/// Hertz
#[derive(Clone, Copy, Debug, PartialEq, Eq, Structural, PartialOrd)]
pub struct Hertz(pub u32);

/// Kilohertz
#[derive(Clone, Copy, Debug, PartialEq, Eq, Structural, PartialOrd)]
pub struct KiloHertz(pub u32);

/// Megahertz
#[derive(Clone, Copy, Debug, PartialEq, Eq, Structural, PartialOrd)]
pub struct MegaHertz(pub u32);

/// Seconds
#[derive(Clone, Copy, Debug, PartialEq, Eq, Structural, PartialOrd)]
pub struct Seconds(pub u32);

/// Milliseconds
#[derive(Clone, Copy, Debug, PartialEq, Eq, Structural, PartialOrd)]
pub struct MilliSeconds(pub u32);

/// Microseconds
#[derive(Clone, Copy, Debug, PartialEq, Eq, Structural, PartialOrd)]
pub struct MicroSeconds(pub u32);

/// Extension trait that adds convenience methods to the `u32` type
pub trait TimeExt {
    /// Wrap in `Bps`
    fn bps(self) -> Bps;

    /// Wrap in `Hertz`
    fn hz(self) -> Hertz;

    /// Wrap in `KiloHertz`
    fn khz(self) -> KiloHertz;

    /// Wrap in `MegaHertz`
    fn mhz(self) -> MegaHertz;

    /// Wrap in `MilliSeconds`
    fn ms(self) -> MilliSeconds;

    /// Wrap in `Seconds`
    fn s(self) -> Seconds;

    /// Wrap in `MicroSeconds`
    fn us(self) -> MicroSeconds;
}

impl TimeExt for u32 {
    fn bps(self) -> (r: Bps)
        ensures
            r.0 == self,
    {
        Bps(self)
    }

    fn hz(self) -> (r: Hertz)
        ensures
            r.0 == self,
    {
        Hertz(self)
    }

    fn khz(self) -> (r: KiloHertz)
        ensures
            r.0 == self,
    {
        KiloHertz(self)
    }

    fn mhz(self) -> (r: MegaHertz)
        ensures
            r.0 == self,
    {
        MegaHertz(self)
    }

    fn ms(self) -> (r: MilliSeconds)
        ensures
            r.0 == self,
    {
        MilliSeconds(self)
    }

    fn s(self) -> (r: Seconds)
        ensures
            r.0 == self,
    {
        Seconds(self)
    }

    fn us(self) -> (r: MicroSeconds)
        ensures
            r.0 == self,
    {
        MicroSeconds(self)
    }
}

impl KiloHertz {
    /// The same frequency in hertz. It must fit in 32 bits.
    pub fn into_hertz(self) -> (r: Hertz)
        requires
            self.0 * 1_000 <= u32::MAX,
        ensures
            r.0 == self.0 * 1_000,
    {
        Hertz(self.0 * 1_000)
    }
}

impl MegaHertz {
    /// The same frequency in hertz. It must fit in 32 bits.
    pub fn into_hertz(self) -> (r: Hertz)
        requires
            self.0 * 1_000_000 <= u32::MAX,
        ensures
            r.0 == self.0 * 1_000_000,
    {
        Hertz(self.0 * 1_000_000)
    }

    /// The same frequency in kilohertz. It must fit in 32 bits.
    pub fn into_kilohertz(self) -> (r: KiloHertz)
        requires
            self.0 * 1_000 <= u32::MAX,
        ensures
            r.0 == self.0 * 1_000,
    {
        KiloHertz(self.0 * 1_000)
    }
}

impl MilliSeconds {
    /// The same time in microseconds. It must fit in 32 bits.
    pub fn into_microseconds(self) -> (r: MicroSeconds)
        requires
            self.0 * 1_000 <= u32::MAX,
        ensures
            r.0 == self.0 * 1_000,
    {
        MicroSeconds(self.0 * 1_000)
    }
}

impl Seconds {
    /// The same time in microseconds. It must fit in 32 bits.
    pub fn into_microseconds(self) -> (r: MicroSeconds)
        requires
            self.0 * 1_000_000 <= u32::MAX,
        ensures
            r.0 == self.0 * 1_000_000,
    {
        MicroSeconds(self.0 * 1_000_000)
    }

    /// The same time in milliseconds. It must fit in 32 bits.
    pub fn into_milliseconds(self) -> (r: MilliSeconds)
        requires
            self.0 * 1_000 <= u32::MAX,
        ensures
            r.0 == self.0 * 1_000,
    {
        MilliSeconds(self.0 * 1_000)
    }
}

} // verus!
