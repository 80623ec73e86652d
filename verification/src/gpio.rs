//! General Purpose Input / Output

use vstd::prelude::*;
use core::marker::PhantomData;
use crate::bits::bit;

verus! {

/// Input mode (type state)
pub struct Input<MODE> {
    _mode: PhantomData<MODE>,
}

/// Floating input (type state)
pub struct Floating;

/// Pulled down input (type state)
pub struct PullDown;

/// Pulled up input (type state)
pub struct PullUp;

/// Output mode (type state)
pub struct Output<MODE> {
    _mode: PhantomData<MODE>,
}

/// Push pull output (type state)
pub struct PushPull;

/// Open drain output (type state)
pub struct OpenDrain;

/// Alternate function
pub struct Alternate<MODE> {
    _mode: PhantomData<MODE>,
}

/// What a pin can be configured as.
#[derive(Clone, Copy, Debug, PartialEq, Eq, Structural)]
pub enum Configuration {
    /// Alternate function open drain output, at the highest speed
    AlternateOpenDrain,
    /// Alternate function push pull output, at the highest speed
    AlternatePushPull,
    /// Floating input
    FloatingInput,
    /// Open drain output, at the highest speed
    OpenDrainOutput,
    /// Push pull output, at the highest speed
    PushPullOutput,
}

impl Configuration {
    /// The four bits that select the configuration: two for the kind above
    /// two for the mode.
    pub open spec fn field(self) -> u32 {
        match self {
            Configuration::AlternateOpenDrain => 0b1111,
            Configuration::AlternatePushPull => 0b1011,
            Configuration::FloatingInput => 0b0100,
            Configuration::OpenDrainOutput => 0b0111,
            Configuration::PushPullOutput => 0b0011,
        }
    }

    /// The four bits that select the configuration.
    pub fn bits(self) -> (field: u32)
        ensures
            field == self.field(),
            field <= 0b1111,
    {
        let (cnf, mode): (u32, u32) = match self {
            Configuration::AlternateOpenDrain => (0b11, 0b11),
            Configuration::AlternatePushPull => (0b10, 0b11),
            Configuration::FloatingInput => (0b01, 0b00),
            Configuration::OpenDrainOutput => (0b01, 0b11),
            Configuration::PushPullOutput => (0b00, 0b11),
        };
        assert((0b11u32 << 2) | 0b11 == 0b1111 && (0b10u32 << 2) | 0b11 == 0b1011 && (0b01u32 << 2) | 0b00 == 0b0100 && (0b01u32 << 2)
            | 0b11 == 0b0111 && (0b00u32 << 2) | 0b11 == 0b0011) by (bit_vector);
        (cnf << 2) | mode
    }
}

/// Where the four configuration bits of pin `pin` begin in its
/// configuration register: the low register holds pins 0 to 7 and the high
/// register pins 8 to 15, four bits each.
pub open spec fn offset(pin: u8) -> u32 {
    ((4 * pin) % 32) as u32
}

/// The four configuration bits of pin `pin` in the register word `word`.
pub open spec fn field_of(word: u32, pin: u8) -> u32 {
    (word >> offset(pin)) & 0b1111
}

/// The register word `word` with the configuration bits of pin `pin`
/// replaced.
pub open spec fn configured(word: u32, pin: u8, configuration: Configuration) -> u32 {
    (word & !(0b1111u32 << offset(pin))) | (configuration.field() << offset(pin))
}

/// The word to write to a pin's configuration register, which reads `word`,
/// to give the pin `configuration`.
pub fn configure(word: u32, pin: u8, configuration: Configuration) -> (r: u32)
    requires
        pin <= 15,
    ensures
        r == configured(word, pin, configuration),
{
    let offset: u32 = (4 * pin as u32) % 32;
    (word & !(0b1111u32 << offset)) | (configuration.bits() << offset)
}

/// To configure a pin writes its own four bits and leaves those of the
/// other pins in the register as they were.
pub proof fn lemma_configure_is_local(word: u32, pin: u8, configuration: Configuration, other: u8)
    requires
        pin <= 15,
        other <= 15,
        pin / 8 == other / 8,
    ensures
        field_of(configured(word, pin, configuration), other) == (if other == pin {
            configuration.field()
        } else {
            field_of(word, other)
        }),
{
    let p = offset(pin);
    let q = offset(other);
    let f = configuration.field();
    assert(p % 4 == 0 && q % 4 == 0 && p <= 28 && q <= 28);
    assert(p == q <==> pin == other);
    assert(((word & !(0b1111u32 << p)) | (f << p)) >> q & 0b1111 == (if p == q {
        f
    } else {
        (word >> q) & 0b1111
    })) by (bit_vector)
        requires
            f <= 0b1111,
            p % 4 == 0,
            q % 4 == 0,
            p <= 28,
            q <= 28,
    ;
}

/// The word that, written to the bit set/reset register, drives pin `pin`
/// high.
pub fn set_high(pin: u8) -> (word: u32)
    requires
        pin <= 15,
    ensures
        word == 1u32 << (pin as u32),
{
    1u32 << (pin as u32)
}

/// The word that, written to the bit set/reset register, drives pin `pin`
/// low.
pub fn set_low(pin: u8) -> (word: u32)
    requires
        pin <= 15,
    ensures
        word == 1u32 << ((16 + pin) as u32),
{
    1u32 << (16 + pin as u32)
}

/// Whether pin `pin` is low in the data register word `word`.
pub fn is_low(word: u32, pin: u8) -> (low: bool)
    requires
        pin <= 15,
    ensures
        low == !bit(word, pin as u32),
{
    let index = pin as u32;
    assert((word & (1u32 << index) == 0) == !((word >> index) & 1 == 1)) by (bit_vector)
        requires
            index < 32,
    ;
    word & (1u32 << index) == 0
}

} // verus!
