//! The control word of a DMA channel, field by field.

use vstd::prelude::*;
use crate::bits::{assign, bit, is_set, lone, lone_word, pair, read_pair, with_bit};

verus! {

/// Which way the items travel.
#[derive(Clone, Copy, Debug, PartialEq, Eq, Structural)]
pub enum Direction {
    /// From the peripheral to memory
    FromPeripheral,
    /// From memory to the peripheral
    FromMemory,
}

/// The size of one item.
#[derive(Clone, Copy, Debug, PartialEq, Eq, Structural)]
pub enum Width {
    /// One byte
    Bits8,
    /// Two bytes
    Bits16,
    /// Four bytes
    Bits32,
}

/// How the channel ranks against the other channels.
#[derive(Clone, Copy, Debug, PartialEq, Eq, Structural)]
pub enum Priority {
    /// Low
    Low,
    /// Medium
    Medium,
    /// High
    High,
    /// Very high
    VeryHigh,
}

impl Direction {
    /// The value of the direction bit.
    pub open spec fn code(self) -> u32 {
        match self {
            Direction::FromPeripheral => 0,
            Direction::FromMemory => 1,
        }
    }
}

impl Width {
    /// The value of a size field.
    pub open spec fn code(self) -> u32 {
        match self {
            Width::Bits8 => 0,
            Width::Bits16 => 1,
            Width::Bits32 => 2,
        }
    }

    /// The width that a size field of value `code` stands for; the value 3
    /// is reserved and stands for none.
    pub open spec fn of(code: u32) -> Option<Width> {
        if code == 0 {
            Some(Width::Bits8)
        } else if code == 1 {
            Some(Width::Bits16)
        } else if code == 2 {
            Some(Width::Bits32)
        } else {
            None
        }
    }
}

impl Priority {
    /// The value of the priority field.
    pub open spec fn code(self) -> u32 {
        match self {
            Priority::Low => 0,
            Priority::Medium => 1,
            Priority::High => 2,
            Priority::VeryHigh => 3,
        }
    }

    /// The priority that the field's value `code` stands for.
    pub open spec fn of(code: u32) -> Priority {
        if code == 0 {
            Priority::Low
        } else if code == 1 {
            Priority::Medium
        } else if code == 2 {
            Priority::High
        } else {
            Priority::VeryHigh
        }
    }
}

/// The bit of the control word that enables the channel.
pub const ENABLE: u32 = 0;

/// The bit that enables the transfer-complete interrupt.
pub const TRANSFER_COMPLETE_INTERRUPT: u32 = 1;

/// The bit that enables the half-transfer interrupt.
pub const HALF_TRANSFER_INTERRUPT: u32 = 2;

/// The bit that enables the transfer-error interrupt.
pub const TRANSFER_ERROR_INTERRUPT: u32 = 3;

/// The bit that gives the direction.
pub const DIRECTION: u32 = 4;

/// The bit that selects circular mode.
pub const CIRCULAR: u32 = 5;

/// The bit that makes the peripheral address advance after each item.
pub const PERIPHERAL_INCREMENT: u32 = 6;

/// The bit that makes the memory address advance after each item.
pub const MEMORY_INCREMENT: u32 = 7;

/// The lower bit of the peripheral's item size.
pub const PERIPHERAL_WIDTH: u32 = 8;

/// The lower bit of the item size in memory.
pub const MEMORY_WIDTH: u32 = 10;

/// The lower bit of the priority.
pub const PRIORITY: u32 = 12;

/// The bit that selects a transfer from memory to memory.
pub const MEMORY_TO_MEMORY: u32 = 14;

/// What a channel's control register says.
#[derive(Clone, Copy, Debug, PartialEq, Eq, Structural)]
pub struct Control {
    /// The channel is enabled.
    pub enable: bool,
    /// An interrupt is raised when the transfer is complete.
    pub transfer_complete_interrupt: bool,
    /// An interrupt is raised when half the items have been moved.
    pub half_transfer_interrupt: bool,
    /// An interrupt is raised on a transfer error.
    pub transfer_error_interrupt: bool,
    /// Which way the items travel.
    pub direction: Direction,
    /// After the last item the channel starts over with the first.
    pub circular: bool,
    /// The peripheral address advances after each item.
    pub peripheral_increment: bool,
    /// The memory address advances after each item.
    pub memory_increment: bool,
    /// The size of an item at the peripheral.
    pub peripheral_width: Width,
    /// The size of an item in memory.
    pub memory_width: Width,
    /// The channel's priority.
    pub priority: Priority,
    /// Both ends of the transfer are memory.
    pub memory_to_memory: bool,
}

impl Control {
    /// The control word: each field at its place, every other bit zero.
    pub open spec fn word(self) -> u32 {
        lone(self.enable, ENABLE) | lone(
            self.transfer_complete_interrupt,
            TRANSFER_COMPLETE_INTERRUPT,
        ) | lone(self.half_transfer_interrupt, HALF_TRANSFER_INTERRUPT) | lone(
            self.transfer_error_interrupt,
            TRANSFER_ERROR_INTERRUPT,
        ) | (self.direction.code() << DIRECTION) | lone(self.circular, CIRCULAR) | lone(
            self.peripheral_increment,
            PERIPHERAL_INCREMENT,
        ) | lone(self.memory_increment, MEMORY_INCREMENT) | (self.peripheral_width.code()
            << PERIPHERAL_WIDTH) | (self.memory_width.code() << MEMORY_WIDTH) | (
        self.priority.code() << PRIORITY) | lone(self.memory_to_memory, MEMORY_TO_MEMORY)
    }

    /// Whether `word` is the control word of some setting: neither size
    /// field holds the reserved value, and the bits above the fields are
    /// zero.
    pub open spec fn describes(word: u32) -> bool {
        &&& Width::of(pair(word, PERIPHERAL_WIDTH)).is_some()
        &&& Width::of(pair(word, MEMORY_WIDTH)).is_some()
        &&& word >> 15 == 0
    }

    /// The setting that the control word `word` stands for.
    pub open spec fn of(word: u32) -> Option<Control> {
        if Control::describes(word) {
            Some(
                Control {
                    enable: bit(word, ENABLE),
                    transfer_complete_interrupt: bit(word, TRANSFER_COMPLETE_INTERRUPT),
                    half_transfer_interrupt: bit(word, HALF_TRANSFER_INTERRUPT),
                    transfer_error_interrupt: bit(word, TRANSFER_ERROR_INTERRUPT),
                    direction: if bit(word, DIRECTION) {
                        Direction::FromMemory
                    } else {
                        Direction::FromPeripheral
                    },
                    circular: bit(word, CIRCULAR),
                    peripheral_increment: bit(word, PERIPHERAL_INCREMENT),
                    memory_increment: bit(word, MEMORY_INCREMENT),
                    peripheral_width: Width::of(pair(word, PERIPHERAL_WIDTH)).unwrap(),
                    memory_width: Width::of(pair(word, MEMORY_WIDTH)).unwrap(),
                    priority: Priority::of(pair(word, PRIORITY)),
                    memory_to_memory: bit(word, MEMORY_TO_MEMORY),
                },
            )
        } else {
            None
        }
    }

    /// Every setting is read back from its own control word.
    pub proof fn lemma_word_reads_back(self)
        ensures
            Control::of(self.word()) == Some(self),
    {
        let e0 = lone(self.enable, ENABLE);
        let e1 = lone(self.transfer_complete_interrupt, TRANSFER_COMPLETE_INTERRUPT);
        let e2 = lone(self.half_transfer_interrupt, HALF_TRANSFER_INTERRUPT);
        let e3 = lone(self.transfer_error_interrupt, TRANSFER_ERROR_INTERRUPT);
        let d = self.direction.code();
        let e5 = lone(self.circular, CIRCULAR);
        let e6 = lone(self.peripheral_increment, PERIPHERAL_INCREMENT);
        let e7 = lone(self.memory_increment, MEMORY_INCREMENT);
        let p = self.peripheral_width.code();
        let m = self.memory_width.code();
        let l = self.priority.code();
        let e14 = lone(self.memory_to_memory, MEMORY_TO_MEMORY);
        let w = self.word();
        assert(w == e0 | e1 | e2 | e3 | (d << 4u32) | e5 | e6 | e7 | (p << 8u32) | (m << 10u32) | (l
            << 12u32) | e14);
        assert({
            &&& bit(w, 0) == (e0 != 0)
            &&& bit(w, 1) == (e1 != 0)
            &&& bit(w, 2) == (e2 != 0)
            &&& bit(w, 3) == (e3 != 0)
            &&& bit(w, 4) == (d != 0)
            &&& bit(w, 5) == (e5 != 0)
            &&& bit(w, 6) == (e6 != 0)
            &&& bit(w, 7) == (e7 != 0)
            &&& pair(w, 8) == p
            &&& pair(w, 10) == m
            &&& pair(w, 12) == l
            &&& bit(w, 14) == (e14 != 0)
            &&& w >> 15 == 0
        }) by (bit_vector)
            requires
                w == e0 | e1 | e2 | e3 | (d << 4u32) | e5 | e6 | e7 | (p << 8u32) | (m << 10u32) | (
                l << 12u32) | e14,
                e0 == 0 || e0 == 1u32 << 0u32,
                e1 == 0 || e1 == 1u32 << 1u32,
                e2 == 0 || e2 == 1u32 << 2u32,
                e3 == 0 || e3 == 1u32 << 3u32,
                d <= 1,
                e5 == 0 || e5 == 1u32 << 5u32,
                e6 == 0 || e6 == 1u32 << 6u32,
                e7 == 0 || e7 == 1u32 << 7u32,
                p <= 3,
                m <= 3,
                l <= 3,
                e14 == 0 || e14 == 1u32 << 14u32,
        ;
        assert(1u32 << 0u32 != 0 && 1u32 << 1u32 != 0 && 1u32 << 2u32 != 0 && 1u32 << 3u32 != 0
            && 1u32 << 5u32 != 0 && 1u32 << 6u32 != 0 && 1u32 << 7u32 != 0 && 1u32 << 14u32 != 0)
            by (bit_vector);
    }

    /// A control word that stands for a setting is that setting's word:
    /// nothing is lost by reading it.
    pub proof fn lemma_reading_keeps_word(word: u32)
        requires
            Control::describes(word),
        ensures
            Control::of(word).unwrap().word() == word,
    {
        let c = Control::of(word).unwrap();
        let e0 = lone(c.enable, ENABLE);
        let e1 = lone(c.transfer_complete_interrupt, TRANSFER_COMPLETE_INTERRUPT);
        let e2 = lone(c.half_transfer_interrupt, HALF_TRANSFER_INTERRUPT);
        let e3 = lone(c.transfer_error_interrupt, TRANSFER_ERROR_INTERRUPT);
        let d = c.direction.code();
        let e5 = lone(c.circular, CIRCULAR);
        let e6 = lone(c.peripheral_increment, PERIPHERAL_INCREMENT);
        let e7 = lone(c.memory_increment, MEMORY_INCREMENT);
        let p = c.peripheral_width.code();
        let m = c.memory_width.code();
        let l = c.priority.code();
        let e14 = lone(c.memory_to_memory, MEMORY_TO_MEMORY);
        assert(pair(word, 8) <= 3 && pair(word, 10) <= 3 && pair(word, 12) <= 3) by (bit_vector);
        assert(p == pair(word, 8));
        assert(m == pair(word, 10));
        assert(l == pair(word, 12));
        assert(e0 | e1 | e2 | e3 | (d << 4u32) | e5 | e6 | e7 | (p << 8u32) | (m << 10u32) | (l
            << 12u32) | e14 == word) by (bit_vector)
            requires
                e0 == (if bit(word, 0) { 1u32 << 0u32 } else { 0 }),
                e1 == (if bit(word, 1) { 1u32 << 1u32 } else { 0 }),
                e2 == (if bit(word, 2) { 1u32 << 2u32 } else { 0 }),
                e3 == (if bit(word, 3) { 1u32 << 3u32 } else { 0 }),
                d == (if bit(word, 4) { 1u32 } else { 0 }),
                e5 == (if bit(word, 5) { 1u32 << 5u32 } else { 0 }),
                e6 == (if bit(word, 6) { 1u32 << 6u32 } else { 0 }),
                e7 == (if bit(word, 7) { 1u32 << 7u32 } else { 0 }),
                p == pair(word, 8),
                m == pair(word, 10),
                l == pair(word, 12),
                e14 == (if bit(word, 14) { 1u32 << 14u32 } else { 0 }),
                word >> 15 == 0,
        ;
    }
}

impl Direction {
    fn to_code(&self) -> (code: u32)
        ensures
            code == self.code(),
    {
        match self {
            Direction::FromPeripheral => 0,
            Direction::FromMemory => 1,
        }
    }
}

impl Width {
    fn to_code(&self) -> (code: u32)
        ensures
            code == self.code(),
    {
        match self {
            Width::Bits8 => 0,
            Width::Bits16 => 1,
            Width::Bits32 => 2,
        }
    }

    fn from_code(code: u32) -> (width: Option<Width>)
        ensures
            width == Width::of(code),
    {
        if code == 0 {
            Some(Width::Bits8)
        } else if code == 1 {
            Some(Width::Bits16)
        } else if code == 2 {
            Some(Width::Bits32)
        } else {
            None
        }
    }
}

impl Priority {
    fn to_code(&self) -> (code: u32)
        ensures
            code == self.code(),
    {
        match self {
            Priority::Low => 0,
            Priority::Medium => 1,
            Priority::High => 2,
            Priority::VeryHigh => 3,
        }
    }

    fn from_code(code: u32) -> (priority: Priority)
        ensures
            priority == Priority::of(code),
    {
        if code == 0 {
            Priority::Low
        } else if code == 1 {
            Priority::Medium
        } else if code == 2 {
            Priority::High
        } else {
            Priority::VeryHigh
        }
    }
}

impl Control {
    /// The word to write to the control register for this setting.
    pub fn encode(&self) -> (word: u32)
        ensures
            word == self.word(),
    {
        lone_word(self.enable, ENABLE) | lone_word(
            self.transfer_complete_interrupt,
            TRANSFER_COMPLETE_INTERRUPT,
        ) | lone_word(self.half_transfer_interrupt, HALF_TRANSFER_INTERRUPT) | lone_word(
            self.transfer_error_interrupt,
            TRANSFER_ERROR_INTERRUPT,
        ) | (self.direction.to_code() << DIRECTION) | lone_word(self.circular, CIRCULAR)
            | lone_word(self.peripheral_increment, PERIPHERAL_INCREMENT) | lone_word(
            self.memory_increment,
            MEMORY_INCREMENT,
        ) | (self.peripheral_width.to_code() << PERIPHERAL_WIDTH) | (self.memory_width.to_code()
            << MEMORY_WIDTH) | (self.priority.to_code() << PRIORITY) | lone_word(
            self.memory_to_memory,
            MEMORY_TO_MEMORY,
        )
    }

    /// Reads the setting out of a control word; `None` where the word
    /// stands for no setting.
    pub fn decode(word: u32) -> (control: Option<Control>)
        ensures
            control == Control::of(word),
    {
        let peripheral_width = Width::from_code(read_pair(word, PERIPHERAL_WIDTH));
        let memory_width = Width::from_code(read_pair(word, MEMORY_WIDTH));
        match (peripheral_width, memory_width) {
            (Some(peripheral_width), Some(memory_width)) => {
                if word >> 15 == 0 {
                    Some(
                        Control {
                            enable: is_set(word, ENABLE),
                            transfer_complete_interrupt: is_set(word, TRANSFER_COMPLETE_INTERRUPT),
                            half_transfer_interrupt: is_set(word, HALF_TRANSFER_INTERRUPT),
                            transfer_error_interrupt: is_set(word, TRANSFER_ERROR_INTERRUPT),
                            direction: if is_set(word, DIRECTION) {
                                Direction::FromMemory
                            } else {
                                Direction::FromPeripheral
                            },
                            circular: is_set(word, CIRCULAR),
                            peripheral_increment: is_set(word, PERIPHERAL_INCREMENT),
                            memory_increment: is_set(word, MEMORY_INCREMENT),
                            peripheral_width,
                            memory_width,
                            priority: Priority::from_code(read_pair(word, PRIORITY)),
                            memory_to_memory: is_set(word, MEMORY_TO_MEMORY),
                        },
                    )
                } else {
                    None
                }
            },
            _ => None,
        }
    }
}

/// Whether the control word `word` has the channel enabled.
pub fn enabled(word: u32) -> (on: bool)
    ensures
        on == bit(word, ENABLE),
{
    is_set(word, ENABLE)
}

/// The control word `word` with the channel enabled or disabled and every
/// other field kept.
pub fn with_enable(word: u32, on: bool) -> (r: u32)
    ensures
        r == with_bit(word, ENABLE, on),
        bit(r, ENABLE) == on,
{
    proof {
        crate::bits::lemma_assign_reads_back(word, ENABLE, on, ENABLE);
    }
    assign(word, ENABLE, on)
}

} // verus!
