use vstd::prelude::*;

use super::Cpu;
use super::bus_access::Bus;

verus! {

pub const U8_OVERFLOW: u16 = 0x0100;
pub const SIGN_BIT: u8 = 0b1000_0000;
pub const LOW_BIT: u8 = 0b0000_0001;

/// The bits of the processor status register.
#[derive(Debug, Clone, Copy, PartialEq, Eq, Structural)]
pub enum Flag {
    Carry,
    Zero,
    InterruptDisable,
    DecimalMode,
    Break,
    AlwaysSet,
    OverFlow,
    Negative,
}

/// The bit that a flag occupies in the status register.
pub open spec fn flag_mask(flag: Flag) -> u8 {
    match flag {
        Flag::Carry => 0b0000_0001,
        Flag::Zero => 0b0000_0010,
        Flag::InterruptDisable => 0b0000_0100,
        Flag::DecimalMode => 0b0000_1000,
        Flag::Break => 0b0001_0000,
        Flag::AlwaysSet => 0b0010_0000,
        Flag::OverFlow => 0b0100_0000,
        Flag::Negative => 0b1000_0000,
    }
}

/// The status byte `status` with the bit `mask` set to `value`.
pub open spec fn with_bit(status: u8, mask: u8, value: bool) -> u8 {
    if value {
        status | mask
    } else {
        status & !mask
    }
}

/// The status byte after Z and N are set from `result`.
pub open spec fn with_zero_negative(status: u8, result: u8) -> u8 {
    with_bit(
        with_bit(status, flag_mask(Flag::Zero), result == 0),
        flag_mask(Flag::Negative),
        result & SIGN_BIT != 0,
    )
}

impl Flag {
    pub fn mask(self) -> (m: u8)
        ensures
            m == flag_mask(self),
    {
        match self {
            Flag::Carry => 0b0000_0001,
            Flag::Zero => 0b0000_0010,
            Flag::InterruptDisable => 0b0000_0100,
            Flag::DecimalMode => 0b0000_1000,
            Flag::Break => 0b0001_0000,
            Flag::AlwaysSet => 0b0010_0000,
            Flag::OverFlow => 0b0100_0000,
            Flag::Negative => 0b1000_0000,
        }
    }
}

/// Setting a bit and then reading it gives the value set, and leaves every
/// other bit as it was.
pub proof fn lemma_with_bit(status: u8, bit: u8, value: bool, other: u8)
    requires
        bit < 8,
        other < 8,
        other != bit,
    ensures
        (with_bit(status, 1u8 << bit, value) & (1u8 << bit) != 0) == value,
        with_bit(status, 1u8 << bit, value) & (1u8 << other) == status & (1u8 << other),
{
    if value {
        assert((status | (1u8 << bit)) & (1u8 << bit) != 0) by (bit_vector)
            requires
                bit < 8,
        ;
        assert((status | (1u8 << bit)) & (1u8 << other) == status & (1u8 << other))
            by (bit_vector)
            requires
                bit < 8,
                other < 8,
                other != bit,
        ;
    } else {
        assert((status & !(1u8 << bit)) & (1u8 << bit) == 0) by (bit_vector)
            requires
                bit < 8,
        ;
        assert((status & !(1u8 << bit)) & (1u8 << other) == status & (1u8 << other))
            by (bit_vector)
            requires
                bit < 8,
                other < 8,
                other != bit,
        ;
    }
}

/// Facts about the bits of a byte that the proofs use.
pub proof fn lemma_byte_facts(x: u8)
    by (bit_vector)
    ensures
        x & 1 == x % 2,
        x & 1 <= 1,
        (x & 1 != 0) == (x % 2 == 1),
        (x & 2 != 0) == ((x / 2) % 2 == 1),
        (x & 4 == 4) == ((x / 4) % 2 == 1),
        (x & 0x40 != 0) == ((x / 64) % 2 == 1),
        (x & 0x80 != 0) == (x >= 128),
        ((x >> 6u8) & 1 == 1) == ((x / 64) % 2 == 1),
        ((x >> 7u8) & 1 == 1) == (x >= 128),
        x & 3 == x % 4,
        x & 3 <= 3,
        (x >> 0u8) & 3 == x & 3,
        x & !1u8 == x & 0xFE,
        x & !4u8 == x & 0xFB,
        x & !8u8 == x & 0xF7,
        x & !0x40u8 == x & 0xBF,
        x | 1 == (x & 0xFE) | 1,
        x & !1u8 == (x & 0xFE) | 0,
        (x | 0x10) | 0x20 == x | 0x30,
        (x & !0x10u8) | 0x20 == (x & 0xEF) | 0x20,
        ((x & !0x10u8) | 0x20) & !0x10u8 | 0x20 == (x & !0x10u8) | 0x20,
        (x & !0x80u8) & 0x80 == 0,
        !x == 255 - x,
{
}

impl<B: Bus> Cpu<B> {
    pub fn has_flag(&self, flag: Flag) -> (r: bool)
        ensures
            r == (self.processor_status & flag_mask(flag) != 0),
    {
        self.processor_status & flag.mask() != 0
    }

    pub fn carry_bit(&self) -> (r: u8)
        ensures
            r == self.processor_status & flag_mask(Flag::Carry),
    {
        self.processor_status & Flag::Carry.mask()
    }

    pub fn set_flag(&mut self, flag: Flag, value: bool)
        ensures
            *final(self) == (Cpu {
                processor_status: with_bit(old(self).processor_status, flag_mask(flag), value),
                ..*old(self)
            }),
    {
        if value {
            self.processor_status = self.processor_status | flag.mask();
        } else {
            self.processor_status = self.processor_status & !flag.mask();
        }
    }

    pub fn update_zero_and_negative_flags(&mut self, result: u8)
        ensures
            *final(self) == (Cpu {
                processor_status: with_zero_negative(old(self).processor_status, result),
                ..*old(self)
            }),
    {
        self.set_flag(Flag::Zero, result == 0);
        self.set_flag(Flag::Negative, result & SIGN_BIT != 0);
    }
}

} // verus!
