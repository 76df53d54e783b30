use vstd::prelude::*;

verus! {

/// PPU status register behind 0x2002 (read only).
///
/// Bits: 5 sprite overflow, 6 sprite 0 hit, 7 VBlank has started; the low
/// five bits are unused.
pub struct StatusRegister {
    bits: u8,
}

impl StatusRegister {
    pub const SPRITE_OVERFLOW: u8 = 0b0010_0000;
    pub const SPRITE_ZERO_HIT: u8 = 0b0100_0000;
    pub const VBLANK_STARTED: u8 = 0b1000_0000;

    pub closed spec fn view(self) -> u8 {
        self.bits
    }

    pub closed spec fn from_bits(bits: u8) -> Self {
        StatusRegister { bits }
    }

    pub proof fn lemma_from_bits(bits: u8)
        ensures
            Self::from_bits(bits).view() == bits,
    {
    }

    pub fn new() -> (register: Self)
        ensures
            register == Self::from_bits(0),
    {
        StatusRegister { bits: 0 }
    }

    pub fn bits(&self) -> (bits: u8)
        ensures
            bits == self.view(),
        no_unwind
    {
        self.bits
    }

    pub fn insert(&mut self, flags: u8)
        ensures
            *final(self) == Self::from_bits(old(self).view() | flags),
        no_unwind
    {
        self.bits = self.bits | flags;
    }

    pub fn remove(&mut self, flags: u8)
        ensures
            *final(self) == Self::from_bits(old(self).view() & !flags),
        no_unwind
    {
        self.bits = self.bits & !flags;
    }
}

} // verus!
