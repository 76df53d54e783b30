use vstd::prelude::*;

verus! {

/// PPU control register behind 0x2000.
///
/// Bits: 0-1 base nametable, 2 VRAM address increment (1 or 32), 3 sprite
/// pattern table, 4 background pattern table, 5 sprite size, 6 master/slave,
/// 7 generate NMI at the start of VBlank.
pub struct ControllerRegister {
    bits: u8,
}

impl ControllerRegister {
    pub const NEMETABLE_1: u8 = 0b0000_0001;
    pub const NEMETABLE_2: u8 = 0b0000_0010;
    pub const VRAM_ADD_INCREMENT: u8 = 0b0000_0100;
    pub const SPRITE_PATTERN_ADDR: u8 = 0b0000_1000;
    pub const BACKGROUND_PATTERN_ADDR: u8 = 0b0001_0000;
    pub const SPRITE_SIZE: u8 = 0b0010_0000;
    pub const MASTER_SLAVE_SELECT: u8 = 0b0100_0000;
    pub const GENERATE_NMI: u8 = 0b1000_0000;

    pub closed spec fn view(self) -> u8 {
        self.bits
    }

    pub closed spec fn from_bits(bits: u8) -> Self {
        ControllerRegister { bits }
    }

    pub proof fn lemma_from_bits(bits: u8)
        ensures
            Self::from_bits(bits).view() == bits,
    {
    }

    pub fn new() -> (register: Self)
        ensures
            register.view() == 0,
            register == Self::from_bits(0),
    {
        ControllerRegister { bits: 0 }
    }

    pub fn bits(&self) -> (bits: u8)
        ensures
            bits == self.view(),
        no_unwind
    {
        self.bits
    }

    /// Whether every bit of `flags` is set.
    pub fn contains(&self, flags: u8) -> (r: bool)
        ensures
            r == (self.view() & flags == flags),
        no_unwind
    {
        self.bits & flags == flags
    }

    /// How far the VRAM address moves after each access of 0x2007.
    pub fn vram_address_step(&self) -> (step: u8)
        ensures
            step == (if self.view() & Self::VRAM_ADD_INCREMENT == Self::VRAM_ADD_INCREMENT {
                32u8
            } else {
                1u8
            }),
        no_unwind
    {
        if self.contains(Self::VRAM_ADD_INCREMENT) {
            32
        } else {
            1
        }
    }

    /// Where the background tiles are in CHR ROM.
    pub fn background_pattern_address(&self) -> (address: u16)
        ensures
            address == (if self.view() & Self::BACKGROUND_PATTERN_ADDR
                == Self::BACKGROUND_PATTERN_ADDR {
                0x1000u16
            } else {
                0u16
            }),
    {
        if self.contains(Self::BACKGROUND_PATTERN_ADDR) {
            0x1000
        } else {
            0
        }
    }

    /// Where the 8x8 sprite tiles are in CHR ROM.
    pub fn sprite_pattern_address(&self) -> (address: u16)
        ensures
            address == (if self.view() & Self::SPRITE_PATTERN_ADDR == Self::SPRITE_PATTERN_ADDR {
                0x1000u16
            } else {
                0u16
            }),
    {
        if self.contains(Self::SPRITE_PATTERN_ADDR) {
            0x1000
        } else {
            0
        }
    }

    /// Every bit of the byte is a flag, so the register takes it whole.
    pub fn update(&mut self, data: u8)
        ensures
            *final(self) == Self::from_bits(data),
        no_unwind
    {
        self.bits = data;
    }
}

} // verus!
