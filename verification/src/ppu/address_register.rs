use vstd::prelude::*;

use crate::cpu::bus_access::{lemma_word_join, lemma_word_split, word};

verus! {

/// PPU addresses are 14 bits wide.
pub const PPU_ADDR_MASK: u16 = 0b0011_1111_1111_1111;

/// The PPU address register behind 0x2006: written high byte first, then low.
pub struct AddressRegister {
    hi: u8,
    lo: u8,
    next_is_hi: bool,
}

impl AddressRegister {
    /// The address is always within the 14-bit PPU space.
    pub closed spec fn wf(self) -> bool {
        self.hi < 0x40
    }

    /// The address the register holds.
    pub closed spec fn address(self) -> u16 {
        word(self.lo, self.hi)
    }

    /// Whether the next write goes to the high byte.
    pub closed spec fn next_is_hi(self) -> bool {
        self.next_is_hi
    }

    /// The register holding `address` with the given latch.
    pub closed spec fn from_address(address: u16, next_is_hi: bool) -> Self {
        AddressRegister { hi: (address / 256) as u8, lo: (address % 256) as u8, next_is_hi }
    }

    /// A write sets the byte that the latch names, keeps the result within
    /// 14 bits, and flips the latch.
    pub closed spec fn write_post(self, data: u8) -> Self {
        if self.next_is_hi {
            Self::from_address(((data as int * 256 + self.lo) % 0x4000) as u16, false)
        } else {
            Self::from_address(word(data, self.hi), true)
        }
    }

    /// The address moves on by `step`, wrapping within 14 bits.
    pub closed spec fn increment_post(self, step: u8) -> Self {
        Self::from_address(((self.address() + step) % 0x4000) as u16, self.next_is_hi)
    }

    pub closed spec fn reset_latch_post(self) -> Self {
        AddressRegister { next_is_hi: true, ..self }
    }

    pub proof fn lemma_posts(self, data: u8, step: u8)
        requires
            self.wf(),
        ensures
            self.address() < 0x4000,
            self.write_post(data).wf(),
            self.write_post(data).next_is_hi() == !self.next_is_hi(),
            self.next_is_hi() ==> self.write_post(data).address() == (data as int * 256
                + self.address() % 256) % 0x4000,
            !self.next_is_hi() ==> self.write_post(data).address() == (self.address() / 256)
                * 256 + data,
            self.increment_post(step).wf(),
            self.increment_post(step).address() == (self.address() + step) % 0x4000,
            self.increment_post(step).next_is_hi() == self.next_is_hi(),
            self.reset_latch_post().wf(),
            self.reset_latch_post().address() == self.address(),
            self.reset_latch_post().next_is_hi(),
    {
    }

    pub fn new() -> (register: Self)
        ensures
            register.wf(),
            register.address() == 0,
            register.next_is_hi(),
    {
        AddressRegister { hi: 0, lo: 0, next_is_hi: true }
    }

    pub fn get(&self) -> (address: u16)
        ensures
            address == self.address(),
        no_unwind
    {
        proof {
            lemma_word_join(self.lo, self.hi);
        }
        (self.hi as u16) << 8 | self.lo as u16
    }

    pub fn write(&mut self, data: u8)
        requires
            old(self).wf(),
        ensures
            *final(self) == old(self).write_post(data),
            final(self).wf(),
            final(self).next_is_hi() == !old(self).next_is_hi(),
            old(self).next_is_hi() ==> final(self).address() == (data as int * 256
                + old(self).address() % 256) % 0x4000,
            !old(self).next_is_hi() ==> final(self).address() == (old(self).address() / 256)
                * 256 + data,
        no_unwind
    {
        proof {
            old(self).lemma_posts(data, 0);
        }
        if self.next_is_hi {
            self.hi = data;
        } else {
            self.lo = data;
        }
        self.clamp_to_valid_range();
        self.next_is_hi = !self.next_is_hi;
    }

    pub fn increment(&mut self, step: u8)
        requires
            old(self).wf(),
        ensures
            *final(self) == old(self).increment_post(step),
            final(self).wf(),
            final(self).address() == (old(self).address() + step) % 0x4000,
            final(self).next_is_hi() == old(self).next_is_hi(),
        no_unwind
    {
        proof {
            old(self).lemma_posts(0, step);
        }
        let prev_lo = self.lo;
        let prev_hi = self.hi;
        self.lo = crate::wrapping::add_u8(self.lo, step);
        if prev_lo > self.lo {
            self.hi = crate::wrapping::add_u8(self.hi, 1);
        }
        proof {
            let lo2 = self.lo;
            let hi2 = self.hi;
            assert(hi2 as int * 256 + lo2 == prev_hi as int * 256 + prev_lo + step || (hi2
                as int * 256 + lo2 == prev_hi as int * 256 + prev_lo + step - 65536));
        }
        self.clamp_to_valid_range();
    }

    pub fn reset_latch(&mut self)
        ensures
            *final(self) == old(self).reset_latch_post(),
            old(self).wf() ==> final(self).wf(),
            final(self).address() == old(self).address(),
            final(self).next_is_hi(),
        no_unwind
    {
        self.next_is_hi = true;
    }

    fn clamp_to_valid_range(&mut self)
        ensures
            *final(self) == Self::from_address(
                (old(self).address() % 0x4000) as u16,
                old(self).next_is_hi,
            ),
        no_unwind
    {
        let addr = self.get() & PPU_ADDR_MASK;
        proof {
            let full = self.address();
            assert(full & PPU_ADDR_MASK == full % 0x4000) by (bit_vector);
            lemma_word_split(addr);
        }
        self.hi = (addr >> 8) as u8;
        self.lo = (addr & 0xff) as u8;
    }
}

} // verus!
