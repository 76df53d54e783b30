use vstd::prelude::*;

use crate::cpu::Cpu;
use crate::cpu::bus_access::{Bus, lemma_word_join, word};

verus! {

pub const PAGE_BASE_MASK: u16 = 0xFF00;
pub const PAGE_OFFSET_MASK: u16 = 0x00FF;

/// The address from which JMP (indirect) takes the high byte of its target:
/// the next address within the same page (the 6502 never carries into the
/// page number here, so $xxFF is followed by $xx00).
pub open spec fn indirect_high_address(address: u16) -> u16 {
    (address & PAGE_BASE_MASK) | (address.wrapping_add(1) & PAGE_OFFSET_MASK)
}

impl<B: Bus> Cpu<B> {
    pub open spec fn jmp_absolute_post(self) -> Self {
        let (s, target) = self.fetch_word_post();
        Cpu { program_counter: target, ..s }
    }

    pub open spec fn jmp_indirect_post(self) -> Self {
        let (s1, address) = self.fetch_word_post();
        let (s2, low) = s1.peek_byte_post(address);
        let (s3, high) = s2.peek_byte_post(indirect_high_address(address));
        Cpu { program_counter: word(low, high), ..s3 }
    }

    /// JSR pushes the address of the last byte of its own operand.
    pub open spec fn jsr_post(self) -> Self {
        let (s1, target) = self.fetch_word_post();
        let s2 = s1.push_word_post(s1.program_counter.wrapping_sub(1));
        Cpu { program_counter: target, ..s2 }
    }

    /// RTS resumes one byte after the address that it pulls.
    pub open spec fn rts_post(self) -> Self {
        let (s, address) = self.pop_word_post();
        Cpu { program_counter: address.wrapping_add(1), ..s }
    }

    pub fn jmp_absolute(&mut self)
        ensures
            *final(self) == old(self).jmp_absolute_post(),
    {
        self.program_counter = self.fetch_word();
    }

    pub fn jmp_indirect(&mut self)
        ensures
            *final(self) == old(self).jmp_indirect_post(),
    {
        let address = self.fetch_word();
        let low = self.peek_byte(address) as u16;
        let high_address = (address & PAGE_BASE_MASK) | (address.wrapping_add(1)
            & PAGE_OFFSET_MASK);
        let high = self.peek_byte(high_address) as u16;
        proof {
            lemma_word_join(low as u8, high as u8);
        }
        self.program_counter = (high << 8) | low;
    }

    pub fn jsr(&mut self)
        ensures
            *final(self) == old(self).jsr_post(),
    {
        let target = self.fetch_word();
        self.push_word(self.program_counter.wrapping_sub(1));
        self.program_counter = target;
    }

    pub fn rts(&mut self)
        ensures
            *final(self) == old(self).rts_post(),
    {
        self.program_counter = self.pop_word().wrapping_add(1);
    }
}

} // verus!
