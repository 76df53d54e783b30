use vstd::prelude::*;

use super::Cpu;
use super::bus_access::{Bus, lemma_word_join, word};

verus! {

/// Where an instruction finds its operand.
#[derive(Debug, Clone, Copy, PartialEq, Eq, Structural)]
#[allow(non_camel_case_types)]
pub enum AddressingMode {
    Immediate,
    ZeroPage,
    ZeroPage_X,
    ZeroPage_Y,
    Absolute,
    Absolute_X,
    Absolute_Y,
    Indirect_X,
    Indirect_Y,
    Accumulator,
}

// Immediate: the operand is the byte after the opcode, so its address is the
// program counter itself.  ZeroPage: that byte is an address in page zero.
// Absolute: the two bytes after the opcode are a little-endian address.
// The indexed forms add X or Y; on page zero the sum wraps within the page.
// Indirect_X reads a pointer from page zero at (operand + X); Indirect_Y reads
// it at the operand and adds Y to it.

impl<B: Bus> Cpu<B> {
    /// The state after the operand bytes are consumed, and the operand's address.
    pub open spec fn operand_address_post(self, mode: AddressingMode) -> (Self, u16) {
        match mode {
            AddressingMode::Immediate => (
                Cpu { program_counter: self.program_counter.wrapping_add(1), ..self },
                self.program_counter,
            ),
            AddressingMode::ZeroPage => {
                let (s, base) = self.fetch_byte_post();
                (s, base as u16)
            },
            AddressingMode::ZeroPage_X => {
                let (s, base) = self.fetch_byte_post();
                (s, base.wrapping_add(self.register_x) as u16)
            },
            AddressingMode::ZeroPage_Y => {
                let (s, base) = self.fetch_byte_post();
                (s, base.wrapping_add(self.register_y) as u16)
            },
            AddressingMode::Absolute => self.fetch_word_post(),
            AddressingMode::Absolute_X => {
                let (s, base) = self.fetch_word_post();
                (s, base.wrapping_add(self.register_x as u16))
            },
            AddressingMode::Absolute_Y => {
                let (s, base) = self.fetch_word_post();
                (s, base.wrapping_add(self.register_y as u16))
            },
            AddressingMode::Indirect_X => {
                let (s1, base) = self.fetch_byte_post();
                let ptr = base.wrapping_add(self.register_x);
                let (s2, low) = s1.peek_byte_post(ptr as u16);
                let (s3, high) = s2.peek_byte_post(ptr.wrapping_add(1) as u16);
                (s3, word(low, high))
            },
            AddressingMode::Indirect_Y => {
                let (s1, base) = self.fetch_byte_post();
                let (s2, low) = s1.peek_byte_post(base as u16);
                let (s3, high) = s2.peek_byte_post(base.wrapping_add(1) as u16);
                (s3, word(low, high).wrapping_add(self.register_y as u16))
            },
            AddressingMode::Accumulator => (self, 0),
        }
    }

    /// Consumes the operand bytes of an instruction and returns the address
    /// of its operand.  The accumulator has no address.
    pub fn get_operand_address(&mut self, mode: AddressingMode) -> (addr: u16)
        requires
            mode != AddressingMode::Accumulator,
        ensures
            (*final(self), addr) == old(self).operand_address_post(mode),
    {
        match mode {
            AddressingMode::Immediate => {
                let addr = self.program_counter;
                self.program_counter = self.program_counter.wrapping_add(1);
                addr
            },
            AddressingMode::ZeroPage => self.fetch_byte() as u16,
            AddressingMode::ZeroPage_X => {
                let base = self.fetch_byte();
                base.wrapping_add(self.register_x) as u16
            },
            AddressingMode::ZeroPage_Y => {
                let base = self.fetch_byte();
                base.wrapping_add(self.register_y) as u16
            },
            AddressingMode::Absolute => self.fetch_word(),
            AddressingMode::Absolute_X => {
                let base = self.fetch_word();
                base.wrapping_add(self.register_x as u16)
            },
            AddressingMode::Absolute_Y => {
                let base = self.fetch_word();
                base.wrapping_add(self.register_y as u16)
            },
            AddressingMode::Indirect_X => {
                let base = self.fetch_byte();
                let ptr = base.wrapping_add(self.register_x);
                let low = self.peek_byte(ptr as u16) as u16;
                let high = self.peek_byte(ptr.wrapping_add(1) as u16) as u16;
                proof {
                    lemma_word_join(low as u8, high as u8);
                }
                (high << 8) | low
            },
            AddressingMode::Indirect_Y => {
                let base = self.fetch_byte();
                let low = self.peek_byte(base as u16) as u16;
                let high = self.peek_byte(base.wrapping_add(1) as u16) as u16;
                proof {
                    lemma_word_join(low as u8, high as u8);
                }
                let deref_base = (high << 8) | low;
                deref_base.wrapping_add(self.register_y as u16)
            },
            AddressingMode::Accumulator => 0,
        }
    }
}

} // verus!
