use vstd::prelude::*;

use super::Cpu;

verus! {

pub const STACK_BASE: u16 = 0x0100;

/// The CPU's view of the address space.
///
/// A read may change the device behind the address (a status register that
/// clears on read, a data port that advances, a controller shift register), so
/// both the value and the state after the access are part of the model.
pub trait Bus: Sized {
    /// The byte that a read of `addr` returns in this state.
    spec fn read_value(&self, addr: u16) -> u8;

    /// The state after a read of `addr`.
    spec fn after_read(&self, addr: u16) -> Self;

    /// The state after `value` is written to `addr`.
    spec fn after_write(&self, addr: u16, value: u8) -> Self;

    fn read(&mut self, addr: u16) -> (value: u8)
        ensures
            value == old(self).read_value(addr),
            *final(self) == old(self).after_read(addr),
    ;

    fn write(&mut self, addr: u16, value: u8)
        ensures
            *final(self) == old(self).after_write(addr, value),
    ;
}

/// The little-endian word made of `lo` and `hi`.
pub open spec fn word(lo: u8, hi: u8) -> u16 {
    (hi as int * 256 + lo as int) as u16
}

/// Joining two bytes with a shift and an or is the little-endian word.
pub proof fn lemma_word_join(lo: u8, hi: u8)
    ensures
        ((hi as u16) << 8u16) | (lo as u16) == word(lo, hi),
{
    let l = lo as u16;
    let h = hi as u16;
    assert((h << 8u16) | l == h * 256 + l) by (bit_vector)
        requires
            l < 256,
            h < 256,
    ;
}

/// Splitting a word with a shift and a mask gives its two bytes.
pub proof fn lemma_word_split(data: u16)
    ensures
        (data >> 8u16) as u8 == data / 256,
        (data & 0xffu16) as u8 == data % 256,
        word((data % 256) as u8, (data / 256) as u8) == data,
{
    assert((data >> 8u16) == data / 256 && (data & 0xffu16) == data % 256) by (bit_vector);
}

impl<B: Bus> Cpu<B> {
    /// The state after reading `addr`, and the byte read.
    pub open spec fn peek_byte_post(self, addr: u16) -> (Self, u8) {
        (Cpu { bus: self.bus.after_read(addr), ..self }, self.bus.read_value(addr))
    }

    /// The state after reading the byte at the program counter and
    /// stepping past it, and the byte read.
    pub open spec fn fetch_byte_post(self) -> (Self, u8) {
        let (s, v) = self.peek_byte_post(self.program_counter);
        (Cpu { program_counter: self.program_counter.wrapping_add(1), ..s }, v)
    }

    /// Two fetches, low byte first.
    pub open spec fn fetch_word_post(self) -> (Self, u16) {
        let (s1, lo) = self.fetch_byte_post();
        let (s2, hi) = s1.fetch_byte_post();
        (s2, word(lo, hi))
    }

    /// Two reads at `position` and `position + 1`, low byte first.
    pub open spec fn peek_word_post(self, position: u16) -> (Self, u16) {
        let (s1, lo) = self.peek_byte_post(position);
        let (s2, hi) = s1.peek_byte_post((position + 1) as u16);
        (s2, word(lo, hi))
    }

    pub open spec fn write_byte_post(self, addr: u16, data: u8) -> Self {
        Cpu { bus: self.bus.after_write(addr, data), ..self }
    }

    /// Two writes at `position` and `position + 1`, low byte first.
    pub open spec fn write_word_post(self, position: u16, data: u16) -> Self {
        self.write_byte_post(position, (data % 256) as u8).write_byte_post(
            (position + 1) as u16,
            (data / 256) as u8,
        )
    }

    /// The stack address that the stack pointer names.
    pub open spec fn stack_addr(sp: u8) -> u16 {
        (STACK_BASE + sp) as u16
    }

    /// Write at the stack pointer, then move it down.
    pub open spec fn push_byte_post(self, data: u8) -> Self {
        let s = self.write_byte_post(Self::stack_addr(self.stack_pointer), data);
        Cpu { stack_pointer: self.stack_pointer.wrapping_sub(1), ..s }
    }

    /// Move the stack pointer up, then read there.
    pub open spec fn pop_byte_post(self) -> (Self, u8) {
        let sp = self.stack_pointer.wrapping_add(1);
        Cpu { stack_pointer: sp, ..self }.peek_byte_post(Self::stack_addr(sp))
    }

    /// High byte pushed first, so that the low byte comes off first.
    pub open spec fn push_word_post(self, data: u16) -> Self {
        self.push_byte_post((data / 256) as u8).push_byte_post((data % 256) as u8)
    }

    pub open spec fn pop_word_post(self) -> (Self, u16) {
        let (s1, lo) = self.pop_byte_post();
        let (s2, hi) = s1.pop_byte_post();
        (s2, word(lo, hi))
    }

    pub fn fetch_byte(&mut self) -> (data: u8)
        ensures
            (*final(self), data) == old(self).fetch_byte_post(),
    {
        let data = self.bus.read(self.program_counter);
        self.program_counter = self.program_counter.wrapping_add(1);
        data
    }

    pub fn fetch_word(&mut self) -> (data: u16)
        ensures
            (*final(self), data) == old(self).fetch_word_post(),
    {
        let lo = self.fetch_byte() as u16;
        let hi = self.fetch_byte() as u16;
        proof {
            lemma_word_join(lo as u8, hi as u8);
        }
        (hi << 8) | lo
    }

    pub fn peek_byte(&mut self, addr: u16) -> (data: u8)
        ensures
            (*final(self), data) == old(self).peek_byte_post(addr),
    {
        self.bus.read(addr)
    }

    pub fn peek_word(&mut self, position: u16) -> (data: u16)
        requires
            position < 0xFFFF,
        ensures
            (*final(self), data) == old(self).peek_word_post(position),
    {
        let low = self.peek_byte(position) as u16;
        let high = self.peek_byte(position + 1) as u16;
        proof {
            lemma_word_join(low as u8, high as u8);
        }
        (high << 8) | low
    }

    pub fn write_byte(&mut self, addr: u16, data: u8)
        ensures
            *final(self) == old(self).write_byte_post(addr, data),
    {
        self.bus.write(addr, data);
    }

    pub fn write_word(&mut self, position: u16, data: u16)
        requires
            position < 0xFFFF,
        ensures
            *final(self) == old(self).write_word_post(position, data),
    {
        proof {
            lemma_word_split(data);
        }
        let high = (data >> 8) as u8;
        let low = (data & 0xff) as u8;
        self.write_byte(position, low);
        self.write_byte(position + 1, high);
    }

    pub fn push_byte(&mut self, data: u8)
        ensures
            *final(self) == old(self).push_byte_post(data),
    {
        let addr = STACK_BASE + self.stack_pointer as u16;
        self.bus.write(addr, data);
        self.stack_pointer = self.stack_pointer.wrapping_sub(1);
    }

    pub fn pop_byte(&mut self) -> (data: u8)
        ensures
            (*final(self), data) == old(self).pop_byte_post(),
    {
        self.stack_pointer = self.stack_pointer.wrapping_add(1);
        let addr = STACK_BASE + self.stack_pointer as u16;
        self.peek_byte(addr)
    }

    pub fn push_word(&mut self, data: u16)
        ensures
            *final(self) == old(self).push_word_post(data),
    {
        proof {
            lemma_word_split(data);
        }
        let high = (data >> 8) as u8;
        let low = (data & 0xff) as u8;
        self.push_byte(high);
        self.push_byte(low);
    }

    pub fn pop_word(&mut self) -> (data: u16)
        ensures
            (*final(self), data) == old(self).pop_word_post(),
    {
        let low = self.pop_byte() as u16;
        let high = self.pop_byte() as u16;
        proof {
            lemma_word_join(low as u8, high as u8);
        }
        (high << 8) | low
    }
}

} // verus!
