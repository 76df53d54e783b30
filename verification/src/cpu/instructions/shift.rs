use vstd::prelude::*;

use crate::cpu::Cpu;
use crate::cpu::addressing_mode::AddressingMode;
use crate::cpu::bus_access::Bus;
use crate::cpu::flags::{Flag, LOW_BIT, SIGN_BIT, flag_mask, with_bit, with_zero_negative};

verus! {

/// The carry bit of a status byte, as 0 or 1.
pub open spec fn carry_of(status: u8) -> u8 {
    status & flag_mask(Flag::Carry)
}

/// ASL: shift left, bit 7 goes to the carry.
pub open spec fn asl_value(value: u8, carry: u8) -> (u8, bool) {
    (value << 1u8, value & SIGN_BIT != 0)
}

/// LSR: shift right, bit 0 goes to the carry.
pub open spec fn lsr_value(value: u8, carry: u8) -> (u8, bool) {
    (value >> 1u8, value & LOW_BIT != 0)
}

/// ROL: shift left through the carry.
pub open spec fn rol_value(value: u8, carry: u8) -> (u8, bool) {
    ((value << 1u8) | carry, value & SIGN_BIT != 0)
}

/// ROR: shift right through the carry.
pub open spec fn ror_value(value: u8, carry: u8) -> (u8, bool) {
    ((value >> 1u8) | (carry << 7u8), value & LOW_BIT != 0)
}

/// The four shifts and rotations.
#[derive(Debug, Clone, Copy, PartialEq, Eq, Structural)]
pub enum ShiftKind {
    Asl,
    Lsr,
    Rol,
    Ror,
}

/// The shifted value and the new carry.
pub open spec fn shift_value(kind: ShiftKind, value: u8, carry: u8) -> (u8, bool) {
    match kind {
        ShiftKind::Asl => asl_value(value, carry),
        ShiftKind::Lsr => lsr_value(value, carry),
        ShiftKind::Rol => rol_value(value, carry),
        ShiftKind::Ror => ror_value(value, carry),
    }
}

impl<B: Bus> Cpu<B> {
    /// A shift on the accumulator, or read-modify-write on the operand:
    /// the new carry, then Z and N from the result.
    pub open spec fn shift_post(self, kind: ShiftKind, mode: AddressingMode) -> Self {
        let carry = carry_of(self.processor_status);
        if mode == AddressingMode::Accumulator {
            let (result, c) = shift_value(kind, self.register_a, carry);
            let status = with_bit(self.processor_status, flag_mask(Flag::Carry), c);
            Cpu { register_a: result, processor_status: with_zero_negative(status, result), ..self }
        } else {
            let (s1, addr) = self.operand_address_post(mode);
            let (s2, value) = s1.peek_byte_post(addr);
            let (result, c) = shift_value(kind, value, carry);
            let s3 = Cpu {
                processor_status: with_bit(s2.processor_status, flag_mask(Flag::Carry), c),
                ..s2
            };
            let s4 = s3.write_byte_post(addr, result);
            Cpu { processor_status: with_zero_negative(s4.processor_status, result), ..s4 }
        }
    }

    fn shift(&mut self, kind: ShiftKind, mode: AddressingMode)
        ensures
            *final(self) == old(self).shift_post(kind, mode),
    {
        let old_carry = self.processor_status & Flag::Carry.mask();
        if mode == AddressingMode::Accumulator {
            let value = self.register_a;
            let (result, carry) = match kind {
                ShiftKind::Asl => (value << 1u8, value & SIGN_BIT != 0),
                ShiftKind::Lsr => (value >> 1u8, value & LOW_BIT != 0),
                ShiftKind::Rol => ((value << 1u8) | old_carry, value & SIGN_BIT != 0),
                ShiftKind::Ror => ((value >> 1u8) | (old_carry << 7u8), value & LOW_BIT != 0),
            };
            self.set_flag(Flag::Carry, carry);
            self.register_a = result;
            self.update_zero_and_negative_flags(self.register_a);
        } else {
            let addr = self.get_operand_address(mode);
            let value = self.peek_byte(addr);
            let (result, carry) = match kind {
                ShiftKind::Asl => (value << 1u8, value & SIGN_BIT != 0),
                ShiftKind::Lsr => (value >> 1u8, value & LOW_BIT != 0),
                ShiftKind::Rol => ((value << 1u8) | old_carry, value & SIGN_BIT != 0),
                ShiftKind::Ror => ((value >> 1u8) | (old_carry << 7u8), value & LOW_BIT != 0),
            };
            self.set_flag(Flag::Carry, carry);
            self.write_byte(addr, result);
            self.update_zero_and_negative_flags(result);
        }
    }

    pub fn asl(&mut self, mode: AddressingMode)
        ensures
            *final(self) == old(self).shift_post(ShiftKind::Asl, mode),
    {
        self.shift(ShiftKind::Asl, mode)
    }

    pub fn lsr(&mut self, mode: AddressingMode)
        ensures
            *final(self) == old(self).shift_post(ShiftKind::Lsr, mode),
    {
        self.shift(ShiftKind::Lsr, mode)
    }

    pub fn rol(&mut self, mode: AddressingMode)
        ensures
            *final(self) == old(self).shift_post(ShiftKind::Rol, mode),
    {
        self.shift(ShiftKind::Rol, mode)
    }

    pub fn ror(&mut self, mode: AddressingMode)
        ensures
            *final(self) == old(self).shift_post(ShiftKind::Ror, mode),
    {
        self.shift(ShiftKind::Ror, mode)
    }
}

} // verus!
