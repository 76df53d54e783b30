use vstd::prelude::*;

use crate::cpu::Cpu;
use crate::cpu::addressing_mode::AddressingMode;
use crate::cpu::bus_access::Bus;
use crate::cpu::flags::{Flag, SIGN_BIT, U8_OVERFLOW, flag_mask, with_bit, with_zero_negative};

verus! {

/// The nine-bit sum that ADC forms from the accumulator, the operand and the carry.
pub open spec fn carry_sum(a: u8, value: u8, carry: u8) -> u16 {
    (a + value + carry) as u16
}

impl<B: Bus> Cpu<B> {
    /// The state after `value` and the carry are added to the accumulator:
    /// A is the low byte of the sum, C its ninth bit, V set when both
    /// operands have the same sign and the result a different one, Z and N
    /// from the result.
    pub open spec fn add_to_accumulator_post(self, value: u8) -> Self {
        let a = self.register_a;
        let sum = carry_sum(a, value, self.processor_status & flag_mask(Flag::Carry));
        let result = sum as u8;
        let status = with_bit(self.processor_status, flag_mask(Flag::Carry), sum >= U8_OVERFLOW);
        let status = with_bit(
            status,
            flag_mask(Flag::OverFlow),
            (a ^ result) & (value ^ result) & SIGN_BIT != 0,
        );
        Cpu { register_a: result, processor_status: with_zero_negative(status, result), ..self }
    }

    pub open spec fn adc_post(self, mode: AddressingMode) -> Self {
        let (s1, addr) = self.operand_address_post(mode);
        let (s2, value) = s1.peek_byte_post(addr);
        s2.add_to_accumulator_post(value)
    }

    /// SBC adds the complement of the operand: A - M - (1 - C).
    pub open spec fn sbc_post(self, mode: AddressingMode) -> Self {
        let (s1, addr) = self.operand_address_post(mode);
        let (s2, value) = s1.peek_byte_post(addr);
        s2.add_to_accumulator_post(!value)
    }

    fn add_to_accumulator(&mut self, value: u8)
        ensures
            *final(self) == old(self).add_to_accumulator_post(value),
    {
        let accumulator = self.register_a;
        let sum = (accumulator as u16) + (value as u16) + ((self.processor_status
            & Flag::Carry.mask()) as u16);
        let result = sum as u8;
        self.register_a = result;
        self.set_flag(Flag::Carry, sum >= U8_OVERFLOW);
        self.set_flag(Flag::OverFlow, (accumulator ^ result) & (value ^ result) & SIGN_BIT != 0);
        self.update_zero_and_negative_flags(result);
    }

    pub fn adc(&mut self, mode: AddressingMode)
        requires
            mode != AddressingMode::Accumulator,
        ensures
            *final(self) == old(self).adc_post(mode),
    {
        let addr = self.get_operand_address(mode);
        let value = self.peek_byte(addr);
        self.add_to_accumulator(value);
    }

    pub fn sbc(&mut self, mode: AddressingMode)
        requires
            mode != AddressingMode::Accumulator,
        ensures
            *final(self) == old(self).sbc_post(mode),
    {
        let addr = self.get_operand_address(mode);
        let value = !self.peek_byte(addr);
        self.add_to_accumulator(value);
    }
}

} // verus!
