use vstd::prelude::*;

use crate::cpu::Cpu;
use crate::cpu::addressing_mode::AddressingMode;
use crate::cpu::bus_access::Bus;
use crate::cpu::flags::{Flag, flag_mask, with_bit, with_zero_negative};

verus! {

impl<B: Bus> Cpu<B> {
    /// The status after `register` is compared with the operand: C when the
    /// register is not below it, Z and N from the difference modulo 256.
    pub open spec fn compare_post(self, register: u8, mode: AddressingMode) -> Self {
        let (s1, addr) = self.operand_address_post(mode);
        let (s2, value) = s1.peek_byte_post(addr);
        let status = with_bit(s2.processor_status, flag_mask(Flag::Carry), register >= value);
        Cpu {
            processor_status: with_zero_negative(status, register.wrapping_sub(value)),
            ..s2
        }
    }

    fn compare(&mut self, register: u8, mode: AddressingMode)
        requires
            mode != AddressingMode::Accumulator,
        ensures
            *final(self) == old(self).compare_post(register, mode),
    {
        let addr = self.get_operand_address(mode);
        let value = self.peek_byte(addr);
        let result = register.wrapping_sub(value);
        self.set_flag(Flag::Carry, register >= value);
        self.update_zero_and_negative_flags(result);
    }

    pub fn cmp(&mut self, mode: AddressingMode)
        requires
            mode != AddressingMode::Accumulator,
        ensures
            *final(self) == old(self).compare_post(old(self).register_a, mode),
    {
        self.compare(self.register_a, mode)
    }

    pub fn cpx(&mut self, mode: AddressingMode)
        requires
            mode != AddressingMode::Accumulator,
        ensures
            *final(self) == old(self).compare_post(old(self).register_x, mode),
    {
        self.compare(self.register_x, mode)
    }

    pub fn cpy(&mut self, mode: AddressingMode)
        requires
            mode != AddressingMode::Accumulator,
        ensures
            *final(self) == old(self).compare_post(old(self).register_y, mode),
    {
        self.compare(self.register_y, mode)
    }
}

} // verus!
