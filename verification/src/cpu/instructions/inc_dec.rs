use vstd::prelude::*;

use crate::cpu::Cpu;
use crate::cpu::addressing_mode::AddressingMode;
use crate::cpu::bus_access::Bus;
use crate::cpu::flags::with_zero_negative;
use crate::cpu::instructions::load_store::Register;

verus! {

impl<B: Bus> Cpu<B> {
    /// INC and DEC: the operand plus `delta` modulo 256 is written back;
    /// Z and N from it.
    pub open spec fn step_memory_post(self, increment: bool, mode: AddressingMode) -> Self {
        let (s1, addr) = self.operand_address_post(mode);
        let (s2, value) = s1.peek_byte_post(addr);
        let result = if increment {
            value.wrapping_add(1)
        } else {
            value.wrapping_sub(1)
        };
        let s3 = s2.write_byte_post(addr, result);
        Cpu { processor_status: with_zero_negative(s3.processor_status, result), ..s3 }
    }

    fn step_memory(&mut self, increment: bool, mode: AddressingMode)
        requires
            mode != AddressingMode::Accumulator,
        ensures
            *final(self) == old(self).step_memory_post(increment, mode),
    {
        let addr = self.get_operand_address(mode);
        let value = self.peek_byte(addr);
        let result = if increment {
            value.wrapping_add(1)
        } else {
            value.wrapping_sub(1)
        };
        self.write_byte(addr, result);
        self.update_zero_and_negative_flags(result);
    }

    pub fn inc(&mut self, mode: AddressingMode)
        requires
            mode != AddressingMode::Accumulator,
        ensures
            *final(self) == old(self).step_memory_post(true, mode),
    {
        self.step_memory(true, mode)
    }

    pub fn dec(&mut self, mode: AddressingMode)
        requires
            mode != AddressingMode::Accumulator,
        ensures
            *final(self) == old(self).step_memory_post(false, mode),
    {
        self.step_memory(false, mode)
    }

    pub fn inx(&mut self)
        ensures
            *final(self) == old(self).set_register_post(
                Register::X,
                old(self).register_x.wrapping_add(1),
            ),
    {
        self.set_register(Register::X, self.register_x.wrapping_add(1));
    }

    pub fn iny(&mut self)
        ensures
            *final(self) == old(self).set_register_post(
                Register::Y,
                old(self).register_y.wrapping_add(1),
            ),
    {
        self.set_register(Register::Y, self.register_y.wrapping_add(1));
    }

    pub fn dex(&mut self)
        ensures
            *final(self) == old(self).set_register_post(
                Register::X,
                old(self).register_x.wrapping_sub(1),
            ),
    {
        self.set_register(Register::X, self.register_x.wrapping_sub(1));
    }

    pub fn dey(&mut self)
        ensures
            *final(self) == old(self).set_register_post(
                Register::Y,
                old(self).register_y.wrapping_sub(1),
            ),
    {
        self.set_register(Register::Y, self.register_y.wrapping_sub(1));
    }
}

} // verus!
