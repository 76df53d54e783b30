use vstd::prelude::*;

use crate::cpu::Cpu;
use crate::cpu::addressing_mode::AddressingMode;
use crate::cpu::bus_access::Bus;
use crate::cpu::flags::with_zero_negative;

verus! {

/// The three index and data registers.
#[derive(Debug, Clone, Copy, PartialEq, Eq, Structural)]
pub enum Register {
    A,
    X,
    Y,
}

impl<B: Bus> Cpu<B> {
    pub open spec fn register_value(self, register: Register) -> u8 {
        match register {
            Register::A => self.register_a,
            Register::X => self.register_x,
            Register::Y => self.register_y,
        }
    }

    /// The state with `register` set to `value` and Z and N from it.
    pub open spec fn set_register_post(self, register: Register, value: u8) -> Self {
        let status = with_zero_negative(self.processor_status, value);
        match register {
            Register::A => Cpu { register_a: value, processor_status: status, ..self },
            Register::X => Cpu { register_x: value, processor_status: status, ..self },
            Register::Y => Cpu { register_y: value, processor_status: status, ..self },
        }
    }

    /// LDA, LDX, LDY: the operand goes to the register; Z and N from it.
    pub open spec fn load_post(self, register: Register, mode: AddressingMode) -> Self {
        let (s1, addr) = self.operand_address_post(mode);
        let (s2, value) = s1.peek_byte_post(addr);
        s2.set_register_post(register, value)
    }

    /// STA, STX, STY: the register goes to the operand's address.
    pub open spec fn store_post(self, register: Register, mode: AddressingMode) -> Self {
        let (s1, addr) = self.operand_address_post(mode);
        s1.write_byte_post(addr, self.register_value(register))
    }

    pub fn set_register(&mut self, register: Register, value: u8)
        ensures
            *final(self) == old(self).set_register_post(register, value),
    {
        match register {
            Register::A => self.register_a = value,
            Register::X => self.register_x = value,
            Register::Y => self.register_y = value,
        }
        self.update_zero_and_negative_flags(value);
    }

    fn load(&mut self, register: Register, mode: AddressingMode)
        requires
            mode != AddressingMode::Accumulator,
        ensures
            *final(self) == old(self).load_post(register, mode),
    {
        let addr = self.get_operand_address(mode);
        let value = self.peek_byte(addr);
        self.set_register(register, value);
    }

    fn store(&mut self, register: Register, mode: AddressingMode)
        requires
            mode != AddressingMode::Accumulator,
        ensures
            *final(self) == old(self).store_post(register, mode),
    {
        let value = match register {
            Register::A => self.register_a,
            Register::X => self.register_x,
            Register::Y => self.register_y,
        };
        let addr = self.get_operand_address(mode);
        self.write_byte(addr, value);
    }

    pub fn lda(&mut self, mode: AddressingMode)
        requires
            mode != AddressingMode::Accumulator,
        ensures
            *final(self) == old(self).load_post(Register::A, mode),
    {
        self.load(Register::A, mode)
    }

    pub fn ldx(&mut self, mode: AddressingMode)
        requires
            mode != AddressingMode::Accumulator,
        ensures
            *final(self) == old(self).load_post(Register::X, mode),
    {
        self.load(Register::X, mode)
    }

    pub fn ldy(&mut self, mode: AddressingMode)
        requires
            mode != AddressingMode::Accumulator,
        ensures
            *final(self) == old(self).load_post(Register::Y, mode),
    {
        self.load(Register::Y, mode)
    }

    pub fn sta(&mut self, mode: AddressingMode)
        requires
            mode != AddressingMode::Accumulator,
        ensures
            *final(self) == old(self).store_post(Register::A, mode),
    {
        self.store(Register::A, mode)
    }

    pub fn stx(&mut self, mode: AddressingMode)
        requires
            mode != AddressingMode::Accumulator,
        ensures
            *final(self) == old(self).store_post(Register::X, mode),
    {
        self.store(Register::X, mode)
    }

    pub fn sty(&mut self, mode: AddressingMode)
        requires
            mode != AddressingMode::Accumulator,
        ensures
            *final(self) == old(self).store_post(Register::Y, mode),
    {
        self.store(Register::Y, mode)
    }
}

} // verus!
