use vstd::prelude::*;

use crate::cpu::Cpu;
use crate::cpu::addressing_mode::AddressingMode;
use crate::cpu::bus_access::Bus;
use crate::cpu::flags::{Flag, SIGN_BIT, flag_mask, with_bit, with_zero_negative};

verus! {

/// The three bitwise operations on the accumulator.
#[derive(Debug, Clone, Copy, PartialEq, Eq, Structural)]
pub enum LogicKind {
    And,
    Ora,
    Eor,
}

pub open spec fn logic_value(kind: LogicKind, a: u8, value: u8) -> u8 {
    match kind {
        LogicKind::And => a & value,
        LogicKind::Ora => a | value,
        LogicKind::Eor => a ^ value,
    }
}

impl<B: Bus> Cpu<B> {
    /// A combined with the operand; Z and N from the result.
    pub open spec fn logic_post(self, kind: LogicKind, mode: AddressingMode) -> Self {
        let (s1, addr) = self.operand_address_post(mode);
        let (s2, value) = s1.peek_byte_post(addr);
        let result = logic_value(kind, s2.register_a, value);
        Cpu {
            register_a: result,
            processor_status: with_zero_negative(s2.processor_status, result),
            ..s2
        }
    }

    /// BIT: Z from A & M, N from bit 7 and V from bit 6 of the operand.
    pub open spec fn bit_post(self, mode: AddressingMode) -> Self {
        let (s1, addr) = self.operand_address_post(mode);
        let (s2, value) = s1.peek_byte_post(addr);
        let status = with_bit(
            s2.processor_status,
            flag_mask(Flag::Zero),
            s2.register_a & value == 0,
        );
        let status = with_bit(status, flag_mask(Flag::Negative), value & SIGN_BIT != 0);
        let status = with_bit(
            status,
            flag_mask(Flag::OverFlow),
            value & flag_mask(Flag::OverFlow) != 0,
        );
        Cpu { processor_status: status, ..s2 }
    }

    fn logic(&mut self, kind: LogicKind, mode: AddressingMode)
        requires
            mode != AddressingMode::Accumulator,
        ensures
            *final(self) == old(self).logic_post(kind, mode),
    {
        let addr = self.get_operand_address(mode);
        let value = self.peek_byte(addr);
        self.register_a = match kind {
            LogicKind::And => self.register_a & value,
            LogicKind::Ora => self.register_a | value,
            LogicKind::Eor => self.register_a ^ value,
        };
        self.update_zero_and_negative_flags(self.register_a);
    }

    pub fn and(&mut self, mode: AddressingMode)
        requires
            mode != AddressingMode::Accumulator,
        ensures
            *final(self) == old(self).logic_post(LogicKind::And, mode),
    {
        self.logic(LogicKind::And, mode)
    }

    pub fn ora(&mut self, mode: AddressingMode)
        requires
            mode != AddressingMode::Accumulator,
        ensures
            *final(self) == old(self).logic_post(LogicKind::Ora, mode),
    {
        self.logic(LogicKind::Ora, mode)
    }

    pub fn eor(&mut self, mode: AddressingMode)
        requires
            mode != AddressingMode::Accumulator,
        ensures
            *final(self) == old(self).logic_post(LogicKind::Eor, mode),
    {
        self.logic(LogicKind::Eor, mode)
    }

    pub fn bit(&mut self, mode: AddressingMode)
        requires
            mode != AddressingMode::Accumulator,
        ensures
            *final(self) == old(self).bit_post(mode),
    {
        let addr = self.get_operand_address(mode);
        let value = self.peek_byte(addr);
        self.set_flag(Flag::Zero, self.register_a & value == 0);
        self.set_flag(Flag::Negative, value & SIGN_BIT != 0);
        self.set_flag(Flag::OverFlow, value & Flag::OverFlow.mask() != 0);
    }
}

} // verus!
