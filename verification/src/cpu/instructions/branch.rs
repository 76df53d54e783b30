use vstd::prelude::*;

use crate::cpu::Cpu;
use crate::cpu::bus_access::Bus;
use crate::cpu::flags::{Flag, flag_mask};

verus! {

/// The eight branch conditions: a status bit and the value that takes the branch.
#[derive(Debug, Clone, Copy, PartialEq, Eq, Structural)]
pub enum Condition {
    CarryClear,
    CarrySet,
    Equal,
    NotEqual,
    Minus,
    Plus,
    OverflowClear,
    OverflowSet,
}

pub open spec fn condition_holds(condition: Condition, status: u8) -> bool {
    match condition {
        Condition::CarryClear => status & flag_mask(Flag::Carry) == 0,
        Condition::CarrySet => status & flag_mask(Flag::Carry) != 0,
        Condition::Equal => status & flag_mask(Flag::Zero) != 0,
        Condition::NotEqual => status & flag_mask(Flag::Zero) == 0,
        Condition::Minus => status & flag_mask(Flag::Negative) != 0,
        Condition::Plus => status & flag_mask(Flag::Negative) == 0,
        Condition::OverflowClear => status & flag_mask(Flag::OverFlow) == 0,
        Condition::OverflowSet => status & flag_mask(Flag::OverFlow) != 0,
    }
}

/// The program counter moved by a signed 8-bit offset, modulo 2^16.
pub open spec fn branch_target(pc: u16, offset: u8) -> u16 {
    pc.wrapping_add((offset as i8) as u16)
}

impl<B: Bus> Cpu<B> {
    /// The offset byte is always consumed; the jump, relative to the next
    /// instruction, happens when the condition holds.
    pub open spec fn branch_post(self, condition: Condition) -> Self {
        let (s, offset) = self.fetch_byte_post();
        if condition_holds(condition, self.processor_status) {
            Cpu { program_counter: branch_target(s.program_counter, offset), ..s }
        } else {
            s
        }
    }

    fn branch(&mut self, condition: bool)
        ensures
            ({
                let (s, offset) = old(self).fetch_byte_post();
                *final(self) == if condition {
                    Cpu { program_counter: branch_target(s.program_counter, offset), ..s }
                } else {
                    s
                }
            }),
    {
        let offset = self.fetch_byte() as i8;
        if condition {
            self.program_counter = self.program_counter.wrapping_add(offset as u16);
        }
    }

    pub fn bcc(&mut self)
        ensures
            *final(self) == old(self).branch_post(Condition::CarryClear),
    {
        self.branch(self.processor_status & Flag::Carry.mask() == 0);
    }

    pub fn bcs(&mut self)
        ensures
            *final(self) == old(self).branch_post(Condition::CarrySet),
    {
        self.branch(self.processor_status & Flag::Carry.mask() != 0);
    }

    pub fn beq(&mut self)
        ensures
            *final(self) == old(self).branch_post(Condition::Equal),
    {
        self.branch(self.processor_status & Flag::Zero.mask() != 0);
    }

    pub fn bne(&mut self)
        ensures
            *final(self) == old(self).branch_post(Condition::NotEqual),
    {
        self.branch(self.processor_status & Flag::Zero.mask() == 0);
    }

    pub fn bmi(&mut self)
        ensures
            *final(self) == old(self).branch_post(Condition::Minus),
    {
        self.branch(self.processor_status & Flag::Negative.mask() != 0);
    }

    pub fn bpl(&mut self)
        ensures
            *final(self) == old(self).branch_post(Condition::Plus),
    {
        self.branch(self.processor_status & Flag::Negative.mask() == 0);
    }

    pub fn bvc(&mut self)
        ensures
            *final(self) == old(self).branch_post(Condition::OverflowClear),
    {
        self.branch(self.processor_status & Flag::OverFlow.mask() == 0);
    }

    pub fn bvs(&mut self)
        ensures
            *final(self) == old(self).branch_post(Condition::OverflowSet),
    {
        self.branch(self.processor_status & Flag::OverFlow.mask() != 0);
    }
}

} // verus!
