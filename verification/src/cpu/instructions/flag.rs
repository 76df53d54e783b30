use vstd::prelude::*;

use crate::cpu::Cpu;
use crate::cpu::bus_access::Bus;
use crate::cpu::flags::{Flag, flag_mask, with_bit};

verus! {

impl<B: Bus> Cpu<B> {
    /// The state with one status bit set to `value`.
    pub open spec fn flag_post(self, flag: Flag, value: bool) -> Self {
        Cpu { processor_status: with_bit(self.processor_status, flag_mask(flag), value), ..self }
    }

    pub fn clc(&mut self)
        ensures
            *final(self) == old(self).flag_post(Flag::Carry, false),
    {
        self.set_flag(Flag::Carry, false);
    }

    pub fn sec(&mut self)
        ensures
            *final(self) == old(self).flag_post(Flag::Carry, true),
    {
        self.set_flag(Flag::Carry, true);
    }

    pub fn cld(&mut self)
        ensures
            *final(self) == old(self).flag_post(Flag::DecimalMode, false),
    {
        self.set_flag(Flag::DecimalMode, false);
    }

    pub fn sed(&mut self)
        ensures
            *final(self) == old(self).flag_post(Flag::DecimalMode, true),
    {
        self.set_flag(Flag::DecimalMode, true);
    }

    pub fn cli(&mut self)
        ensures
            *final(self) == old(self).flag_post(Flag::InterruptDisable, false),
    {
        self.set_flag(Flag::InterruptDisable, false);
    }

    pub fn sei(&mut self)
        ensures
            *final(self) == old(self).flag_post(Flag::InterruptDisable, true),
    {
        self.set_flag(Flag::InterruptDisable, true);
    }

    pub fn clv(&mut self)
        ensures
            *final(self) == old(self).flag_post(Flag::OverFlow, false),
    {
        self.set_flag(Flag::OverFlow, false);
    }
}

} // verus!
