use vstd::prelude::*;

use crate::cpu::Cpu;
use crate::cpu::bus_access::Bus;
use crate::cpu::flags::{Flag, flag_mask, with_bit};
use crate::cpu::instructions::load_store::Register;

verus! {

/// The status byte as PHP pushes it: B and the always-set bit are 1.
pub open spec fn pushed_status(status: u8) -> u8 {
    status | flag_mask(Flag::Break) | flag_mask(Flag::AlwaysSet)
}

/// A status byte as PLP and RTI restore it: B is 0 and the always-set bit 1.
pub open spec fn restored_status(pulled: u8) -> u8 {
    with_bit(with_bit(pulled, flag_mask(Flag::Break), false), flag_mask(Flag::AlwaysSet), true)
}

impl<B: Bus> Cpu<B> {
    pub open spec fn pla_post(self) -> Self {
        let (s, value) = self.pop_byte_post();
        s.set_register_post(Register::A, value)
    }

    pub open spec fn plp_post(self) -> Self {
        let (s, value) = self.pop_byte_post();
        Cpu { processor_status: restored_status(value), ..s }
    }

    pub open spec fn rti_post(self) -> Self {
        let s1 = self.plp_post();
        let (s2, pc) = s1.pop_word_post();
        Cpu { program_counter: pc, ..s2 }
    }

    pub fn pha(&mut self)
        ensures
            *final(self) == old(self).push_byte_post(old(self).register_a),
    {
        self.push_byte(self.register_a);
    }

    pub fn php(&mut self)
        ensures
            *final(self) == old(self).push_byte_post(pushed_status(old(self).processor_status)),
    {
        self.push_byte(self.processor_status | Flag::Break.mask() | Flag::AlwaysSet.mask());
    }

    pub fn pla(&mut self)
        ensures
            *final(self) == old(self).pla_post(),
    {
        let value = self.pop_byte();
        self.set_register(Register::A, value);
    }

    pub fn plp(&mut self)
        ensures
            *final(self) == old(self).plp_post(),
    {
        self.processor_status = self.pop_byte();
        self.set_flag(Flag::Break, false);
        self.set_flag(Flag::AlwaysSet, true);
    }

    pub fn rti(&mut self)
        ensures
            *final(self) == old(self).rti_post(),
    {
        self.plp();
        self.program_counter = self.pop_word();
    }
}

} // verus!
