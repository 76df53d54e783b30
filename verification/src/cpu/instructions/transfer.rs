use vstd::prelude::*;

use crate::cpu::Cpu;
use crate::cpu::bus_access::Bus;
use crate::cpu::instructions::load_store::Register;

verus! {

impl<B: Bus> Cpu<B> {
    pub fn tax(&mut self)
        ensures
            *final(self) == old(self).set_register_post(Register::X, old(self).register_a),
    {
        self.set_register(Register::X, self.register_a);
    }

    pub fn tay(&mut self)
        ensures
            *final(self) == old(self).set_register_post(Register::Y, old(self).register_a),
    {
        self.set_register(Register::Y, self.register_a);
    }

    pub fn txa(&mut self)
        ensures
            *final(self) == old(self).set_register_post(Register::A, old(self).register_x),
    {
        self.set_register(Register::A, self.register_x);
    }

    pub fn tya(&mut self)
        ensures
            *final(self) == old(self).set_register_post(Register::A, old(self).register_y),
    {
        self.set_register(Register::A, self.register_y);
    }

    pub fn tsx(&mut self)
        ensures
            *final(self) == old(self).set_register_post(Register::X, old(self).stack_pointer),
    {
        self.set_register(Register::X, self.stack_pointer);
    }

    /// TXS is the one transfer that leaves the flags alone.
    pub fn txs(&mut self)
        ensures
            *final(self) == (Cpu { stack_pointer: old(self).register_x, ..*old(self) }),
    {
        self.stack_pointer = self.register_x;
    }
}

} // verus!
