use vstd::prelude::*;

use crate::cpu::Cpu;
use crate::cpu::bus_access::Bus;

verus! {

impl<B: Bus> Cpu<B> {
    pub fn nop(&mut self)
        ensures
            *final(self) == *old(self),
    {
    }
}

} // verus!
