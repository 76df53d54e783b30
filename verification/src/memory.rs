use vstd::prelude::*;

verus! {

pub const RAM_SIZE: usize = 0x0800;

/// The 2 KiB of work RAM.
pub struct Memory {
    data: [u8; 0x0800],
}

impl View for Memory {
    type V = Seq<u8>;

    closed spec fn view(&self) -> Seq<u8> {
        self.data@
    }
}

impl Memory {
    /// RAM with one byte replaced.
    pub closed spec fn with_byte(self, addr: u16, value: u8) -> Self {
        Memory { data: vstd::array::spec_array_update(self.data, addr as int, value) }
    }

    pub proof fn lemma_view(self, addr: u16, value: u8)
        ensures
            self@.len() == RAM_SIZE,
            (addr as int) < RAM_SIZE ==> self.with_byte(addr, value)@ == self@.update(
                addr as int,
                value,
            ),
    {
        if (addr as int) < RAM_SIZE {
            vstd::array::axiom_spec_array_update(self.data, addr as int, value);
        }
    }

    pub fn new() -> (memory: Self)
        ensures
            memory@ == Seq::new(RAM_SIZE as nat, |i: int| 0u8),
    {
        let memory = Memory { data: [0u8; 0x0800] };
        assert(memory@ =~= Seq::new(RAM_SIZE as nat, |i: int| 0u8));
        memory
    }

    pub fn read(&self, addr: u16) -> (value: u8)
        requires
            (addr as int) < RAM_SIZE,
        ensures
            value == self@[addr as int],
    {
        self.data[addr as usize]
    }

    pub fn write(&mut self, addr: u16, value: u8)
        requires
            (addr as int) < RAM_SIZE,
        ensures
            *final(self) == old(self).with_byte(addr, value),
            final(self)@ == old(self)@.update(addr as int, value),
    {
        self.data[addr as usize] = value;
        proof {
            vstd::array::axiom_spec_array_update(old(self).data, addr as int, value);
            assert(self.data =~= vstd::array::spec_array_update(old(self).data, addr as int, value));
        }
    }

    /// Copies `data` into RAM from `addr` on.
    pub fn load(&mut self, addr: u16, data: &[u8])
        requires
            addr + data@.len() <= RAM_SIZE,
        ensures
            final(self)@ == old(self)@.subrange(0, addr as int) + data@ + old(self)@.subrange(
                addr + data@.len(),
                RAM_SIZE as int,
            ),
    {
        let start = addr as usize;
        let mut i: usize = 0;
        while i < data.len()
            invariant
                start + data@.len() <= RAM_SIZE,
                i <= data@.len(),
                self@.len() == RAM_SIZE,
                forall|j: int| 0 <= j < start ==> self@[j] == old(self)@[j],
                forall|j: int| start <= j < start + i ==> self@[j] == data@[j - start],
                forall|j: int| start + data@.len() <= j < RAM_SIZE ==> self@[j] == old(self)@[j],
                forall|j: int| start + i <= j < RAM_SIZE ==> self@[j] == old(self)@[j],
            decreases data@.len() - i,
        {
            self.data[start + i] = data[i];
            i = i + 1;
        }
        assert(self@ =~= old(self)@.subrange(0, addr as int) + data@ + old(self)@.subrange(
            addr + data@.len(),
            RAM_SIZE as int,
        ));
    }
}

} // verus!
