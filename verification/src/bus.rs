use vstd::prelude::*;

use crate::Mirroring;
use crate::cartridge::{PRG_ROM_PAGE_SIZE, Rom};
use crate::cpu::bus_access::Bus;
use crate::cpu::bus_access::lemma_word_split;
use crate::cpu::addressing_mode::AddressingMode;
use crate::cpu::flags::with_zero_negative;
use crate::cpu::instructions::shift::{ShiftKind, carry_of, shift_value};
use crate::cpu::laws::{lemma_carry_after_shift, law_rotate_round_trip};
use crate::cpu::instructions::stack::{pushed_status, restored_status};
use crate::cpu::{Clock, Cpu, interrupt_status};
use crate::joypad::{Joypad, JoypadView};
use crate::memory::{Memory, RAM_SIZE};
use crate::ppu::{Ppu, REG_DATA};

verus! {

pub const RAM_START: u16 = 0x0000;
pub const RAM_END: u16 = 0x1FFF;
/// 0x0800-0x1FFF mirror the 2 KiB of RAM.
pub const RAM_MIRROR_MASK: u16 = 0x07FF;

pub const PPU_REGISTERS_START: u16 = 0x2000;
pub const PPU_REGISTERS_END: u16 = 0x3FFF;
/// 0x2008-0x3FFF mirror the eight PPU registers.
pub const PPU_MIRROR_MASK: u16 = 0x0007;

pub const APU_IO_START: u16 = 0x4000;
pub const APU_IO_END: u16 = 0x401F;

// Inside the APU/IO range but handled here.
pub const OAM_DMA: u16 = 0x4014;
pub const JOYPAD_1: u16 = 0x4016;
pub const JOYPAD_2: u16 = 0x4017;

pub const CARTRIDGE_START: u16 = 0x8000;
pub const CARTRIDGE_END: u16 = 0xFFFF;

/// What can be observed of the bus.
pub struct NESBusView {
    pub ram: Seq<u8>,
    pub prg_rom: Seq<u8>,
    pub ppu: Ppu,
    pub joypad1: Joypad,
}

/// The cartridge and the PPU, with what the bus needs of them: a consistent
/// PPU.
pub struct Devices {
    rom: Rom,
    ppu: Ppu,
}

/// The CPU bus of the NES: RAM, the PPU registers, the controller port and
/// the cartridge.
pub struct NESBus {
    memory: Memory,
    devices: Devices,
    joypad1: Joypad,
}

/// The index in PRG ROM of a cartridge address.
pub open spec fn prg_index(len: nat, addr: u16) -> int {
    let offset = addr - CARTRIDGE_START;
    if len == PRG_ROM_PAGE_SIZE && offset >= PRG_ROM_PAGE_SIZE {
        offset % (PRG_ROM_PAGE_SIZE as int)
    } else {
        offset
    }
}

/// The byte that a read of cartridge address `addr` gives: PRG ROM at
/// `prg_index`, or 0 past the end of a PRG ROM too short for the address.
pub open spec fn cartridge_byte(prg_rom: Seq<u8>, addr: u16) -> u8 {
    if prg_index(prg_rom.len(), addr) < prg_rom.len() {
        prg_rom[prg_index(prg_rom.len(), addr)]
    } else {
        0
    }
}

/// Whether the PPU can serve an access of `register`: an access of the data
/// port whose address names a nametable that the PPU's own VRAM cannot hold
/// (four-screen layouts need memory on the cartridge) is refused; the bus
/// answers it with 0 and leaves everything as it was.
pub open spec fn ppu_accepts(ppu: Ppu, register: u16) -> bool {
    register != REG_DATA || ppu.data_port_ok()
}

impl Devices {
    #[verifier::type_invariant]
    spec fn wf(self) -> bool {
        &&& self.ppu.wf()
    }
}

impl NESBus {

    pub closed spec fn view(self) -> NESBusView {
        NESBusView {
            ram: self.memory@,
            prg_rom: self.devices.rom.prg_rom@,
            ppu: self.devices.ppu,
            joypad1: self.joypad1,
        }
    }

    pub closed spec fn with_joypad(self, joypad1: Joypad) -> Self {
        NESBus { joypad1, ..self }
    }

    /// The reads that an OAM DMA from page `base / 256` makes, the first
    /// `count` of them: the bus afterwards and the bytes read, in order.
    pub closed spec fn dma_reads(self, base: u16, count: nat) -> (Self, Seq<u8>)
        decreases count,
    {
        if count == 0 {
            (self, Seq::empty())
        } else {
            let (s, bytes) = self.dma_reads(base, (count - 1) as nat);
            let addr = (base + count - 1) as u16;
            (s.after_read(addr), bytes.push(s.read_value(addr)))
        }
    }

    pub fn new(rom: Rom) -> (bus: Self)
        requires
        ensures
            bus.view().ram == Seq::new(RAM_SIZE as nat, |i: int| 0u8),
            bus.view().prg_rom == rom.prg_rom@,
            bus.view().ppu.view() == Ppu::power_on(rom.chr_rom@, rom.screen_mirroring),
            bus.view().joypad1.view() == (JoypadView {
                strobe: false,
                button_index: 0,
                button_status: 0,
            }),
            bus.view().ppu.wf(),
    {
        let Rom { prg_rom, chr_rom, mapper, screen_mirroring } = rom;
        let ppu = Ppu::new(chr_rom, screen_mirroring);
        NESBus {
            memory: Memory::new(),
            devices: Devices { rom: Rom { prg_rom, chr_rom: Vec::new(), mapper, screen_mirroring }, ppu },
            joypad1: Joypad::new(),
        }
    }

    /// A bus whose cartridge holds `program` at 0x8000 (see `Rom::with_program`).
    pub fn with_program(program: &[u8]) -> (bus: Self)
        requires
            program@.len() <= 2 * PRG_ROM_PAGE_SIZE,
        ensures
            bus.view().ram == Seq::new(RAM_SIZE as nat, |i: int| 0u8),
            bus.view().prg_rom.len() == 2 * PRG_ROM_PAGE_SIZE,
            forall|i: int|
                0 <= i < 2 * PRG_ROM_PAGE_SIZE ==> #[trigger] bus.view().prg_rom[i] == if i
                    == 0x7FFC {
                    0x00
                } else if i == 0x7FFD {
                    0x80
                } else if i < program@.len() {
                    program@[i]
                } else {
                    0
                },
            bus.view().ppu.view() == Ppu::power_on(Seq::empty(), Mirroring::Horizontal),
            bus.view().joypad1.view() == (JoypadView {
                strobe: false,
                button_index: 0,
                button_status: 0,
            }),
            bus.view().ppu.wf(),
    {
        let rom = Rom::with_program(program);
        assert(rom.chr_rom@ =~= Seq::<u8>::empty());
        Self::new(rom)
    }

    pub fn ppu(&self) -> (ppu: &Ppu)
        ensures
            *ppu == self.view().ppu,
            ppu.wf(),
    {
        proof {
            use_type_invariant(&self.devices);
        }
        &self.devices.ppu
    }

    pub fn joypad1_mut(&mut self) -> (joypad: &mut Joypad)
        ensures
            *joypad == old(self).view().joypad1,
            *final(self) == old(self).with_joypad(*final(joypad)),
    {
        &mut self.joypad1
    }

    fn read_cartridge(&self, addr: u16) -> (value: u8)
        requires
            CARTRIDGE_START <= addr,
        ensures
            value == cartridge_byte(self.devices.rom.prg_rom@, addr),
    {
        let mut offset = addr - CARTRIDGE_START;
        if self.devices.rom.prg_rom.len() == PRG_ROM_PAGE_SIZE && offset >= PRG_ROM_PAGE_SIZE as u16 {
            offset = offset % (PRG_ROM_PAGE_SIZE as u16);
        }
        if (offset as usize) < self.devices.rom.prg_rom.len() {
            self.devices.rom.prg_rom[offset as usize]
        } else {
            // A PRG ROM too short for the address: nothing answers.
            0
        }
    }
}

/// The RAM index that a CPU address in 0x0000-0x1FFF stands for.
pub open spec fn ram_index(addr: u16) -> int {
    (addr % 0x0800) as int
}

proof fn lemma_ram_mask(addr: u16)
    ensures
        addr & RAM_MIRROR_MASK == addr % 0x0800,
{
    assert(addr & RAM_MIRROR_MASK == addr % 0x0800) by (bit_vector);
}

/// Reading RAM changes nothing, and gives back the last byte written to the
/// same RAM cell: 0x0000-0x07FF and its three mirrors are one 2 KiB memory.
/// A write to RAM leaves every other cell, the PPU, the controller and the
/// cartridge as they were.
pub proof fn law_ram_read_after_write(bus: NESBus, addr: u16, value: u8, other: u16)
    requires
        addr <= RAM_END,
        other <= RAM_END,
    ensures
        bus.after_read(other) == bus,
        bus.after_write(addr, value).read_value(other) == if ram_index(addr) == ram_index(
            other,
        ) {
            value
        } else {
            bus.read_value(other)
        },
        bus.after_write(addr, value).view().ppu == bus.view().ppu,
        bus.after_write(addr, value).view().joypad1 == bus.view().joypad1,
        bus.after_write(addr, value).view().prg_rom == bus.view().prg_rom,
{
    lemma_ram_mask(addr);
    lemma_ram_mask(other);
    bus.memory.lemma_view(addr & RAM_MIRROR_MASK, value);
}

/// Reading the cartridge changes nothing, and writes to it are ignored.
/// A 16 KiB PRG ROM appears at both 0x8000 and 0xC000.
pub proof fn law_cartridge(bus: NESBus, addr: u16, value: u8)
    requires
        CARTRIDGE_START <= addr,
    ensures
        bus.after_read(addr) == bus,
        bus.after_write(addr, value) == bus,
        bus.read_value(addr) == cartridge_byte(bus.view().prg_rom, addr),
        bus.view().prg_rom.len() == PRG_ROM_PAGE_SIZE && addr >= 0xC000 ==> bus.read_value(addr)
            == bus.read_value((addr - 0x4000) as u16),
        bus.view().prg_rom.len() == PRG_ROM_PAGE_SIZE ==> bus.read_value(addr)
            == bus.view().prg_rom[(addr - 0x8000) % 0x4000],
        bus.view().prg_rom.len() != PRG_ROM_PAGE_SIZE && addr - 0x8000 < bus.view().prg_rom.len()
            ==> bus.read_value(addr) == bus.view().prg_rom[addr - 0x8000],
        bus.view().prg_rom.len() != PRG_ROM_PAGE_SIZE && addr - 0x8000 >= bus.view().prg_rom.len()
            ==> bus.read_value(addr) == 0,
{
}

/// A write to RAM leaves the cartridge's answers as they were.
pub proof fn law_ram_write_keeps_cartridge(bus: NESBus, addr: u16, value: u8, cartridge: u16)
    requires
        addr <= RAM_END,
        CARTRIDGE_START <= cartridge,
    ensures
        bus.after_write(addr, value).read_value(cartridge) == bus.read_value(cartridge),
        bus.after_write(addr, value).after_read(cartridge) == bus.after_write(addr, value),
{
}

impl Bus for NESBus {
    closed spec fn read_value(&self, addr: u16) -> u8 {
        if addr <= RAM_END {
            self.memory@[(addr & RAM_MIRROR_MASK) as int]
        } else if addr <= PPU_REGISTERS_END {
            if ppu_accepts(self.devices.ppu, addr & PPU_MIRROR_MASK) {
                self.devices.ppu.read_register_post(addr & PPU_MIRROR_MASK).1
            } else {
                0
            }
        } else if addr == JOYPAD_1 {
            self.joypad1.read_post().1
        } else if addr == JOYPAD_2 {
            0
        } else if APU_IO_START <= addr && addr <= APU_IO_END {
            0
        } else if CARTRIDGE_START <= addr {
            cartridge_byte(self.devices.rom.prg_rom@, addr)
        } else {
            0
        }
    }

    closed spec fn after_read(&self, addr: u16) -> Self {
        if addr <= RAM_END {
            *self
        } else if addr <= PPU_REGISTERS_END {
            if ppu_accepts(self.devices.ppu, addr & PPU_MIRROR_MASK) {
                NESBus {
                    devices: Devices {
                        ppu: self.devices.ppu.read_register_post(addr & PPU_MIRROR_MASK).0,
                        ..self.devices
                    },
                    ..*self
                }
            } else {
                *self
            }
        } else if addr == JOYPAD_1 {
            NESBus { joypad1: self.joypad1.read_post().0, ..*self }
        } else {
            *self
        }
    }

    closed spec fn after_write(&self, addr: u16, value: u8) -> Self {
        if addr <= RAM_END {
            NESBus { memory: self.memory.with_byte(addr & RAM_MIRROR_MASK, value), ..*self }
        } else if addr <= PPU_REGISTERS_END {
            if ppu_accepts(self.devices.ppu, addr & PPU_MIRROR_MASK) {
                NESBus {
                    devices: Devices {
                        ppu: self.devices.ppu.write_register_post(addr & PPU_MIRROR_MASK, value),
                        ..self.devices
                    },
                    ..*self
                }
            } else {
                *self
            }
        } else if addr == OAM_DMA {
            let (s, bytes) = self.dma_reads((value as u16 * 256) as u16, 256);
            NESBus { devices: Devices { ppu: s.devices.ppu.oam_dma_post(bytes, 256), ..s.devices }, ..s }
        } else if addr == JOYPAD_1 {
            NESBus { joypad1: self.joypad1.write_post(value), ..*self }
        } else {
            *self
        }
    }

    /// RAM and its mirrors, the PPU registers and their mirrors, controller 1,
    /// the cartridge; controller 2, the APU and unmapped space answer 0.
    fn read(&mut self, addr: u16) -> (value: u8)
        ensures
            addr <= RAM_END ==> {
                &&& value == old(self).view().ram[ram_index(addr)]
                &&& final(self).view() == old(self).view()
            },
            PPU_REGISTERS_START <= addr <= PPU_REGISTERS_END && !ppu_accepts(
                old(self).view().ppu,
                addr % 8,
            ) ==> value == 0 && final(self).view() == old(self).view(),
            PPU_REGISTERS_START <= addr <= PPU_REGISTERS_END && ppu_accepts(
                old(self).view().ppu,
                addr % 8,
            ) ==> {
                &&& (final(self).view().ppu.view(), value) == old(self).view().ppu.view().register_read(
                    addr % 8,
                )
                &&& final(self).view() == (NESBusView {
                    ppu: final(self).view().ppu,
                    ..old(self).view()
                })
            },
            addr == JOYPAD_1 ==> {
                &&& (final(self).view().joypad1.view(), value) == old(self).view().joypad1.view().port_read()
                &&& final(self).view() == (NESBusView {
                    joypad1: final(self).view().joypad1,
                    ..old(self).view()
                })
            },
            CARTRIDGE_START <= addr ==> {
                &&& value == cartridge_byte(old(self).view().prg_rom, addr)
                &&& final(self).view() == old(self).view()
            },
            APU_IO_START <= addr < CARTRIDGE_START && addr != JOYPAD_1 ==> {
                &&& value == 0
                &&& final(self).view() == old(self).view()
            },
    {
        proof {
            use_type_invariant(&self.devices);
            lemma_ram_mask(addr);
            assert(addr & PPU_MIRROR_MASK == addr % 8) by (bit_vector);
        }
        if addr <= RAM_END {
            proof {
                assert(addr & RAM_MIRROR_MASK <= RAM_MIRROR_MASK) by (bit_vector);
                self.memory.lemma_view(0, 0);
            }
            self.memory.read(addr & RAM_MIRROR_MASK)
        } else if addr <= PPU_REGISTERS_END {
            let register = addr & PPU_MIRROR_MASK;
            if register == REG_DATA && !self.devices.ppu.data_port_usable() {
                0
            } else {
                self.devices.ppu.read_register(register)
            }
        } else if addr == JOYPAD_1 {
            self.joypad1.read()
        } else if addr == JOYPAD_2 {
            0
        } else if APU_IO_START <= addr && addr <= APU_IO_END {
            0
        } else if CARTRIDGE_START <= addr {
            self.read_cartridge(addr)
        } else {
            0
        }
    }

    /// RAM and its mirrors, the PPU registers and their mirrors, OAM DMA and
    /// controller 1 take writes; the rest of the APU space, controller 2 and
    /// the cartridge ignore them.
    fn write(&mut self, addr: u16, value: u8)
        ensures
            addr <= RAM_END ==> final(self).view() == (NESBusView {
                ram: old(self).view().ram.update(ram_index(addr), value),
                ..old(self).view()
            }),
            PPU_REGISTERS_START <= addr <= PPU_REGISTERS_END && !ppu_accepts(
                old(self).view().ppu,
                addr % 8,
            ) ==> final(self).view() == old(self).view(),
            PPU_REGISTERS_START <= addr <= PPU_REGISTERS_END && ppu_accepts(
                old(self).view().ppu,
                addr % 8,
            ) ==> {
                &&& final(self).view().ppu.view() == old(self).view().ppu.view().register_write(
                    addr % 8,
                    value,
                )
                &&& final(self).view() == (NESBusView {
                    ppu: final(self).view().ppu,
                    ..old(self).view()
                })
            },
            addr == OAM_DMA ==> {
                let (s, bytes) = old(self).dma_reads((value as u16 * 256) as u16, 256);
                &&& final(self).view().ppu.view() == s.view().ppu.view().oam_dma(bytes)
                &&& final(self).view() == (NESBusView { ppu: final(self).view().ppu, ..s.view() })
            },
            addr == OAM_DMA && value < 0x20 ==> {
                &&& final(self).view().ppu.view() == old(self).view().ppu.view().oam_dma(
                    dma_page(old(self).view().ram, value),
                )
                &&& final(self).view() == (NESBusView {
                    ppu: final(self).view().ppu,
                    ..old(self).view()
                })
            },
            addr == OAM_DMA && value >= 0x80 ==> {
                &&& final(self).view().ppu.view() == old(self).view().ppu.view().oam_dma(
                    cartridge_page(old(self).view().prg_rom, value),
                )
                &&& final(self).view() == (NESBusView {
                    ppu: final(self).view().ppu,
                    ..old(self).view()
                })
            },
            addr == JOYPAD_1 ==> {
                &&& final(self).view().joypad1.view() == old(self).view().joypad1.view().port_write(value)
                &&& final(self).view() == (NESBusView {
                    joypad1: final(self).view().joypad1,
                    ..old(self).view()
                })
            },
            APU_IO_START <= addr && addr != OAM_DMA && addr != JOYPAD_1 ==> final(self).view()
                == old(self).view(),
    {
        proof {
            use_type_invariant(&self.devices);
            lemma_ram_mask(addr);
            assert(addr & PPU_MIRROR_MASK == addr % 8) by (bit_vector);
            if addr <= RAM_END {
                self.memory.lemma_view(addr & RAM_MIRROR_MASK, value);
            }
            if addr == OAM_DMA && value < 0x20 {
                lemma_dma_reads_ram(*self, (value as u16 * 256) as u16, 256);
            }
            if addr == OAM_DMA && value >= 0x80 {
                lemma_dma_reads_cartridge(*self, (value as u16 * 256) as u16, 256);
            }
        }
        if addr <= RAM_END {
            proof {
                assert(addr & RAM_MIRROR_MASK <= RAM_MIRROR_MASK) by (bit_vector);
                self.memory.lemma_view(0, 0);
            }
            self.memory.write(addr & RAM_MIRROR_MASK, value);
        } else if addr <= PPU_REGISTERS_END {
            let register = addr & PPU_MIRROR_MASK;
            if !(register == REG_DATA && !self.devices.ppu.data_port_usable()) {
                self.devices.ppu.write_to_register(register, value);
            }
        } else if addr == OAM_DMA {
            // The 256 bytes of CPU page `value` go to OAM.  The CPU stalls for
            // about 513 cycles on the real machine; that time is not counted.
            let mut buffer = [0u8; 256];
            let base = (value as u16) << 8u16;
            proof {
                assert(base == value as u16 * 256) by (bit_vector)
                    requires
                        base == (value as u16) << 8u16,
                ;
            }
            let mut offset: u16 = 0;
            while offset < 256
                invariant
                    offset <= 256,
                    base == value as u16 * 256,
                    buffer@.len() == 256,
                    *self == old(self).dma_reads(base, offset as nat).0,
                    buffer@.subrange(0, offset as int) == old(self).dma_reads(
                        base,
                        offset as nat,
                    ).1,
                decreases 256 - offset,
            {
                let byte = self.read(base + offset);
                buffer[offset as usize] = byte;
                proof {
                    assert(buffer@.subrange(0, offset + 1) =~= old(self).dma_reads(
                        base,
                        (offset + 1) as nat,
                    ).1);
                }
                offset = offset + 1;
            }
            proof {
                use_type_invariant(&self.devices);
                assert(buffer@ =~= buffer@.subrange(0, 256));
            }
            self.devices.ppu.write_oam_dma(&buffer);
        } else if addr == JOYPAD_1 {
            self.joypad1.write(value);
        }
        // 0x4017 (the APU frame counter), the rest of the APU and the
        // cartridge ROM ignore writes.

    }
}

impl Clock for NESBus {
    /// The NMI line rises when the PPU raises it during the tick.
    closed spec fn tick_edge(&self, cycles: u8) -> bool {
        !self.devices.ppu.view().nmi_interrupt && self.devices.ppu.tick_post(
            (cycles * 3) as u16,
        ).0.view().nmi_interrupt
    }

    /// One CPU cycle is three PPU cycles.
    closed spec fn after_tick(&self, cycles: u8) -> Self {
        NESBus { devices: Devices { ppu: self.devices.ppu.tick_post((cycles * 3) as u16).0, ..self.devices }, ..*self }
    }

    closed spec fn nmi_status(&self) -> bool {
        self.devices.ppu.view().nmi_interrupt
    }

    closed spec fn after_poll_nmi(&self) -> Self {
        NESBus { devices: Devices { ppu: self.devices.ppu.poll_nmi_post().0, ..self.devices }, ..*self }
    }

    /// One CPU cycle is three PPU cycles; the answer is whether the PPU
    /// raised its NMI line during the tick.
    fn tick(&mut self, cycles: u8) -> (nmi_edge: bool)
        ensures
            final(self).view().ppu.view() == old(self).view().ppu.view().ticked(
                (cycles * 3) as u16,
            ).0,
            nmi_edge == (!old(self).view().ppu.view().nmi_interrupt
                && final(self).view().ppu.view().nmi_interrupt),
            final(self).view() == (NESBusView { ppu: final(self).view().ppu, ..old(self).view() }),
    {
        proof {
            use_type_invariant(&self.devices);
        }
        let nmi_before = self.devices.ppu.nmi_interrupt();
        self.devices.ppu.tick(cycles as u16 * 3);
        let nmi_after = self.devices.ppu.nmi_interrupt();
        !nmi_before && nmi_after
    }

    fn poll_nmi_status(&mut self) -> (nmi: bool)
        ensures
            (final(self).view().ppu.view(), nmi) == old(self).view().ppu.view().nmi_poll(),
            final(self).view() == (NESBusView { ppu: final(self).view().ppu, ..old(self).view() }),
    {
        proof {
            use_type_invariant(&self.devices);
        }
        self.devices.ppu.poll_nmi_interrupt()
    }

}

/// The clock half of the bus, seen through the view.  An NMI is pending
/// exactly when the PPU holds one, and polling answers it and clears it.  A
/// tick of `cycles` CPU cycles is a PPU tick of three times as many cycles;
/// it raises the NMI line exactly when the PPU's pending NMI goes from clear
/// to set.  Neither touches RAM, the cartridge or the controller.
pub proof fn law_clock(bus: NESBus, cycles: u8)
    ensures
        bus.nmi_status() == bus.view().ppu.view().nmi_interrupt,
        bus.after_poll_nmi().view().ppu.view() == bus.view().ppu.view().nmi_poll().0,
        bus.after_poll_nmi().view() == (NESBusView {
            ppu: bus.after_poll_nmi().view().ppu,
            ..bus.view()
        }),
        bus.after_tick(cycles).view().ppu.view() == bus.view().ppu.view().ticked(
            (cycles * 3) as u16,
        ).0,
        bus.tick_edge(cycles) == (!bus.view().ppu.view().nmi_interrupt && bus.after_tick(
            cycles,
        ).view().ppu.view().nmi_interrupt),
        bus.after_tick(cycles).view() == (NESBusView {
            ppu: bus.after_tick(cycles).view().ppu,
            ..bus.view()
        }),
        bus.view().ppu.wf() ==> bus.after_tick(cycles).view().ppu.wf(),
        bus.view().ppu.wf() ==> bus.after_poll_nmi().view().ppu.wf(),
{
    bus.devices.ppu.lemma_tick_view((cycles * 3) as u16);
    bus.devices.ppu.lemma_poll_view();
}

/// The PPU registers at 0x2000-0x3FFF (eight, mirrored), seen through the
/// view: a read or write of one the PPU accepts is `PpuView::register_read`
/// or `register_write` of `addr % 8` and touches nothing else; one it refuses
/// (see `ppu_accepts`) answers 0 and changes nothing.  The PPU stays well
/// formed.
pub proof fn law_ppu_registers(bus: NESBus, addr: u16, value: u8)
    requires
        PPU_REGISTERS_START <= addr <= PPU_REGISTERS_END,
        bus.view().ppu.wf(),
    ensures
        !ppu_accepts(bus.view().ppu, addr % 8) ==> {
            &&& bus.read_value(addr) == 0
            &&& bus.after_read(addr) == bus
            &&& bus.after_write(addr, value) == bus
        },
        ppu_accepts(bus.view().ppu, addr % 8) ==> {
            &&& bus.read_value(addr) == bus.view().ppu.view().register_read(addr % 8).1
            &&& bus.after_read(addr).view().ppu.view() == bus.view().ppu.view().register_read(
                addr % 8,
            ).0
            &&& bus.after_read(addr).view() == (NESBusView {
                ppu: bus.after_read(addr).view().ppu,
                ..bus.view()
            })
            &&& bus.after_read(addr).view().ppu.wf()
            &&& bus.after_write(addr, value).view().ppu.view() == bus.view().ppu.view().register_write(
                addr % 8,
                value,
            )
            &&& bus.after_write(addr, value).view() == (NESBusView {
                ppu: bus.after_write(addr, value).view().ppu,
                ..bus.view()
            })
            &&& bus.after_write(addr, value).view().ppu.wf()
        },
{
    assert(addr & PPU_MIRROR_MASK == addr % 8) by (bit_vector);
    if ppu_accepts(bus.view().ppu, addr % 8) {
        bus.devices.ppu.lemma_register_view(addr % 8, value);
    }
}

/// Controller 1 at 0x4016, seen through the view: reads and writes are
/// `JoypadView::port_read` and `port_write` and touch nothing else.
pub proof fn law_joypad_port(bus: NESBus, value: u8)
    ensures
        bus.read_value(JOYPAD_1) == bus.view().joypad1.view().port_read().1,
        bus.after_read(JOYPAD_1).view().joypad1.view() == bus.view().joypad1.view().port_read().0,
        bus.after_read(JOYPAD_1).view() == (NESBusView {
            joypad1: bus.after_read(JOYPAD_1).view().joypad1,
            ..bus.view()
        }),
        bus.after_write(JOYPAD_1, value).view().joypad1.view() == bus.view().joypad1.view().port_write(
            value,
        ),
        bus.after_write(JOYPAD_1, value).view() == (NESBusView {
            joypad1: bus.after_write(JOYPAD_1, value).view().joypad1,
            ..bus.view()
        }),
{
    bus.joypad1.lemma_port_view(value);
}

/// On this bus the stack is RAM: pulling right after a push gives back the
/// byte and the stack pointer, and changes nothing but the stack cell.
pub proof fn law_push_pull_byte(cpu: Cpu<NESBus>, value: u8)
    ensures
        ({
            let pushed = cpu.push_byte_post(value);
            let (pulled, byte) = pushed.pop_byte_post();
            &&& byte == value
            &&& pulled == (Cpu { bus: pushed.bus, ..cpu })
        }),
{
    let a = Cpu::<NESBus>::stack_addr(cpu.stack_pointer);
    law_ram_read_after_write(cpu.bus, a, value, a);
    law_ram_read_after_write(cpu.bus.after_write(a, value), a, value, a);
}

/// Pulling a word right after pushing it gives the word back, low byte
/// first, and restores the stack pointer.
pub proof fn law_push_pull_word(cpu: Cpu<NESBus>, value: u16)
    ensures
        ({
            let pushed = cpu.push_word_post(value);
            let (pulled, word) = pushed.pop_word_post();
            &&& word == value
            &&& pulled == (Cpu { bus: pushed.bus, ..cpu })
        }),
{
    let sp = cpu.stack_pointer;
    let hi = (value / 256) as u8;
    let lo = (value % 256) as u8;
    let a1 = Cpu::<NESBus>::stack_addr(sp);
    let a2 = Cpu::<NESBus>::stack_addr(sp.wrapping_sub(1));
    let b1 = cpu.bus.after_write(a1, hi);
    let b2 = b1.after_write(a2, lo);
    law_ram_read_after_write(cpu.bus, a1, hi, a1);
    law_ram_read_after_write(b1, a2, lo, a2);
    law_ram_read_after_write(b1, a2, lo, a1);
    law_ram_read_after_write(b2, a2, lo, a1);
    lemma_word_split(value);
}

/// A read of RAM changes nothing and gives the byte of the RAM view.
pub proof fn law_ram_read(bus: NESBus, addr: u16)
    requires
        addr <= RAM_END,
    ensures
        bus.read_value(addr) == bus.view().ram[ram_index(addr)],
        bus.after_read(addr) == bus,
{
    lemma_ram_mask(addr);
}

/// A write to RAM updates the RAM view and leaves the rest of the view.
pub proof fn law_ram_write(bus: NESBus, addr: u16, value: u8)
    requires
        addr <= RAM_END,
    ensures
        bus.view().ram.len() == RAM_SIZE,
        bus.after_write(addr, value).view() == (NESBusView {
            ram: bus.view().ram.update(ram_index(addr), value),
            ..bus.view()
        }),
{
    lemma_ram_mask(addr);
    bus.memory.lemma_view(addr & RAM_MIRROR_MASK, value);
}

/// JSR at `cpu.program_counter`, then any code that leaves the stack pointer
/// where the JSR left it and the two stack bytes it pushed as they were, then
/// RTS: execution resumes right after the three-byte JSR instruction, with
/// the stack pointer back where it was before the JSR (the JSR's three bytes
/// in RAM or the cartridge, the stack in RAM).
pub proof fn law_jsr_rts(cpu: Cpu<NESBus>, later: Cpu<NESBus>)
    requires
        cpu.program_counter <= 0xFFFC,
        plain_read(cpu.program_counter),
        plain_read((cpu.program_counter + 1) as u16),
        plain_read((cpu.program_counter + 2) as u16),
        ({
            let called = cpu.fetch_byte_post().0.jsr_post();
            let lo_at = Cpu::<NESBus>::stack_addr(called.stack_pointer.wrapping_add(1));
            let hi_at = Cpu::<NESBus>::stack_addr(called.stack_pointer.wrapping_add(1).wrapping_add(1));
            &&& later.stack_pointer == called.stack_pointer
            &&& later.bus.view().ram[ram_index(lo_at)] == called.bus.view().ram[ram_index(lo_at)]
            &&& later.bus.view().ram[ram_index(hi_at)] == called.bus.view().ram[ram_index(hi_at)]
        }),
    ensures
        later.rts_post().program_counter == cpu.program_counter + 3,
        later.rts_post().stack_pointer == cpu.stack_pointer,
{
    let p = cpu.program_counter;
    law_plain_read(cpu.bus, p);
    law_plain_read(cpu.bus, (p + 1) as u16);
    law_plain_read(cpu.bus, (p + 2) as u16);
    let opcode_done = cpu.fetch_byte_post().0;
    let (fetched, target) = opcode_done.fetch_word_post();
    let ret = fetched.program_counter.wrapping_sub(1);
    assert(ret == p + 2);
    let sp = cpu.stack_pointer;
    let hi = (ret / 256) as u8;
    let lo = (ret % 256) as u8;
    let a1 = Cpu::<NESBus>::stack_addr(sp);
    let a2 = Cpu::<NESBus>::stack_addr(sp.wrapping_sub(1));
    let b1 = fetched.bus.after_write(a1, hi);
    law_ram_write(fetched.bus, a1, hi);
    law_ram_write(b1, a2, lo);
    let called = opcode_done.jsr_post();
    assert(called.stack_pointer == sp.wrapping_sub(1).wrapping_sub(1));
    assert(called.stack_pointer.wrapping_add(1) == sp.wrapping_sub(1));
    assert(called.stack_pointer.wrapping_add(1).wrapping_add(1) == sp);
    law_ram_read(later.bus, a2);
    law_ram_read(later.bus, a1);
    lemma_word_split(ret);
    assert(ram_index(a1) != ram_index(a2));
    assert(called.bus == b1.after_write(a2, lo));
    assert(called.bus.view().ram[ram_index(a2)] == lo);
    assert(called.bus.view().ram[ram_index(a1)] == hi);
    let (s1, l) = later.pop_byte_post();
    assert(l == lo);
    assert(s1.bus == later.bus);
    let (s2, h) = s1.pop_byte_post();
    assert(h == hi);
    assert(later.pop_word_post().1 == ret);
}

/// An address whose read changes nothing: RAM and the cartridge.
pub open spec fn plain_read(addr: u16) -> bool {
    addr <= RAM_END || CARTRIDGE_START <= addr
}

/// A read of RAM or of the cartridge leaves the bus as it was.
pub proof fn law_plain_read(bus: NESBus, addr: u16)
    requires
        plain_read(addr),
    ensures
        bus.after_read(addr) == bus,
{
    if addr <= RAM_END {
        law_ram_read(bus, addr);
    } else {
        law_cartridge(bus, addr, 0);
    }
}

/// With the operand bytes in RAM or the cartridge, finding an operand's
/// address reads nothing that changes: only the program counter moves.
proof fn lemma_operand_plain(cpu: Cpu<NESBus>, mode: AddressingMode)
    requires
        mode != AddressingMode::Accumulator,
        plain_read(cpu.program_counter),
        plain_read(cpu.program_counter.wrapping_add(1)),
    ensures
        cpu.operand_address_post(mode).0 == (Cpu {
            program_counter: cpu.operand_address_post(mode).0.program_counter,
            ..cpu
        }),
{
    let b = cpu.bus;
    let pc = cpu.program_counter;
    law_plain_read(b, pc);
    law_plain_read(b, pc.wrapping_add(1));
    let base = b.read_value(pc);
    let ptr = base.wrapping_add(cpu.register_x);
    law_plain_read(b, ptr as u16);
    law_plain_read(b, ptr.wrapping_add(1) as u16);
    law_plain_read(b, base as u16);
    law_plain_read(b, base.wrapping_add(1) as u16);
}

/// ROR right after ROL on the same memory operand in RAM gives back the
/// byte and the carry, and leaves the rest of the bus as it was: for every
/// addressing mode, with the instruction's operand bytes in RAM or the
/// cartridge, when the ROR (run from the same address) finds the same
/// operand address as the ROL.
pub proof fn law_rol_ror_memory(cpu: Cpu<NESBus>, mode: AddressingMode)
    requires
        mode != AddressingMode::Accumulator,
        plain_read(cpu.program_counter),
        plain_read(cpu.program_counter.wrapping_add(1)),
        cpu.operand_address_post(mode).1 <= RAM_END,
        (Cpu {
            program_counter: cpu.program_counter,
            ..cpu.shift_post(ShiftKind::Rol, mode)
        }).operand_address_post(mode).1 == cpu.operand_address_post(mode).1,
    ensures
        ({
            let rolled = cpu.shift_post(ShiftKind::Rol, mode);
            let post = (Cpu { program_counter: cpu.program_counter, ..rolled }).shift_post(
                ShiftKind::Ror,
                mode,
            );
            &&& post.bus.view() == cpu.bus.view()
            &&& carry_of(post.processor_status) == carry_of(cpu.processor_status)
            &&& post.program_counter == rolled.program_counter
        }),
{
    let pc = cpu.program_counter;
    lemma_operand_plain(cpu, mode);
    let addr = cpu.operand_address_post(mode).1;
    law_ram_read(cpu.bus, addr);
    let v = cpu.bus.view().ram[ram_index(addr)];
    let ps = cpu.processor_status;
    let c = carry_of(ps);
    assert(c <= 1) by (bit_vector)
        requires
            c == ps & 1u8,
    ;
    let (left, out) = shift_value(ShiftKind::Rol, v, c);
    law_rotate_round_trip(v, c);
    law_ram_write(cpu.bus, addr, left);
    let rolled = cpu.shift_post(ShiftKind::Rol, mode);
    assert(rolled.bus == cpu.bus.after_write(addr, left));
    lemma_carry_after_shift(ps, out, left);
    let again = Cpu { program_counter: pc, ..rolled };
    lemma_operand_plain(again, mode);
    law_ram_read(again.bus, addr);
    let (back, out2) = shift_value(ShiftKind::Ror, left, carry_of(rolled.processor_status));
    law_ram_write(again.bus, addr, back);
    lemma_carry_after_shift(rolled.processor_status, out2, back);
    assert(cpu.bus.view().ram.update(ram_index(addr), left).update(ram_index(addr), v)
        =~= cpu.bus.view().ram);
}

/// An NMI pushes the program counter (high byte first) and the status with
/// B clear and bit 5 set, sets I, and jumps through the vector at
/// 0xFFFA-0xFFFB (little-endian, in the cartridge).
pub proof fn law_nmi_entry(cpu: Cpu<NESBus>)
    ensures
        ({
            let post = cpu.interrupt_nmi_post();
            let sp = cpu.stack_pointer as int;
            let st = cpu.processor_status;
            let prg = cpu.bus.view().prg_rom;
            let ram = post.bus.view().ram;
            &&& post.program_counter == cartridge_byte(prg, 0xFFFB) as int * 256 + cartridge_byte(
                prg,
                0xFFFA,
            )
            &&& post.stack_pointer == (sp + 253) % 256
            &&& post.processor_status == st | 0x04
            &&& ram[0x100 + sp] == cpu.program_counter / 256
            &&& ram[0x100 + (sp + 255) % 256] == cpu.program_counter % 256
            &&& ram[0x100 + (sp + 254) % 256] == (st & 0xEF) | 0x20
            &&& post.register_a == cpu.register_a && post.register_x == cpu.register_x
                && post.register_y == cpu.register_y
        }),
{
    let sp = cpu.stack_pointer;
    let pc = cpu.program_counter;
    let st = interrupt_status(cpu.processor_status);
    let hi = (pc / 256) as u8;
    let lo = (pc % 256) as u8;
    let a1 = Cpu::<NESBus>::stack_addr(sp);
    let a2 = Cpu::<NESBus>::stack_addr(sp.wrapping_sub(1));
    let a3 = Cpu::<NESBus>::stack_addr(sp.wrapping_sub(1).wrapping_sub(1));
    let b1 = cpu.bus.after_write(a1, hi);
    let b2 = b1.after_write(a2, lo);
    let b3 = b2.after_write(a3, st);
    law_ram_write(cpu.bus, a1, hi);
    law_ram_write(b1, a2, lo);
    law_ram_write(b2, a3, st);
    let b4 = b3.after_tick(2);
    law_clock(b3, 2);
    law_cartridge(b4, 0xFFFA, 0);
    law_cartridge(b4, 0xFFFB, 0);
    let ps = cpu.processor_status;
    crate::cpu::flags::lemma_byte_facts(ps);
    assert(ram_index(a1) == 0x100 + sp);
    assert(ram_index(a2) == 0x100 + (sp + 255) % 256);
    assert(ram_index(a3) == 0x100 + (sp + 254) % 256);
}

/// PHA then PLA gives back the accumulator, with Z and N set from it, and
/// restores the stack pointer.
pub proof fn law_pha_pla(cpu: Cpu<NESBus>)
    ensures
        ({
            let post = cpu.push_byte_post(cpu.register_a).pla_post();
            &&& post.register_a == cpu.register_a
            &&& post.stack_pointer == cpu.stack_pointer
            &&& post.processor_status == with_zero_negative(cpu.processor_status, cpu.register_a)
        }),
{
    law_push_pull_byte(cpu, cpu.register_a);
}

/// PHP then PLP gives back every flag but B, which ends clear, and the
/// always-set bit, which ends set; the stack pointer is restored.
pub proof fn law_php_plp(cpu: Cpu<NESBus>)
    ensures
        ({
            let post = cpu.push_byte_post(pushed_status(cpu.processor_status)).plp_post();
            &&& post.processor_status == restored_status(cpu.processor_status)
            &&& post.stack_pointer == cpu.stack_pointer
        }),
{
    let s = cpu.processor_status;
    law_push_pull_byte(cpu, pushed_status(s));
    assert(((((s | 0x10u8) | 0x20u8) & !0x10u8) | 0x20u8) == ((s & !0x10u8) | 0x20u8))
        by (bit_vector);
}

/// The 256 bytes of RAM page `page` (0x00-0x1F, mirrors included).
pub open spec fn dma_page(ram: Seq<u8>, page: u8) -> Seq<u8> {
    Seq::new(256, |i: int| ram[ram_index((page * 256 + i) as u16)])
}

/// DMA reads of RAM change nothing and give the RAM bytes in order.
proof fn lemma_dma_reads_ram(bus: NESBus, base: u16, count: nat)
    requires
        base + count <= RAM_END + 1,
    ensures
        bus.dma_reads(base, count).0 == bus,
        bus.dma_reads(base, count).1 == Seq::new(
            count,
            |i: int| bus.memory@[ram_index((base + i) as u16)],
        ),
    decreases count,
{
    if count > 0 {
        lemma_dma_reads_ram(bus, base, (count - 1) as nat);
        lemma_ram_mask((base + count - 1) as u16);
        assert(bus.dma_reads(base, count).1 =~= Seq::new(
            count,
            |i: int| bus.memory@[ram_index((base + i) as u16)],
        ));
    }
}

/// The 256 bytes of cartridge page `page` (0x80-0xFF).
pub open spec fn cartridge_page(prg_rom: Seq<u8>, page: u8) -> Seq<u8> {
    Seq::new(256, |i: int| cartridge_byte(prg_rom, (page * 256 + i) as u16))
}

/// DMA reads of the cartridge change nothing and give the PRG ROM bytes in
/// order.
proof fn lemma_dma_reads_cartridge(bus: NESBus, base: u16, count: nat)
    requires
        CARTRIDGE_START <= base,
        base + count <= 0x10000,
    ensures
        bus.dma_reads(base, count).0 == bus,
        bus.dma_reads(base, count).1 == Seq::new(
            count,
            |i: int| cartridge_byte(bus.devices.rom.prg_rom@, (base + i) as u16),
        ),
    decreases count,
{
    if count > 0 {
        lemma_dma_reads_cartridge(bus, base, (count - 1) as nat);
        assert(bus.dma_reads(base, count).1 =~= Seq::new(
            count,
            |i: int| cartridge_byte(bus.devices.rom.prg_rom@, (base + i) as u16),
        ));
    }
}

/// A clock tick changes neither RAM nor the cartridge.
proof fn lemma_tick_keeps_memory(bus: NESBus, cycles: u8)
    ensures
        bus.after_tick(cycles).memory == bus.memory,
        bus.after_tick(cycles).devices.rom == bus.devices.rom,
{
}

/// An NMI whose handler is a lone RTI resumes the interrupted program: the
/// program counter, the stack pointer and A, X and Y come back, and so does
/// every flag but B, which ends clear, and the always-set bit, which ends set.
pub proof fn law_nmi_rti(cpu: Cpu<NESBus>)
    ensures
        ({
            let post = cpu.interrupt_nmi_post().rti_post();
            &&& post.program_counter == cpu.program_counter
            &&& post.stack_pointer == cpu.stack_pointer
            &&& post.register_a == cpu.register_a
            &&& post.register_x == cpu.register_x
            &&& post.register_y == cpu.register_y
            &&& post.processor_status == restored_status(cpu.processor_status)
        }),
{
    let sp = cpu.stack_pointer;
    let pc = cpu.program_counter;
    let st = interrupt_status(cpu.processor_status);
    let hi = (pc / 256) as u8;
    let lo = (pc % 256) as u8;
    let a1 = Cpu::<NESBus>::stack_addr(sp);
    let a2 = Cpu::<NESBus>::stack_addr(sp.wrapping_sub(1));
    let a3 = Cpu::<NESBus>::stack_addr(sp.wrapping_sub(1).wrapping_sub(1));
    let b1 = cpu.bus.after_write(a1, hi);
    let b2 = b1.after_write(a2, lo);
    let b3 = b2.after_write(a3, st);
    let b4 = b3.after_tick(2);
    lemma_tick_keeps_memory(b3, 2);
    law_cartridge(b4, 0xFFFA, 0);
    law_cartridge(b4, 0xFFFB, 0);
    // The status byte, then the two bytes of the program counter.
    law_ram_read_after_write(b2, a3, st, a3);
    law_ram_read_after_write(b1, a2, lo, a2);
    law_ram_read_after_write(b2, a3, st, a2);
    law_ram_read_after_write(cpu.bus, a1, hi, a1);
    law_ram_read_after_write(b1, a2, lo, a1);
    law_ram_read_after_write(b2, a3, st, a1);
    law_ram_read_after_write(b4, a3, 0, a3);
    law_ram_read_after_write(b4, a2, 0, a2);
    law_ram_read_after_write(b4, a1, 0, a1);
    lemma_word_split(pc);
    let s = cpu.processor_status;
    assert((((s & !0x10u8) | 0x20u8) & !0x10u8) | 0x20u8 == (s & !0x10u8) | 0x20u8)
        by (bit_vector);
}

} // verus!
