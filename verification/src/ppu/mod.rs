pub mod address_register;
pub mod controller_register;
pub mod frame;
pub mod render;
pub mod status_register;

use vstd::prelude::*;

use crate::Mirroring;
use address_register::AddressRegister;
use controller_register::ControllerRegister;
use status_register::StatusRegister;

verus! {

// PPU registers: the low three bits of the CPU addresses 0x2000-0x2007.
pub const REG_CONTROLLER: u16 = 0x00;
pub const REG_MASK: u16 = 0x01;
pub const REG_STATUS: u16 = 0x02;
pub const REG_OAM_ADDR: u16 = 0x03;
pub const REG_OAM_DATA: u16 = 0x04;
pub const REG_SCROLL: u16 = 0x05;
pub const REG_ADDRESS: u16 = 0x06;
pub const REG_DATA: u16 = 0x07;

// PPU memory map.
pub const CHR_ROM_START: u16 = 0x0000;
pub const CHR_ROM_END: u16 = 0x1FFF;
pub const VRAM_START: u16 = 0x2000;
pub const VRAM_END: u16 = 0x2FFF;
/// 0x3000-0x3EFF mirror the nametables at 0x2000-0x2EFF.
pub const VRAM_MIRRORS_END: u16 = 0x3EFF;
pub const PALETTE_START: u16 = 0x3F00;
pub const PALETTE_END: u16 = 0x3FFF;

/// 0x3000-0x3EFF mirrors 0x2000-0x2EFF.
pub const VRAM_MIRROR_MASK: u16 = 0b0010_1111_1111_1111;
/// One nametable is 1 KiB.
pub const NAMETABLE_SIZE: u16 = 0x0400;

pub const CYCLES_PER_SCANLINE: usize = 341;
pub const VBLANK_SCANLINE: u16 = 241;
pub const SCANLINES_PER_FRAME: u16 = 262;

/// The index in the 2 KiB of VRAM that a PPU address in the nametable area
/// stands for.  The four nametables at 0x2000, 0x2400, 0x2800 and 0x2C00
/// share two physical ones:
///
///   Vertical:   A B A B  (left and right are distinct)
///   Horizontal: A A B B  (top and bottom are distinct)
pub open spec fn vram_index(mirroring: Mirroring, addr: u16) -> int {
    let mirrored = (addr & VRAM_MIRROR_MASK) - VRAM_START;
    let nametable = mirrored / NAMETABLE_SIZE as int;
    match mirroring {
        Mirroring::Vertical => if nametable == 2 || nametable == 3 {
            mirrored - NAMETABLE_SIZE * 2
        } else {
            mirrored
        },
        Mirroring::Horizontal => if nametable == 1 || nametable == 2 {
            mirrored - NAMETABLE_SIZE
        } else if nametable == 3 {
            mirrored - NAMETABLE_SIZE * 2
        } else {
            mirrored
        },
        Mirroring::FourScreen => mirrored,
    }
}

/// The index in the 32-byte palette table of an address in 0x3F00-0x3FFF:
/// the table repeats every 32 bytes, and the transparent entries of the
/// sprite palettes (0x10, 0x14, 0x18, 0x1C) are those of the background.
pub open spec fn palette_index(addr: u16) -> int {
    let index = (addr - PALETTE_START) % 32;
    if index == 0x10 || index == 0x14 || index == 0x18 || index == 0x1C {
        index - 0x10
    } else {
        index
    }
}

/// A nametable address that the PPU's 2 KiB of VRAM can hold under the
/// given mirroring (four-screen layouts need memory on the cartridge).
pub open spec fn vram_addressable(mirroring: Mirroring, addr: u16) -> bool {
    &&& VRAM_START <= addr & VRAM_MIRROR_MASK
    &&& mirroring == Mirroring::FourScreen ==> (addr & VRAM_MIRROR_MASK) < 0x2800
}

/// What can be observed of the PPU.
pub struct PpuView {
    pub chr_rom: Seq<u8>,
    pub palette_table: Seq<u8>,
    pub vram: Seq<u8>,
    pub oam_data: Seq<u8>,
    pub oam_address: u8,
    pub mirroring: Mirroring,
    pub controller: u8,
    pub status: u8,
    pub nmi_interrupt: bool,
    pub address: u16,
    pub address_latch_hi: bool,
    pub internal_data_buf: u8,
    pub cycles: usize,
    pub scanline: u16,
}

impl PpuView {
    /// How far an access of the data port (0x2007) moves the address: 32
    /// when the controller selects it, else 1.
    pub open spec fn address_step(self) -> u8 {
        if self.controller & ControllerRegister::VRAM_ADD_INCREMENT
            == ControllerRegister::VRAM_ADD_INCREMENT {
            32
        } else {
            1
        }
    }

    /// The address after an access of the data port, within 14 bits.
    pub open spec fn advanced(self) -> PpuView {
        PpuView { address: ((self.address + self.address_step()) % 0x4000) as u16, ..self }
    }

    /// The byte of CHR ROM at `addr`; a cartridge with less CHR ROM reads 0.
    pub open spec fn chr_byte(self, addr: u16) -> u8 {
        if (addr as int) < self.chr_rom.len() {
            self.chr_rom[addr as int]
        } else {
            0
        }
    }

    /// Reading 0x2002 gives the status; VBlank and the address latch are
    /// cleared.
    pub open spec fn status_read(self) -> (PpuView, u8) {
        (
            PpuView {
                status: self.status & !StatusRegister::VBLANK_STARTED,
                address_latch_hi: true,
                ..self
            },
            self.status,
        )
    }

    /// Reading 0x2007: CHR ROM and nametable reads come one access late,
    /// through the internal buffer; palette reads come at once.
    pub open spec fn data_read(self) -> (PpuView, u8) {
        let addr = self.address;
        let s = self.advanced();
        if addr <= CHR_ROM_END {
            (PpuView { internal_data_buf: self.chr_byte(addr), ..s }, self.internal_data_buf)
        } else if VRAM_START <= addr && addr <= VRAM_MIRRORS_END {
            (
                PpuView { internal_data_buf: self.vram[vram_index(self.mirroring, addr)], ..s },
                self.internal_data_buf,
            )
        } else if PALETTE_START <= addr {
            (s, self.palette_table[palette_index(addr)])
        } else {
            (s, 0)
        }
    }

    /// Writing 0x2007: nametables and palette take the byte, CHR ROM
    /// ignores it.
    pub open spec fn data_write(self, data: u8) -> PpuView {
        let addr = self.address;
        let s = self.advanced();
        if addr <= CHR_ROM_END {
            s
        } else if VRAM_START <= addr && addr <= VRAM_MIRRORS_END {
            PpuView { vram: self.vram.update(vram_index(self.mirroring, addr), data), ..s }
        } else if PALETTE_START <= addr {
            PpuView { palette_table: self.palette_table.update(palette_index(addr), data), ..s }
        } else {
            s
        }
    }

    /// Writing 0x2006: the byte that the latch names, high byte first, the
    /// address kept within 14 bits; the latch flips.
    pub open spec fn address_write(self, data: u8) -> PpuView {
        if self.address_latch_hi {
            PpuView {
                address: ((data * 256 + self.address % 256) % 0x4000) as u16,
                address_latch_hi: false,
                ..self
            }
        } else {
            PpuView {
                address: ((self.address / 256) * 256 + data) as u16,
                address_latch_hi: true,
                ..self
            }
        }
    }

    /// Writing 0x2000.  Turning NMI generation on during VBlank raises an
    /// NMI at once.
    pub open spec fn controller_write(self, data: u8) -> PpuView {
        let raise = self.controller & ControllerRegister::GENERATE_NMI
            != ControllerRegister::GENERATE_NMI && data & ControllerRegister::GENERATE_NMI
            == ControllerRegister::GENERATE_NMI && VBLANK_SCANLINE <= self.scanline
            && self.scanline < SCANLINES_PER_FRAME;
        PpuView {
            controller: data,
            nmi_interrupt: if raise {
                true
            } else {
                self.nmi_interrupt
            },
            ..self
        }
    }

    /// A CPU read of register `register` (0-7); the write-only registers
    /// answer 0.
    pub open spec fn register_read(self, register: u16) -> (PpuView, u8) {
        if register == REG_STATUS {
            self.status_read()
        } else if register == REG_OAM_DATA {
            (self, self.oam_data[self.oam_address as int])
        } else if register == REG_DATA {
            self.data_read()
        } else {
            (self, 0)
        }
    }

    /// A CPU write of register `register` (0-7); mask, scroll and status
    /// ignore writes.
    pub open spec fn register_write(self, register: u16, value: u8) -> PpuView {
        if register == REG_CONTROLLER {
            self.controller_write(value)
        } else if register == REG_OAM_ADDR {
            PpuView { oam_address: value, ..self }
        } else if register == REG_OAM_DATA {
            PpuView {
                oam_data: self.oam_data.update(self.oam_address as int, value),
                oam_address: self.oam_address.wrapping_add(1),
                ..self
            }
        } else if register == REG_ADDRESS {
            self.address_write(value)
        } else if register == REG_DATA {
            self.data_write(value)
        } else {
            self
        }
    }

    /// OAM DMA of a 256-byte page: byte `i` lands in OAM entry
    /// `oam_address + i` (mod 256); the OAM address ends where it started.
    pub open spec fn oam_dma(self, data: Seq<u8>) -> PpuView {
        PpuView {
            oam_data: Seq::new(256, |j: int| data[(j - self.oam_address) % 256]),
            ..self
        }
    }

    /// Answers whether an NMI is pending, and clears it.
    pub open spec fn nmi_poll(self) -> (PpuView, bool) {
        (PpuView { nmi_interrupt: false, ..self }, self.nmi_interrupt)
    }

    /// `cycles` PPU cycles; at most one scanline ends.  Reaching scanline
    /// 241 starts VBlank (and raises an NMI when enabled); passing scanline
    /// 261 ends the frame: the beam returns to the top, VBlank and the
    /// pending NMI are cleared, and the answer is true.
    pub open spec fn ticked(self, cycles: u16) -> (PpuView, bool) {
        let total = self.cycles.wrapping_add(cycles as usize);
        if total >= CYCLES_PER_SCANLINE {
            let scanline = (self.scanline + 1) as u16;
            let s1 = PpuView {
                cycles: (total - CYCLES_PER_SCANLINE) as usize,
                scanline,
                ..self
            };
            let s2 = if scanline == VBLANK_SCANLINE {
                PpuView {
                    status: s1.status | StatusRegister::VBLANK_STARTED,
                    nmi_interrupt: if self.controller & ControllerRegister::GENERATE_NMI
                        == ControllerRegister::GENERATE_NMI {
                        true
                    } else {
                        self.nmi_interrupt
                    },
                    ..s1
                }
            } else {
                s1
            };
            if scanline >= SCANLINES_PER_FRAME {
                (
                    PpuView {
                        scanline: 0,
                        nmi_interrupt: false,
                        status: s2.status & !StatusRegister::VBLANK_STARTED,
                        ..s2
                    },
                    true,
                )
            } else {
                (s2, false)
            }
        } else {
            (PpuView { cycles: total as usize, ..self }, false)
        }
    }
}

/// The picture processing unit: its memories, registers and beam position.
pub struct Ppu {
    chr_rom: Vec<u8>,
    palette_table: [u8; 32],
    vram: [u8; 2048],
    oam_data: [u8; 256],
    oam_address: u8,
    mirroring: Mirroring,
    controller_register: ControllerRegister,
    status_register: StatusRegister,
    nmi_interrupt: bool,
    address_register: AddressRegister,
    internal_data_buf: u8,
    cycles: usize,
    scanline: u16,
}

impl Ppu {
    pub closed spec fn view(self) -> PpuView {
        PpuView {
            chr_rom: self.chr_rom@,
            palette_table: self.palette_table@,
            vram: self.vram@,
            oam_data: self.oam_data@,
            oam_address: self.oam_address,
            mirroring: self.mirroring,
            controller: self.controller_register.view(),
            status: self.status_register.view(),
            nmi_interrupt: self.nmi_interrupt,
            address: self.address_register.address(),
            address_latch_hi: self.address_register.next_is_hi(),
            internal_data_buf: self.internal_data_buf,
            cycles: self.cycles,
            scanline: self.scanline,
        }
    }

    /// The address register stays within 14 bits and the beam within a frame.
    pub closed spec fn wf(self) -> bool {
        &&& self.address_register.wf()
        &&& self.scanline < SCANLINES_PER_FRAME
    }

    pub open spec fn in_vblank(self) -> bool {
        VBLANK_SCANLINE <= self.view().scanline && self.view().scanline < SCANLINES_PER_FRAME
    }

    /// Writing 0x2006.
    pub closed spec fn write_address_post(self, data: u8) -> Self {
        Ppu { address_register: self.address_register.write_post(data), ..self }
    }

    pub closed spec fn with_nmi(self, value: bool) -> Self {
        Ppu { nmi_interrupt: value, ..self }
    }

    pub closed spec fn poll_nmi_post(self) -> (Self, bool) {
        (Ppu { nmi_interrupt: false, ..self }, self.nmi_interrupt)
    }

    /// Reading 0x2002 clears the VBlank flag and the address latch.
    pub closed spec fn read_status_post(self) -> (Self, u8) {
        (
            Ppu {
                status_register: StatusRegister::from_bits(
                    self.status_register.view() & !StatusRegister::VBLANK_STARTED,
                ),
                address_register: self.address_register.reset_latch_post(),
                ..self
            },
            self.status_register.view(),
        )
    }

    /// The byte of CHR ROM at `addr`; a cartridge with less CHR ROM reads 0.
    pub closed spec fn chr_byte(self, addr: u16) -> u8 {
        if (addr as int) < self.chr_rom@.len() {
            self.chr_rom@[addr as int]
        } else {
            0
        }
    }

    /// Reading 0x2007: pattern and nametable reads come one access late
    /// through the internal buffer, palette reads at once; the address moves
    /// on by the step the controller selects.
    pub closed spec fn read_memory_post(self) -> (Self, u8) {
        let addr = self.address_register.address();
        let step = if self.controller_register.view() & ControllerRegister::VRAM_ADD_INCREMENT
            == ControllerRegister::VRAM_ADD_INCREMENT {
            32u8
        } else {
            1u8
        };
        let s = Ppu { address_register: self.address_register.increment_post(step), ..self };
        if addr <= CHR_ROM_END {
            (Ppu { internal_data_buf: self.chr_byte(addr), ..s }, self.internal_data_buf)
        } else if VRAM_START <= addr && addr <= VRAM_MIRRORS_END {
            (
                Ppu {
                    internal_data_buf: self.vram@[vram_index(self.mirroring, addr)],
                    ..s
                },
                self.internal_data_buf,
            )
        } else if PALETTE_START <= addr {
            (s, self.palette_table@[palette_index(addr)])
        } else {
            (s, 0)
        }
    }

    /// Writing 0x2007: CHR ROM ignores the write; nametables and palette take it.
    pub closed spec fn write_to_memory_post(self, data: u8) -> Self {
        let addr = self.address_register.address();
        let step = if self.controller_register.view() & ControllerRegister::VRAM_ADD_INCREMENT
            == ControllerRegister::VRAM_ADD_INCREMENT {
            32u8
        } else {
            1u8
        };
        let s = Ppu { address_register: self.address_register.increment_post(step), ..self };
        if addr <= CHR_ROM_END {
            s
        } else if VRAM_START <= addr && addr <= VRAM_MIRRORS_END {
            Ppu {
                vram: vstd::array::spec_array_update(
                    self.vram,
                    vram_index(self.mirroring, addr),
                    data,
                ),
                ..s
            }
        } else if PALETTE_START <= addr {
            Ppu {
                palette_table: vstd::array::spec_array_update(
                    self.palette_table,
                    palette_index(addr),
                    data,
                ),
                ..s
            }
        } else {
            s
        }
    }

    /// Writing 0x2000.  Turning NMI generation on while VBlank is under way
    /// raises an NMI at once.
    pub closed spec fn write_controller_post(self, data: u8) -> Self {
        let was_off = self.controller_register.view() & ControllerRegister::GENERATE_NMI
            != ControllerRegister::GENERATE_NMI;
        let now_on = data & ControllerRegister::GENERATE_NMI == ControllerRegister::GENERATE_NMI;
        let s = Ppu { controller_register: ControllerRegister::from_bits(data), ..self };
        if was_off && now_on && VBLANK_SCANLINE <= self.scanline && self.scanline
            < SCANLINES_PER_FRAME {
            Ppu { nmi_interrupt: true, ..s }
        } else {
            s
        }
    }

    /// A CPU read of register `register` (0-7).  Reads of the write-only
    /// registers answer 0.
    pub closed spec fn read_register_post(self, register: u16) -> (Self, u8) {
        if register == REG_STATUS {
            self.read_status_post()
        } else if register == REG_OAM_DATA {
            (self, self.oam_data@[self.oam_address as int])
        } else if register == REG_DATA {
            self.read_memory_post()
        } else {
            (self, 0)
        }
    }

    /// A CPU write of register `register` (0-7).  Mask and scroll are not
    /// modelled; the status register ignores writes.
    pub closed spec fn write_register_post(self, register: u16, value: u8) -> Self {
        if register == REG_CONTROLLER {
            self.write_controller_post(value)
        } else if register == REG_OAM_ADDR {
            Ppu { oam_address: value, ..self }
        } else if register == REG_OAM_DATA {
            Ppu {
                oam_data: vstd::array::spec_array_update(
                    self.oam_data,
                    self.oam_address as int,
                    value,
                ),
                oam_address: self.oam_address.wrapping_add(1),
                ..self
            }
        } else if register == REG_ADDRESS {
            self.write_address_post(value)
        } else if register == REG_DATA {
            self.write_to_memory_post(value)
        } else {
            self
        }
    }

    /// The first `count` bytes of an OAM DMA: byte `i` goes to
    /// `oam_address + i`, and the OAM address moves on with each byte.
    pub closed spec fn oam_dma_post(self, data: Seq<u8>, count: nat) -> Self
        decreases count,
    {
        if count == 0 {
            self
        } else {
            let s = self.oam_dma_post(data, (count - 1) as nat);
            Ppu {
                oam_data: vstd::array::spec_array_update(
                    s.oam_data,
                    s.oam_address as int,
                    data[count - 1],
                ),
                oam_address: s.oam_address.wrapping_add(1),
                ..s
            }
        }
    }

    /// `cycles` PPU cycles.  At most one scanline ends per tick; at scanline
    /// 241 VBlank starts (with an NMI when enabled), and after scanline 261
    /// the frame ends: the beam returns to the top, VBlank and the pending
    /// NMI are cleared, and the tick answers true.
    pub closed spec fn tick_post(self, cycles: u16) -> (Self, bool) {
        let total = self.cycles.wrapping_add(cycles as usize);
        if total >= CYCLES_PER_SCANLINE {
            let scanline = (self.scanline + 1) as u16;
            let s1 = Ppu {
                cycles: (total - CYCLES_PER_SCANLINE) as usize,
                scanline,
                ..self
            };
            let s2 = if scanline == VBLANK_SCANLINE {
                let s = Ppu {
                    status_register: StatusRegister::from_bits(
                        s1.status_register.view() | StatusRegister::VBLANK_STARTED,
                    ),
                    ..s1
                };
                if s.controller_register.view() & ControllerRegister::GENERATE_NMI
                    == ControllerRegister::GENERATE_NMI {
                    Ppu { nmi_interrupt: true, ..s }
                } else {
                    s
                }
            } else {
                s1
            };
            if scanline >= SCANLINES_PER_FRAME {
                (
                    Ppu {
                        scanline: 0,
                        nmi_interrupt: false,
                        status_register: StatusRegister::from_bits(
                            s2.status_register.view() & !StatusRegister::VBLANK_STARTED,
                        ),
                        ..s2
                    },
                    true,
                )
            } else {
                (s2, false)
            }
        } else {
            (Ppu { cycles: total as usize, ..self }, false)
        }
    }

    /// The state at power-on: zeroed memories and registers, the address
    /// latch expecting the high byte.
    pub open spec fn power_on(chr_rom: Seq<u8>, mirroring: Mirroring) -> PpuView {
        PpuView {
            chr_rom,
            palette_table: Seq::new(32, |i: int| 0u8),
            vram: Seq::new(2048, |i: int| 0u8),
            oam_data: Seq::new(256, |i: int| 0u8),
            oam_address: 0,
            mirroring,
            controller: 0,
            status: 0,
            nmi_interrupt: false,
            address: 0,
            address_latch_hi: true,
            internal_data_buf: 0,
            cycles: 0,
            scanline: 0,
        }
    }

    pub fn new(chr_rom: Vec<u8>, mirroring: Mirroring) -> (ppu: Self)
        ensures
            ppu.wf(),
            ppu.view() == Self::power_on(chr_rom@, mirroring),
    {
        let ppu = Ppu {
            chr_rom,
            palette_table: [0u8; 32],
            vram: [0u8; 2048],
            oam_data: [0u8; 256],
            oam_address: 0,
            mirroring,
            controller_register: ControllerRegister::new(),
            status_register: StatusRegister::new(),
            address_register: AddressRegister::new(),
            internal_data_buf: 0,
            cycles: 0,
            scanline: 0,
            nmi_interrupt: false,
        };
        proof {
            ControllerRegister::lemma_from_bits(0);
            StatusRegister::lemma_from_bits(0);
            assert(ppu.view().palette_table =~= Seq::new(32, |i: int| 0u8));
            assert(ppu.view().vram =~= Seq::new(2048, |i: int| 0u8));
            assert(ppu.view().oam_data =~= Seq::new(256, |i: int| 0u8));
        }
        ppu
    }

    /// The data port may be used: the address register does not name a
    /// nametable that the PPU's own VRAM cannot hold.
    pub open spec fn data_port_ok(self) -> bool {
        !(self.view().mirroring == Mirroring::FourScreen && VRAM_START <= self.view().address
            && self.view().address <= VRAM_MIRRORS_END && 0x2800 <= self.view().address
            & VRAM_MIRROR_MASK)
    }

    /// Whether `data_port_ok` holds.
    pub fn data_port_usable(&self) -> (ok: bool)
        ensures
            ok == self.data_port_ok(),
        no_unwind
    {
        let addr = self.address_register.get();
        let four_screen = match self.mirroring {
            Mirroring::FourScreen => true,
            _ => false,
        };
        !(four_screen && VRAM_START <= addr && addr <= VRAM_MIRRORS_END && 0x2800 <= addr
            & VRAM_MIRROR_MASK)
    }

    pub proof fn lemma_vram_index(mirroring: Mirroring, addr: u16)
        requires
            VRAM_START <= addr <= VRAM_MIRRORS_END,
            mirroring == Mirroring::FourScreen ==> addr & VRAM_MIRROR_MASK < 0x2800,
        ensures
            addr <= VRAM_END ==> addr & VRAM_MIRROR_MASK == addr,
            VRAM_START <= addr & VRAM_MIRROR_MASK,
            vram_addressable(mirroring, addr),
            0 <= vram_index(mirroring, addr) < 2048,
    {
        assert((addr <= 0x2FFFu16 ==> addr & VRAM_MIRROR_MASK == addr) && 0x2000u16 <= addr
            & VRAM_MIRROR_MASK && addr & VRAM_MIRROR_MASK <= 0x2FFFu16) by (bit_vector)
            requires
                0x2000u16 <= addr <= 0x3EFFu16,
        ;
    }

    /// Reads whether an NMI is pending and clears it.
    pub fn poll_nmi_interrupt(&mut self) -> (nmi: bool)
        ensures
            (*final(self), nmi) == old(self).poll_nmi_post(),
            (final(self).view(), nmi) == old(self).view().nmi_poll(),
            old(self).wf() ==> final(self).wf(),
            final(self).view().mirroring == old(self).view().mirroring,
            final(self).view().cycles == old(self).view().cycles,
        no_unwind
    {
        let nmi = self.nmi_interrupt;
        self.nmi_interrupt = false;
        nmi
    }

    /// A CPU read of a PPU register; `register` is the low three bits of the
    /// CPU address.
    pub fn read_register(&mut self, register: u16) -> (value: u8)
        requires
            old(self).wf(),
            register == REG_DATA ==> old(self).data_port_ok(),
        ensures
            (*final(self), value) == old(self).read_register_post(register),
            (final(self).view(), value) == old(self).view().register_read(register),
            final(self).view().mirroring == old(self).view().mirroring,
            final(self).view().cycles == old(self).view().cycles,
            final(self).wf(),
        no_unwind
    {
        if register == REG_STATUS {
            self.read_status()
        } else if register == REG_OAM_DATA {
            self.oam_data[self.oam_address as usize]
        } else if register == REG_DATA {
            self.read_memory()
        } else {
            0
        }
    }

    /// A CPU write of a PPU register; `register` is the low three bits of
    /// the CPU address.
    pub fn write_to_register(&mut self, register: u16, value: u8)
        requires
            old(self).wf(),
            register == REG_DATA ==> old(self).data_port_ok(),
        ensures
            *final(self) == old(self).write_register_post(register, value),
            final(self).view() == old(self).view().register_write(register, value),
            final(self).view().mirroring == old(self).view().mirroring,
            final(self).view().cycles == old(self).view().cycles,
            final(self).wf(),
        no_unwind
    {
        if register == REG_CONTROLLER {
            self.write_to_controller_register(value);
        } else if register == REG_OAM_ADDR {
            self.oam_address = value;
        } else if register == REG_OAM_DATA {
            self.oam_data[self.oam_address as usize] = value;
            self.oam_address = crate::wrapping::add_u8(self.oam_address, 1);
            proof {
                assert(self.oam_data =~= vstd::array::spec_array_update(
                    old(self).oam_data,
                    old(self).oam_address as int,
                    value,
                ));
            }
        } else if register == REG_ADDRESS {
            self.write_to_address_register(value);
        } else if register == REG_DATA {
            self.write_to_memory(value);
        }
    }

    /// OAM DMA: the 256 bytes go to OAM from the current OAM address on,
    /// wrapping around the 256-byte table.
    pub fn write_oam_dma(&mut self, data: &[u8; 256])
        requires
            old(self).wf(),
        ensures
            *final(self) == old(self).oam_dma_post(data@, 256),
            final(self).view() == old(self).view().oam_dma(data@),
            final(self).view().mirroring == old(self).view().mirroring,
            final(self).view().cycles == old(self).view().cycles,
            final(self).wf(),
        no_unwind
    {
        let mut i: usize = 0;
        while i < 256
            invariant
                i <= 256,
                data@.len() == 256,
                *self == old(self).oam_dma_post(data@, i as nat),
            decreases 256 - i,
        {
            let ghost before = *self;
            self.oam_data[self.oam_address as usize] = data[i];
            self.oam_address = crate::wrapping::add_u8(self.oam_address, 1);
            proof {
                assert(self.oam_data =~= vstd::array::spec_array_update(
                    before.oam_data,
                    before.oam_address as int,
                    data@[i as int],
                ));
            }
            i = i + 1;
        }
        proof {
            lemma_oam_dma_keeps(*old(self), data@, 256);
            lemma_oam_dma_entries(*old(self), data@, 256);
            assert(self.view().oam_data =~= old(self).view().oam_dma(data@).oam_data);
        }
    }

    /// Reading 0x2002.
    pub fn read_status(&mut self) -> (data: u8)
        requires
            old(self).wf(),
        ensures
            (*final(self), data) == old(self).read_status_post(),
            (final(self).view(), data) == old(self).view().status_read(),
            final(self).wf(),
        no_unwind
    {
        let data = self.status_register.bits();
        self.status_register.remove(StatusRegister::VBLANK_STARTED);
        self.address_register.reset_latch();
        proof {
            old(self).address_register.lemma_posts(0, 0);
            StatusRegister::lemma_from_bits(
                old(self).status_register.view() & !StatusRegister::VBLANK_STARTED,
            );
        }
        data
    }

    /// Reading 0x2007.
    pub fn read_memory(&mut self) -> (data: u8)
        requires
            old(self).wf(),
            old(self).data_port_ok(),
        ensures
            (*final(self), data) == old(self).read_memory_post(),
            (final(self).view(), data) == old(self).view().data_read(),
            final(self).wf(),
        no_unwind
    {
        let addr = self.address_register.get();
        let step = self.controller_register.vram_address_step();
        self.address_register.increment(step);
        proof {
            old(self).address_register.lemma_posts(0, step);
        }
        if addr <= CHR_ROM_END {
            let result = self.internal_data_buf;
            self.internal_data_buf = if (addr as usize) < self.chr_rom.len() {
                self.chr_rom[addr as usize]
            } else {
                0
            };
            result
        } else if VRAM_START <= addr && addr <= VRAM_MIRRORS_END {
            proof {
                Self::lemma_vram_index(self.mirroring, addr);
            }
            let result = self.internal_data_buf;
            let index = self.mirror_vram_address(addr);
            self.internal_data_buf = self.vram[index];
            result
        } else if PALETTE_START <= addr {
            self.palette_table[Self::mirror_palette_address(addr)]
        } else {
            0
        }
    }

    /// Writing 0x2007.
    pub fn write_to_memory(&mut self, data: u8)
        requires
            old(self).wf(),
            old(self).data_port_ok(),
        ensures
            *final(self) == old(self).write_to_memory_post(data),
            final(self).view() == old(self).view().data_write(data),
            final(self).wf(),
        no_unwind
    {
        let addr = self.address_register.get();
        let step = self.controller_register.vram_address_step();
        self.address_register.increment(step);
        proof {
            old(self).address_register.lemma_posts(0, step);
        }
        if addr <= CHR_ROM_END {
        } else if VRAM_START <= addr && addr <= VRAM_MIRRORS_END {
            proof {
                Self::lemma_vram_index(self.mirroring, addr);
            }
            let index = self.mirror_vram_address(addr);
            self.vram[index] = data;
            proof {
                assert(self.vram =~= vstd::array::spec_array_update(
                    old(self).vram,
                    vram_index(self.mirroring, addr),
                    data,
                ));
            }
        } else if PALETTE_START <= addr {
            let index = Self::mirror_palette_address(addr);
            self.palette_table[index] = data;
            proof {
                assert(self.palette_table =~= vstd::array::spec_array_update(
                    old(self).palette_table,
                    palette_index(addr),
                    data,
                ));
            }
        }
    }

    /// Writing 0x2006.
    pub fn write_to_address_register(&mut self, data: u8)
        requires
            old(self).wf(),
        ensures
            *final(self) == old(self).write_address_post(data),
            final(self).view() == old(self).view().address_write(data),
            final(self).wf(),
        no_unwind
    {
        self.address_register.write(data);
        proof {
            old(self).address_register.lemma_posts(data, 0);
        }
    }

    /// Writing 0x2000.
    pub fn write_to_controller_register(&mut self, data: u8)
        requires
            old(self).wf(),
        ensures
            *final(self) == old(self).write_controller_post(data),
            final(self).view() == old(self).view().controller_write(data),
            final(self).wf(),
        no_unwind
    {
        let is_nmi_off = !self.controller_register.contains(ControllerRegister::GENERATE_NMI);
        self.controller_register.update(data);
        proof {
            ControllerRegister::lemma_from_bits(data);
        }
        let is_nmi_enabled_by_update = is_nmi_off && self.controller_register.contains(
            ControllerRegister::GENERATE_NMI,
        );
        if is_nmi_enabled_by_update && self.is_in_vblank() {
            self.nmi_interrupt = true;
        }
    }

    /// Advances the PPU by `cycles` PPU cycles; true when a frame ended.
    pub fn tick(&mut self, cycles: u16) -> (frame_done: bool)
        requires
            old(self).wf(),
        ensures
            (*final(self), frame_done) == old(self).tick_post(cycles),
            (final(self).view(), frame_done) == old(self).view().ticked(cycles),
            final(self).wf(),
            final(self).view().mirroring == old(self).view().mirroring,
        no_unwind
    {
        self.cycles = crate::wrapping::add_usize(self.cycles, cycles as usize);
        if self.cycles >= CYCLES_PER_SCANLINE {
            self.cycles = self.cycles - CYCLES_PER_SCANLINE;
            self.scanline = self.scanline + 1;
            if self.scanline == VBLANK_SCANLINE {
                self.status_register.insert(StatusRegister::VBLANK_STARTED);
                proof {
                    StatusRegister::lemma_from_bits(
                        old(self).status_register.view() | StatusRegister::VBLANK_STARTED,
                    );
                }
                if self.controller_register.contains(ControllerRegister::GENERATE_NMI) {
                    self.nmi_interrupt = true;
                }
            }
            if self.scanline >= SCANLINES_PER_FRAME {
                self.scanline = 0;
                self.nmi_interrupt = false;
                self.status_register.remove(StatusRegister::VBLANK_STARTED);
                proof {
                    StatusRegister::lemma_from_bits(
                        old(self).status_register.view() & !StatusRegister::VBLANK_STARTED,
                    );
                }
                return true;
            }
        }
        false
    }

    /// The VRAM index of a nametable address; see `vram_index`.
    pub fn mirror_vram_address(&self, addr: u16) -> (index: usize)
        requires
            vram_addressable(self.view().mirroring, addr),
        ensures
            index == vram_index(self.view().mirroring, addr),
            index < 2048,
        no_unwind
    {
        proof {
            assert(addr & VRAM_MIRROR_MASK <= 0x2FFF) by (bit_vector);
        }
        let mirrored = (addr & VRAM_MIRROR_MASK) - VRAM_START;
        let nametable_index = mirrored / NAMETABLE_SIZE;
        match self.mirroring {
            Mirroring::Vertical => if nametable_index == 2 || nametable_index == 3 {
                (mirrored - NAMETABLE_SIZE * 2) as usize
            } else {
                mirrored as usize
            },
            Mirroring::Horizontal => if nametable_index == 1 || nametable_index == 2 {
                (mirrored - NAMETABLE_SIZE) as usize
            } else if nametable_index == 3 {
                (mirrored - NAMETABLE_SIZE * 2) as usize
            } else {
                mirrored as usize
            },
            Mirroring::FourScreen => mirrored as usize,
        }
    }

    /// The palette-table index of an address in 0x3F00-0x3FFF; see `palette_index`.
    pub fn mirror_palette_address(addr: u16) -> (index: usize)
        requires
            PALETTE_START <= addr,
        ensures
            index == palette_index(addr),
            index < 32,
        no_unwind
    {
        let index = (addr - PALETTE_START) as usize % 32;
        if index == 0x10 || index == 0x14 || index == 0x18 || index == 0x1C {
            index - 0x10
        } else {
            index
        }
    }

    pub fn is_in_vblank(&self) -> (r: bool)
        ensures
            r == self.in_vblank(),
        no_unwind
    {
        VBLANK_SCANLINE <= self.scanline && self.scanline < SCANLINES_PER_FRAME
    }

    pub fn scanline(&self) -> (scanline: u16)
        ensures
            scanline == self.view().scanline,
    {
        self.scanline
    }

    pub fn cycles(&self) -> (cycles: usize)
        ensures
            cycles == self.view().cycles,
    {
        self.cycles
    }

    pub fn nmi_interrupt(&self) -> (nmi: bool)
        ensures
            nmi == self.view().nmi_interrupt,
        no_unwind
    {
        self.nmi_interrupt
    }

    pub fn set_nmi_interrupt(&mut self, value: bool)
        ensures
            *final(self) == old(self).with_nmi(value),
            final(self).view() == (PpuView { nmi_interrupt: value, ..old(self).view() }),
    {
        self.nmi_interrupt = value;
    }
}

impl Ppu {
    /// The tick of `tick_post`, seen through the view, is `PpuView::ticked`.
    pub proof fn lemma_tick_view(self, cycles: u16)
        ensures
            self.tick_post(cycles).0.view() == self.view().ticked(cycles).0,
            self.tick_post(cycles).1 == self.view().ticked(cycles).1,
            self.wf() ==> self.tick_post(cycles).0.wf(),
            self.wf() ==> self.poll_nmi_post().0.wf(),
    {
        let st = self.status_register.view();
        StatusRegister::lemma_from_bits(st | StatusRegister::VBLANK_STARTED);
        StatusRegister::lemma_from_bits(st & !StatusRegister::VBLANK_STARTED);
        StatusRegister::lemma_from_bits(
            (st | StatusRegister::VBLANK_STARTED) & !StatusRegister::VBLANK_STARTED,
        );
    }

    /// A register access, seen through the view, is `PpuView::register_read`
    /// or `PpuView::register_write`; both keep the PPU well formed.
    pub proof fn lemma_register_view(self, register: u16, value: u8)
        requires
            self.wf(),
            register == REG_DATA ==> self.data_port_ok(),
        ensures
            self.read_register_post(register).0.view() == self.view().register_read(register).0,
            self.read_register_post(register).1 == self.view().register_read(register).1,
            self.read_register_post(register).0.wf(),
            self.write_register_post(register, value).view() == self.view().register_write(
                register,
                value,
            ),
            self.write_register_post(register, value).wf(),
    {
        let step = if self.controller_register.view() & ControllerRegister::VRAM_ADD_INCREMENT
            == ControllerRegister::VRAM_ADD_INCREMENT {
            32u8
        } else {
            1u8
        };
        self.address_register.lemma_posts(value, step);
        self.address_register.lemma_posts(value, 0);
        ControllerRegister::lemma_from_bits(value);
        StatusRegister::lemma_from_bits(
            self.status_register.view() & !StatusRegister::VBLANK_STARTED,
        );
        vstd::array::axiom_spec_array_update(self.oam_data, self.oam_address as int, value);
        let addr = self.address_register.address();
        if VRAM_START <= addr && addr <= VRAM_MIRRORS_END && register == REG_DATA {
            Self::lemma_vram_index(self.mirroring, addr);
            vstd::array::axiom_spec_array_update(
                self.vram,
                vram_index(self.mirroring, addr),
                value,
            );
        }
        if PALETTE_START <= addr {
            law_palette_mirroring(addr);
            vstd::array::axiom_spec_array_update(self.palette_table, palette_index(addr), value);
        }
        assert(self.write_register_post(register, value).view().oam_data
            =~= self.view().register_write(register, value).oam_data);
        assert(self.write_register_post(register, value).view().vram
            =~= self.view().register_write(register, value).vram);
        assert(self.write_register_post(register, value).view().palette_table
            =~= self.view().register_write(register, value).palette_table);
    }

    /// Polling the NMI, seen through the view, is `PpuView::nmi_poll`.
    pub proof fn lemma_poll_view(self)
        ensures
            self.poll_nmi_post().0.view() == self.view().nmi_poll().0,
            self.poll_nmi_post().1 == self.view().nmi_poll().1,
    {
    }

    /// A well-formed PPU's beam is within the frame and its address within
    /// the 14-bit PPU space.
    pub proof fn lemma_wf(self)
        requires
            self.wf(),
        ensures
            self.view().scanline < SCANLINES_PER_FRAME,
            self.view().address < 0x4000,
    {
        self.address_register.lemma_posts(0, 0);
    }
}

/// OAM DMA touches only the OAM and its address.
proof fn lemma_oam_dma_keeps(ppu: Ppu, data: Seq<u8>, count: nat)
    ensures
        ppu.oam_dma_post(data, count) == (Ppu {
            oam_data: ppu.oam_dma_post(data, count).oam_data,
            oam_address: ppu.oam_dma_post(data, count).oam_address,
            ..ppu
        }),
    decreases count,
{
    if count > 0 {
        lemma_oam_dma_keeps(ppu, data, (count - 1) as nat);
    }
}

/// After `count` bytes of an OAM DMA, entry `oam_address + i` (mod 256)
/// holds byte `i` for each `i < count`, the other entries are unchanged, and
/// the OAM address has moved on by `count`.
proof fn lemma_oam_dma_entries(ppu: Ppu, data: Seq<u8>, count: nat)
    requires
        count <= 256,
    ensures
        ppu.oam_dma_post(data, count).oam_address as int == (ppu.oam_address + count) % 256,
        forall|j: int|
            0 <= j < 256 ==> #[trigger] ppu.oam_dma_post(data, count).oam_data@[j] == if (j
                - ppu.oam_address) % 256 < count {
                data[(j - ppu.oam_address) % 256]
            } else {
                ppu.oam_data@[j]
            },
    decreases count,
{
    if count > 0 {
        let prev = ppu.oam_dma_post(data, (count - 1) as nat);
        lemma_oam_dma_entries(ppu, data, (count - 1) as nat);
        let at = prev.oam_address as int;
        let a = ppu.oam_address as int;
        vstd::array::axiom_spec_array_update(prev.oam_data, at, data[count - 1]);
        assert forall|j: int| 0 <= j < 256 implies #[trigger] ppu.oam_dma_post(
            data,
            count,
        ).oam_data@[j] == if (j - a) % 256 < count {
            data[(j - a) % 256]
        } else {
            ppu.oam_data@[j]
        } by {
            assert(at == (a + count - 1) % 256);
            assert((j == at) == ((j - a) % 256 == count - 1)) by (nonlinear_arith)
                requires
                    0 <= j < 256,
                    0 <= a < 256,
                    1 <= count <= 256,
                    at == (a + count - 1) % 256,
            ;
        }
    }
}

/// Vertical mirroring lays the nametables out as A B A B, horizontal as
/// A A B B; either way the index is within the 2 KiB of VRAM.
pub proof fn law_vram_mirroring(mirroring: Mirroring, addr: u16)
    requires
        VRAM_START <= addr <= VRAM_END,
        mirroring != Mirroring::FourScreen,
    ensures
        0 <= vram_index(mirroring, addr) < 2048,
        mirroring == Mirroring::Vertical ==> vram_index(mirroring, addr) == (addr - VRAM_START)
            % 0x800,
        mirroring == Mirroring::Horizontal ==> vram_index(mirroring, addr) == ((addr - VRAM_START)
            / 0x800) * 0x400 + (addr - VRAM_START) % 0x400,
{
    Ppu::lemma_vram_index(mirroring, addr);
}

/// The palette repeats every 32 bytes, and the sprite palettes share their
/// transparent entry with the background palettes.
pub proof fn law_palette_mirroring(addr: u16)
    requires
        PALETTE_START <= addr,
    ensures
        0 <= palette_index(addr) < 32,
        palette_index(addr) == palette_index((PALETTE_START + (addr - PALETTE_START) % 32) as u16),
        (addr - PALETTE_START) % 4 == 0 ==> palette_index(addr) == (addr - PALETTE_START) % 16,
        (addr - PALETTE_START) % 4 != 0 ==> palette_index(addr) == (addr - PALETTE_START) % 32,
{
}

/// Polling answers whether an NMI was pending and clears it: a second poll
/// answers false.
pub proof fn law_poll_nmi(ppu: Ppu)
    ensures
        ppu.poll_nmi_post().1 == ppu.view().nmi_interrupt,
        !ppu.poll_nmi_post().0.poll_nmi_post().1,
        ppu.poll_nmi_post().0.view() == (PpuView { nmi_interrupt: false, ..ppu.view() }),
{
}

/// Writing the controller: an NMI is raised at once exactly when the write
/// turns NMI generation on during VBlank; otherwise the pending NMI stays
/// as it was.
pub proof fn law_nmi_on_enable(ppu: Ppu, data: u8)
    ensures
        ppu.write_controller_post(data).view().nmi_interrupt == (ppu.view().nmi_interrupt || (
        ppu.view().controller & ControllerRegister::GENERATE_NMI == 0 && data
            & ControllerRegister::GENERATE_NMI != 0 && ppu.in_vblank())),
        ppu.write_controller_post(data).view().controller == data,
{
    ControllerRegister::lemma_from_bits(data);
    let c = ppu.view().controller;
    assert((c & 0x80u8 != 0x80u8) == (c & 0x80u8 == 0) && (data & 0x80u8 == 0x80u8) == (data
        & 0x80u8 != 0)) by (bit_vector);
}

/// A tick of fewer than 341 cycles ends at most one scanline.  The scanline
/// that the beam reaches is 241 exactly when VBlank starts, which sets the
/// VBlank flag and, with NMI generation on, raises an NMI; reaching 262
/// ends the frame: the beam returns to 0, VBlank and the pending NMI are
/// cleared, and the tick answers true.
pub proof fn law_tick(ppu: Ppu, cycles: u16)
    requires
        ppu.wf(),
        cycles < CYCLES_PER_SCANLINE,
        ppu.view().cycles < CYCLES_PER_SCANLINE,
    ensures
        ({
            let (post, frame_done) = ppu.tick_post(cycles);
            let v = ppu.view();
            let p = post.view();
            let crossed = v.cycles + cycles >= CYCLES_PER_SCANLINE;
            &&& p.cycles < CYCLES_PER_SCANLINE
            &&& p.cycles == (v.cycles + cycles) % (CYCLES_PER_SCANLINE as int)
            &&& !crossed ==> post.view() == (PpuView { cycles: p.cycles, ..v })
            &&& frame_done == (crossed && v.scanline == SCANLINES_PER_FRAME - 1)
            &&& crossed && v.scanline + 1 < SCANLINES_PER_FRAME ==> p.scanline == v.scanline + 1
            &&& frame_done ==> p.scanline == 0 && !p.nmi_interrupt && p.status
                & StatusRegister::VBLANK_STARTED == 0
            &&& crossed && v.scanline + 1 == VBLANK_SCANLINE ==> p.status
                & StatusRegister::VBLANK_STARTED != 0 && p.nmi_interrupt == (v.nmi_interrupt || v.controller
                & ControllerRegister::GENERATE_NMI == ControllerRegister::GENERATE_NMI)
        }),
{
    let v = ppu.view();
    let s = v.status;
    StatusRegister::lemma_from_bits(s | StatusRegister::VBLANK_STARTED);
    StatusRegister::lemma_from_bits(s & !StatusRegister::VBLANK_STARTED);
    StatusRegister::lemma_from_bits((s | StatusRegister::VBLANK_STARTED) & !StatusRegister::VBLANK_STARTED);
    assert((s | 0x80u8) & 0x80u8 != 0 && (s & !0x80u8) & 0x80u8 == 0 && ((s | 0x80u8) & !0x80u8)
        & 0x80u8 == 0) by (bit_vector);
}

/// Sets the address register with two writes of 0x2006, high byte first.
pub open spec fn set_address_post(ppu: Ppu, hi: u8, lo: u8) -> Ppu {
    ppu.write_register_post(REG_ADDRESS, hi).write_register_post(REG_ADDRESS, lo)
}

/// Two writes of 0x2006, from a latch at the high byte, set the address to
/// the 14-bit value of the two bytes and leave the latch at the high byte.
pub proof fn law_set_address(ppu: Ppu, hi: u8, lo: u8)
    requires
        ppu.wf(),
        ppu.view().address_latch_hi,
    ensures
        set_address_post(ppu, hi, lo).wf(),
        set_address_post(ppu, hi, lo).view().address == (hi as int * 256 + lo) % 0x4000,
        set_address_post(ppu, hi, lo).view().address_latch_hi,
        set_address_post(ppu, hi, lo).view() == (PpuView {
            address: set_address_post(ppu, hi, lo).view().address,
            ..ppu.view()
        }),
{
    let r = ppu.address_register;
    r.lemma_posts(hi, 0);
    let r1 = r.write_post(hi);
    r1.lemma_posts(lo, 0);
    let p1 = ppu.write_register_post(REG_ADDRESS, hi);
    assert(p1 == Ppu { address_register: r1, ..ppu });
    let p2 = p1.write_register_post(REG_ADDRESS, lo);
    assert(p2 == Ppu { address_register: r1.write_post(lo), ..ppu });
}

/// How far the data port moves the address after each access.
pub open spec fn data_step(ppu: Ppu) -> int {
    if ppu.view().controller & ControllerRegister::VRAM_ADD_INCREMENT
        == ControllerRegister::VRAM_ADD_INCREMENT {
        32
    } else {
        1
    }
}

/// A byte written to a nametable through 0x2007 comes back through 0x2007:
/// after the address is set again, the first read returns the stale buffer
/// and the second the byte written.  (When the address has moved on into
/// the palette the second read answers a palette entry instead, so that case
/// is left out.)
pub proof fn law_vram_write_read(ppu: Ppu, hi: u8, lo: u8, data: u8)
    requires
        ppu.wf(),
        ppu.view().address_latch_hi,
        ppu.view().mirroring != Mirroring::FourScreen,
        VRAM_START <= (hi as int * 256 + lo) % 0x4000,
        (hi as int * 256 + lo) % 0x4000 + data_step(ppu) <= VRAM_MIRRORS_END,
    ensures
        ({
            let written = set_address_post(ppu, hi, lo).write_register_post(REG_DATA, data);
            let (first, _) = set_address_post(written, hi, lo).read_register_post(REG_DATA);
            first.read_register_post(REG_DATA).1 == data
        }),
{
    law_set_address(ppu, hi, lo);
    let p1 = set_address_post(ppu, hi, lo);
    let addr = p1.address_register.address();
    Ppu::lemma_vram_index(p1.mirroring, addr);
    let step = if p1.controller_register.view() & ControllerRegister::VRAM_ADD_INCREMENT
        == ControllerRegister::VRAM_ADD_INCREMENT {
        32u8
    } else {
        1u8
    };
    p1.address_register.lemma_posts(0, step);
    let written = p1.write_register_post(REG_DATA, data);
    vstd::array::axiom_spec_array_update(p1.vram, vram_index(p1.mirroring, addr), data);
    law_set_address(written, hi, lo);
    assert(written.view().vram[vram_index(p1.mirroring, addr)] == data);
    let p2 = set_address_post(written, hi, lo);
    assert(p2.view().vram == written.view().vram);
    assert(p2.view().controller == ppu.view().controller);
    p2.address_register.lemma_posts(0, step);
    let first = p2.read_register_post(REG_DATA).0;
    assert(first.internal_data_buf == data);
    assert(first.address_register.address() == addr + step);
}

/// A byte written to the palette through 0x2007 comes back through 0x2007
/// at once, without the buffer's delay, once the address is set again; the
/// same holds for the mirrors of its entry.
pub proof fn law_palette_write_read(ppu: Ppu, hi: u8, lo: u8, data: u8, mirror_lo: u8)
    requires
        ppu.wf(),
        ppu.view().address_latch_hi,
        PALETTE_START <= (hi as int * 256 + lo) % 0x4000,
        PALETTE_START <= (hi as int * 256 + mirror_lo) % 0x4000,
        palette_index(((hi as int * 256 + lo) % 0x4000) as u16) == palette_index(
            ((hi as int * 256 + mirror_lo) % 0x4000) as u16,
        ),
    ensures
        ({
            let written = set_address_post(ppu, hi, lo).write_register_post(REG_DATA, data);
            set_address_post(written, hi, mirror_lo).read_register_post(REG_DATA).1 == data
        }),
{
    law_set_address(ppu, hi, lo);
    let p1 = set_address_post(ppu, hi, lo);
    let addr = p1.address_register.address();
    let step = if p1.controller_register.view() & ControllerRegister::VRAM_ADD_INCREMENT
        == ControllerRegister::VRAM_ADD_INCREMENT {
        32u8
    } else {
        1u8
    };
    p1.address_register.lemma_posts(0, step);
    law_palette_mirroring(addr);
    let written = p1.write_register_post(REG_DATA, data);
    vstd::array::axiom_spec_array_update(p1.palette_table, palette_index(addr), data);
    law_set_address(written, hi, mirror_lo);
    let p2 = set_address_post(written, hi, mirror_lo);
    assert(p2.view().palette_table == written.view().palette_table);
}

/// Reading 0x2002 answers the status, clears VBlank and points the address
/// latch at the high byte, whatever it pointed at: the next two 0x2006
/// writes set the address to their 14-bit value, high byte first.
pub proof fn law_status_read_resets_latch(ppu: Ppu, hi: u8, lo: u8)
    requires
        ppu.wf(),
    ensures
        ({
            let (after, status) = ppu.read_register_post(REG_STATUS);
            let set = set_address_post(after, hi, lo);
            &&& status == ppu.view().status
            &&& after.view().status & StatusRegister::VBLANK_STARTED == 0
            &&& after.view().address_latch_hi
            &&& set.view().address == (hi as int * 256 + lo) % 0x4000
            &&& set.view().address_latch_hi
        }),
        ({
            let (after, status) = ppu.view().register_read(REG_STATUS);
            let set = after.register_write(REG_ADDRESS, hi).register_write(REG_ADDRESS, lo);
            &&& status == ppu.view().status
            &&& after.address_latch_hi
            &&& set.address == (hi as int * 256 + lo) % 0x4000
            &&& set.address_latch_hi
        }),
{
    ppu.lemma_register_view(REG_STATUS, 0);
    let after = ppu.read_register_post(REG_STATUS).0;
    law_set_address(after, hi, lo);
    let st = ppu.view().status;
    crate::cpu::flags::lemma_byte_facts(st);
    ppu.lemma_wf();
    let a = ppu.view().address;
    assert(((hi as int * 256 + a % 256) % 0x4000) / 256 * 256 + lo == (hi as int * 256 + lo)
        % 0x4000) by (nonlinear_arith)
        requires
            a < 0x4000,
    ;
}

/// The data port (0x2007): every access moves the address on by 1, or by 32
/// when bit 2 of the controller is set, within 14 bits.  Reads below the
/// palette answer the internal buffer and refill it from the address read
/// (CHR ROM, or VRAM through the nametable mirroring); palette reads answer
/// the palette entry at once and leave the buffer.
pub proof fn law_data_port(v: PpuView, data: u8)
    ensures
        ({
            let step = if (v.controller / 4) % 2 == 1 {
                32int
            } else {
                1int
            };
            let (after, value) = v.data_read();
            let written = v.data_write(data);
            &&& after.address == (v.address + step) % 0x4000
            &&& written.address == (v.address + step) % 0x4000
            &&& v.address < PALETTE_START ==> value == v.internal_data_buf
            &&& v.address <= CHR_ROM_END ==> after.internal_data_buf == v.chr_byte(v.address)
            &&& VRAM_START <= v.address < PALETTE_START ==> after.internal_data_buf == v.vram[vram_index(
                v.mirroring,
                v.address,
            )]
            &&& PALETTE_START <= v.address ==> value == v.palette_table[palette_index(v.address)]
                && after.internal_data_buf == v.internal_data_buf
            &&& v.address <= CHR_ROM_END ==> written == (PpuView { address: written.address, ..v })
            &&& VRAM_START <= v.address < PALETTE_START ==> written.vram == v.vram.update(
                vram_index(v.mirroring, v.address),
                data,
            )
            &&& PALETTE_START <= v.address ==> written.palette_table == v.palette_table.update(
                palette_index(v.address),
                data,
            )
        }),
{
    let c = v.controller;
    crate::cpu::flags::lemma_byte_facts(c);
}

/// A byte written to OAM through 0x2004 comes back through 0x2004 once the
/// OAM address is set again through 0x2003; writes move the OAM address on,
/// reads do not.
pub proof fn law_oam_write_read(ppu: Ppu, addr: u8, data: u8)
    ensures
        ({
            let written = ppu.view().register_write(REG_OAM_ADDR, addr).register_write(
                REG_OAM_DATA,
                data,
            );
            &&& written.oam_address == addr.wrapping_add(1)
            &&& written.register_write(REG_OAM_ADDR, addr).register_read(REG_OAM_DATA)
                == (written.register_write(REG_OAM_ADDR, addr), data)
        }),
{
}

} // verus!
