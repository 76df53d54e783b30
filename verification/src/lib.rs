//! A NES emulator core: the 6502 CPU, the PPU, the cartridge reader,
//! the controller port and the bus that wires them together.
//!
//! NES memory map
//!
//! CPU                            PPU
//! 0x0000 - 0x1FFF  RAM           0x0000 - 0x1FFF  CHR ROM
//! 0x2000 - 0x2007  PPU I/O       0x2000 - 0x2FFF  VRAM
//! 0x4000 - 0x401F  APU/I/O       0x3F00 - 0x3FFF  palette
//! 0x8000 - 0xFFFF  PRG ROM
use vstd::prelude::*;

pub mod bus;
pub mod cartridge;
pub mod cpu;
pub mod debug;
pub mod joypad;
pub mod memory;
pub mod ppu;
pub mod wrapping;

verus! {

/// How the nametables of the PPU are laid over its 2 KiB of VRAM.
#[derive(Debug, Clone, Copy, PartialEq, Eq, Structural)]
pub enum Mirroring {
    Vertical,
    Horizontal,
    FourScreen,
}

/// Declares `std::io::Error` so that the error type can carry it.
#[verifier::external_type_specification]
#[verifier::external_body]
pub struct ExIoError(std::io::Error);

/// The fatal outcomes of loading and running a program.
#[derive(Debug)]
pub enum NesError {
    RomRead(std::io::Error),
    RomParse(String),
    Sdl(String),
    UnknownOpcode { opcode: u8, pc: u16 },
}

impl From<std::io::Error> for NesError {
    fn from(error: std::io::Error) -> (r: Self) {
        NesError::RomRead(error)
    }
}

impl vstd::std_specs::convert::FromSpecImpl<std::io::Error> for NesError {
    open spec fn obeys_from_spec() -> bool {
        true
    }

    open spec fn from_spec(v: std::io::Error) -> Self {
        NesError::RomRead(v)
    }
}

} // verus!
