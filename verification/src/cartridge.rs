use vstd::prelude::*;

use crate::Mirroring;

verus! {

broadcast use vstd::string::group_string_axioms;

// iNES header: "NES" and the MS-DOS end-of-file byte, then sizes and flags.
pub const INES_HEADER_SIZE: usize = 16;

pub const OFFSET_PRG_ROM_SIZE: usize = 4;  // PRG ROM size in 16 KiB units
pub const OFFSET_CHR_ROM_SIZE: usize = 5;  // CHR ROM size in 8 KiB units (0: CHR RAM)
pub const OFFSET_FLAGS_6: usize = 6;  // mirroring, battery, trainer, mapper low nibble
pub const OFFSET_FLAGS_7: usize = 7;  // mapper high nibble, NES 2.0

pub const FLAG6_MIRRORING_BIT: u8 = 0b0000_0001;  // 0: horizontal, 1: vertical
pub const FLAG6_HAS_TRAINER: u8 = 0b0000_0100;  // a 512-byte trainer precedes PRG ROM
pub const FLAG6_FOUR_SCREEN_BIT: u8 = 0b0000_1000;
pub const FLAG7_NES_2_0_MASK: u8 = 0b0000_1100;  // 2 in bits 2-3: NES 2.0
pub const FLAG7_MAPPER_HIGH: u8 = 0b1111_0000;

pub const PRG_ROM_PAGE_SIZE: usize = 16384;
pub const CHR_ROM_PAGE_SIZE: usize = 8192;
pub const TRAINER_SIZE: usize = 512;

/// The parts of an iNES file that the emulator uses.
pub struct Rom {
    pub prg_rom: Vec<u8>,
    pub chr_rom: Vec<u8>,
    pub mapper: u8,
    pub screen_mirroring: Mirroring,
}

/// The file starts with a full header and the iNES tag.
pub open spec fn has_ines_header(raw: Seq<u8>) -> bool {
    &&& raw.len() >= INES_HEADER_SIZE
    &&& raw[0] == 0x4E
    &&& raw[1] == 0x45
    &&& raw[2] == 0x53
    &&& raw[3] == 0x1A
}

/// Bits 2-3 of flags 7 hold 2: the NES 2.0 format.
pub open spec fn is_nes2(raw: Seq<u8>) -> bool {
    (raw[OFFSET_FLAGS_7 as int] & FLAG7_NES_2_0_MASK) >> 2u8 == 2
}

/// The mapper number: high nibble from flags 7, low nibble from flags 6.
pub open spec fn mapper_of(raw: Seq<u8>) -> u8 {
    (raw[OFFSET_FLAGS_7 as int] & FLAG7_MAPPER_HIGH) | (raw[OFFSET_FLAGS_6 as int] >> 4u8)
}

/// Four-screen wins over the mirroring bit.
pub open spec fn mirroring_of(raw: Seq<u8>) -> Mirroring {
    let flags = raw[OFFSET_FLAGS_6 as int];
    if flags & FLAG6_FOUR_SCREEN_BIT != 0 {
        Mirroring::FourScreen
    } else if flags & FLAG6_MIRRORING_BIT != 0 {
        Mirroring::Vertical
    } else {
        Mirroring::Horizontal
    }
}

pub open spec fn prg_rom_size(raw: Seq<u8>) -> int {
    raw[OFFSET_PRG_ROM_SIZE as int] * PRG_ROM_PAGE_SIZE
}

pub open spec fn chr_rom_size(raw: Seq<u8>) -> int {
    raw[OFFSET_CHR_ROM_SIZE as int] * CHR_ROM_PAGE_SIZE
}

/// PRG ROM follows the header and, when there is one, the trainer.
pub open spec fn prg_rom_start(raw: Seq<u8>) -> int {
    INES_HEADER_SIZE + if raw[OFFSET_FLAGS_6 as int] & FLAG6_HAS_TRAINER != 0 {
        TRAINER_SIZE as int
    } else {
        0
    }
}

pub open spec fn chr_rom_start(raw: Seq<u8>) -> int {
    prg_rom_start(raw) + prg_rom_size(raw)
}

/// The file holds both ROMs in full.
pub open spec fn is_long_enough(raw: Seq<u8>) -> bool {
    raw.len() >= chr_rom_start(raw) + chr_rom_size(raw)
}

/// Copies `raw[start..end]`.
fn copy_range(raw: &[u8], start: usize, end: usize) -> (out: Vec<u8>)
    requires
        start <= end <= raw@.len(),
    ensures
        out@ == raw@.subrange(start as int, end as int),
{
    let mut out: Vec<u8> = Vec::new();
    let mut i = start;
    while i < end
        invariant
            start <= i <= end <= raw@.len(),
            out@ == raw@.subrange(start as int, i as int),
        decreases end - i,
    {
        out.push(raw[i]);
        i = i + 1;
        assert(out@ =~= raw@.subrange(start as int, i as int));
    }
    out
}

impl Rom {
    /// A cartridge holding `program` at 0x8000 in 32 KiB of PRG ROM, with the
    /// reset vector pointing at it, no CHR ROM, mapper 0 and horizontal
    /// mirroring.
    pub fn with_program(program: &[u8]) -> (rom: Rom)
        requires
            program@.len() <= 2 * PRG_ROM_PAGE_SIZE,
        ensures
            rom.prg_rom@.len() == 2 * PRG_ROM_PAGE_SIZE,
            forall|i: int|
                0 <= i < 2 * PRG_ROM_PAGE_SIZE ==> #[trigger] rom.prg_rom@[i] == if i == 0x7FFC {
                    0x00
                } else if i == 0x7FFD {
                    0x80
                } else if i < program@.len() {
                    program@[i]
                } else {
                    0
                },
            rom.chr_rom@.len() == 0,
            rom.mapper == 0,
            rom.screen_mirroring == Mirroring::Horizontal,
    {
        let mut prg_rom: Vec<u8> = vec![0u8; PRG_ROM_PAGE_SIZE * 2];
        let mut i: usize = 0;
        while i < program.len()
            invariant
                i <= program@.len() <= 2 * PRG_ROM_PAGE_SIZE,
                prg_rom@.len() == 2 * PRG_ROM_PAGE_SIZE,
                forall|j: int|
                    0 <= j < 2 * PRG_ROM_PAGE_SIZE ==> #[trigger] prg_rom@[j] == if j < i {
                        program@[j]
                    } else {
                        0
                    },
            decreases program@.len() - i,
        {
            prg_rom.set(i, program[i]);
            i = i + 1;
        }
        // The reset vector (0xFFFC-0xFFFD) sits at 0x7FFC in PRG ROM: 0x8000.
        prg_rom.set(0x7FFC, 0x00);
        prg_rom.set(0x7FFD, 0x80);
        Rom { prg_rom, chr_rom: Vec::new(), mapper: 0, screen_mirroring: Mirroring::Horizontal }
    }

    /// Reads an iNES file.  Refused: a file without the iNES header, an
    /// NES 2.0 file, and a file shorter than the ROMs its header announces.
    pub fn new(raw: &[u8]) -> (result: Result<Rom, String>)
        ensures
            !has_ines_header(raw@) <==> (result is Err && result->Err_0@
                == "File is not in iNES file format"@),
            has_ines_header(raw@) && is_nes2(raw@) <==> (result is Err && result->Err_0@
                == "NES2.0 format is not supported"@),
            has_ines_header(raw@) && !is_nes2(raw@) && !is_long_enough(raw@) <==> (result is Err
                && result->Err_0@ == "ROM file is too short"@),
            result is Ok <==> has_ines_header(raw@) && !is_nes2(raw@) && is_long_enough(raw@),
            result matches Ok(rom) ==> {
                &&& rom.prg_rom@ == raw@.subrange(
                    prg_rom_start(raw@),
                    prg_rom_start(raw@) + prg_rom_size(raw@),
                )
                &&& rom.chr_rom@ == raw@.subrange(
                    chr_rom_start(raw@),
                    chr_rom_start(raw@) + chr_rom_size(raw@),
                )
                &&& rom.mapper == mapper_of(raw@)
                &&& rom.screen_mirroring == mirroring_of(raw@)
            },
    {
        proof {
            reveal_strlit("File is not in iNES file format");
            reveal_strlit("NES2.0 format is not supported");
            reveal_strlit("ROM file is too short");
            assert("File is not in iNES file format"@[0] == 'F');
            assert("NES2.0 format is not supported"@[0] == 'N');
            assert("ROM file is too short"@[0] == 'R');
        }
        if raw.len() < INES_HEADER_SIZE || raw[0] != 0x4E || raw[1] != 0x45 || raw[2] != 0x53
            || raw[3] != 0x1A {
            return Err("File is not in iNES file format".to_string());
        }
        let mapper = (raw[OFFSET_FLAGS_7] & FLAG7_MAPPER_HIGH) | (raw[OFFSET_FLAGS_6] >> 4u8);

        let ines_ver = (raw[OFFSET_FLAGS_7] & FLAG7_NES_2_0_MASK) >> 2u8;
        if ines_ver == 2 {
            return Err("NES2.0 format is not supported".to_string());
        }
        let four_screen = raw[OFFSET_FLAGS_6] & FLAG6_FOUR_SCREEN_BIT != 0;
        let vertical_mirroring = raw[OFFSET_FLAGS_6] & FLAG6_MIRRORING_BIT != 0;
        let screen_mirroring = if four_screen {
            Mirroring::FourScreen
        } else if vertical_mirroring {
            Mirroring::Vertical
        } else {
            Mirroring::Horizontal
        };

        let prg_rom_size = raw[OFFSET_PRG_ROM_SIZE] as usize * PRG_ROM_PAGE_SIZE;
        let chr_rom_size = raw[OFFSET_CHR_ROM_SIZE] as usize * CHR_ROM_PAGE_SIZE;

        let skip_trainer = raw[OFFSET_FLAGS_6] & FLAG6_HAS_TRAINER != 0;
        let prg_rom_start = INES_HEADER_SIZE + if skip_trainer {
            TRAINER_SIZE
        } else {
            0
        };
        let chr_rom_start = prg_rom_start + prg_rom_size;

        if raw.len() < chr_rom_start + chr_rom_size {
            return Err("ROM file is too short".to_string());
        }
        Ok(
            Rom {
                prg_rom: copy_range(raw, prg_rom_start, prg_rom_start + prg_rom_size),
                chr_rom: copy_range(raw, chr_rom_start, chr_rom_start + chr_rom_size),
                mapper,
                screen_mirroring,
            },
        )
    }
}

} // verus!
