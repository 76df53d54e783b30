use vstd::prelude::*;

use super::addressing_mode::AddressingMode;
use super::instructions::branch::Condition;
use super::instructions::load_store::Register;
use super::instructions::logical::LogicKind;
use super::instructions::shift::ShiftKind;
use super::opcodes::{Operation, decode_spec};

verus! {

// The 6502 lays most of its opcodes out as aaabbbcc: the column cc picks a
// group, aaa the operation within it and bbb the addressing mode.  The
// branches are xxy10000: xx picks the flag (N, V, C, Z) and y the value that
// takes the branch.

/// Column 01: the accumulator operations, all eight modes.
pub open spec fn column_one(aaa: u8, bbb: u8) -> Option<(Operation, AddressingMode)> {
    let operation = if aaa == 0 {
        Operation::Logic(LogicKind::Ora)
    } else if aaa == 1 {
        Operation::Logic(LogicKind::And)
    } else if aaa == 2 {
        Operation::Logic(LogicKind::Eor)
    } else if aaa == 3 {
        Operation::Adc
    } else if aaa == 4 {
        Operation::Store(Register::A)
    } else if aaa == 5 {
        Operation::Load(Register::A)
    } else if aaa == 6 {
        Operation::Compare(Register::A)
    } else {
        Operation::Sbc
    };
    let mode = if bbb == 0 {
        AddressingMode::Indirect_X
    } else if bbb == 1 {
        AddressingMode::ZeroPage
    } else if bbb == 2 {
        AddressingMode::Immediate
    } else if bbb == 3 {
        AddressingMode::Absolute
    } else if bbb == 4 {
        AddressingMode::Indirect_Y
    } else if bbb == 5 {
        AddressingMode::ZeroPage_X
    } else if bbb == 6 {
        AddressingMode::Absolute_Y
    } else {
        AddressingMode::Absolute_X
    };
    if aaa == 4 && bbb == 2 {
        None  // there is no store to an immediate

    } else {
        Some((operation, mode))
    }
}

/// The modes of columns 00 and 10 (read-modify-write and X/Y operations):
/// 000 immediate, 001 zero page, 011 absolute, 101 zero page indexed,
/// 111 absolute indexed, indexed by Y for STX and LDX, else by X.
pub open spec fn column_mode(bbb: u8, by_y: bool) -> AddressingMode {
    if bbb == 0 {
        AddressingMode::Immediate
    } else if bbb == 1 {
        AddressingMode::ZeroPage
    } else if bbb == 3 {
        AddressingMode::Absolute
    } else if bbb == 5 {
        if by_y {
            AddressingMode::ZeroPage_Y
        } else {
            AddressingMode::ZeroPage_X
        }
    } else {
        if by_y {
            AddressingMode::Absolute_Y
        } else {
            AddressingMode::Absolute_X
        }
    }
}

/// Column 10: the shifts (also on the accumulator, bbb == 010), STX, LDX,
/// DEC and INC.
pub open spec fn column_two(aaa: u8, bbb: u8) -> Option<(Operation, AddressingMode)> {
    if aaa < 4 {
        let operation = if aaa == 0 {
            Operation::Shift(ShiftKind::Asl)
        } else if aaa == 1 {
            Operation::Shift(ShiftKind::Rol)
        } else if aaa == 2 {
            Operation::Shift(ShiftKind::Lsr)
        } else {
            Operation::Shift(ShiftKind::Ror)
        };
        if bbb == 2 {
            Some((operation, AddressingMode::Accumulator))
        } else if bbb == 1 || bbb == 3 || bbb == 5 || bbb == 7 {
            Some((operation, column_mode(bbb, false)))
        } else {
            None
        }
    } else if aaa == 4 {
        if bbb == 1 || bbb == 3 || bbb == 5 {
            Some((Operation::Store(Register::X), column_mode(bbb, true)))
        } else {
            None
        }
    } else if aaa == 5 {
        if bbb == 0 || bbb == 1 || bbb == 3 || bbb == 5 || bbb == 7 {
            Some((Operation::Load(Register::X), column_mode(bbb, true)))
        } else {
            None
        }
    } else {
        let operation = if aaa == 6 {
            Operation::Dec
        } else {
            Operation::Inc
        };
        if bbb == 1 || bbb == 3 || bbb == 5 || bbb == 7 {
            Some((operation, column_mode(bbb, false)))
        } else {
            None
        }
    }
}

/// Column 00: BIT, STY, LDY, CPY and CPX.
pub open spec fn column_zero(aaa: u8, bbb: u8) -> Option<(Operation, AddressingMode)> {
    if aaa == 1 {
        if bbb == 1 || bbb == 3 {
            Some((Operation::Bit, column_mode(bbb, false)))
        } else {
            None
        }
    } else if aaa == 4 {
        if bbb == 1 || bbb == 3 || bbb == 5 {
            Some((Operation::Store(Register::Y), column_mode(bbb, false)))
        } else {
            None
        }
    } else if aaa == 5 {
        if bbb == 0 || bbb == 1 || bbb == 3 || bbb == 5 || bbb == 7 {
            Some((Operation::Load(Register::Y), column_mode(bbb, false)))
        } else {
            None
        }
    } else if aaa == 6 || aaa == 7 {
        let register = if aaa == 6 {
            Register::Y
        } else {
            Register::X
        };
        if bbb == 0 || bbb == 1 || bbb == 3 {
            Some((Operation::Compare(register), column_mode(bbb, false)))
        } else {
            None
        }
    } else {
        None
    }
}

/// The branch of opcode xxy10000: xx picks the flag (N, V, C, Z), y the
/// value on which it branches.
pub open spec fn branch_condition(xx: u8, y: u8) -> Condition {
    if xx == 0 {
        if y == 0 {
            Condition::Plus
        } else {
            Condition::Minus
        }
    } else if xx == 1 {
        if y == 0 {
            Condition::OverflowClear
        } else {
            Condition::OverflowSet
        }
    } else if xx == 2 {
        if y == 0 {
            Condition::CarryClear
        } else {
            Condition::CarrySet
        }
    } else {
        if y == 0 {
            Condition::NotEqual
        } else {
            Condition::Equal
        }
    }
}

/// The one-byte instructions of column 00 at bbb == 010 and 110, by aaa.
pub open spec fn column_zero_single(aaa: u8, bbb: u8) -> Operation {
    if bbb == 2 {
        if aaa == 0 {
            Operation::Php
        } else if aaa == 1 {
            Operation::Plp
        } else if aaa == 2 {
            Operation::Pha
        } else if aaa == 3 {
            Operation::Pla
        } else if aaa == 4 {
            Operation::Dey
        } else if aaa == 5 {
            Operation::Tay
        } else if aaa == 6 {
            Operation::Iny
        } else {
            Operation::Inx
        }
    } else {
        if aaa == 0 {
            Operation::Clc
        } else if aaa == 1 {
            Operation::Sec
        } else if aaa == 2 {
            Operation::Cli
        } else if aaa == 3 {
            Operation::Sei
        } else if aaa == 4 {
            Operation::Tya
        } else if aaa == 5 {
            Operation::Clv
        } else if aaa == 6 {
            Operation::Cld
        } else {
            Operation::Sed
        }
    }
}

/// Lift a layout cell whose mode the instruction uses.
pub open spec fn with_mode(cell: Option<(Operation, AddressingMode)>) -> Option<
    (Operation, Option<AddressingMode>),
> {
    match cell {
        Some((operation, mode)) => Some((operation, Some(mode))),
        None => None,
    }
}

/// What the opcode layout says an opcode is: the operation and, for the
/// instructions that find an operand through an addressing mode, the mode;
/// `None` for the opcodes that the layout leaves empty (no official
/// instruction).
pub open spec fn layout(opcode: u8) -> Option<(Operation, Option<AddressingMode>)> {
    let aaa = (opcode / 32) as u8;
    let bbb = ((opcode / 4) % 8) as u8;
    let cc = opcode % 4;
    if opcode % 32 == 16 {
        Some((
            Operation::Branch(branch_condition((opcode / 64) as u8, ((opcode / 32) % 2) as u8)),
            None,
        ))
    } else if cc == 1 {
        with_mode(column_one(aaa, bbb))
    } else if cc == 2 {
        if bbb == 2 && aaa >= 4 {
            Some((
                if aaa == 4 {
                    Operation::Txa
                } else if aaa == 5 {
                    Operation::Tax
                } else if aaa == 6 {
                    Operation::Dex
                } else {
                    Operation::Nop
                },
                None,
            ))
        } else if bbb == 6 {
            if aaa == 4 {
                Some((Operation::Txs, None))
            } else if aaa == 5 {
                Some((Operation::Tsx, None))
            } else {
                None
            }
        } else {
            with_mode(column_two(aaa, bbb))
        }
    } else if cc == 0 {
        if bbb == 2 || bbb == 6 {
            Some((column_zero_single(aaa, bbb), None))
        } else if bbb == 0 && aaa < 4 {
            Some((
                if aaa == 0 {
                    Operation::Brk
                } else if aaa == 1 {
                    Operation::Jsr
                } else if aaa == 2 {
                    Operation::Rti
                } else {
                    Operation::Rts
                },
                None,
            ))
        } else if bbb == 3 && aaa == 2 {
            Some((Operation::Jmp, None))
        } else if bbb == 3 && aaa == 3 {
            Some((Operation::JmpIndirect, None))
        } else {
            with_mode(column_zero(aaa, bbb))
        }
    } else {
        None
    }
}

/// The base cycle count of an opcode that the layout assigns: reads take
/// 2 (immediate), 3 (zero page), 4 (zero page indexed, absolute, absolute
/// indexed), 6 ((zp,X)) or 5 ((zp),Y); stores take one more for absolute
/// indexed and (zp),Y; read-modify-write instructions take 2 on the
/// accumulator, else 5, 6, 6, 7; one-byte instructions take 2, pushes 3 and
/// pulls 4; branches 2; BRK 7, JSR, RTI and RTS 6, JMP 3 and JMP
/// (indirect) 5.
pub open spec fn layout_cycles(opcode: u8) -> u8 {
    let aaa = opcode / 32;
    let bbb = (opcode / 4) % 8;
    let cc = opcode % 4;
    if opcode % 32 == 16 {
        2
    } else if cc == 1 {
        if bbb == 0 {
            6
        } else if bbb == 1 {
            3
        } else if bbb == 2 {
            2
        } else if bbb == 4 {
            if aaa == 4 {
                6
            } else {
                5
            }
        } else if (bbb == 6 || bbb == 7) && aaa == 4 {
            5
        } else {
            4
        }
    } else if cc == 2 && aaa != 4 && aaa != 5 {
        if bbb == 2 || bbb == 6 {
            2
        } else if bbb == 1 {
            5
        } else if bbb == 7 {
            7
        } else {
            6
        }
    } else if cc == 0 && bbb == 2 {
        if aaa == 0 || aaa == 2 {
            3
        } else if aaa == 1 || aaa == 3 {
            4
        } else {
            2
        }
    } else if cc == 0 && bbb == 0 && aaa < 4 {
        if aaa == 0 {
            7
        } else {
            6
        }
    } else if cc == 0 && bbb == 3 && aaa == 2 {
        3
    } else if cc == 0 && bbb == 3 && aaa == 3 {
        5
    } else {
        if bbb == 0 || bbb == 2 || bbb == 6 {
            2
        } else if bbb == 1 {
            3
        } else {
            4
        }
    }
}

/// The decoder agrees with the layout at one opcode.
pub open spec fn decodes_as_laid_out(opcode: u8) -> bool {
    match layout(opcode) {
        Some((operation, mode)) => {
            &&& decode_spec(opcode) is Some
            &&& decode_spec(opcode).unwrap().operation == operation
            &&& mode is Some ==> decode_spec(opcode).unwrap().mode == mode.unwrap()
            &&& decode_spec(opcode).unwrap().cycles == layout_cycles(opcode)
        },
        None => decode_spec(opcode) is None,
    }
}

proof fn lemma_layout_0(opcode: u8)
    requires
        0 <= opcode < 16,
    ensures
        decodes_as_laid_out(opcode),
{
    if opcode == 0 {
    } else if opcode == 1 {
    } else if opcode == 2 {
    } else if opcode == 3 {
    } else if opcode == 4 {
    } else if opcode == 5 {
    } else if opcode == 6 {
    } else if opcode == 7 {
    } else if opcode == 8 {
    } else if opcode == 9 {
    } else if opcode == 10 {
    } else if opcode == 11 {
    } else if opcode == 12 {
    } else if opcode == 13 {
    } else if opcode == 14 {
    } else if opcode == 15 {
    }
}

proof fn lemma_layout_1(opcode: u8)
    requires
        16 <= opcode < 32,
    ensures
        decodes_as_laid_out(opcode),
{
    if opcode == 16 {
    } else if opcode == 17 {
    } else if opcode == 18 {
    } else if opcode == 19 {
    } else if opcode == 20 {
    } else if opcode == 21 {
    } else if opcode == 22 {
    } else if opcode == 23 {
    } else if opcode == 24 {
    } else if opcode == 25 {
    } else if opcode == 26 {
    } else if opcode == 27 {
    } else if opcode == 28 {
    } else if opcode == 29 {
    } else if opcode == 30 {
    } else if opcode == 31 {
    }
}

proof fn lemma_layout_2(opcode: u8)
    requires
        32 <= opcode < 48,
    ensures
        decodes_as_laid_out(opcode),
{
    if opcode == 32 {
    } else if opcode == 33 {
    } else if opcode == 34 {
    } else if opcode == 35 {
    } else if opcode == 36 {
    } else if opcode == 37 {
    } else if opcode == 38 {
    } else if opcode == 39 {
    } else if opcode == 40 {
    } else if opcode == 41 {
    } else if opcode == 42 {
    } else if opcode == 43 {
    } else if opcode == 44 {
    } else if opcode == 45 {
    } else if opcode == 46 {
    } else if opcode == 47 {
    }
}

proof fn lemma_layout_3(opcode: u8)
    requires
        48 <= opcode < 64,
    ensures
        decodes_as_laid_out(opcode),
{
    if opcode == 48 {
    } else if opcode == 49 {
    } else if opcode == 50 {
    } else if opcode == 51 {
    } else if opcode == 52 {
    } else if opcode == 53 {
    } else if opcode == 54 {
    } else if opcode == 55 {
    } else if opcode == 56 {
    } else if opcode == 57 {
    } else if opcode == 58 {
    } else if opcode == 59 {
    } else if opcode == 60 {
    } else if opcode == 61 {
    } else if opcode == 62 {
    } else if opcode == 63 {
    }
}

proof fn lemma_layout_4(opcode: u8)
    requires
        64 <= opcode < 80,
    ensures
        decodes_as_laid_out(opcode),
{
    if opcode == 64 {
    } else if opcode == 65 {
    } else if opcode == 66 {
    } else if opcode == 67 {
    } else if opcode == 68 {
    } else if opcode == 69 {
    } else if opcode == 70 {
    } else if opcode == 71 {
    } else if opcode == 72 {
    } else if opcode == 73 {
    } else if opcode == 74 {
    } else if opcode == 75 {
    } else if opcode == 76 {
    } else if opcode == 77 {
    } else if opcode == 78 {
    } else if opcode == 79 {
    }
}

proof fn lemma_layout_5(opcode: u8)
    requires
        80 <= opcode < 96,
    ensures
        decodes_as_laid_out(opcode),
{
    if opcode == 80 {
    } else if opcode == 81 {
    } else if opcode == 82 {
    } else if opcode == 83 {
    } else if opcode == 84 {
    } else if opcode == 85 {
    } else if opcode == 86 {
    } else if opcode == 87 {
    } else if opcode == 88 {
    } else if opcode == 89 {
    } else if opcode == 90 {
    } else if opcode == 91 {
    } else if opcode == 92 {
    } else if opcode == 93 {
    } else if opcode == 94 {
    } else if opcode == 95 {
    }
}

proof fn lemma_layout_6(opcode: u8)
    requires
        96 <= opcode < 112,
    ensures
        decodes_as_laid_out(opcode),
{
    if opcode == 96 {
    } else if opcode == 97 {
    } else if opcode == 98 {
    } else if opcode == 99 {
    } else if opcode == 100 {
    } else if opcode == 101 {
    } else if opcode == 102 {
    } else if opcode == 103 {
    } else if opcode == 104 {
    } else if opcode == 105 {
    } else if opcode == 106 {
    } else if opcode == 107 {
    } else if opcode == 108 {
    } else if opcode == 109 {
    } else if opcode == 110 {
    } else if opcode == 111 {
    }
}

proof fn lemma_layout_7(opcode: u8)
    requires
        112 <= opcode < 128,
    ensures
        decodes_as_laid_out(opcode),
{
    if opcode == 112 {
    } else if opcode == 113 {
    } else if opcode == 114 {
    } else if opcode == 115 {
    } else if opcode == 116 {
    } else if opcode == 117 {
    } else if opcode == 118 {
    } else if opcode == 119 {
    } else if opcode == 120 {
    } else if opcode == 121 {
    } else if opcode == 122 {
    } else if opcode == 123 {
    } else if opcode == 124 {
    } else if opcode == 125 {
    } else if opcode == 126 {
    } else if opcode == 127 {
    }
}

proof fn lemma_layout_8(opcode: u8)
    requires
        128 <= opcode < 144,
    ensures
        decodes_as_laid_out(opcode),
{
    if opcode == 128 {
    } else if opcode == 129 {
    } else if opcode == 130 {
    } else if opcode == 131 {
    } else if opcode == 132 {
    } else if opcode == 133 {
    } else if opcode == 134 {
    } else if opcode == 135 {
    } else if opcode == 136 {
    } else if opcode == 137 {
    } else if opcode == 138 {
    } else if opcode == 139 {
    } else if opcode == 140 {
    } else if opcode == 141 {
    } else if opcode == 142 {
    } else if opcode == 143 {
    }
}

proof fn lemma_layout_9(opcode: u8)
    requires
        144 <= opcode < 160,
    ensures
        decodes_as_laid_out(opcode),
{
    if opcode == 144 {
    } else if opcode == 145 {
    } else if opcode == 146 {
    } else if opcode == 147 {
    } else if opcode == 148 {
    } else if opcode == 149 {
    } else if opcode == 150 {
    } else if opcode == 151 {
    } else if opcode == 152 {
    } else if opcode == 153 {
    } else if opcode == 154 {
    } else if opcode == 155 {
    } else if opcode == 156 {
    } else if opcode == 157 {
    } else if opcode == 158 {
    } else if opcode == 159 {
    }
}

proof fn lemma_layout_a(opcode: u8)
    requires
        160 <= opcode < 176,
    ensures
        decodes_as_laid_out(opcode),
{
    if opcode == 160 {
    } else if opcode == 161 {
    } else if opcode == 162 {
    } else if opcode == 163 {
    } else if opcode == 164 {
    } else if opcode == 165 {
    } else if opcode == 166 {
    } else if opcode == 167 {
    } else if opcode == 168 {
    } else if opcode == 169 {
    } else if opcode == 170 {
    } else if opcode == 171 {
    } else if opcode == 172 {
    } else if opcode == 173 {
    } else if opcode == 174 {
    } else if opcode == 175 {
    }
}

proof fn lemma_layout_b(opcode: u8)
    requires
        176 <= opcode < 192,
    ensures
        decodes_as_laid_out(opcode),
{
    if opcode == 176 {
    } else if opcode == 177 {
    } else if opcode == 178 {
    } else if opcode == 179 {
    } else if opcode == 180 {
    } else if opcode == 181 {
    } else if opcode == 182 {
    } else if opcode == 183 {
    } else if opcode == 184 {
    } else if opcode == 185 {
    } else if opcode == 186 {
    } else if opcode == 187 {
    } else if opcode == 188 {
    } else if opcode == 189 {
    } else if opcode == 190 {
    } else if opcode == 191 {
    }
}

proof fn lemma_layout_c(opcode: u8)
    requires
        192 <= opcode < 208,
    ensures
        decodes_as_laid_out(opcode),
{
    if opcode == 192 {
    } else if opcode == 193 {
    } else if opcode == 194 {
    } else if opcode == 195 {
    } else if opcode == 196 {
    } else if opcode == 197 {
    } else if opcode == 198 {
    } else if opcode == 199 {
    } else if opcode == 200 {
    } else if opcode == 201 {
    } else if opcode == 202 {
    } else if opcode == 203 {
    } else if opcode == 204 {
    } else if opcode == 205 {
    } else if opcode == 206 {
    } else if opcode == 207 {
    }
}

proof fn lemma_layout_d(opcode: u8)
    requires
        208 <= opcode < 224,
    ensures
        decodes_as_laid_out(opcode),
{
    if opcode == 208 {
    } else if opcode == 209 {
    } else if opcode == 210 {
    } else if opcode == 211 {
    } else if opcode == 212 {
    } else if opcode == 213 {
    } else if opcode == 214 {
    } else if opcode == 215 {
    } else if opcode == 216 {
    } else if opcode == 217 {
    } else if opcode == 218 {
    } else if opcode == 219 {
    } else if opcode == 220 {
    } else if opcode == 221 {
    } else if opcode == 222 {
    } else if opcode == 223 {
    }
}

proof fn lemma_layout_e(opcode: u8)
    requires
        224 <= opcode < 240,
    ensures
        decodes_as_laid_out(opcode),
{
    if opcode == 224 {
    } else if opcode == 225 {
    } else if opcode == 226 {
    } else if opcode == 227 {
    } else if opcode == 228 {
    } else if opcode == 229 {
    } else if opcode == 230 {
    } else if opcode == 231 {
    } else if opcode == 232 {
    } else if opcode == 233 {
    } else if opcode == 234 {
    } else if opcode == 235 {
    } else if opcode == 236 {
    } else if opcode == 237 {
    } else if opcode == 238 {
    } else if opcode == 239 {
    }
}

proof fn lemma_layout_f(opcode: u8)
    requires
        240 <= opcode < 256,
    ensures
        decodes_as_laid_out(opcode),
{
    if opcode == 240 {
    } else if opcode == 241 {
    } else if opcode == 242 {
    } else if opcode == 243 {
    } else if opcode == 244 {
    } else if opcode == 245 {
    } else if opcode == 246 {
    } else if opcode == 247 {
    } else if opcode == 248 {
    } else if opcode == 249 {
    } else if opcode == 250 {
    } else if opcode == 251 {
    } else if opcode == 252 {
    } else if opcode == 253 {
    } else if opcode == 254 {
    } else if opcode == 255 {
    }
}

/// The decoder follows the 6502's opcode layout aaabbbcc (and xxy10000 for
/// the branches): every opcode that the layout assigns decodes to the
/// operation it gives and, for the instructions that use one, its addressing
/// mode (in column 01, bbb picks (zp,X), zp, #, abs, (zp),Y, zp,X, abs,Y,
/// abs,X; the indexed forms of STX and LDX go by Y, all others by X) and
/// the base cycle count of `layout_cycles`; every other opcode is refused.
pub proof fn law_decode_layout(opcode: u8)
    ensures
        decodes_as_laid_out(opcode),
{
    if opcode < 16 {
        lemma_layout_0(opcode);
    } else if opcode < 32 {
        lemma_layout_1(opcode);
    } else if opcode < 48 {
        lemma_layout_2(opcode);
    } else if opcode < 64 {
        lemma_layout_3(opcode);
    } else if opcode < 80 {
        lemma_layout_4(opcode);
    } else if opcode < 96 {
        lemma_layout_5(opcode);
    } else if opcode < 112 {
        lemma_layout_6(opcode);
    } else if opcode < 128 {
        lemma_layout_7(opcode);
    } else if opcode < 144 {
        lemma_layout_8(opcode);
    } else if opcode < 160 {
        lemma_layout_9(opcode);
    } else if opcode < 176 {
        lemma_layout_a(opcode);
    } else if opcode < 192 {
        lemma_layout_b(opcode);
    } else if opcode < 208 {
        lemma_layout_c(opcode);
    } else if opcode < 224 {
        lemma_layout_d(opcode);
    } else if opcode < 240 {
        lemma_layout_e(opcode);
    } else if opcode < 256 {
        lemma_layout_f(opcode);
    }
}

} // verus!
