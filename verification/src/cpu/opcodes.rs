use vstd::prelude::*;

use super::addressing_mode::AddressingMode;
use super::instructions::branch::Condition;
use super::instructions::load_store::Register;
use super::instructions::logical::LogicKind;
use super::instructions::shift::ShiftKind;

verus! {

pub const ADC_ABSOLUTE: u8 = 0x6d;
pub const ADC_ABSOLUTE_X: u8 = 0x7d;
pub const ADC_ABSOLUTE_Y: u8 = 0x79;
pub const ADC_IMMEDIATE: u8 = 0x69;
pub const ADC_INDIRECT_X: u8 = 0x61;
pub const ADC_INDIRECT_Y: u8 = 0x71;
pub const ADC_ZERO_PAGE: u8 = 0x65;
pub const ADC_ZERO_PAGE_X: u8 = 0x75;
pub const AND_ABSOLUTE: u8 = 0x2d;
pub const AND_ABSOLUTE_X: u8 = 0x3d;
pub const AND_ABSOLUTE_Y: u8 = 0x39;
pub const AND_IMMEDIATE: u8 = 0x29;
pub const AND_INDIRECT_X: u8 = 0x21;
pub const AND_INDIRECT_Y: u8 = 0x31;
pub const AND_ZERO_PAGE: u8 = 0x25;
pub const AND_ZERO_PAGE_X: u8 = 0x35;
pub const ASL_ABSOLUTE: u8 = 0x0e;
pub const ASL_ABSOLUTE_X: u8 = 0x1e;
pub const ASL_ACCUMULATOR: u8 = 0x0a;
pub const ASL_ZERO_PAGE: u8 = 0x06;
pub const ASL_ZERO_PAGE_X: u8 = 0x16;
pub const BCC_RELATIVE: u8 = 0x90;
pub const BCS_RELATIVE: u8 = 0xb0;
pub const BEQ_RELATIVE: u8 = 0xf0;
pub const BIT_ABSOLUTE: u8 = 0x2c;
pub const BIT_ZERO_PAGE: u8 = 0x24;
pub const BMI_RELATIVE: u8 = 0x30;
pub const BNE_RELATIVE: u8 = 0xd0;
pub const BPL_RELATIVE: u8 = 0x10;
pub const BRK: u8 = 0x00;
pub const BVC_RELATIVE: u8 = 0x50;
pub const BVS_RELATIVE: u8 = 0x70;
pub const CLC_IMPLIED: u8 = 0x18;
pub const CLD_IMPLIED: u8 = 0xd8;
pub const CLI_IMPLIED: u8 = 0x58;
pub const CLV_IMPLIED: u8 = 0xb8;
pub const CMP_ABSOLUTE: u8 = 0xcd;
pub const CMP_ABSOLUTE_X: u8 = 0xdd;
pub const CMP_ABSOLUTE_Y: u8 = 0xd9;
pub const CMP_IMMEDIATE: u8 = 0xc9;
pub const CMP_INDIRECT_X: u8 = 0xc1;
pub const CMP_INDIRECT_Y: u8 = 0xd1;
pub const CMP_ZERO_PAGE: u8 = 0xc5;
pub const CMP_ZERO_PAGE_X: u8 = 0xd5;
pub const CPX_ABSOLUTE: u8 = 0xec;
pub const CPX_IMMEDIATE: u8 = 0xe0;
pub const CPX_ZERO_PAGE: u8 = 0xe4;
pub const CPY_ABSOLUTE: u8 = 0xcc;
pub const CPY_IMMEDIATE: u8 = 0xc0;
pub const CPY_ZERO_PAGE: u8 = 0xc4;
pub const DEC_ABSOLUTE: u8 = 0xce;
pub const DEC_ABSOLUTE_X: u8 = 0xde;
pub const DEC_ZERO_PAGE: u8 = 0xc6;
pub const DEC_ZERO_PAGE_X: u8 = 0xd6;
pub const DEX_IMPLIED: u8 = 0xca;
pub const DEY_IMPLIED: u8 = 0x88;
pub const EOR_ABSOLUTE: u8 = 0x4d;
pub const EOR_ABSOLUTE_X: u8 = 0x5d;
pub const EOR_ABSOLUTE_Y: u8 = 0x59;
pub const EOR_IMMEDIATE: u8 = 0x49;
pub const EOR_INDIRECT_X: u8 = 0x41;
pub const EOR_INDIRECT_Y: u8 = 0x51;
pub const EOR_ZERO_PAGE: u8 = 0x45;
pub const EOR_ZERO_PAGE_X: u8 = 0x55;
pub const INC_ABSOLUTE: u8 = 0xee;
pub const INC_ABSOLUTE_X: u8 = 0xfe;
pub const INC_ZERO_PAGE: u8 = 0xe6;
pub const INC_ZERO_PAGE_X: u8 = 0xf6;
pub const INX_IMPLIED: u8 = 0xe8;
pub const INY_IMPLIED: u8 = 0xc8;
pub const JMP_ABSOLUTE: u8 = 0x4c;
pub const JMP_INDIRECT: u8 = 0x6c;
pub const JSR_ABSOLUTE: u8 = 0x20;
pub const LDA_ABSOLUTE: u8 = 0xad;
pub const LDA_ABSOLUTE_X: u8 = 0xbd;
pub const LDA_ABSOLUTE_Y: u8 = 0xb9;
pub const LDA_IMMEDIATE: u8 = 0xa9;
pub const LDA_INDIRECT_X: u8 = 0xa1;
pub const LDA_INDIRECT_Y: u8 = 0xb1;
pub const LDA_ZERO_PAGE: u8 = 0xa5;
pub const LDA_ZERO_PAGE_X: u8 = 0xb5;
pub const LDX_ABSOLUTE: u8 = 0xae;
pub const LDX_ABSOLUTE_Y: u8 = 0xbe;
pub const LDX_IMMEDIATE: u8 = 0xa2;
pub const LDX_ZERO_PAGE: u8 = 0xa6;
pub const LDX_ZERO_PAGE_Y: u8 = 0xb6;
pub const LDY_ABSOLUTE: u8 = 0xac;
pub const LDY_ABSOLUTE_X: u8 = 0xbc;
pub const LDY_IMMEDIATE: u8 = 0xa0;
pub const LDY_ZERO_PAGE: u8 = 0xa4;
pub const LDY_ZERO_PAGE_X: u8 = 0xb4;
pub const LSR_ABSOLUTE: u8 = 0x4e;
pub const LSR_ABSOLUTE_X: u8 = 0x5e;
pub const LSR_ACCUMULATOR: u8 = 0x4a;
pub const LSR_ZERO_PAGE: u8 = 0x46;
pub const LSR_ZERO_PAGE_X: u8 = 0x56;
pub const NOP_IMPLIED: u8 = 0xea;
pub const ORA_ABSOLUTE: u8 = 0x0d;
pub const ORA_ABSOLUTE_X: u8 = 0x1d;
pub const ORA_ABSOLUTE_Y: u8 = 0x19;
pub const ORA_IMMEDIATE: u8 = 0x09;
pub const ORA_INDIRECT_X: u8 = 0x01;
pub const ORA_INDIRECT_Y: u8 = 0x11;
pub const ORA_ZERO_PAGE: u8 = 0x05;
pub const ORA_ZERO_PAGE_X: u8 = 0x15;
pub const PHA_IMPLIED: u8 = 0x48;
pub const PHP_IMPLIED: u8 = 0x08;
pub const PLA_IMPLIED: u8 = 0x68;
pub const PLP_IMPLIED: u8 = 0x28;
pub const ROL_ABSOLUTE: u8 = 0x2e;
pub const ROL_ABSOLUTE_X: u8 = 0x3e;
pub const ROL_ACCUMULATOR: u8 = 0x2a;
pub const ROL_ZERO_PAGE: u8 = 0x26;
pub const ROL_ZERO_PAGE_X: u8 = 0x36;
pub const ROR_ABSOLUTE: u8 = 0x6e;
pub const ROR_ABSOLUTE_X: u8 = 0x7e;
pub const ROR_ACCUMULATOR: u8 = 0x6a;
pub const ROR_ZERO_PAGE: u8 = 0x66;
pub const ROR_ZERO_PAGE_X: u8 = 0x76;
pub const RTI_IMPLIED: u8 = 0x40;
pub const RTS_IMPLIED: u8 = 0x60;
pub const SBC_ABSOLUTE: u8 = 0xed;
pub const SBC_ABSOLUTE_X: u8 = 0xfd;
pub const SBC_ABSOLUTE_Y: u8 = 0xf9;
pub const SBC_IMMEDIATE: u8 = 0xe9;
pub const SBC_INDIRECT_X: u8 = 0xe1;
pub const SBC_INDIRECT_Y: u8 = 0xf1;
pub const SBC_ZERO_PAGE: u8 = 0xe5;
pub const SBC_ZERO_PAGE_X: u8 = 0xf5;
pub const SEC_IMPLIED: u8 = 0x38;
pub const SED_IMPLIED: u8 = 0xf8;
pub const SEI_IMPLIED: u8 = 0x78;
pub const STA_ABSOLUTE: u8 = 0x8d;
pub const STA_ABSOLUTE_X: u8 = 0x9d;
pub const STA_ABSOLUTE_Y: u8 = 0x99;
pub const STA_INDIRECT_X: u8 = 0x81;
pub const STA_INDIRECT_Y: u8 = 0x91;
pub const STA_ZERO_PAGE: u8 = 0x85;
pub const STA_ZERO_PAGE_X: u8 = 0x95;
pub const STX_ABSOLUTE: u8 = 0x8e;
pub const STX_ZERO_PAGE: u8 = 0x86;
pub const STX_ZERO_PAGE_Y: u8 = 0x96;
pub const STY_ABSOLUTE: u8 = 0x8c;
pub const STY_ZERO_PAGE: u8 = 0x84;
pub const STY_ZERO_PAGE_X: u8 = 0x94;
pub const TAX_IMPLIED: u8 = 0xaa;
pub const TAY_IMPLIED: u8 = 0xa8;
pub const TSX_IMPLIED: u8 = 0xba;
pub const TXA_IMPLIED: u8 = 0x8a;
pub const TXS_IMPLIED: u8 = 0x9a;
pub const TYA_IMPLIED: u8 = 0x98;

/// What an opcode does, apart from where its operand is.
#[derive(Debug, Clone, Copy, PartialEq, Eq, Structural)]
pub enum Operation {
    Load(Register),
    Store(Register),
    Adc,
    Sbc,
    Logic(LogicKind),
    Compare(Register),
    Bit,
    Shift(ShiftKind),
    Inc,
    Dec,
    Inx,
    Iny,
    Dex,
    Dey,
    Tax,
    Tay,
    Txa,
    Tya,
    Tsx,
    Txs,
    Jmp,
    JmpIndirect,
    Jsr,
    Rts,
    Rti,
    Nop,
    Branch(Condition),
    Pha,
    Php,
    Pla,
    Plp,
    Clc,
    Sec,
    Cld,
    Sed,
    Cli,
    Sei,
    Clv,
    Brk,
}

/// A decoded opcode: the operation, where its operand is (`Accumulator`
/// also for the instructions that take no operand from memory), and its base
/// cycle count.
#[derive(Debug, Clone, Copy, PartialEq, Eq, Structural)]
pub struct Instruction {
    pub operation: Operation,
    pub mode: AddressingMode,
    pub cycles: u8,
}

pub open spec fn instr(operation: Operation, mode: AddressingMode, cycles: u8) -> Instruction {
    Instruction { operation, mode, cycles }
}

/// The opcode map: the instruction that each of the supported opcodes
/// stands for, `None` for the others.
pub open spec fn decode_spec(opcode: u8) -> Option<Instruction> {
    match opcode {
        0x00 => Some(instr(Operation::Brk, AddressingMode::Accumulator, 7)),  // BRK
        0x01 => Some(instr(Operation::Logic(LogicKind::Ora), AddressingMode::Indirect_X, 6)),  // ORA_INDIRECT_X
        0x05 => Some(instr(Operation::Logic(LogicKind::Ora), AddressingMode::ZeroPage, 3)),  // ORA_ZERO_PAGE
        0x06 => Some(instr(Operation::Shift(ShiftKind::Asl), AddressingMode::ZeroPage, 5)),  // ASL_ZERO_PAGE
        0x08 => Some(instr(Operation::Php, AddressingMode::Accumulator, 3)),  // PHP_IMPLIED
        0x09 => Some(instr(Operation::Logic(LogicKind::Ora), AddressingMode::Immediate, 2)),  // ORA_IMMEDIATE
        0x0a => Some(instr(Operation::Shift(ShiftKind::Asl), AddressingMode::Accumulator, 2)),  // ASL_ACCUMULATOR
        0x0d => Some(instr(Operation::Logic(LogicKind::Ora), AddressingMode::Absolute, 4)),  // ORA_ABSOLUTE
        0x0e => Some(instr(Operation::Shift(ShiftKind::Asl), AddressingMode::Absolute, 6)),  // ASL_ABSOLUTE
        0x10 => Some(instr(Operation::Branch(Condition::Plus), AddressingMode::Accumulator, 2)),  // BPL_RELATIVE
        0x11 => Some(instr(Operation::Logic(LogicKind::Ora), AddressingMode::Indirect_Y, 5)),  // ORA_INDIRECT_Y
        0x15 => Some(instr(Operation::Logic(LogicKind::Ora), AddressingMode::ZeroPage_X, 4)),  // ORA_ZERO_PAGE_X
        0x16 => Some(instr(Operation::Shift(ShiftKind::Asl), AddressingMode::ZeroPage_X, 6)),  // ASL_ZERO_PAGE_X
        0x18 => Some(instr(Operation::Clc, AddressingMode::Accumulator, 2)),  // CLC_IMPLIED
        0x19 => Some(instr(Operation::Logic(LogicKind::Ora), AddressingMode::Absolute_Y, 4)),  // ORA_ABSOLUTE_Y
        0x1d => Some(instr(Operation::Logic(LogicKind::Ora), AddressingMode::Absolute_X, 4)),  // ORA_ABSOLUTE_X
        0x1e => Some(instr(Operation::Shift(ShiftKind::Asl), AddressingMode::Absolute_X, 7)),  // ASL_ABSOLUTE_X
        0x20 => Some(instr(Operation::Jsr, AddressingMode::Absolute, 6)),  // JSR_ABSOLUTE
        0x21 => Some(instr(Operation::Logic(LogicKind::And), AddressingMode::Indirect_X, 6)),  // AND_INDIRECT_X
        0x24 => Some(instr(Operation::Bit, AddressingMode::ZeroPage, 3)),  // BIT_ZERO_PAGE
        0x25 => Some(instr(Operation::Logic(LogicKind::And), AddressingMode::ZeroPage, 3)),  // AND_ZERO_PAGE
        0x26 => Some(instr(Operation::Shift(ShiftKind::Rol), AddressingMode::ZeroPage, 5)),  // ROL_ZERO_PAGE
        0x28 => Some(instr(Operation::Plp, AddressingMode::Accumulator, 4)),  // PLP_IMPLIED
        0x29 => Some(instr(Operation::Logic(LogicKind::And), AddressingMode::Immediate, 2)),  // AND_IMMEDIATE
        0x2a => Some(instr(Operation::Shift(ShiftKind::Rol), AddressingMode::Accumulator, 2)),  // ROL_ACCUMULATOR
        0x2c => Some(instr(Operation::Bit, AddressingMode::Absolute, 4)),  // BIT_ABSOLUTE
        0x2d => Some(instr(Operation::Logic(LogicKind::And), AddressingMode::Absolute, 4)),  // AND_ABSOLUTE
        0x2e => Some(instr(Operation::Shift(ShiftKind::Rol), AddressingMode::Absolute, 6)),  // ROL_ABSOLUTE
        0x30 => Some(instr(Operation::Branch(Condition::Minus), AddressingMode::Accumulator, 2)),  // BMI_RELATIVE
        0x31 => Some(instr(Operation::Logic(LogicKind::And), AddressingMode::Indirect_Y, 5)),  // AND_INDIRECT_Y
        0x35 => Some(instr(Operation::Logic(LogicKind::And), AddressingMode::ZeroPage_X, 4)),  // AND_ZERO_PAGE_X
        0x36 => Some(instr(Operation::Shift(ShiftKind::Rol), AddressingMode::ZeroPage_X, 6)),  // ROL_ZERO_PAGE_X
        0x38 => Some(instr(Operation::Sec, AddressingMode::Accumulator, 2)),  // SEC_IMPLIED
        0x39 => Some(instr(Operation::Logic(LogicKind::And), AddressingMode::Absolute_Y, 4)),  // AND_ABSOLUTE_Y
        0x3d => Some(instr(Operation::Logic(LogicKind::And), AddressingMode::Absolute_X, 4)),  // AND_ABSOLUTE_X
        0x3e => Some(instr(Operation::Shift(ShiftKind::Rol), AddressingMode::Absolute_X, 7)),  // ROL_ABSOLUTE_X
        0x40 => Some(instr(Operation::Rti, AddressingMode::Accumulator, 6)),  // RTI_IMPLIED
        0x41 => Some(instr(Operation::Logic(LogicKind::Eor), AddressingMode::Indirect_X, 6)),  // EOR_INDIRECT_X
        0x45 => Some(instr(Operation::Logic(LogicKind::Eor), AddressingMode::ZeroPage, 3)),  // EOR_ZERO_PAGE
        0x46 => Some(instr(Operation::Shift(ShiftKind::Lsr), AddressingMode::ZeroPage, 5)),  // LSR_ZERO_PAGE
        0x48 => Some(instr(Operation::Pha, AddressingMode::Accumulator, 3)),  // PHA_IMPLIED
        0x49 => Some(instr(Operation::Logic(LogicKind::Eor), AddressingMode::Immediate, 2)),  // EOR_IMMEDIATE
        0x4a => Some(instr(Operation::Shift(ShiftKind::Lsr), AddressingMode::Accumulator, 2)),  // LSR_ACCUMULATOR
        0x4c => Some(instr(Operation::Jmp, AddressingMode::Accumulator, 3)),  // JMP_ABSOLUTE
        0x4d => Some(instr(Operation::Logic(LogicKind::Eor), AddressingMode::Absolute, 4)),  // EOR_ABSOLUTE
        0x4e => Some(instr(Operation::Shift(ShiftKind::Lsr), AddressingMode::Absolute, 6)),  // LSR_ABSOLUTE
        0x50 => Some(instr(Operation::Branch(Condition::OverflowClear), AddressingMode::Accumulator, 2)),  // BVC_RELATIVE
        0x51 => Some(instr(Operation::Logic(LogicKind::Eor), AddressingMode::Indirect_Y, 5)),  // EOR_INDIRECT_Y
        0x55 => Some(instr(Operation::Logic(LogicKind::Eor), AddressingMode::ZeroPage_X, 4)),  // EOR_ZERO_PAGE_X
        0x56 => Some(instr(Operation::Shift(ShiftKind::Lsr), AddressingMode::ZeroPage_X, 6)),  // LSR_ZERO_PAGE_X
        0x58 => Some(instr(Operation::Cli, AddressingMode::Accumulator, 2)),  // CLI_IMPLIED
        0x59 => Some(instr(Operation::Logic(LogicKind::Eor), AddressingMode::Absolute_Y, 4)),  // EOR_ABSOLUTE_Y
        0x5d => Some(instr(Operation::Logic(LogicKind::Eor), AddressingMode::Absolute_X, 4)),  // EOR_ABSOLUTE_X
        0x5e => Some(instr(Operation::Shift(ShiftKind::Lsr), AddressingMode::Absolute_X, 7)),  // LSR_ABSOLUTE_X
        0x60 => Some(instr(Operation::Rts, AddressingMode::Accumulator, 6)),  // RTS_IMPLIED
        0x61 => Some(instr(Operation::Adc, AddressingMode::Indirect_X, 6)),  // ADC_INDIRECT_X
        0x65 => Some(instr(Operation::Adc, AddressingMode::ZeroPage, 3)),  // ADC_ZERO_PAGE
        0x66 => Some(instr(Operation::Shift(ShiftKind::Ror), AddressingMode::ZeroPage, 5)),  // ROR_ZERO_PAGE
        0x68 => Some(instr(Operation::Pla, AddressingMode::Accumulator, 4)),  // PLA_IMPLIED
        0x69 => Some(instr(Operation::Adc, AddressingMode::Immediate, 2)),  // ADC_IMMEDIATE
        0x6a => Some(instr(Operation::Shift(ShiftKind::Ror), AddressingMode::Accumulator, 2)),  // ROR_ACCUMULATOR
        0x6c => Some(instr(Operation::JmpIndirect, AddressingMode::Accumulator, 5)),  // JMP_INDIRECT
        0x6d => Some(instr(Operation::Adc, AddressingMode::Absolute, 4)),  // ADC_ABSOLUTE
        0x6e => Some(instr(Operation::Shift(ShiftKind::Ror), AddressingMode::Absolute, 6)),  // ROR_ABSOLUTE
        0x70 => Some(instr(Operation::Branch(Condition::OverflowSet), AddressingMode::Accumulator, 2)),  // BVS_RELATIVE
        0x71 => Some(instr(Operation::Adc, AddressingMode::Indirect_Y, 5)),  // ADC_INDIRECT_Y
        0x75 => Some(instr(Operation::Adc, AddressingMode::ZeroPage_X, 4)),  // ADC_ZERO_PAGE_X
        0x76 => Some(instr(Operation::Shift(ShiftKind::Ror), AddressingMode::ZeroPage_X, 6)),  // ROR_ZERO_PAGE_X
        0x78 => Some(instr(Operation::Sei, AddressingMode::Accumulator, 2)),  // SEI_IMPLIED
        0x79 => Some(instr(Operation::Adc, AddressingMode::Absolute_Y, 4)),  // ADC_ABSOLUTE_Y
        0x7d => Some(instr(Operation::Adc, AddressingMode::Absolute_X, 4)),  // ADC_ABSOLUTE_X
        0x7e => Some(instr(Operation::Shift(ShiftKind::Ror), AddressingMode::Absolute_X, 7)),  // ROR_ABSOLUTE_X
        0x81 => Some(instr(Operation::Store(Register::A), AddressingMode::Indirect_X, 6)),  // STA_INDIRECT_X
        0x84 => Some(instr(Operation::Store(Register::Y), AddressingMode::ZeroPage, 3)),  // STY_ZERO_PAGE
        0x85 => Some(instr(Operation::Store(Register::A), AddressingMode::ZeroPage, 3)),  // STA_ZERO_PAGE
        0x86 => Some(instr(Operation::Store(Register::X), AddressingMode::ZeroPage, 3)),  // STX_ZERO_PAGE
        0x88 => Some(instr(Operation::Dey, AddressingMode::Accumulator, 2)),  // DEY_IMPLIED
        0x8a => Some(instr(Operation::Txa, AddressingMode::Accumulator, 2)),  // TXA_IMPLIED
        0x8c => Some(instr(Operation::Store(Register::Y), AddressingMode::Absolute, 4)),  // STY_ABSOLUTE
        0x8d => Some(instr(Operation::Store(Register::A), AddressingMode::Absolute, 4)),  // STA_ABSOLUTE
        0x8e => Some(instr(Operation::Store(Register::X), AddressingMode::Absolute, 4)),  // STX_ABSOLUTE
        0x90 => Some(instr(Operation::Branch(Condition::CarryClear), AddressingMode::Accumulator, 2)),  // BCC_RELATIVE
        0x91 => Some(instr(Operation::Store(Register::A), AddressingMode::Indirect_Y, 6)),  // STA_INDIRECT_Y
        0x94 => Some(instr(Operation::Store(Register::Y), AddressingMode::ZeroPage_X, 4)),  // STY_ZERO_PAGE_X
        0x95 => Some(instr(Operation::Store(Register::A), AddressingMode::ZeroPage_X, 4)),  // STA_ZERO_PAGE_X
        0x96 => Some(instr(Operation::Store(Register::X), AddressingMode::ZeroPage_Y, 4)),  // STX_ZERO_PAGE_Y
        0x98 => Some(instr(Operation::Tya, AddressingMode::Accumulator, 2)),  // TYA_IMPLIED
        0x99 => Some(instr(Operation::Store(Register::A), AddressingMode::Absolute_Y, 5)),  // STA_ABSOLUTE_Y
        0x9a => Some(instr(Operation::Txs, AddressingMode::Accumulator, 2)),  // TXS_IMPLIED
        0x9d => Some(instr(Operation::Store(Register::A), AddressingMode::Absolute_X, 5)),  // STA_ABSOLUTE_X
        0xa0 => Some(instr(Operation::Load(Register::Y), AddressingMode::Immediate, 2)),  // LDY_IMMEDIATE
        0xa1 => Some(instr(Operation::Load(Register::A), AddressingMode::Indirect_X, 6)),  // LDA_INDIRECT_X
        0xa2 => Some(instr(Operation::Load(Register::X), AddressingMode::Immediate, 2)),  // LDX_IMMEDIATE
        0xa4 => Some(instr(Operation::Load(Register::Y), AddressingMode::ZeroPage, 3)),  // LDY_ZERO_PAGE
        0xa5 => Some(instr(Operation::Load(Register::A), AddressingMode::ZeroPage, 3)),  // LDA_ZERO_PAGE
        0xa6 => Some(instr(Operation::Load(Register::X), AddressingMode::ZeroPage, 3)),  // LDX_ZERO_PAGE
        0xa8 => Some(instr(Operation::Tay, AddressingMode::Accumulator, 2)),  // TAY_IMPLIED
        0xa9 => Some(instr(Operation::Load(Register::A), AddressingMode::Immediate, 2)),  // LDA_IMMEDIATE
        0xaa => Some(instr(Operation::Tax, AddressingMode::Accumulator, 2)),  // TAX_IMPLIED
        0xac => Some(instr(Operation::Load(Register::Y), AddressingMode::Absolute, 4)),  // LDY_ABSOLUTE
        0xad => Some(instr(Operation::Load(Register::A), AddressingMode::Absolute, 4)),  // LDA_ABSOLUTE
        0xae => Some(instr(Operation::Load(Register::X), AddressingMode::Absolute, 4)),  // LDX_ABSOLUTE
        0xb0 => Some(instr(Operation::Branch(Condition::CarrySet), AddressingMode::Accumulator, 2)),  // BCS_RELATIVE
        0xb1 => Some(instr(Operation::Load(Register::A), AddressingMode::Indirect_Y, 5)),  // LDA_INDIRECT_Y
        0xb4 => Some(instr(Operation::Load(Register::Y), AddressingMode::ZeroPage_X, 4)),  // LDY_ZERO_PAGE_X
        0xb5 => Some(instr(Operation::Load(Register::A), AddressingMode::ZeroPage_X, 4)),  // LDA_ZERO_PAGE_X
        0xb6 => Some(instr(Operation::Load(Register::X), AddressingMode::ZeroPage_Y, 4)),  // LDX_ZERO_PAGE_Y
        0xb8 => Some(instr(Operation::Clv, AddressingMode::Accumulator, 2)),  // CLV_IMPLIED
        0xb9 => Some(instr(Operation::Load(Register::A), AddressingMode::Absolute_Y, 4)),  // LDA_ABSOLUTE_Y
        0xba => Some(instr(Operation::Tsx, AddressingMode::Accumulator, 2)),  // TSX_IMPLIED
        0xbc => Some(instr(Operation::Load(Register::Y), AddressingMode::Absolute_X, 4)),  // LDY_ABSOLUTE_X
        0xbd => Some(instr(Operation::Load(Register::A), AddressingMode::Absolute_X, 4)),  // LDA_ABSOLUTE_X
        0xbe => Some(instr(Operation::Load(Register::X), AddressingMode::Absolute_Y, 4)),  // LDX_ABSOLUTE_Y
        0xc0 => Some(instr(Operation::Compare(Register::Y), AddressingMode::Immediate, 2)),  // CPY_IMMEDIATE
        0xc1 => Some(instr(Operation::Compare(Register::A), AddressingMode::Indirect_X, 6)),  // CMP_INDIRECT_X
        0xc4 => Some(instr(Operation::Compare(Register::Y), AddressingMode::ZeroPage, 3)),  // CPY_ZERO_PAGE
        0xc5 => Some(instr(Operation::Compare(Register::A), AddressingMode::ZeroPage, 3)),  // CMP_ZERO_PAGE
        0xc6 => Some(instr(Operation::Dec, AddressingMode::ZeroPage, 5)),  // DEC_ZERO_PAGE
        0xc8 => Some(instr(Operation::Iny, AddressingMode::Accumulator, 2)),  // INY_IMPLIED
        0xc9 => Some(instr(Operation::Compare(Register::A), AddressingMode::Immediate, 2)),  // CMP_IMMEDIATE
        0xca => Some(instr(Operation::Dex, AddressingMode::Accumulator, 2)),  // DEX_IMPLIED
        0xcc => Some(instr(Operation::Compare(Register::Y), AddressingMode::Absolute, 4)),  // CPY_ABSOLUTE
        0xcd => Some(instr(Operation::Compare(Register::A), AddressingMode::Absolute, 4)),  // CMP_ABSOLUTE
        0xce => Some(instr(Operation::Dec, AddressingMode::Absolute, 6)),  // DEC_ABSOLUTE
        0xd0 => Some(instr(Operation::Branch(Condition::NotEqual), AddressingMode::Accumulator, 2)),  // BNE_RELATIVE
        0xd1 => Some(instr(Operation::Compare(Register::A), AddressingMode::Indirect_Y, 5)),  // CMP_INDIRECT_Y
        0xd5 => Some(instr(Operation::Compare(Register::A), AddressingMode::ZeroPage_X, 4)),  // CMP_ZERO_PAGE_X
        0xd6 => Some(instr(Operation::Dec, AddressingMode::ZeroPage_X, 6)),  // DEC_ZERO_PAGE_X
        0xd8 => Some(instr(Operation::Cld, AddressingMode::Accumulator, 2)),  // CLD_IMPLIED
        0xd9 => Some(instr(Operation::Compare(Register::A), AddressingMode::Absolute_Y, 4)),  // CMP_ABSOLUTE_Y
        0xdd => Some(instr(Operation::Compare(Register::A), AddressingMode::Absolute_X, 4)),  // CMP_ABSOLUTE_X
        0xde => Some(instr(Operation::Dec, AddressingMode::Absolute_X, 7)),  // DEC_ABSOLUTE_X
        0xe0 => Some(instr(Operation::Compare(Register::X), AddressingMode::Immediate, 2)),  // CPX_IMMEDIATE
        0xe1 => Some(instr(Operation::Sbc, AddressingMode::Indirect_X, 6)),  // SBC_INDIRECT_X
        0xe4 => Some(instr(Operation::Compare(Register::X), AddressingMode::ZeroPage, 3)),  // CPX_ZERO_PAGE
        0xe5 => Some(instr(Operation::Sbc, AddressingMode::ZeroPage, 3)),  // SBC_ZERO_PAGE
        0xe6 => Some(instr(Operation::Inc, AddressingMode::ZeroPage, 5)),  // INC_ZERO_PAGE
        0xe8 => Some(instr(Operation::Inx, AddressingMode::Accumulator, 2)),  // INX_IMPLIED
        0xe9 => Some(instr(Operation::Sbc, AddressingMode::Immediate, 2)),  // SBC_IMMEDIATE
        0xea => Some(instr(Operation::Nop, AddressingMode::Accumulator, 2)),  // NOP_IMPLIED
        0xec => Some(instr(Operation::Compare(Register::X), AddressingMode::Absolute, 4)),  // CPX_ABSOLUTE
        0xed => Some(instr(Operation::Sbc, AddressingMode::Absolute, 4)),  // SBC_ABSOLUTE
        0xee => Some(instr(Operation::Inc, AddressingMode::Absolute, 6)),  // INC_ABSOLUTE
        0xf0 => Some(instr(Operation::Branch(Condition::Equal), AddressingMode::Accumulator, 2)),  // BEQ_RELATIVE
        0xf1 => Some(instr(Operation::Sbc, AddressingMode::Indirect_Y, 5)),  // SBC_INDIRECT_Y
        0xf5 => Some(instr(Operation::Sbc, AddressingMode::ZeroPage_X, 4)),  // SBC_ZERO_PAGE_X
        0xf6 => Some(instr(Operation::Inc, AddressingMode::ZeroPage_X, 6)),  // INC_ZERO_PAGE_X
        0xf8 => Some(instr(Operation::Sed, AddressingMode::Accumulator, 2)),  // SED_IMPLIED
        0xf9 => Some(instr(Operation::Sbc, AddressingMode::Absolute_Y, 4)),  // SBC_ABSOLUTE_Y
        0xfd => Some(instr(Operation::Sbc, AddressingMode::Absolute_X, 4)),  // SBC_ABSOLUTE_X
        0xfe => Some(instr(Operation::Inc, AddressingMode::Absolute_X, 7)),  // INC_ABSOLUTE_X
        _ => None,
    }
}

/// Looks an opcode up in the opcode map.
pub fn decode(opcode: u8) -> (decoded: Option<Instruction>)
    ensures
        decoded == decode_spec(opcode),
{
    match opcode {
        0x00 => Some(Instruction { operation: Operation::Brk, mode: AddressingMode::Accumulator, cycles: 7 }),  // BRK
        0x01 => Some(Instruction { operation: Operation::Logic(LogicKind::Ora), mode: AddressingMode::Indirect_X, cycles: 6 }),  // ORA_INDIRECT_X
        0x05 => Some(Instruction { operation: Operation::Logic(LogicKind::Ora), mode: AddressingMode::ZeroPage, cycles: 3 }),  // ORA_ZERO_PAGE
        0x06 => Some(Instruction { operation: Operation::Shift(ShiftKind::Asl), mode: AddressingMode::ZeroPage, cycles: 5 }),  // ASL_ZERO_PAGE
        0x08 => Some(Instruction { operation: Operation::Php, mode: AddressingMode::Accumulator, cycles: 3 }),  // PHP_IMPLIED
        0x09 => Some(Instruction { operation: Operation::Logic(LogicKind::Ora), mode: AddressingMode::Immediate, cycles: 2 }),  // ORA_IMMEDIATE
        0x0a => Some(Instruction { operation: Operation::Shift(ShiftKind::Asl), mode: AddressingMode::Accumulator, cycles: 2 }),  // ASL_ACCUMULATOR
        0x0d => Some(Instruction { operation: Operation::Logic(LogicKind::Ora), mode: AddressingMode::Absolute, cycles: 4 }),  // ORA_ABSOLUTE
        0x0e => Some(Instruction { operation: Operation::Shift(ShiftKind::Asl), mode: AddressingMode::Absolute, cycles: 6 }),  // ASL_ABSOLUTE
        0x10 => Some(Instruction { operation: Operation::Branch(Condition::Plus), mode: AddressingMode::Accumulator, cycles: 2 }),  // BPL_RELATIVE
        0x11 => Some(Instruction { operation: Operation::Logic(LogicKind::Ora), mode: AddressingMode::Indirect_Y, cycles: 5 }),  // ORA_INDIRECT_Y
        0x15 => Some(Instruction { operation: Operation::Logic(LogicKind::Ora), mode: AddressingMode::ZeroPage_X, cycles: 4 }),  // ORA_ZERO_PAGE_X
        0x16 => Some(Instruction { operation: Operation::Shift(ShiftKind::Asl), mode: AddressingMode::ZeroPage_X, cycles: 6 }),  // ASL_ZERO_PAGE_X
        0x18 => Some(Instruction { operation: Operation::Clc, mode: AddressingMode::Accumulator, cycles: 2 }),  // CLC_IMPLIED
        0x19 => Some(Instruction { operation: Operation::Logic(LogicKind::Ora), mode: AddressingMode::Absolute_Y, cycles: 4 }),  // ORA_ABSOLUTE_Y
        0x1d => Some(Instruction { operation: Operation::Logic(LogicKind::Ora), mode: AddressingMode::Absolute_X, cycles: 4 }),  // ORA_ABSOLUTE_X
        0x1e => Some(Instruction { operation: Operation::Shift(ShiftKind::Asl), mode: AddressingMode::Absolute_X, cycles: 7 }),  // ASL_ABSOLUTE_X
        0x20 => Some(Instruction { operation: Operation::Jsr, mode: AddressingMode::Absolute, cycles: 6 }),  // JSR_ABSOLUTE
        0x21 => Some(Instruction { operation: Operation::Logic(LogicKind::And), mode: AddressingMode::Indirect_X, cycles: 6 }),  // AND_INDIRECT_X
        0x24 => Some(Instruction { operation: Operation::Bit, mode: AddressingMode::ZeroPage, cycles: 3 }),  // BIT_ZERO_PAGE
        0x25 => Some(Instruction { operation: Operation::Logic(LogicKind::And), mode: AddressingMode::ZeroPage, cycles: 3 }),  // AND_ZERO_PAGE
        0x26 => Some(Instruction { operation: Operation::Shift(ShiftKind::Rol), mode: AddressingMode::ZeroPage, cycles: 5 }),  // ROL_ZERO_PAGE
        0x28 => Some(Instruction { operation: Operation::Plp, mode: AddressingMode::Accumulator, cycles: 4 }),  // PLP_IMPLIED
        0x29 => Some(Instruction { operation: Operation::Logic(LogicKind::And), mode: AddressingMode::Immediate, cycles: 2 }),  // AND_IMMEDIATE
        0x2a => Some(Instruction { operation: Operation::Shift(ShiftKind::Rol), mode: AddressingMode::Accumulator, cycles: 2 }),  // ROL_ACCUMULATOR
        0x2c => Some(Instruction { operation: Operation::Bit, mode: AddressingMode::Absolute, cycles: 4 }),  // BIT_ABSOLUTE
        0x2d => Some(Instruction { operation: Operation::Logic(LogicKind::And), mode: AddressingMode::Absolute, cycles: 4 }),  // AND_ABSOLUTE
        0x2e => Some(Instruction { operation: Operation::Shift(ShiftKind::Rol), mode: AddressingMode::Absolute, cycles: 6 }),  // ROL_ABSOLUTE
        0x30 => Some(Instruction { operation: Operation::Branch(Condition::Minus), mode: AddressingMode::Accumulator, cycles: 2 }),  // BMI_RELATIVE
        0x31 => Some(Instruction { operation: Operation::Logic(LogicKind::And), mode: AddressingMode::Indirect_Y, cycles: 5 }),  // AND_INDIRECT_Y
        0x35 => Some(Instruction { operation: Operation::Logic(LogicKind::And), mode: AddressingMode::ZeroPage_X, cycles: 4 }),  // AND_ZERO_PAGE_X
        0x36 => Some(Instruction { operation: Operation::Shift(ShiftKind::Rol), mode: AddressingMode::ZeroPage_X, cycles: 6 }),  // ROL_ZERO_PAGE_X
        0x38 => Some(Instruction { operation: Operation::Sec, mode: AddressingMode::Accumulator, cycles: 2 }),  // SEC_IMPLIED
        0x39 => Some(Instruction { operation: Operation::Logic(LogicKind::And), mode: AddressingMode::Absolute_Y, cycles: 4 }),  // AND_ABSOLUTE_Y
        0x3d => Some(Instruction { operation: Operation::Logic(LogicKind::And), mode: AddressingMode::Absolute_X, cycles: 4 }),  // AND_ABSOLUTE_X
        0x3e => Some(Instruction { operation: Operation::Shift(ShiftKind::Rol), mode: AddressingMode::Absolute_X, cycles: 7 }),  // ROL_ABSOLUTE_X
        0x40 => Some(Instruction { operation: Operation::Rti, mode: AddressingMode::Accumulator, cycles: 6 }),  // RTI_IMPLIED
        0x41 => Some(Instruction { operation: Operation::Logic(LogicKind::Eor), mode: AddressingMode::Indirect_X, cycles: 6 }),  // EOR_INDIRECT_X
        0x45 => Some(Instruction { operation: Operation::Logic(LogicKind::Eor), mode: AddressingMode::ZeroPage, cycles: 3 }),  // EOR_ZERO_PAGE
        0x46 => Some(Instruction { operation: Operation::Shift(ShiftKind::Lsr), mode: AddressingMode::ZeroPage, cycles: 5 }),  // LSR_ZERO_PAGE
        0x48 => Some(Instruction { operation: Operation::Pha, mode: AddressingMode::Accumulator, cycles: 3 }),  // PHA_IMPLIED
        0x49 => Some(Instruction { operation: Operation::Logic(LogicKind::Eor), mode: AddressingMode::Immediate, cycles: 2 }),  // EOR_IMMEDIATE
        0x4a => Some(Instruction { operation: Operation::Shift(ShiftKind::Lsr), mode: AddressingMode::Accumulator, cycles: 2 }),  // LSR_ACCUMULATOR
        0x4c => Some(Instruction { operation: Operation::Jmp, mode: AddressingMode::Accumulator, cycles: 3 }),  // JMP_ABSOLUTE
        0x4d => Some(Instruction { operation: Operation::Logic(LogicKind::Eor), mode: AddressingMode::Absolute, cycles: 4 }),  // EOR_ABSOLUTE
        0x4e => Some(Instruction { operation: Operation::Shift(ShiftKind::Lsr), mode: AddressingMode::Absolute, cycles: 6 }),  // LSR_ABSOLUTE
        0x50 => Some(Instruction { operation: Operation::Branch(Condition::OverflowClear), mode: AddressingMode::Accumulator, cycles: 2 }),  // BVC_RELATIVE
        0x51 => Some(Instruction { operation: Operation::Logic(LogicKind::Eor), mode: AddressingMode::Indirect_Y, cycles: 5 }),  // EOR_INDIRECT_Y
        0x55 => Some(Instruction { operation: Operation::Logic(LogicKind::Eor), mode: AddressingMode::ZeroPage_X, cycles: 4 }),  // EOR_ZERO_PAGE_X
        0x56 => Some(Instruction { operation: Operation::Shift(ShiftKind::Lsr), mode: AddressingMode::ZeroPage_X, cycles: 6 }),  // LSR_ZERO_PAGE_X
        0x58 => Some(Instruction { operation: Operation::Cli, mode: AddressingMode::Accumulator, cycles: 2 }),  // CLI_IMPLIED
        0x59 => Some(Instruction { operation: Operation::Logic(LogicKind::Eor), mode: AddressingMode::Absolute_Y, cycles: 4 }),  // EOR_ABSOLUTE_Y
        0x5d => Some(Instruction { operation: Operation::Logic(LogicKind::Eor), mode: AddressingMode::Absolute_X, cycles: 4 }),  // EOR_ABSOLUTE_X
        0x5e => Some(Instruction { operation: Operation::Shift(ShiftKind::Lsr), mode: AddressingMode::Absolute_X, cycles: 7 }),  // LSR_ABSOLUTE_X
        0x60 => Some(Instruction { operation: Operation::Rts, mode: AddressingMode::Accumulator, cycles: 6 }),  // RTS_IMPLIED
        0x61 => Some(Instruction { operation: Operation::Adc, mode: AddressingMode::Indirect_X, cycles: 6 }),  // ADC_INDIRECT_X
        0x65 => Some(Instruction { operation: Operation::Adc, mode: AddressingMode::ZeroPage, cycles: 3 }),  // ADC_ZERO_PAGE
        0x66 => Some(Instruction { operation: Operation::Shift(ShiftKind::Ror), mode: AddressingMode::ZeroPage, cycles: 5 }),  // ROR_ZERO_PAGE
        0x68 => Some(Instruction { operation: Operation::Pla, mode: AddressingMode::Accumulator, cycles: 4 }),  // PLA_IMPLIED
        0x69 => Some(Instruction { operation: Operation::Adc, mode: AddressingMode::Immediate, cycles: 2 }),  // ADC_IMMEDIATE
        0x6a => Some(Instruction { operation: Operation::Shift(ShiftKind::Ror), mode: AddressingMode::Accumulator, cycles: 2 }),  // ROR_ACCUMULATOR
        0x6c => Some(Instruction { operation: Operation::JmpIndirect, mode: AddressingMode::Accumulator, cycles: 5 }),  // JMP_INDIRECT
        0x6d => Some(Instruction { operation: Operation::Adc, mode: AddressingMode::Absolute, cycles: 4 }),  // ADC_ABSOLUTE
        0x6e => Some(Instruction { operation: Operation::Shift(ShiftKind::Ror), mode: AddressingMode::Absolute, cycles: 6 }),  // ROR_ABSOLUTE
        0x70 => Some(Instruction { operation: Operation::Branch(Condition::OverflowSet), mode: AddressingMode::Accumulator, cycles: 2 }),  // BVS_RELATIVE
        0x71 => Some(Instruction { operation: Operation::Adc, mode: AddressingMode::Indirect_Y, cycles: 5 }),  // ADC_INDIRECT_Y
        0x75 => Some(Instruction { operation: Operation::Adc, mode: AddressingMode::ZeroPage_X, cycles: 4 }),  // ADC_ZERO_PAGE_X
        0x76 => Some(Instruction { operation: Operation::Shift(ShiftKind::Ror), mode: AddressingMode::ZeroPage_X, cycles: 6 }),  // ROR_ZERO_PAGE_X
        0x78 => Some(Instruction { operation: Operation::Sei, mode: AddressingMode::Accumulator, cycles: 2 }),  // SEI_IMPLIED
        0x79 => Some(Instruction { operation: Operation::Adc, mode: AddressingMode::Absolute_Y, cycles: 4 }),  // ADC_ABSOLUTE_Y
        0x7d => Some(Instruction { operation: Operation::Adc, mode: AddressingMode::Absolute_X, cycles: 4 }),  // ADC_ABSOLUTE_X
        0x7e => Some(Instruction { operation: Operation::Shift(ShiftKind::Ror), mode: AddressingMode::Absolute_X, cycles: 7 }),  // ROR_ABSOLUTE_X
        0x81 => Some(Instruction { operation: Operation::Store(Register::A), mode: AddressingMode::Indirect_X, cycles: 6 }),  // STA_INDIRECT_X
        0x84 => Some(Instruction { operation: Operation::Store(Register::Y), mode: AddressingMode::ZeroPage, cycles: 3 }),  // STY_ZERO_PAGE
        0x85 => Some(Instruction { operation: Operation::Store(Register::A), mode: AddressingMode::ZeroPage, cycles: 3 }),  // STA_ZERO_PAGE
        0x86 => Some(Instruction { operation: Operation::Store(Register::X), mode: AddressingMode::ZeroPage, cycles: 3 }),  // STX_ZERO_PAGE
        0x88 => Some(Instruction { operation: Operation::Dey, mode: AddressingMode::Accumulator, cycles: 2 }),  // DEY_IMPLIED
        0x8a => Some(Instruction { operation: Operation::Txa, mode: AddressingMode::Accumulator, cycles: 2 }),  // TXA_IMPLIED
        0x8c => Some(Instruction { operation: Operation::Store(Register::Y), mode: AddressingMode::Absolute, cycles: 4 }),  // STY_ABSOLUTE
        0x8d => Some(Instruction { operation: Operation::Store(Register::A), mode: AddressingMode::Absolute, cycles: 4 }),  // STA_ABSOLUTE
        0x8e => Some(Instruction { operation: Operation::Store(Register::X), mode: AddressingMode::Absolute, cycles: 4 }),  // STX_ABSOLUTE
        0x90 => Some(Instruction { operation: Operation::Branch(Condition::CarryClear), mode: AddressingMode::Accumulator, cycles: 2 }),  // BCC_RELATIVE
        0x91 => Some(Instruction { operation: Operation::Store(Register::A), mode: AddressingMode::Indirect_Y, cycles: 6 }),  // STA_INDIRECT_Y
        0x94 => Some(Instruction { operation: Operation::Store(Register::Y), mode: AddressingMode::ZeroPage_X, cycles: 4 }),  // STY_ZERO_PAGE_X
        0x95 => Some(Instruction { operation: Operation::Store(Register::A), mode: AddressingMode::ZeroPage_X, cycles: 4 }),  // STA_ZERO_PAGE_X
        0x96 => Some(Instruction { operation: Operation::Store(Register::X), mode: AddressingMode::ZeroPage_Y, cycles: 4 }),  // STX_ZERO_PAGE_Y
        0x98 => Some(Instruction { operation: Operation::Tya, mode: AddressingMode::Accumulator, cycles: 2 }),  // TYA_IMPLIED
        0x99 => Some(Instruction { operation: Operation::Store(Register::A), mode: AddressingMode::Absolute_Y, cycles: 5 }),  // STA_ABSOLUTE_Y
        0x9a => Some(Instruction { operation: Operation::Txs, mode: AddressingMode::Accumulator, cycles: 2 }),  // TXS_IMPLIED
        0x9d => Some(Instruction { operation: Operation::Store(Register::A), mode: AddressingMode::Absolute_X, cycles: 5 }),  // STA_ABSOLUTE_X
        0xa0 => Some(Instruction { operation: Operation::Load(Register::Y), mode: AddressingMode::Immediate, cycles: 2 }),  // LDY_IMMEDIATE
        0xa1 => Some(Instruction { operation: Operation::Load(Register::A), mode: AddressingMode::Indirect_X, cycles: 6 }),  // LDA_INDIRECT_X
        0xa2 => Some(Instruction { operation: Operation::Load(Register::X), mode: AddressingMode::Immediate, cycles: 2 }),  // LDX_IMMEDIATE
        0xa4 => Some(Instruction { operation: Operation::Load(Register::Y), mode: AddressingMode::ZeroPage, cycles: 3 }),  // LDY_ZERO_PAGE
        0xa5 => Some(Instruction { operation: Operation::Load(Register::A), mode: AddressingMode::ZeroPage, cycles: 3 }),  // LDA_ZERO_PAGE
        0xa6 => Some(Instruction { operation: Operation::Load(Register::X), mode: AddressingMode::ZeroPage, cycles: 3 }),  // LDX_ZERO_PAGE
        0xa8 => Some(Instruction { operation: Operation::Tay, mode: AddressingMode::Accumulator, cycles: 2 }),  // TAY_IMPLIED
        0xa9 => Some(Instruction { operation: Operation::Load(Register::A), mode: AddressingMode::Immediate, cycles: 2 }),  // LDA_IMMEDIATE
        0xaa => Some(Instruction { operation: Operation::Tax, mode: AddressingMode::Accumulator, cycles: 2 }),  // TAX_IMPLIED
        0xac => Some(Instruction { operation: Operation::Load(Register::Y), mode: AddressingMode::Absolute, cycles: 4 }),  // LDY_ABSOLUTE
        0xad => Some(Instruction { operation: Operation::Load(Register::A), mode: AddressingMode::Absolute, cycles: 4 }),  // LDA_ABSOLUTE
        0xae => Some(Instruction { operation: Operation::Load(Register::X), mode: AddressingMode::Absolute, cycles: 4 }),  // LDX_ABSOLUTE
        0xb0 => Some(Instruction { operation: Operation::Branch(Condition::CarrySet), mode: AddressingMode::Accumulator, cycles: 2 }),  // BCS_RELATIVE
        0xb1 => Some(Instruction { operation: Operation::Load(Register::A), mode: AddressingMode::Indirect_Y, cycles: 5 }),  // LDA_INDIRECT_Y
        0xb4 => Some(Instruction { operation: Operation::Load(Register::Y), mode: AddressingMode::ZeroPage_X, cycles: 4 }),  // LDY_ZERO_PAGE_X
        0xb5 => Some(Instruction { operation: Operation::Load(Register::A), mode: AddressingMode::ZeroPage_X, cycles: 4 }),  // LDA_ZERO_PAGE_X
        0xb6 => Some(Instruction { operation: Operation::Load(Register::X), mode: AddressingMode::ZeroPage_Y, cycles: 4 }),  // LDX_ZERO_PAGE_Y
        0xb8 => Some(Instruction { operation: Operation::Clv, mode: AddressingMode::Accumulator, cycles: 2 }),  // CLV_IMPLIED
        0xb9 => Some(Instruction { operation: Operation::Load(Register::A), mode: AddressingMode::Absolute_Y, cycles: 4 }),  // LDA_ABSOLUTE_Y
        0xba => Some(Instruction { operation: Operation::Tsx, mode: AddressingMode::Accumulator, cycles: 2 }),  // TSX_IMPLIED
        0xbc => Some(Instruction { operation: Operation::Load(Register::Y), mode: AddressingMode::Absolute_X, cycles: 4 }),  // LDY_ABSOLUTE_X
        0xbd => Some(Instruction { operation: Operation::Load(Register::A), mode: AddressingMode::Absolute_X, cycles: 4 }),  // LDA_ABSOLUTE_X
        0xbe => Some(Instruction { operation: Operation::Load(Register::X), mode: AddressingMode::Absolute_Y, cycles: 4 }),  // LDX_ABSOLUTE_Y
        0xc0 => Some(Instruction { operation: Operation::Compare(Register::Y), mode: AddressingMode::Immediate, cycles: 2 }),  // CPY_IMMEDIATE
        0xc1 => Some(Instruction { operation: Operation::Compare(Register::A), mode: AddressingMode::Indirect_X, cycles: 6 }),  // CMP_INDIRECT_X
        0xc4 => Some(Instruction { operation: Operation::Compare(Register::Y), mode: AddressingMode::ZeroPage, cycles: 3 }),  // CPY_ZERO_PAGE
        0xc5 => Some(Instruction { operation: Operation::Compare(Register::A), mode: AddressingMode::ZeroPage, cycles: 3 }),  // CMP_ZERO_PAGE
        0xc6 => Some(Instruction { operation: Operation::Dec, mode: AddressingMode::ZeroPage, cycles: 5 }),  // DEC_ZERO_PAGE
        0xc8 => Some(Instruction { operation: Operation::Iny, mode: AddressingMode::Accumulator, cycles: 2 }),  // INY_IMPLIED
        0xc9 => Some(Instruction { operation: Operation::Compare(Register::A), mode: AddressingMode::Immediate, cycles: 2 }),  // CMP_IMMEDIATE
        0xca => Some(Instruction { operation: Operation::Dex, mode: AddressingMode::Accumulator, cycles: 2 }),  // DEX_IMPLIED
        0xcc => Some(Instruction { operation: Operation::Compare(Register::Y), mode: AddressingMode::Absolute, cycles: 4 }),  // CPY_ABSOLUTE
        0xcd => Some(Instruction { operation: Operation::Compare(Register::A), mode: AddressingMode::Absolute, cycles: 4 }),  // CMP_ABSOLUTE
        0xce => Some(Instruction { operation: Operation::Dec, mode: AddressingMode::Absolute, cycles: 6 }),  // DEC_ABSOLUTE
        0xd0 => Some(Instruction { operation: Operation::Branch(Condition::NotEqual), mode: AddressingMode::Accumulator, cycles: 2 }),  // BNE_RELATIVE
        0xd1 => Some(Instruction { operation: Operation::Compare(Register::A), mode: AddressingMode::Indirect_Y, cycles: 5 }),  // CMP_INDIRECT_Y
        0xd5 => Some(Instruction { operation: Operation::Compare(Register::A), mode: AddressingMode::ZeroPage_X, cycles: 4 }),  // CMP_ZERO_PAGE_X
        0xd6 => Some(Instruction { operation: Operation::Dec, mode: AddressingMode::ZeroPage_X, cycles: 6 }),  // DEC_ZERO_PAGE_X
        0xd8 => Some(Instruction { operation: Operation::Cld, mode: AddressingMode::Accumulator, cycles: 2 }),  // CLD_IMPLIED
        0xd9 => Some(Instruction { operation: Operation::Compare(Register::A), mode: AddressingMode::Absolute_Y, cycles: 4 }),  // CMP_ABSOLUTE_Y
        0xdd => Some(Instruction { operation: Operation::Compare(Register::A), mode: AddressingMode::Absolute_X, cycles: 4 }),  // CMP_ABSOLUTE_X
        0xde => Some(Instruction { operation: Operation::Dec, mode: AddressingMode::Absolute_X, cycles: 7 }),  // DEC_ABSOLUTE_X
        0xe0 => Some(Instruction { operation: Operation::Compare(Register::X), mode: AddressingMode::Immediate, cycles: 2 }),  // CPX_IMMEDIATE
        0xe1 => Some(Instruction { operation: Operation::Sbc, mode: AddressingMode::Indirect_X, cycles: 6 }),  // SBC_INDIRECT_X
        0xe4 => Some(Instruction { operation: Operation::Compare(Register::X), mode: AddressingMode::ZeroPage, cycles: 3 }),  // CPX_ZERO_PAGE
        0xe5 => Some(Instruction { operation: Operation::Sbc, mode: AddressingMode::ZeroPage, cycles: 3 }),  // SBC_ZERO_PAGE
        0xe6 => Some(Instruction { operation: Operation::Inc, mode: AddressingMode::ZeroPage, cycles: 5 }),  // INC_ZERO_PAGE
        0xe8 => Some(Instruction { operation: Operation::Inx, mode: AddressingMode::Accumulator, cycles: 2 }),  // INX_IMPLIED
        0xe9 => Some(Instruction { operation: Operation::Sbc, mode: AddressingMode::Immediate, cycles: 2 }),  // SBC_IMMEDIATE
        0xea => Some(Instruction { operation: Operation::Nop, mode: AddressingMode::Accumulator, cycles: 2 }),  // NOP_IMPLIED
        0xec => Some(Instruction { operation: Operation::Compare(Register::X), mode: AddressingMode::Absolute, cycles: 4 }),  // CPX_ABSOLUTE
        0xed => Some(Instruction { operation: Operation::Sbc, mode: AddressingMode::Absolute, cycles: 4 }),  // SBC_ABSOLUTE
        0xee => Some(Instruction { operation: Operation::Inc, mode: AddressingMode::Absolute, cycles: 6 }),  // INC_ABSOLUTE
        0xf0 => Some(Instruction { operation: Operation::Branch(Condition::Equal), mode: AddressingMode::Accumulator, cycles: 2 }),  // BEQ_RELATIVE
        0xf1 => Some(Instruction { operation: Operation::Sbc, mode: AddressingMode::Indirect_Y, cycles: 5 }),  // SBC_INDIRECT_Y
        0xf5 => Some(Instruction { operation: Operation::Sbc, mode: AddressingMode::ZeroPage_X, cycles: 4 }),  // SBC_ZERO_PAGE_X
        0xf6 => Some(Instruction { operation: Operation::Inc, mode: AddressingMode::ZeroPage_X, cycles: 6 }),  // INC_ZERO_PAGE_X
        0xf8 => Some(Instruction { operation: Operation::Sed, mode: AddressingMode::Accumulator, cycles: 2 }),  // SED_IMPLIED
        0xf9 => Some(Instruction { operation: Operation::Sbc, mode: AddressingMode::Absolute_Y, cycles: 4 }),  // SBC_ABSOLUTE_Y
        0xfd => Some(Instruction { operation: Operation::Sbc, mode: AddressingMode::Absolute_X, cycles: 4 }),  // SBC_ABSOLUTE_X
        0xfe => Some(Instruction { operation: Operation::Inc, mode: AddressingMode::Absolute_X, cycles: 7 }),  // INC_ABSOLUTE_X
        _ => None,
    }
}

} // verus!
