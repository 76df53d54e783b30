use vstd::prelude::*;

use super::Cpu;
use super::addressing_mode::AddressingMode;
use super::bus_access::Bus;
use super::flags::{Flag, flag_mask, with_bit, with_zero_negative};
use super::instructions::branch::Condition;
use super::instructions::load_store::Register;
use super::instructions::shift::{ShiftKind, shift_value};
use super::instructions::stack::{pushed_status, restored_status};
use super::instructions::jump::indirect_high_address;
use super::bus_access::word;
use super::laws::{law_add_with_carry, law_subtract_with_borrow, signed};
use super::opcodes::{Instruction, Operation};

verus! {

// What each instruction does, stated with the status register's layout
// written out: bit 7 N, 6 V, 5 always 1 when pushed, 4 B, 3 D, 2 I, 1 Z,
// 0 C.

/// The status after Z and N are taken from `result`: Z (bit 1) set exactly
/// when it is 0, N (bit 7) a copy of its bit 7, the other bits kept.
pub open spec fn zn_status(status: u8, result: u8) -> u8 {
    ((status & 0x7D) | (if result == 0 {
        0x02u8
    } else {
        0x00u8
    })) | (result & 0x80)
}

/// Setting Z and N is `zn_status`.
pub proof fn law_zero_negative_bits(status: u8, result: u8)
    ensures
        with_zero_negative(status, result) == zn_status(status, result),
{
    let z = with_bit(status, flag_mask(Flag::Zero), result == 0);
    if result == 0 {
        assert(result & 0x80u8 == 0u8) by (bit_vector)
            requires
                result == 0,
        ;
        assert(z == status | 2u8);
        assert(((status | 2u8) & !0x80u8) == ((status & 0x7Du8) | 2u8) | (0u8 & 0x80u8))
            by (bit_vector);
    } else if result & 0x80 != 0 {
        assert(z == status & !2u8);
        assert(((status & !2u8) | 0x80u8) == ((status & 0x7Du8) | 0u8) | (result & 0x80u8))
            by (bit_vector)
            requires
                result & 0x80u8 != 0,
        ;
    } else {
        assert(z == status & !2u8);
        assert(((status & !2u8) & !0x80u8) == ((status & 0x7Du8) | 0u8) | (result & 0x80u8))
            by (bit_vector)
            requires
                result & 0x80u8 == 0,
        ;
    }
}

/// The instruction with `operation`, whatever its mode and cycles.
pub open spec fn op(operation: Operation, mode: AddressingMode) -> Instruction {
    Instruction { operation, mode, cycles: 2 }
}

/// The register instructions: INX, INY, DEX and DEY count modulo 256; TAX,
/// TAY, TXA, TYA and TSX copy one register into another; each sets Z and N
/// from its result, keeps the other flags and touches no other register,
/// the bus or the program counter.  TXS copies X into the stack pointer and
/// leaves the flags.
pub proof fn law_register_instructions<B: Bus>(cpu: Cpu<B>, mode: AddressingMode)
    ensures
        ({
            let a = cpu.register_a;
            let x = cpu.register_x;
            let y = cpu.register_y;
            let st = cpu.processor_status;
            let inx = cpu.execute_post(op(Operation::Inx, mode));
            let iny = cpu.execute_post(op(Operation::Iny, mode));
            let dex = cpu.execute_post(op(Operation::Dex, mode));
            let dey = cpu.execute_post(op(Operation::Dey, mode));
            let tax = cpu.execute_post(op(Operation::Tax, mode));
            let tay = cpu.execute_post(op(Operation::Tay, mode));
            let txa = cpu.execute_post(op(Operation::Txa, mode));
            let tya = cpu.execute_post(op(Operation::Tya, mode));
            let tsx = cpu.execute_post(op(Operation::Tsx, mode));
            let txs = cpu.execute_post(op(Operation::Txs, mode));
            &&& inx == (Cpu { register_x: ((x + 1) % 256) as u8, processor_status: zn_status(st, ((x + 1) % 256) as u8), ..cpu })
            &&& iny == (Cpu { register_y: ((y + 1) % 256) as u8, processor_status: zn_status(st, ((y + 1) % 256) as u8), ..cpu })
            &&& dex == (Cpu { register_x: ((x + 255) % 256) as u8, processor_status: zn_status(st, ((x + 255) % 256) as u8), ..cpu })
            &&& dey == (Cpu { register_y: ((y + 255) % 256) as u8, processor_status: zn_status(st, ((y + 255) % 256) as u8), ..cpu })
            &&& tax == (Cpu { register_x: a, processor_status: zn_status(st, a), ..cpu })
            &&& tay == (Cpu { register_y: a, processor_status: zn_status(st, a), ..cpu })
            &&& txa == (Cpu { register_a: x, processor_status: zn_status(st, x), ..cpu })
            &&& tya == (Cpu { register_a: y, processor_status: zn_status(st, y), ..cpu })
            &&& tsx == (Cpu { register_x: cpu.stack_pointer, processor_status: zn_status(st, cpu.stack_pointer), ..cpu })
            &&& txs == (Cpu { stack_pointer: x, ..cpu })
        }),
{
    let st = cpu.processor_status;
    law_zero_negative_bits(st, cpu.register_x.wrapping_add(1));
    law_zero_negative_bits(st, cpu.register_y.wrapping_add(1));
    law_zero_negative_bits(st, cpu.register_x.wrapping_sub(1));
    law_zero_negative_bits(st, cpu.register_y.wrapping_sub(1));
    law_zero_negative_bits(st, cpu.register_a);
    law_zero_negative_bits(st, cpu.register_x);
    law_zero_negative_bits(st, cpu.register_y);
    law_zero_negative_bits(st, cpu.stack_pointer);
}

/// Loads copy the byte `m` at the operand's address `addr` into their
/// register and set Z and N from it; stores write their register to `addr`.
pub proof fn law_load_store<B: Bus>(cpu: Cpu<B>, mode: AddressingMode)
    requires
        mode != AddressingMode::Accumulator,
    ensures
        ({
            let (s1, addr) = cpu.operand_address_post(mode);
            let (s2, m) = s1.peek_byte_post(addr);
            let st = s2.processor_status;
            &&& cpu.execute_post(op(Operation::Load(Register::A), mode)) == (Cpu {
                register_a: m,
                processor_status: zn_status(st, m),
                ..s2
            })
            &&& cpu.execute_post(op(Operation::Load(Register::X), mode)) == (Cpu {
                register_x: m,
                processor_status: zn_status(st, m),
                ..s2
            })
            &&& cpu.execute_post(op(Operation::Load(Register::Y), mode)) == (Cpu {
                register_y: m,
                processor_status: zn_status(st, m),
                ..s2
            })
            &&& cpu.execute_post(op(Operation::Store(Register::A), mode)) == s1.write_byte_post(
                addr,
                cpu.register_a,
            )
            &&& cpu.execute_post(op(Operation::Store(Register::X), mode)) == s1.write_byte_post(
                addr,
                cpu.register_x,
            )
            &&& cpu.execute_post(op(Operation::Store(Register::Y), mode)) == s1.write_byte_post(
                addr,
                cpu.register_y,
            )
        }),
{
    let (s1, addr) = cpu.operand_address_post(mode);
    let (s2, m) = s1.peek_byte_post(addr);
    law_zero_negative_bits(s2.processor_status, m);
}

/// The status after a comparison of `r` with `m`: C set when `r` is at least
/// `m`, then Z and N from their difference modulo 256.
pub open spec fn compared_status(status: u8, r: u8, m: u8) -> u8 {
    let carry: u8 = if r >= m {
        1
    } else {
        0
    };
    zn_status((status & 0xFE) | carry, ((r - m + 256) % 256) as u8)
}

/// CMP, CPX and CPY compare A, X or Y with the byte `m` at the operand's
/// address: C set exactly when the register is at least `m`, Z when they
/// are equal, N from bit 7 of their difference modulo 256; nothing else
/// changes beyond the operand's read.
pub proof fn law_compare_instructions<B: Bus>(cpu: Cpu<B>, mode: AddressingMode)
    requires
        mode != AddressingMode::Accumulator,
    ensures
        ({
            let (s1, addr) = cpu.operand_address_post(mode);
            let (s2, m) = s1.peek_byte_post(addr);
            let st = s2.processor_status;
            &&& cpu.execute_post(op(Operation::Compare(Register::A), mode)) == (Cpu {
                processor_status: compared_status(st, cpu.register_a, m),
                ..s2
            })
            &&& cpu.execute_post(op(Operation::Compare(Register::X), mode)) == (Cpu {
                processor_status: compared_status(st, cpu.register_x, m),
                ..s2
            })
            &&& cpu.execute_post(op(Operation::Compare(Register::Y), mode)) == (Cpu {
                processor_status: compared_status(st, cpu.register_y, m),
                ..s2
            })
        }),
{
    let (s1, addr) = cpu.operand_address_post(mode);
    let (s2, m) = s1.peek_byte_post(addr);
    let st = s2.processor_status;
    lemma_compared(st, cpu.register_a, m);
    lemma_compared(st, cpu.register_x, m);
    lemma_compared(st, cpu.register_y, m);
}

proof fn lemma_compared(st: u8, r: u8, m: u8)
    ensures
        with_zero_negative(with_bit(st, flag_mask(Flag::Carry), r >= m), r.wrapping_sub(m))
            == compared_status(st, r, m),
{
    let carry: u8 = if r >= m {
        1
    } else {
        0
    };
    assert((if r >= m {
        st | 1u8
    } else {
        st & !1u8
    }) == (st & 0xFEu8) | carry) by (bit_vector)
        requires
            carry == (if r >= m {
                1u8
            } else {
                0u8
            }),
    ;
    law_zero_negative_bits((st & 0xFE) | carry, r.wrapping_sub(m));
}

/// BIT sets Z exactly when A AND the operand `m` is 0 and copies bits 7 and
/// 6 of `m` into N and V; the other flags, A and the bus beyond the read
/// stay.
pub proof fn law_bit_instruction<B: Bus>(cpu: Cpu<B>, mode: AddressingMode)
    requires
        mode != AddressingMode::Accumulator,
    ensures
        ({
            let (s1, addr) = cpu.operand_address_post(mode);
            let (s2, m) = s1.peek_byte_post(addr);
            let st = s2.processor_status;
            cpu.execute_post(op(Operation::Bit, mode)) == (Cpu {
                processor_status: ((st & 0x3D) | (if cpu.register_a & m == 0 {
                    0x02u8
                } else {
                    0x00u8
                })) | (m & 0xC0),
                ..s2
            })
        }),
{
    let (s1, addr) = cpu.operand_address_post(mode);
    let (s2, m) = s1.peek_byte_post(addr);
    let st = s2.processor_status;
    let a = cpu.register_a;
    let z = with_bit(st, flag_mask(Flag::Zero), a & m == 0);
    let n = with_bit(z, flag_mask(Flag::Negative), m & 0x80 != 0);
    let v = with_bit(n, flag_mask(Flag::OverFlow), m & 0x40 != 0);
    let zb: u8 = if a & m == 0 {
        0x02
    } else {
        0x00
    };
    assert(v == ((st & 0x3Du8) | zb) | (m & 0xC0u8)) by (bit_vector)
        requires
            zb == (if a & m == 0 {
                0x02u8
            } else {
                0x00u8
            }),
            z == (if a & m == 0 {
                st | 2u8
            } else {
                st & !2u8
            }),
            n == (if m & 0x80u8 != 0 {
                z | 0x80u8
            } else {
                z & !0x80u8
            }),
            v == (if m & 0x40u8 != 0 {
                n | 0x40u8
            } else {
                n & !0x40u8
            }),
    ;
}

/// INC and DEC write the byte `m` at the operand's address back plus or
/// minus one, modulo 256, and set Z and N from the result.
pub proof fn law_inc_dec_memory<B: Bus>(cpu: Cpu<B>, mode: AddressingMode)
    requires
        mode != AddressingMode::Accumulator,
    ensures
        ({
            let (s1, addr) = cpu.operand_address_post(mode);
            let (s2, m) = s1.peek_byte_post(addr);
            let st = s2.processor_status;
            let inc = ((m + 1) % 256) as u8;
            let dec = ((m + 255) % 256) as u8;
            &&& cpu.execute_post(op(Operation::Inc, mode)) == (Cpu {
                processor_status: zn_status(st, inc),
                ..s2.write_byte_post(addr, inc)
            })
            &&& cpu.execute_post(op(Operation::Dec, mode)) == (Cpu {
                processor_status: zn_status(st, dec),
                ..s2.write_byte_post(addr, dec)
            })
        }),
{
    let (s1, addr) = cpu.operand_address_post(mode);
    let (s2, m) = s1.peek_byte_post(addr);
    law_zero_negative_bits(s2.processor_status, ((m + 1) % 256) as u8);
    law_zero_negative_bits(s2.processor_status, ((m + 255) % 256) as u8);
}

/// ADC adds the byte `m` at the operand's address and the carry C (bit 0)
/// to A modulo 256, setting C to the carry out and V (bit 6) when the
/// signed sum leaves -128..127; SBC subtracts `m` and the borrow 1 - C,
/// setting C when no borrow was needed and V on signed overflow.  Both set
/// Z and N from the result.
pub proof fn law_add_subtract<B: Bus>(cpu: Cpu<B>, mode: AddressingMode)
    requires
        mode != AddressingMode::Accumulator,
    ensures
        ({
            let (s1, addr) = cpu.operand_address_post(mode);
            let (s2, m) = s1.peek_byte_post(addr);
            let a = cpu.register_a;
            let c = cpu.processor_status % 2;
            let adc = cpu.execute_post(op(Operation::Adc, mode));
            let sbc = cpu.execute_post(op(Operation::Sbc, mode));
            &&& adc.register_a == (a + m + c) % 256
            &&& (adc.processor_status % 2 == 1) == (a + m + c >= 256)
            &&& ((adc.processor_status / 64) % 2 == 1) == !(-128 <= signed(a) + signed(m) + c
                <= 127)
            &&& ((adc.processor_status / 2) % 2 == 1) == (adc.register_a == 0)
            &&& (adc.processor_status >= 128) == (adc.register_a >= 128)
            &&& sbc.register_a == (a - m - (1 - c)) % 256
            &&& (sbc.processor_status % 2 == 1) == (a - m - (1 - c) >= 0)
            &&& ((sbc.processor_status / 64) % 2 == 1) == !(-128 <= signed(a) - signed(m) - (1
                - c) <= 127)
            &&& ((sbc.processor_status / 2) % 2 == 1) == (sbc.register_a == 0)
            &&& (sbc.processor_status >= 128) == (sbc.register_a >= 128)
            &&& adc == (Cpu { register_a: adc.register_a, processor_status: adc.processor_status, ..s2 })
            &&& sbc == (Cpu { register_a: sbc.register_a, processor_status: sbc.processor_status, ..s2 })
        }),
{
    let (s1, addr) = cpu.operand_address_post(mode);
    let (s2, m) = s1.peek_byte_post(addr);
    let ps = cpu.processor_status;
    crate::cpu::flags::lemma_byte_facts(ps);
    law_add_with_carry(s2, m);
    law_add_with_carry(s2, !m);
    law_subtract_with_borrow(s2, m);
    let ast = s2.add_to_accumulator_post(m).processor_status;
    let sst = s2.add_to_accumulator_post(!m).processor_status;
    assert((ast & 1u8 != 0) == (ast % 2 == 1) && ((ast & 0x40u8 != 0) == ((ast / 64) % 2 == 1))
        && ((ast & 2u8 != 0) == ((ast / 2) % 2 == 1)) && ((ast & 0x80u8 != 0) == (ast >= 128)))
        by (bit_vector);
    assert((sst & 1u8 != 0) == (sst % 2 == 1) && ((sst & 0x40u8 != 0) == ((sst / 64) % 2 == 1))
        && ((sst & 2u8 != 0) == ((sst / 2) % 2 == 1)) && ((sst & 0x80u8 != 0) == (sst >= 128)))
        by (bit_vector);
}

/// A shift or rotation of `v` with carry `c` (0 or 1), as arithmetic: the
/// result and the bit shifted out.  ASL doubles, LSR halves, ROL doubles and
/// adds the carry, ROR halves and adds 128 for the carry.
pub open spec fn shifted(kind: ShiftKind, v: u8, c: int) -> (u8, u8) {
    match kind {
        ShiftKind::Asl => (((v * 2) % 256) as u8, (v / 128) as u8),
        ShiftKind::Lsr => ((v / 2) as u8, (v % 2) as u8),
        ShiftKind::Rol => (((v * 2 + c) % 256) as u8, (v / 128) as u8),
        ShiftKind::Ror => ((v / 2 + c * 128) as u8, (v % 2) as u8),
    }
}

proof fn lemma_shift_status(st: u8, kind: ShiftKind, v: u8)
    ensures
        ({
            let c = (st % 2) as int;
            let (r, out) = shifted(kind, v, c);
            &&& shift_value(kind, v, st & flag_mask(Flag::Carry)).0 == r
            &&& with_zero_negative(
                with_bit(st, flag_mask(Flag::Carry), shift_value(kind, v, st & flag_mask(Flag::Carry)).1),
                r,
            ) == zn_status((st & 0xFE) | out, r)
        }),
{
    let c8 = st & 1u8;
    assert(c8 == st % 2 && c8 <= 1) by (bit_vector)
        requires
            c8 == st & 1u8,
    ;
    crate::cpu::laws::law_shift_arithmetic(v, c8);
    let c = (st % 2) as int;
    let (r, out) = shifted(kind, v, c);
    let bit = shift_value(kind, v, c8).1;
    assert(bit == (out == 1));
    assert(out <= 1);
    assert((if bit {
        st | 1u8
    } else {
        st & !1u8
    }) == (st & 0xFEu8) | out) by (bit_vector)
        requires
            bit == (out == 1u8),
            out <= 1,
    ;
    law_zero_negative_bits((st & 0xFE) | out, r);
}

/// ASL, LSR, ROL and ROR on the accumulator or on the byte `m` at the
/// operand's address: the result is `shifted` with the carry C (bit 0),
/// C becomes the bit shifted out, Z and N follow the result, and the result
/// goes back where the operand came from.
pub proof fn law_shift_instructions<B: Bus>(cpu: Cpu<B>, kind: ShiftKind, mode: AddressingMode)
    ensures
        ({
            let st = cpu.processor_status;
            let c = (st % 2) as int;
            let post = cpu.execute_post(op(Operation::Shift(kind), mode));
            let (s1, addr) = cpu.operand_address_post(mode);
            let (s2, m) = s1.peek_byte_post(addr);
            &&& mode == AddressingMode::Accumulator ==> post == (Cpu {
                register_a: shifted(kind, cpu.register_a, c).0,
                processor_status: zn_status(
                    (st & 0xFE) | shifted(kind, cpu.register_a, c).1,
                    shifted(kind, cpu.register_a, c).0,
                ),
                ..cpu
            })
            &&& mode != AddressingMode::Accumulator ==> post == (Cpu {
                processor_status: zn_status(
                    (s2.processor_status & 0xFE) | shifted(kind, m, c).1,
                    shifted(kind, m, c).0,
                ),
                ..s2.write_byte_post(addr, shifted(kind, m, c).0)
            })
        }),
{
    let st = cpu.processor_status;
    lemma_shift_status(st, kind, cpu.register_a);
    let (s1, addr) = cpu.operand_address_post(mode);
    let (s2, m) = s1.peek_byte_post(addr);
    lemma_shift_status(st, kind, m);
}

/// Each branch tests one flag, N (bit 7), V (bit 6), C (bit 0) or Z (bit 1),
/// for being clear or set; the offset byte is always consumed, and a taken
/// branch moves the program counter by the signed offset from the next
/// instruction, modulo 65536.
pub proof fn law_branch_instructions<B: Bus>(cpu: Cpu<B>, condition: Condition, mode: AddressingMode)
    ensures
        ({
            let st = cpu.processor_status;
            let (s, offset) = cpu.fetch_byte_post();
            let taken = match condition {
                Condition::Plus => st < 128,
                Condition::Minus => st >= 128,
                Condition::OverflowClear => (st / 64) % 2 == 0,
                Condition::OverflowSet => (st / 64) % 2 == 1,
                Condition::CarryClear => st % 2 == 0,
                Condition::CarrySet => st % 2 == 1,
                Condition::NotEqual => (st / 2) % 2 == 0,
                Condition::Equal => (st / 2) % 2 == 1,
            };
            let post = cpu.execute_post(op(Operation::Branch(condition), mode));
            &&& post == (Cpu { program_counter: post.program_counter, ..s })
            &&& post.program_counter as int == if taken {
                (s.program_counter + signed(offset)) % 65536
            } else {
                s.program_counter as int
            }
        }),
{
    let st = cpu.processor_status;
    crate::cpu::flags::lemma_byte_facts(st);
    let (s, offset) = cpu.fetch_byte_post();
    crate::cpu::laws::law_branch_target(s.program_counter, offset);
}

/// CLC, SEC, CLI, SEI, CLD, SED and CLV clear or set one bit of the status:
/// C (bit 0), I (bit 2), D (bit 3) or V (bit 6); nothing else changes.
pub proof fn law_flag_instructions<B: Bus>(cpu: Cpu<B>, mode: AddressingMode)
    ensures
        ({
            let st = cpu.processor_status;
            &&& cpu.execute_post(op(Operation::Clc, mode)) == (Cpu { processor_status: st & 0xFE, ..cpu })
            &&& cpu.execute_post(op(Operation::Sec, mode)) == (Cpu { processor_status: st | 0x01, ..cpu })
            &&& cpu.execute_post(op(Operation::Cli, mode)) == (Cpu { processor_status: st & 0xFB, ..cpu })
            &&& cpu.execute_post(op(Operation::Sei, mode)) == (Cpu { processor_status: st | 0x04, ..cpu })
            &&& cpu.execute_post(op(Operation::Cld, mode)) == (Cpu { processor_status: st & 0xF7, ..cpu })
            &&& cpu.execute_post(op(Operation::Sed, mode)) == (Cpu { processor_status: st | 0x08, ..cpu })
            &&& cpu.execute_post(op(Operation::Clv, mode)) == (Cpu { processor_status: st & 0xBF, ..cpu })
        }),
{
    let st = cpu.processor_status;
    crate::cpu::flags::lemma_byte_facts(st);
}

/// The stack instructions: PHA pushes A; PHP pushes the status with B
/// (bit 4) and bit 5 set; PLA pulls into A and sets Z and N; PLP pulls into
/// the status with B cleared and bit 5 set.
pub proof fn law_stack_instructions<B: Bus>(cpu: Cpu<B>, mode: AddressingMode)
    ensures
        ({
            let st = cpu.processor_status;
            let (pulled, v) = cpu.pop_byte_post();
            &&& cpu.execute_post(op(Operation::Pha, mode)) == cpu.push_byte_post(cpu.register_a)
            &&& cpu.execute_post(op(Operation::Php, mode)) == cpu.push_byte_post(st | 0x30)
            &&& cpu.execute_post(op(Operation::Pla, mode)) == (Cpu {
                register_a: v,
                processor_status: zn_status(st, v),
                ..pulled
            })
            &&& cpu.execute_post(op(Operation::Plp, mode)) == (Cpu {
                processor_status: (v & 0xEF) | 0x20,
                ..pulled
            })
        }),
{
    let st = cpu.processor_status;
    let (pulled, v) = cpu.pop_byte_post();
    crate::cpu::flags::lemma_byte_facts(st);
    crate::cpu::flags::lemma_byte_facts(v);
    assert(pushed_status(st) == st | 0x30);
    assert(restored_status(v) == (v & 0xEF) | 0x20);
    law_zero_negative_bits(st, v);
}

/// JMP goes to the word after the opcode; JMP (indirect) to the word at that
/// address, whose high byte comes from the next address within the same
/// page; JSR pushes the address of its own last byte and goes to its
/// operand; RTS pulls an address and resumes one byte after it; RTI pulls
/// the status (B cleared, bit 5 set), then the program counter.
pub proof fn law_jump_instructions<B: Bus>(cpu: Cpu<B>, mode: AddressingMode)
    ensures
        ({
            let (s1, b1) = cpu.fetch_byte_post();
            let (s2, b2) = s1.fetch_byte_post();
            let target = b2 * 256 + b1;
            let high_at = target - target % 256 + (target % 256 + 1) % 256;
            let (t1, lo) = s2.peek_byte_post(target as u16);
            let (t2, hi) = t1.peek_byte_post(high_at as u16);
            let (r1, ret) = cpu.pop_word_post();
            let (p1, pulled) = cpu.pop_byte_post();
            let (p2, back) = (Cpu { processor_status: (pulled & 0xEF) | 0x20, ..p1 }).pop_word_post();
            &&& cpu.execute_post(op(Operation::Jmp, mode)) == (Cpu { program_counter: target as u16, ..s2 })
            &&& cpu.execute_post(op(Operation::JmpIndirect, mode)) == (Cpu {
                program_counter: (hi * 256 + lo) as u16,
                ..t2
            })
            &&& cpu.execute_post(op(Operation::Jsr, mode)) == (Cpu {
                program_counter: target as u16,
                ..s2.push_word_post(((cpu.program_counter + 1) % 65536) as u16)
            })
            &&& cpu.execute_post(op(Operation::Rts, mode)) == (Cpu {
                program_counter: ((ret + 1) % 65536) as u16,
                ..r1
            })
            &&& cpu.execute_post(op(Operation::Rti, mode)) == (Cpu { program_counter: back, ..p2 })
        }),
{
    let (s1, b1) = cpu.fetch_byte_post();
    let (s2, b2) = s1.fetch_byte_post();
    let target = word(b1, b2);
    assert(target == b2 * 256 + b1);
    let t = target;
    assert(indirect_high_address(t) as int == t - t % 256 + (t % 256 + 1) % 256) by (bit_vector);
    let (p1, pulled) = cpu.pop_byte_post();
    crate::cpu::flags::lemma_byte_facts(pulled);
}

} // verus!
