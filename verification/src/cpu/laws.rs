use vstd::prelude::*;

use super::{Clock, Cpu, PassiveHost, StepOutcome};
use crate::NesError;
use super::bus_access::Bus;
use super::flags::{Flag, flag_mask, lemma_with_bit, with_bit, with_zero_negative};
use super::instructions::arithmetic::carry_sum;
use super::instructions::branch::branch_target;
use super::addressing_mode::AddressingMode;
use super::instructions::shift::{ShiftKind, carry_of, shift_value};
use super::instructions::logical::LogicKind;

verus! {

/// The bit that each flag occupies.
pub open spec fn flag_bit(flag: Flag) -> u8 {
    match flag {
        Flag::Carry => 0,
        Flag::Zero => 1,
        Flag::InterruptDisable => 2,
        Flag::DecimalMode => 3,
        Flag::Break => 4,
        Flag::AlwaysSet => 5,
        Flag::OverFlow => 6,
        Flag::Negative => 7,
    }
}

proof fn lemma_flag_mask_bit(flag: Flag)
    ensures
        flag_mask(flag) == 1u8 << flag_bit(flag),
        flag_bit(flag) < 8,
{
    assert(1u8 << 0u8 == 1u8 && 1u8 << 1u8 == 2u8 && 1u8 << 2u8 == 4u8 && 1u8 << 3u8 == 8u8 && 1u8
        << 4u8 == 16u8 && 1u8 << 5u8 == 32u8 && 1u8 << 6u8 == 64u8 && 1u8 << 7u8 == 128u8)
        by (bit_vector);
}

/// Setting a flag and reading it back gives the value set; every other flag
/// keeps its value.
pub proof fn law_set_flag(status: u8, flag: Flag, value: bool, other: Flag)
    ensures
        (with_bit(status, flag_mask(flag), value) & flag_mask(flag) != 0) == value,
        other != flag ==> with_bit(status, flag_mask(flag), value) & flag_mask(other) == status
            & flag_mask(other),
{
    lemma_flag_mask_bit(flag);
    lemma_flag_mask_bit(other);
    if other != flag {
        lemma_with_bit(status, flag_bit(flag), value, flag_bit(other));
    } else {
        let o = if flag_bit(flag) == 0 {
            1u8
        } else {
            0u8
        };
        lemma_with_bit(status, flag_bit(flag), value, o);
    }
}

/// After Z and N are set from a result: Z is set exactly when the result is
/// zero, N exactly when its bit 7 is set, and the other flags keep their
/// values.
pub proof fn law_zero_negative(status: u8, result: u8, other: Flag)
    ensures
        (with_zero_negative(status, result) & flag_mask(Flag::Zero) != 0) == (result == 0),
        (with_zero_negative(status, result) & flag_mask(Flag::Negative) != 0) == (result >= 128),
        other != Flag::Zero && other != Flag::Negative ==> with_zero_negative(status, result)
            & flag_mask(other) == status & flag_mask(other),
{
    let z = with_bit(status, flag_mask(Flag::Zero), result == 0);
    law_set_flag(status, Flag::Zero, result == 0, Flag::Negative);
    law_set_flag(status, Flag::Zero, result == 0, other);
    law_set_flag(z, Flag::Negative, result & 0x80 != 0, Flag::Zero);
    law_set_flag(z, Flag::Negative, result & 0x80 != 0, other);
    crate::cpu::flags::lemma_byte_facts(result);
}

/// The byte signed as two's complement.
pub open spec fn signed(x: u8) -> int {
    if x >= 128 {
        x - 256
    } else {
        x as int
    }
}

proof fn lemma_adc_bits(a: u8, m: u8, c: u8)
    requires
        c <= 1,
    ensures
        (carry_sum(a, m, c) as u8) as int == (a + m + c) % 256,
        ((a ^ (carry_sum(a, m, c) as u8)) & (m ^ (carry_sum(a, m, c) as u8)) & 0x80u8 != 0) == (
        (a < 128 && m < 128 && a + m + c >= 128) || (a >= 128 && m >= 128 && a + m + c < 384)),
{
    let sum = carry_sum(a, m, c);
    let r = sum as u8;
    assert(sum == a as u16 + m as u16 + c as u16);
    assert(r == sum % 256 && ((a ^ r) & (m ^ r) & 0x80u8 != 0) == ((a < 128 && m < 128 && sum
        >= 128) || (a >= 128 && m >= 128 && sum < 384))) by (bit_vector)
        requires
            c <= 1,
            sum == a as u16 + m as u16 + c as u16,
            r == sum as u8,
    ;
}

/// ADC: A becomes A + M + C modulo 256, C the carry out of bit 7, V is set
/// exactly when the signed sum leaves -128..127, Z and N follow the result,
/// and nothing but A and the status changes.
pub proof fn law_add_with_carry<B: Bus>(cpu: Cpu<B>, value: u8)
    ensures
        ({
            let a = cpu.register_a;
            let c = cpu.processor_status & flag_mask(Flag::Carry);
            let post = cpu.add_to_accumulator_post(value);
            let status = post.processor_status;
            &&& c <= 1
            &&& post.register_a == (a + value + c) % 256
            &&& (status & flag_mask(Flag::Carry) != 0) == (a + value + c >= 256)
            &&& (status & flag_mask(Flag::OverFlow) != 0) == !(-128 <= signed(a) + signed(value)
                + c <= 127)
            &&& (status & flag_mask(Flag::Zero) != 0) == (post.register_a == 0)
            &&& (status & flag_mask(Flag::Negative) != 0) == (post.register_a >= 128)
            &&& post == (Cpu { register_a: post.register_a, processor_status: status, ..cpu })
        }),
{
    let a = cpu.register_a;
    let ps = cpu.processor_status;
    let c = ps & flag_mask(Flag::Carry);
    assert(c <= 1) by (bit_vector)
        requires
            c == ps & 1u8,
    ;
    lemma_adc_bits(a, value, c);
    let sum = carry_sum(a, value, c);
    let result = sum as u8;
    let s1 = with_bit(ps, flag_mask(Flag::Carry), sum >= 256);
    let s2 = with_bit(
        s1,
        flag_mask(Flag::OverFlow),
        (a ^ result) & (value ^ result) & 0x80 != 0,
    );
    law_set_flag(ps, Flag::Carry, sum >= 256, Flag::OverFlow);
    law_set_flag(s1, Flag::OverFlow, (a ^ result) & (value ^ result) & 0x80 != 0, Flag::Carry);
    law_zero_negative(s2, result, Flag::Carry);
    law_zero_negative(s2, result, Flag::OverFlow);
}

/// SBC is ADC of the complement: A becomes A - M - (1 - C) modulo 256, and C
/// is set exactly when no borrow was needed.
pub proof fn law_subtract_with_borrow<B: Bus>(cpu: Cpu<B>, value: u8)
    ensures
        ({
            let a = cpu.register_a;
            let c = cpu.processor_status & flag_mask(Flag::Carry);
            let post = cpu.add_to_accumulator_post(!value);
            let status = post.processor_status;
            &&& post.register_a == (a - value - (1 - c)) % 256
            &&& (status & flag_mask(Flag::Carry) != 0) == (a - value - (1 - c) >= 0)
            &&& (status & flag_mask(Flag::OverFlow) != 0) == !(-128 <= signed(a) - signed(value)
                - (1 - c) <= 127)
        }),
{
    crate::cpu::flags::lemma_byte_facts(value);
    law_add_with_carry(cpu, !value);
}

/// CMP, CPX, CPY: C is set exactly when the register is not below the
/// operand, Z exactly when they are equal, N from bit 7 of their difference
/// modulo 256.
pub proof fn law_compare(status: u8, register: u8, value: u8)
    ensures
        ({
            let post = with_zero_negative(
                with_bit(status, flag_mask(Flag::Carry), register >= value),
                register.wrapping_sub(value),
            );
            &&& (post & flag_mask(Flag::Carry) != 0) == (register >= value)
            &&& (post & flag_mask(Flag::Zero) != 0) == (register == value)
            &&& (post & flag_mask(Flag::Negative) != 0) == ((register - value) % 256 >= 128)
        }),
{
    let s1 = with_bit(status, flag_mask(Flag::Carry), register >= value);
    law_set_flag(status, Flag::Carry, register >= value, Flag::Zero);
    law_zero_negative(s1, register.wrapping_sub(value), Flag::Carry);
    law_set_flag(status, Flag::Carry, register >= value, Flag::Carry);
}

/// The shifts as arithmetic on a byte and a carry of 0 or 1: ASL doubles,
/// LSR halves, ROL doubles and adds the carry, ROR halves and adds 128 for
/// the carry; the bit shifted out becomes the new carry.
pub proof fn law_shift_arithmetic(value: u8, carry: u8)
    requires
        carry <= 1,
    ensures
        shift_value(ShiftKind::Asl, value, carry) == (((value * 2) % 256) as u8, value >= 128),
        shift_value(ShiftKind::Lsr, value, carry) == ((value / 2) as u8, value % 2 == 1),
        shift_value(ShiftKind::Rol, value, carry) == (((value * 2 + carry) % 256) as u8, value
            >= 128),
        shift_value(ShiftKind::Ror, value, carry) == ((value / 2 + carry * 128) as u8, value % 2
            == 1),
{
    assert((value << 1u8) == (value * 2) % 256 && (value >> 1u8) == value / 2 && ((value << 1u8)
        | carry) == (value * 2 + carry) % 256 && ((value >> 1u8) | (carry << 7u8)) == value / 2
        + carry * 128 && ((value & 0x80u8 != 0) == (value >= 128)) && ((value & 1u8 != 0) == (
    value % 2 == 1))) by (bit_vector)
        requires
            carry <= 1,
    ;
}

/// A rotation left and then right through the carry gives back the byte and
/// the carry.
pub proof fn law_rotate_round_trip(value: u8, carry: u8)
    requires
        carry <= 1,
    ensures
        ({
            let (left, out) = shift_value(ShiftKind::Rol, value, carry);
            shift_value(ShiftKind::Ror, left, if out {
                1u8
            } else {
                0u8
            }) == (value, carry == 1)
        }),
{
    law_shift_arithmetic(value, carry);
    let (left, out) = shift_value(ShiftKind::Rol, value, carry);
    law_shift_arithmetic(left, if out {
        1u8
    } else {
        0u8
    });
}

/// The carry after a shift or rotation that set it to `c`, then set Z and N.
pub(crate) proof fn lemma_carry_after_shift(status: u8, c: bool, result: u8)
    ensures
        carry_of(with_zero_negative(with_bit(status, flag_mask(Flag::Carry), c), result)) == if c {
            1u8
        } else {
            0u8
        },
{
    let s1 = with_bit(status, flag_mask(Flag::Carry), c);
    law_set_flag(status, Flag::Carry, c, Flag::Carry);
    law_zero_negative(s1, result, Flag::Carry);
    let s2 = with_zero_negative(s1, result);
    crate::cpu::flags::lemma_byte_facts(s2);
}

/// ROR right after ROL, both on the accumulator, gives back A and the
/// carry, and changes nothing but the status flags.
pub proof fn law_rol_ror_accumulator<B: Bus>(cpu: Cpu<B>)
    ensures
        ({
            let post = cpu.shift_post(ShiftKind::Rol, AddressingMode::Accumulator).shift_post(
                ShiftKind::Ror,
                AddressingMode::Accumulator,
            );
            &&& post.register_a == cpu.register_a
            &&& carry_of(post.processor_status) == carry_of(cpu.processor_status)
            &&& post == (Cpu { processor_status: post.processor_status, ..cpu })
        }),
{
    let ps = cpu.processor_status;
    let c = carry_of(ps);
    assert(c <= 1) by (bit_vector)
        requires
            c == ps & 1u8,
    ;
    let (left, out) = shift_value(ShiftKind::Rol, cpu.register_a, c);
    let rolled = cpu.shift_post(ShiftKind::Rol, AddressingMode::Accumulator);
    lemma_carry_after_shift(cpu.processor_status, out, left);
    law_rotate_round_trip(cpu.register_a, c);
    let (back, out2) = shift_value(ShiftKind::Ror, left, carry_of(rolled.processor_status));
    lemma_carry_after_shift(rolled.processor_status, out2, back);
}

/// Bit `i` of a byte.
pub open spec fn bit_set(x: u8, i: u8) -> bool {
    (x >> i) & 1 == 1
}

/// AND, ORA and EOR work bit by bit: bit `i` of A afterwards is bit `i` of A
/// before and, or, or exclusive-or bit `i` of the operand, for every A and
/// operand; Z and N follow the result and nothing but A and the status
/// changes beyond the operand's read.
pub proof fn law_logic_bits<B: Bus>(cpu: Cpu<B>, kind: LogicKind, mode: AddressingMode, i: u8)
    requires
        i < 8,
    ensures
        ({
            let (s1, addr) = cpu.operand_address_post(mode);
            let (s2, m) = s1.peek_byte_post(addr);
            let post = cpu.logic_post(kind, mode);
            let a = cpu.register_a;
            &&& kind == LogicKind::And ==> bit_set(post.register_a, i) == (bit_set(a, i) && bit_set(m, i))
            &&& kind == LogicKind::Ora ==> bit_set(post.register_a, i) == (bit_set(a, i) || bit_set(m, i))
            &&& kind == LogicKind::Eor ==> bit_set(post.register_a, i) == (bit_set(a, i) != bit_set(m, i))
            &&& post.processor_status == with_zero_negative(s2.processor_status, post.register_a)
            &&& post == (Cpu { register_a: post.register_a, processor_status: post.processor_status, ..s2 })
        }),
{
    let (s1, addr) = cpu.operand_address_post(mode);
    let (s2, m) = s1.peek_byte_post(addr);
    let a = cpu.register_a;
    assert(s2.register_a == a);
    assert((((a & m) >> i) & 1 == 1) == (((a >> i) & 1 == 1) && ((m >> i) & 1 == 1)) && (((a | m)
        >> i) & 1 == 1) == (((a >> i) & 1 == 1) || ((m >> i) & 1 == 1)) && (((a ^ m) >> i) & 1
        == 1) == (((a >> i) & 1 == 1) != ((m >> i) & 1 == 1))) by (bit_vector)
        requires
            i < 8,
    ;
}

/// Where each addressing mode finds its operand, as arithmetic on the bytes
/// after the opcode (`b1`, then `b2`): immediate at the program counter;
/// zero page at `b1`, indexed within page zero ((`b1` + X or Y) mod 256);
/// absolute at `b2 * 256 + b1`, indexed with the carry into the high byte
/// ((address + X or Y) mod 65536); (zp,X) at the pointer in page zero at
/// (`b1` + X) mod 256; (zp),Y at the pointer at `b1` plus Y, mod 65536.  The
/// program counter moves past the operand bytes.
pub proof fn law_operand_address<B: Bus>(cpu: Cpu<B>, mode: AddressingMode)
    ensures
        ({
            let pc = cpu.program_counter as int;
            let x = cpu.register_x as int;
            let y = cpu.register_y as int;
            let (s1, b1) = cpu.fetch_byte_post();
            let (s2, b2) = s1.fetch_byte_post();
            let (post, addr) = cpu.operand_address_post(mode);
            let zx = ((b1 + x) % 256) as u16;
            let (p1, lo_x) = s1.peek_byte_post(zx);
            let (p2, hi_x) = p1.peek_byte_post(((b1 + x + 1) % 256) as u16);
            let (q1, lo_y) = s1.peek_byte_post(b1 as u16);
            let (q2, hi_y) = q1.peek_byte_post(((b1 + 1) % 256) as u16);
            &&& mode == AddressingMode::Immediate ==> addr == pc && post.program_counter == (pc
                + 1) % 65536
            &&& mode == AddressingMode::ZeroPage ==> addr == b1 && post == s1
            &&& mode == AddressingMode::ZeroPage_X ==> addr == (b1 + x) % 256 && post == s1
            &&& mode == AddressingMode::ZeroPage_Y ==> addr == (b1 + y) % 256 && post == s1
            &&& mode == AddressingMode::Absolute ==> addr == b2 * 256 + b1 && post == s2
            &&& mode == AddressingMode::Absolute_X ==> addr == (b2 * 256 + b1 + x) % 65536 && post
                == s2
            &&& mode == AddressingMode::Absolute_Y ==> addr == (b2 * 256 + b1 + y) % 65536 && post
                == s2
            &&& mode == AddressingMode::Indirect_X ==> addr == hi_x * 256 + lo_x && post == p2
            &&& mode == AddressingMode::Indirect_Y ==> addr == (hi_y * 256 + lo_y + y) % 65536
                && post == q2
            &&& s1.program_counter == (pc + 1) % 65536
            &&& s2.program_counter == (pc + 2) % 65536
        }),
{
    let (s1, b1) = cpu.fetch_byte_post();
    let x = cpu.register_x;
    assert(b1.wrapping_add(x) == (b1 + x) % 256);
    assert(b1.wrapping_add(x).wrapping_add(1) == (b1 + x + 1) % 256);
    assert(b1.wrapping_add(1) == (b1 + 1) % 256);
}

/// INC and DEC undo each other.
pub proof fn law_increment_decrement(value: u8)
    ensures
        value.wrapping_add(1).wrapping_sub(1) == value,
        value.wrapping_sub(1).wrapping_add(1) == value,
{
}

/// A branch moves the program counter by the signed offset, modulo 2^16,
/// from the address after the branch instruction.
pub proof fn law_branch_target(pc: u16, offset: u8)
    ensures
        branch_target(pc, offset) as int == (pc + signed(offset)) % 65536,
{
    let wide = (offset as i8) as u16;
    assert((offset >= 128 ==> wide == offset as u16 + 0xFF00u16) && (offset < 128 ==> wide
        == offset as u16)) by (bit_vector)
        requires
            wide == (offset as i8) as u16,
    ;
}

impl<B: Clock> Cpu<B> {
    /// The calls of a `PassiveHost` in a run of `fuel` steps: at each frame
    /// boundary it leaves the bus as it is and answers true.
    pub open spec fn passive_host(self, fuel: nat) -> Seq<(PassiveHost, B, bool)>
        decreases fuel,
    {
        if fuel == 0 {
            Seq::empty()
        } else {
            let (s, r) = self.step_post();
            match r {
                Ok(StepOutcome::Running) => s.passive_host((fuel - 1) as nat),
                Ok(StepOutcome::Frame) => seq![(PassiveHost, s.bus, true)] + s.passive_host(
                    (fuel - 1) as nat,
                ),
                _ => Seq::empty(),
            }
        }
    }
}

/// `run_until_break` is `run` with a host that lets every frame go by: the
/// same final state, the same error, and `Ok` exactly when `run` answers
/// `Ok` (BRK, or the step bound).  The passive host's calls are the only
/// ones it allows, so this is the run it gives.
pub proof fn law_run_until_break_is_run<B: Clock>(cpu: Cpu<B>, fuel: nat)
    ensures
        ({
            let (s, r) = cpu.run_until_break_post(fuel);
            let run = cpu.run_post(PassiveHost, cpu.passive_host(fuel), fuel);
            &&& run is Some
            &&& run.unwrap().0 == s
            &&& match (run.unwrap().2, r) {
                (Err(e1), Err(e2)) => e1 == e2,
                (Ok(_), Ok(_)) => true,
                _ => false,
            }
        }),
        forall|host: Seq<(PassiveHost, B, bool)>|
            #[trigger] cpu.run_post(PassiveHost, host, fuel) is Some ==> host == cpu.passive_host(fuel),
        cpu.run_until_break_post(fuel).1 is Ok ==> cpu.run_until_break_post(fuel).1 == Ok::<
            (),
            NesError,
        >(()),
    decreases fuel,
{
    if fuel == 0 {
        assert forall|host: Seq<(PassiveHost, B, bool)>|
            #[trigger] cpu.run_post(PassiveHost, host, fuel) is Some implies host
            == cpu.passive_host(fuel) by {
            assert(host =~= Seq::<(PassiveHost, B, bool)>::empty());
        }
    } else {
        let (s, r) = cpu.step_post();
        law_run_until_break_is_run(s, (fuel - 1) as nat);
        if r != Ok::<StepOutcome, NesError>(StepOutcome::Frame) && r != Ok::<StepOutcome, NesError>(
            StepOutcome::Running,
        ) {
            assert forall|host: Seq<(PassiveHost, B, bool)>|
                #[trigger] cpu.run_post(PassiveHost, host, fuel) is Some implies host
                == cpu.passive_host(fuel) by {
                assert(host =~= Seq::<(PassiveHost, B, bool)>::empty());
            }
        }
        if r == Ok::<StepOutcome, NesError>(StepOutcome::Running) {
            assert forall|host: Seq<(PassiveHost, B, bool)>|
                #[trigger] cpu.run_post(PassiveHost, host, fuel) is Some implies host
                == cpu.passive_host(fuel) by {
                assert(cpu.run_post(PassiveHost, host, fuel) == s.run_post(
                    PassiveHost,
                    host,
                    (fuel - 1) as nat,
                ));
            }
        }
        if r == Ok::<StepOutcome, NesError>(StepOutcome::Frame) {
            let rest = s.passive_host((fuel - 1) as nat);
            assert((seq![(PassiveHost, s.bus, true)] + rest).drop_first() =~= rest);
            assert(s.with_bus(s.bus) == s);
            assert forall|host: Seq<(PassiveHost, B, bool)>|
                #[trigger] cpu.run_post(PassiveHost, host, fuel) is Some implies host
                == cpu.passive_host(fuel) by {
                assert(host.len() > 0);
                assert(host[0].1 == s.bus && host[0].2);
                assert(host[0] == (PassiveHost, s.bus, true));
                assert(s.with_bus(host[0].1) == s);
                assert(s.run_post(PassiveHost, host.drop_first(), (fuel - 1) as nat) is Some);
                assert(host.drop_first() == rest);
                assert(host =~= seq![(PassiveHost, s.bus, true)] + rest);
            }
        }
    }
}

} // verus!
