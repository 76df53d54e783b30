use vstd::prelude::*;

use super::Cpu;
use super::addressing_mode::AddressingMode;
use super::bus_access::Bus;
use super::flags::Flag;
use super::instructions::load_store::Register;
use super::instructions::stack::pushed_status;
use super::opcodes::{Instruction, Operation};

verus! {

/// The operations that take their operand from memory and so need an address.
pub open spec fn needs_address(operation: Operation) -> bool {
    match operation {
        Operation::Load(_) | Operation::Store(_) | Operation::Adc | Operation::Sbc
        | Operation::Logic(_) | Operation::Compare(_) | Operation::Bit | Operation::Inc
        | Operation::Dec => true,
        _ => false,
    }
}

/// An instruction whose addressing mode suits its operation.
pub open spec fn instruction_valid(instruction: Instruction) -> bool {
    needs_address(instruction.operation) ==> instruction.mode != AddressingMode::Accumulator
}

impl<B: Bus> Cpu<B> {
    /// The state after the operation of `instruction` runs, its opcode already fetched.
    pub open spec fn execute_post(self, instruction: Instruction) -> Self {
        let mode = instruction.mode;
        match instruction.operation {
            Operation::Load(r) => self.load_post(r, mode),
            Operation::Store(r) => self.store_post(r, mode),
            Operation::Adc => self.adc_post(mode),
            Operation::Sbc => self.sbc_post(mode),
            Operation::Logic(kind) => self.logic_post(kind, mode),
            Operation::Compare(r) => self.compare_post(self.register_value(r), mode),
            Operation::Bit => self.bit_post(mode),
            Operation::Shift(kind) => self.shift_post(kind, mode),
            Operation::Inc => self.step_memory_post(true, mode),
            Operation::Dec => self.step_memory_post(false, mode),
            Operation::Inx => self.set_register_post(Register::X, self.register_x.wrapping_add(1)),
            Operation::Iny => self.set_register_post(Register::Y, self.register_y.wrapping_add(1)),
            Operation::Dex => self.set_register_post(Register::X, self.register_x.wrapping_sub(1)),
            Operation::Dey => self.set_register_post(Register::Y, self.register_y.wrapping_sub(1)),
            Operation::Tax => self.set_register_post(Register::X, self.register_a),
            Operation::Tay => self.set_register_post(Register::Y, self.register_a),
            Operation::Txa => self.set_register_post(Register::A, self.register_x),
            Operation::Tya => self.set_register_post(Register::A, self.register_y),
            Operation::Tsx => self.set_register_post(Register::X, self.stack_pointer),
            Operation::Txs => Cpu { stack_pointer: self.register_x, ..self },
            Operation::Jmp => self.jmp_absolute_post(),
            Operation::JmpIndirect => self.jmp_indirect_post(),
            Operation::Jsr => self.jsr_post(),
            Operation::Rts => self.rts_post(),
            Operation::Rti => self.rti_post(),
            Operation::Nop => self,
            Operation::Branch(condition) => self.branch_post(condition),
            Operation::Pha => self.push_byte_post(self.register_a),
            Operation::Php => self.push_byte_post(pushed_status(self.processor_status)),
            Operation::Pla => self.pla_post(),
            Operation::Plp => self.plp_post(),
            Operation::Clc => self.flag_post(Flag::Carry, false),
            Operation::Sec => self.flag_post(Flag::Carry, true),
            Operation::Cld => self.flag_post(Flag::DecimalMode, false),
            Operation::Sed => self.flag_post(Flag::DecimalMode, true),
            Operation::Cli => self.flag_post(Flag::InterruptDisable, false),
            Operation::Sei => self.flag_post(Flag::InterruptDisable, true),
            Operation::Clv => self.flag_post(Flag::OverFlow, false),
            Operation::Brk => self,
        }
    }

    /// Runs the operation of a decoded instruction.
    pub fn execute(&mut self, instruction: Instruction)
        requires
            instruction_valid(instruction),
        ensures
            *final(self) == old(self).execute_post(instruction),
    {
        let mode = instruction.mode;
        match instruction.operation {
            Operation::Load(r) => match r {
                Register::A => self.lda(mode),
                Register::X => self.ldx(mode),
                Register::Y => self.ldy(mode),
            },
            Operation::Store(r) => match r {
                Register::A => self.sta(mode),
                Register::X => self.stx(mode),
                Register::Y => self.sty(mode),
            },
            Operation::Adc => self.adc(mode),
            Operation::Sbc => self.sbc(mode),
            Operation::Logic(kind) => match kind {
                super::instructions::logical::LogicKind::And => self.and(mode),
                super::instructions::logical::LogicKind::Ora => self.ora(mode),
                super::instructions::logical::LogicKind::Eor => self.eor(mode),
            },
            Operation::Compare(r) => match r {
                Register::A => self.cmp(mode),
                Register::X => self.cpx(mode),
                Register::Y => self.cpy(mode),
            },
            Operation::Bit => self.bit(mode),
            Operation::Shift(kind) => match kind {
                super::instructions::shift::ShiftKind::Asl => self.asl(mode),
                super::instructions::shift::ShiftKind::Lsr => self.lsr(mode),
                super::instructions::shift::ShiftKind::Rol => self.rol(mode),
                super::instructions::shift::ShiftKind::Ror => self.ror(mode),
            },
            Operation::Inc => self.inc(mode),
            Operation::Dec => self.dec(mode),
            Operation::Inx => self.inx(),
            Operation::Iny => self.iny(),
            Operation::Dex => self.dex(),
            Operation::Dey => self.dey(),
            Operation::Tax => self.tax(),
            Operation::Tay => self.tay(),
            Operation::Txa => self.txa(),
            Operation::Tya => self.tya(),
            Operation::Tsx => self.tsx(),
            Operation::Txs => self.txs(),
            Operation::Jmp => self.jmp_absolute(),
            Operation::JmpIndirect => self.jmp_indirect(),
            Operation::Jsr => self.jsr(),
            Operation::Rts => self.rts(),
            Operation::Rti => self.rti(),
            Operation::Nop => self.nop(),
            Operation::Branch(condition) => match condition {
                super::instructions::branch::Condition::CarryClear => self.bcc(),
                super::instructions::branch::Condition::CarrySet => self.bcs(),
                super::instructions::branch::Condition::Equal => self.beq(),
                super::instructions::branch::Condition::NotEqual => self.bne(),
                super::instructions::branch::Condition::Minus => self.bmi(),
                super::instructions::branch::Condition::Plus => self.bpl(),
                super::instructions::branch::Condition::OverflowClear => self.bvc(),
                super::instructions::branch::Condition::OverflowSet => self.bvs(),
            },
            Operation::Pha => self.pha(),
            Operation::Php => self.php(),
            Operation::Pla => self.pla(),
            Operation::Plp => self.plp(),
            Operation::Clc => self.clc(),
            Operation::Sec => self.sec(),
            Operation::Cld => self.cld(),
            Operation::Sed => self.sed(),
            Operation::Cli => self.cli(),
            Operation::Sei => self.sei(),
            Operation::Clv => self.clv(),
            Operation::Brk => {},
        }
    }
}

} // verus!
