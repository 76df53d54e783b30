use nes_rust::NesError;
use nes_rust::bus::NESBus;
use nes_rust::cpu::bus_access::Bus;
use nes_rust::cpu::flags::Flag;
use nes_rust::cpu::opcodes::{
    ADC_IMMEDIATE, BNE_RELATIVE, BRK, CMP_IMMEDIATE, DEC_ZERO_PAGE, DEX_IMPLIED, INC_ZERO_PAGE,
    JMP_ABSOLUTE, LDA_IMMEDIATE, LDX_IMMEDIATE, ROL_ZERO_PAGE, ROR_ZERO_PAGE, SBC_IMMEDIATE,
    SEC_IMPLIED, STA_ABSOLUTE, JSR_ABSOLUTE, PHA_IMPLIED, PLA_IMPLIED, RTS_IMPLIED,
};
use nes_rust::cpu::{Cpu, ExitReason, FrameHandler, PassiveHost, StepOutcome};

const CARRY: u8 = 0b0000_0001;
const ZERO: u8 = 0b0000_0010;
const OVERFLOW: u8 = 0b0100_0000;
const NEGATIVE: u8 = 0b1000_0000;

#[test]
fn set_flag_then_has_flag_and_others_kept() {
    let mut cpu = Cpu::new(NESBus::with_program(&[BRK]));
    cpu.processor_status = 0b1010_0101;
    cpu.set_flag(Flag::Zero, true);
    assert!(cpu.has_flag(Flag::Zero));
    assert_eq!(cpu.processor_status, 0b1010_0111);
    cpu.set_flag(Flag::Negative, false);
    assert!(!cpu.has_flag(Flag::Negative));
    assert_eq!(cpu.processor_status, 0b0010_0111);
    assert_eq!(cpu.carry_bit(), 1);
}

#[test]
fn adc_signed_overflow_into_negative() {
    // 0x7F + 0x01 = 0x80: 127 + 1 leaves the signed range; no carry out.
    let mut cpu = Cpu::new(NESBus::with_program(&[LDA_IMMEDIATE, 0x7F, ADC_IMMEDIATE, 0x01, BRK]));
    cpu.run_until_break().unwrap();
    assert_eq!(cpu.register_a, 0x80);
    assert_eq!(cpu.processor_status & OVERFLOW, OVERFLOW);
    assert_eq!(cpu.processor_status & NEGATIVE, NEGATIVE);
    assert_eq!(cpu.processor_status & CARRY, 0);
    assert_eq!(cpu.processor_status & ZERO, 0);
}

#[test]
fn sbc_with_borrow_out() {
    // 0x50 - 0xF0 with C=1: 0x60 modulo 256, a borrow (C=0), no signed overflow (80 - (-16) = 96).
    let mut cpu = Cpu::new(NESBus::with_program(&[
        LDA_IMMEDIATE, 0x50, SEC_IMPLIED, SBC_IMMEDIATE, 0xF0, BRK,
    ]));
    cpu.run_until_break().unwrap();
    assert_eq!(cpu.register_a, 0x60);
    assert_eq!(cpu.processor_status & CARRY, 0);
    assert_eq!(cpu.processor_status & OVERFLOW, 0);
}

#[test]
fn cmp_equal_sets_zero_and_carry() {
    let mut cpu = Cpu::new(NESBus::with_program(&[LDA_IMMEDIATE, 0x42, CMP_IMMEDIATE, 0x42, BRK]));
    cpu.run_until_break().unwrap();
    assert_eq!(cpu.processor_status & (CARRY | ZERO | NEGATIVE), CARRY | ZERO);
}

#[test]
fn cmp_below_sets_negative_difference() {
    // 0x10 - 0x20 = 0xF0 modulo 256: N set, C clear.
    let mut cpu = Cpu::new(NESBus::with_program(&[LDA_IMMEDIATE, 0x10, CMP_IMMEDIATE, 0x20, BRK]));
    cpu.run_until_break().unwrap();
    assert_eq!(cpu.processor_status & (CARRY | ZERO | NEGATIVE), NEGATIVE);
}

#[test]
fn rol_then_ror_restores_memory_and_carry() {
    let mut cpu = Cpu::new(NESBus::with_program(&[
        SEC_IMPLIED, ROL_ZERO_PAGE, 0x10, ROR_ZERO_PAGE, 0x10, BRK,
    ]));
    cpu.bus.write(0x10, 0b1011_0010);
    cpu.run_until_break().unwrap();
    assert_eq!(cpu.bus.read(0x10), 0b1011_0010);
    assert_eq!(cpu.processor_status & CARRY, CARRY);
}

#[test]
fn inc_then_dec_restores_memory() {
    let mut cpu = Cpu::new(NESBus::with_program(&[INC_ZERO_PAGE, 0x20, DEC_ZERO_PAGE, 0x20, BRK]));
    cpu.bus.write(0x20, 0xFF);
    cpu.run_until_break().unwrap();
    assert_eq!(cpu.bus.read(0x20), 0xFF);
}

#[test]
fn branch_backwards_loops() {
    // LDX #3; loop: DEX; BNE loop (offset -3); BRK
    let mut cpu = Cpu::new(NESBus::with_program(&[
        LDX_IMMEDIATE, 0x03, DEX_IMPLIED, BNE_RELATIVE, 0xFD, BRK,
    ]));
    cpu.run_until_break().unwrap();
    assert_eq!(cpu.register_x, 0);
    assert_eq!(cpu.program_counter, 0x8006);
}

#[test]
fn push_pull_word_round_trip() {
    let mut cpu = Cpu::new(NESBus::with_program(&[BRK]));
    cpu.push_word(0xBEEF);
    assert_eq!(cpu.stack_pointer, 0xFB);
    assert_eq!(cpu.pop_word(), 0xBEEF);
    assert_eq!(cpu.stack_pointer, 0xFD);
}

#[test]
fn push_pull_byte_wraps_stack_pointer() {
    let mut cpu = Cpu::new(NESBus::with_program(&[BRK]));
    cpu.stack_pointer = 0x00;
    cpu.push_byte(0x5A);
    assert_eq!(cpu.stack_pointer, 0xFF);
    assert_eq!(cpu.bus.read(0x0100), 0x5A);
    assert_eq!(cpu.pop_byte(), 0x5A);
    assert_eq!(cpu.stack_pointer, 0x00);
}

#[test]
fn reset_loads_the_reset_vector() {
    let cpu = Cpu::new(NESBus::with_program(&[BRK]));
    assert_eq!(cpu.program_counter, 0x8000);
    assert_eq!(cpu.stack_pointer, 0xFD);
    assert_eq!(cpu.processor_status, 0);
}

#[test]
fn step_reports_unknown_opcode_and_its_address() {
    let mut cpu = Cpu::new(NESBus::with_program(&[LDA_IMMEDIATE, 0x01, 0x02]));
    assert!(matches!(cpu.step(), Ok(StepOutcome::Running)));
    match cpu.step() {
        Err(NesError::UnknownOpcode { opcode, pc }) => {
            assert_eq!(opcode, 0x02);
            assert_eq!(pc, 0x8002);
        }
        _ => panic!("expected an unknown opcode"),
    }
}

#[test]
fn step_stops_at_break_without_running_it() {
    let mut cpu = Cpu::new(NESBus::with_program(&[BRK]));
    assert!(matches!(cpu.step(), Ok(StepOutcome::Break)));
    assert_eq!(cpu.program_counter, 0x8001);
    assert_eq!(cpu.stack_pointer, 0xFD);
}

#[test]
fn run_until_break_reports_unknown_opcode() {
    let mut cpu = Cpu::new(NESBus::with_program(&[0xFF]));
    assert!(matches!(
        cpu.run_until_break(),
        Err(NesError::UnknownOpcode { opcode: 0xFF, pc: 0x8000 })
    ));
}

struct StopAtFirstFrame {
    frames: u32,
}

impl FrameHandler<NESBus> for StopAtFirstFrame {
    fn on_frame(&mut self, _bus: &mut NESBus) -> bool {
        self.frames += 1;
        false
    }
}

#[test]
fn run_hands_frames_to_the_host_and_halts() {
    // LDA #$80; STA $2000 (NMI on); loop: JMP loop
    let mut cpu = Cpu::new(NESBus::with_program(&[
        LDA_IMMEDIATE, 0x80, STA_ABSOLUTE, 0x00, 0x20, JMP_ABSOLUTE, 0x05, 0x80,
    ]));
    let mut host = StopAtFirstFrame { frames: 0 };
    assert!(matches!(cpu.run(&mut host), Ok(ExitReason::Halted)));
    assert_eq!(host.frames, 1);
}

#[test]
fn run_stops_at_break() {
    let mut cpu = Cpu::new(NESBus::with_program(&[LDA_IMMEDIATE, 0x07, BRK]));
    let mut host = StopAtFirstFrame { frames: 0 };
    assert!(matches!(cpu.run(&mut host), Ok(ExitReason::Break)));
    assert_eq!(cpu.register_a, 0x07);
    assert_eq!(host.frames, 0);
}

#[test]
fn nmi_is_served_before_the_next_instruction() {
    let mut cpu = Cpu::new(NESBus::with_program(&[BRK]));
    cpu.interrupt_nmi();
    // The NMI vector of this cartridge is 0x0000, so PC lands there.
    assert_eq!(cpu.program_counter, 0x0000);
    assert_eq!(cpu.stack_pointer, 0xFA);
    assert_eq!(cpu.processor_status & 0b0000_0100, 0b0000_0100);
}

#[test]
fn pha_then_pla_restores_the_accumulator() {
    let mut cpu = Cpu::new(NESBus::with_program(&[BRK]));
    cpu.register_a = 0x80;
    cpu.processor_status = 0b0000_0010;
    cpu.pha();
    cpu.register_a = 0x00;
    cpu.pla();
    assert_eq!(cpu.register_a, 0x80);
    assert_eq!(cpu.stack_pointer, 0xFD);
    assert_eq!(cpu.processor_status, NEGATIVE);
}

#[test]
fn php_then_plp_clears_break_and_sets_bit_five() {
    let mut cpu = Cpu::new(NESBus::with_program(&[BRK]));
    cpu.processor_status = 0b1101_0011;
    cpu.php();
    cpu.processor_status = 0;
    cpu.plp();
    assert_eq!(cpu.processor_status, 0b1110_0011);
    assert_eq!(cpu.stack_pointer, 0xFD);
}

#[test]
fn nmi_then_rti_resumes_the_program() {
    let mut cpu = Cpu::new(NESBus::with_program(&[BRK]));
    cpu.program_counter = 0x8123;
    cpu.processor_status = 0b1001_0001;
    cpu.register_a = 1;
    cpu.register_x = 2;
    cpu.register_y = 3;
    cpu.interrupt_nmi();
    assert_eq!(cpu.processor_status & 0b0000_0100, 0b0000_0100);
    cpu.rti();
    assert_eq!(cpu.program_counter, 0x8123);
    assert_eq!(cpu.stack_pointer, 0xFD);
    assert_eq!(cpu.processor_status, 0b1010_0001);
    assert_eq!((cpu.register_a, cpu.register_x, cpu.register_y), (1, 2, 3));
}

struct CountFrames {
    frames: u32,
    stop_after: u32,
}

impl FrameHandler<NESBus> for CountFrames {
    fn on_frame(&mut self, _bus: &mut NESBus) -> bool {
        self.frames += 1;
        self.frames < self.stop_after
    }
}

#[test]
fn run_reports_the_unknown_opcode_it_reaches() {
    let mut cpu = Cpu::new(NESBus::with_program(&[LDA_IMMEDIATE, 0x05, 0x02]));
    let mut host = CountFrames { frames: 0, stop_after: u32::MAX };
    assert!(matches!(
        cpu.run(&mut host),
        Err(NesError::UnknownOpcode { opcode: 0x02, pc: 0x8002 })
    ));
    assert_eq!(cpu.register_a, 0x05);
    assert_eq!(host.frames, 0);
}

#[test]
fn run_at_a_break_never_calls_the_host() {
    let mut cpu = Cpu::new(NESBus::with_program(&[BRK]));
    let mut host = CountFrames { frames: 0, stop_after: u32::MAX };
    assert!(matches!(cpu.run(&mut host), Ok(ExitReason::Break)));
    assert_eq!(host.frames, 0);
    assert_eq!((cpu.register_a, cpu.register_x, cpu.register_y), (0, 0, 0));
    assert_eq!(cpu.stack_pointer, 0xFD);
}

#[test]
fn run_halts_at_the_first_false_answer() {
    // LDA #$80; STA $2000 (NMI on); loop: JMP loop; the NMI handler at
    // 0x8010 is a lone RTI.
    let mut program = vec![0u8; 0x7FFC];
    program[..8].copy_from_slice(&[LDA_IMMEDIATE, 0x80, STA_ABSOLUTE, 0x00, 0x20, JMP_ABSOLUTE, 0x05, 0x80]);
    program[0x10] = 0x40; // RTI
    program[0x7FFA] = 0x10;
    program[0x7FFB] = 0x80;
    let mut cpu = Cpu::new(NESBus::with_program(&program));
    let mut host = CountFrames { frames: 0, stop_after: 3 };
    assert!(matches!(cpu.run(&mut host), Ok(ExitReason::Halted)));
    assert_eq!(host.frames, 3);
}

struct LetFramesGo;

impl FrameHandler<NESBus> for LetFramesGo {
    fn on_frame(&mut self, _bus: &mut NESBus) -> bool {
        true
    }
}

#[test]
fn run_until_break_matches_run_with_a_passive_host() {
    // LDX #$03; loop: DEX; BNE loop; LDA #$09; BRK
    let program = [LDX_IMMEDIATE, 0x03, DEX_IMPLIED, BNE_RELATIVE, 0xFD, LDA_IMMEDIATE, 0x09, BRK];
    let mut a = Cpu::new(NESBus::with_program(&program));
    let mut b = Cpu::new(NESBus::with_program(&program));
    assert!(a.run_until_break().is_ok());
    assert!(matches!(b.run(&mut LetFramesGo), Ok(ExitReason::Break)));
    assert_eq!(
        (a.register_a, a.register_x, a.program_counter, a.stack_pointer, a.processor_status),
        (b.register_a, b.register_x, b.program_counter, b.stack_pointer, b.processor_status)
    );
    let mut c = Cpu::new(NESBus::with_program(&[0x02]));
    let mut d = Cpu::new(NESBus::with_program(&[0x02]));
    assert!(matches!(c.run_until_break(), Err(NesError::UnknownOpcode { opcode: 0x02, pc: 0x8000 })));
    assert!(matches!(d.run(&mut LetFramesGo), Err(NesError::UnknownOpcode { opcode: 0x02, pc: 0x8000 })));
}

#[test]
fn rol_then_ror_on_the_accumulator_restores_a_and_carry() {
    let mut cpu = Cpu::new(NESBus::with_program(&[BRK]));
    cpu.register_a = 0b1010_0001;
    cpu.processor_status = CARRY;
    cpu.rol(nes_rust::cpu::addressing_mode::AddressingMode::Accumulator);
    assert_eq!(cpu.register_a, 0b0100_0011);
    cpu.ror(nes_rust::cpu::addressing_mode::AddressingMode::Accumulator);
    assert_eq!(cpu.register_a, 0b1010_0001);
    assert_eq!(cpu.processor_status & CARRY, CARRY);
}

#[test]
fn rts_after_code_that_balances_the_stack_returns_after_the_jsr() {
    // JSR $8006; BRK; ...; sub: PHA; PLA; RTS
    let program = [JSR_ABSOLUTE, 0x06, 0x80, BRK, 0x00, 0x00, PHA_IMPLIED, PLA_IMPLIED, RTS_IMPLIED];
    let mut cpu = Cpu::new(NESBus::with_program(&program));
    assert!(cpu.run_until_break().is_ok());
    assert_eq!(cpu.program_counter, 0x8004);
    assert_eq!(cpu.stack_pointer, 0xFD);
}

#[test]
fn jsr_from_code_in_ram_returns_there() {
    // 0x8000: RTS (the subroutine); 0x0300: JSR $8000; BRK
    let mut cpu = Cpu::new(NESBus::with_program(&[RTS_IMPLIED]));
    cpu.bus.write(0x0300, JSR_ABSOLUTE);
    cpu.bus.write(0x0301, 0x00);
    cpu.bus.write(0x0302, 0x80);
    cpu.bus.write(0x0303, BRK);
    cpu.program_counter = 0x0300;
    assert!(cpu.run_until_break().is_ok());
    assert_eq!(cpu.program_counter, 0x0304);
    assert_eq!(cpu.stack_pointer, 0xFD);
}

#[test]
fn rol_then_ror_absolute_restores_ram_and_carry() {
    // ROL $0400; ROR $0400; BRK
    let mut cpu = Cpu::new(NESBus::with_program(&[0x2E, 0x00, 0x04, 0x6E, 0x00, 0x04, BRK]));
    cpu.bus.write(0x0400, 0x81);
    cpu.processor_status = 0;
    assert!(cpu.run_until_break().is_ok());
    assert_eq!(cpu.bus.read(0x0400), 0x81);
    assert_eq!(cpu.processor_status & CARRY, 0);
}

#[test]
fn passive_host_lets_the_run_reach_break() {
    let mut cpu = Cpu::new(NESBus::with_program(&[LDX_IMMEDIATE, 0x02, DEX_IMPLIED, BRK]));
    assert!(matches!(cpu.run(&mut PassiveHost), Ok(ExitReason::Break)));
    assert_eq!(cpu.register_x, 0x01);
}
