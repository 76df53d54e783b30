use nes_rust::bus::NESBus;
use nes_rust::cpu::Cpu;
use nes_rust::cpu::bus_access::Bus;
use nes_rust::cpu::opcodes::{BRK, DEC_ABSOLUTE, DEC_ZERO_PAGE, DEX_IMPLIED, DEY_IMPLIED, INC_ABSOLUTE, INC_ZERO_PAGE, INX_IMPLIED, INY_IMPLIED, LDX_IMMEDIATE, LDY_IMMEDIATE};

#[test]
fn test_inx() {
    let mut cpu = Cpu::new(NESBus::with_program(&[LDX_IMMEDIATE, 0x05, INX_IMPLIED, BRK]));
    cpu.run_until_break().unwrap();
    assert_eq!(cpu.register_x, 0x06);
}

#[test]
fn test_inx_overflow() {
    let mut cpu = Cpu::new(NESBus::with_program(&[LDX_IMMEDIATE, 0xff, INX_IMPLIED, BRK]));
    cpu.run_until_break().unwrap();
    assert_eq!(cpu.register_x, 0x00);
    assert_eq!(cpu.processor_status & 0b0000_0010, 0b10);
}

#[test]
fn test_iny() {
    let mut cpu = Cpu::new(NESBus::with_program(&[LDY_IMMEDIATE, 0x05, INY_IMPLIED, BRK]));
    cpu.run_until_break().unwrap();
    assert_eq!(cpu.register_y, 0x06);
}

#[test]
fn test_iny_overflow() {
    let mut cpu = Cpu::new(NESBus::with_program(&[LDY_IMMEDIATE, 0xff, INY_IMPLIED, BRK]));
    cpu.run_until_break().unwrap();
    assert_eq!(cpu.register_y, 0x00);
    assert_eq!(cpu.processor_status & 0b0000_0010, 0b10);
}

#[test]
fn test_dex() {
    let mut cpu = Cpu::new(NESBus::with_program(&[LDX_IMMEDIATE, 0x05, DEX_IMPLIED, BRK]));
    cpu.run_until_break().unwrap();
    assert_eq!(cpu.register_x, 0x04);
}

#[test]
fn test_dex_underflow() {
    let mut cpu = Cpu::new(NESBus::with_program(&[DEX_IMPLIED, BRK]));
    cpu.run_until_break().unwrap();
    assert_eq!(cpu.register_x, 0xff);
    assert_eq!(cpu.processor_status & 0b1000_0000, 0b1000_0000);
}

#[test]
fn test_dey() {
    let mut cpu = Cpu::new(NESBus::with_program(&[LDY_IMMEDIATE, 0x05, DEY_IMPLIED, BRK]));
    cpu.run_until_break().unwrap();
    assert_eq!(cpu.register_y, 0x04);
}

#[test]
fn test_dey_underflow() {
    let mut cpu = Cpu::new(NESBus::with_program(&[DEY_IMPLIED, BRK]));
    cpu.run_until_break().unwrap();
    assert_eq!(cpu.register_y, 0xff);
    assert_eq!(cpu.processor_status & 0b1000_0000, 0b1000_0000);
}

// INC (memory)
#[test]
fn test_inc_zero_page() {
    let mut cpu = Cpu::new(NESBus::with_program(&[INC_ZERO_PAGE, 0x10, BRK]));
    cpu.bus.write(0x10, 0x05);
    cpu.run_until_break().unwrap();
    assert_eq!(cpu.bus.read(0x10), 0x06);
}

#[test]
fn test_inc_overflow() {
    let mut cpu = Cpu::new(NESBus::with_program(&[INC_ZERO_PAGE, 0x10, BRK]));
    cpu.bus.write(0x10, 0xFF);
    cpu.run_until_break().unwrap();
    assert_eq!(cpu.bus.read(0x10), 0x00);
    assert_eq!(cpu.processor_status & 0b0000_0010, 0b10); // Zero
}

#[test]
fn test_inc_negative_flag() {
    let mut cpu = Cpu::new(NESBus::with_program(&[INC_ZERO_PAGE, 0x10, BRK]));
    cpu.bus.write(0x10, 0x7F);
    cpu.run_until_break().unwrap();
    assert_eq!(cpu.bus.read(0x10), 0x80);
    assert_eq!(cpu.processor_status & 0b1000_0000, 0b1000_0000); // Negative
}

#[test]
fn test_inc_absolute() {
    let mut cpu = Cpu::new(NESBus::with_program(&[INC_ABSOLUTE, 0x00, 0x02, BRK]));
    cpu.bus.write(0x0200, 0x05);
    cpu.run_until_break().unwrap();
    assert_eq!(cpu.bus.read(0x0200), 0x06);
}

// DEC (memory)
#[test]
fn test_dec_zero_page() {
    let mut cpu = Cpu::new(NESBus::with_program(&[DEC_ZERO_PAGE, 0x10, BRK]));
    cpu.bus.write(0x10, 0x05);
    cpu.run_until_break().unwrap();
    assert_eq!(cpu.bus.read(0x10), 0x04);
}

#[test]
fn test_dec_underflow() {
    let mut cpu = Cpu::new(NESBus::with_program(&[DEC_ZERO_PAGE, 0x10, BRK]));
    cpu.bus.write(0x10, 0x00);
    cpu.run_until_break().unwrap();
    assert_eq!(cpu.bus.read(0x10), 0xFF);
    assert_eq!(cpu.processor_status & 0b1000_0000, 0b1000_0000); // Negative
}

#[test]
fn test_dec_zero_flag() {
    let mut cpu = Cpu::new(NESBus::with_program(&[DEC_ZERO_PAGE, 0x10, BRK]));
    cpu.bus.write(0x10, 0x01);
    cpu.run_until_break().unwrap();
    assert_eq!(cpu.bus.read(0x10), 0x00);
    assert_eq!(cpu.processor_status & 0b0000_0010, 0b10); // Zero
}

#[test]
fn test_dec_absolute() {
    let mut cpu = Cpu::new(NESBus::with_program(&[DEC_ABSOLUTE, 0x00, 0x02, BRK]));
    cpu.bus.write(0x0200, 0x05);
    cpu.run_until_break().unwrap();
    assert_eq!(cpu.bus.read(0x0200), 0x04);
}
