use nes_rust::Mirroring;
use nes_rust::bus::NESBus;
use nes_rust::cartridge::Rom;
use nes_rust::cpu::Clock;
use nes_rust::cpu::bus_access::Bus;
use nes_rust::joypad::{Joypad, JoypadButton};
use nes_rust::memory::Memory;
use nes_rust::ppu::address_register::AddressRegister;
use nes_rust::ppu::controller_register::ControllerRegister;
use nes_rust::ppu::status_register::StatusRegister;
use nes_rust::ppu::Ppu;

#[test]
fn ram_is_mirrored_four_times() {
    let mut bus = NESBus::with_program(&[0x00]);
    bus.write(0x0801, 0x5A);
    assert_eq!(bus.read(0x0001), 0x5A);
    assert_eq!(bus.read(0x1001), 0x5A);
    assert_eq!(bus.read(0x1801), 0x5A);
    assert_eq!(bus.read(0x0002), 0x00);
}

#[test]
fn one_bank_prg_rom_is_mirrored_at_c000() {
    let mut prg = vec![0u8; 16384];
    prg[0x0123] = 0x77;
    let rom = Rom { prg_rom: prg, chr_rom: vec![], mapper: 0, screen_mirroring: Mirroring::Vertical };
    let mut bus = NESBus::new(rom);
    assert_eq!(bus.read(0x8123), 0x77);
    assert_eq!(bus.read(0xC123), 0x77);
}

#[test]
fn writes_to_cartridge_are_ignored() {
    let mut bus = NESBus::with_program(&[0xEA]);
    bus.write(0x8000, 0x00);
    assert_eq!(bus.read(0x8000), 0xEA);
}

#[test]
fn unmapped_and_apu_reads_answer_zero() {
    let mut bus = NESBus::with_program(&[0x00]);
    assert_eq!(bus.read(0x4000), 0);
    assert_eq!(bus.read(0x4017), 0);
    assert_eq!(bus.read(0x5000), 0);
}

#[test]
fn memory_load_copies_into_place() {
    let mut memory = Memory::new();
    memory.load(0x0100, &[1, 2, 3]);
    assert_eq!(memory.read(0x00FF), 0);
    assert_eq!(memory.read(0x0100), 1);
    assert_eq!(memory.read(0x0102), 3);
    assert_eq!(memory.read(0x0103), 0);
    memory.write(0x07FF, 9);
    assert_eq!(memory.read(0x07FF), 9);
}

#[test]
fn oam_dma_copies_a_page_of_ram() {
    let mut bus = NESBus::with_program(&[0x00]);
    for i in 0..256u16 {
        bus.write(0x0200 + i, i as u8);
    }
    bus.write(0x2003, 0x00); // OAM address 0
    bus.write(0x4014, 0x02);
    bus.write(0x2003, 0x10);
    assert_eq!(bus.read(0x2004), 0x10);
    bus.write(0x2003, 0xFF);
    assert_eq!(bus.read(0x2004), 0xFF);
}

#[test]
fn controller_is_read_through_the_bus() {
    let mut bus = NESBus::with_program(&[0x00]);
    bus.joypad1_mut().set_button_pressed_status(JoypadButton::START, true);
    bus.write(0x4016, 1);
    bus.write(0x4016, 0);
    let bits: Vec<u8> = (0..9).map(|_| bus.read(0x4016)).collect();
    assert_eq!(bits, vec![0, 0, 0, 1, 0, 0, 0, 0, 1]);
}

fn set_ppu_address(bus: &mut NESBus, address: u16) {
    bus.write(0x2006, (address >> 8) as u8);
    bus.write(0x2006, address as u8);
}

#[test]
fn nametable_write_reads_back_through_the_buffer() {
    let mut bus = NESBus::with_program(&[0x00]);
    set_ppu_address(&mut bus, 0x2005);
    bus.write(0x2007, 0x66);
    set_ppu_address(&mut bus, 0x2005);
    let _stale = bus.read(0x2007);
    assert_eq!(bus.read(0x2007), 0x66);
}

#[test]
fn horizontal_mirroring_shares_the_upper_nametables() {
    // with_program gives horizontal mirroring: 0x2400 mirrors 0x2000.
    let mut bus = NESBus::with_program(&[0x00]);
    set_ppu_address(&mut bus, 0x2000);
    bus.write(0x2007, 0x12);
    set_ppu_address(&mut bus, 0x2400);
    let _stale = bus.read(0x2007);
    assert_eq!(bus.read(0x2007), 0x12);
    let horizontal = Ppu::new(vec![], Mirroring::Horizontal);
    let vertical = Ppu::new(vec![], Mirroring::Vertical);
    assert_eq!(horizontal.mirror_vram_address(0x2C05), 0x0405);
    assert_eq!(vertical.mirror_vram_address(0x2C05), 0x0405);
    assert_eq!(vertical.mirror_vram_address(0x2805), 0x0005);
    assert_eq!(horizontal.mirror_vram_address(0x2805), 0x0405);
}

#[test]
fn palette_reads_are_immediate_and_mirrored() {
    let mut bus = NESBus::with_program(&[0x00]);
    set_ppu_address(&mut bus, 0x3F10);
    bus.write(0x2007, 0x2A);
    set_ppu_address(&mut bus, 0x3F00);
    assert_eq!(bus.read(0x2007), 0x2A);
    assert_eq!(Ppu::mirror_palette_address(0x3F1C), 0x0C);
    assert_eq!(Ppu::mirror_palette_address(0x3F35), 0x15);
}

#[test]
fn status_read_clears_vblank() {
    let mut bus = NESBus::with_program(&[0x00]);
    for _ in 0..241 {
        bus.tick(114);
    }
    assert_eq!(bus.read(0x2002) & StatusRegister::VBLANK_STARTED, StatusRegister::VBLANK_STARTED);
    assert_eq!(bus.read(0x2002) & StatusRegister::VBLANK_STARTED, 0);
}

#[test]
fn tick_reports_the_nmi_edge_once() {
    let mut bus = NESBus::with_program(&[0x00]);
    bus.write(0x2000, ControllerRegister::GENERATE_NMI);
    let mut edges = 0;
    for _ in 0..241 {
        if bus.tick(114) {
            edges += 1;
        }
    }
    assert_eq!(edges, 1);
}

#[test]
fn address_register_keeps_fourteen_bits() {
    let mut register = AddressRegister::new();
    register.write(0xFF);
    register.write(0xFF);
    assert_eq!(register.get(), 0x3FFF);
    register.increment(1);
    assert_eq!(register.get(), 0x0000);
    register.write(0x21);
    register.write(0xF0);
    register.increment(32);
    assert_eq!(register.get(), 0x2210);
    register.write(0x3F);
    register.reset_latch();
    register.write(0x12);
    assert_eq!(register.get(), 0x1210);
}

#[test]
fn controller_register_steps_and_banks() {
    let mut register = ControllerRegister::new();
    assert_eq!(register.vram_address_step(), 1);
    register.update(ControllerRegister::VRAM_ADD_INCREMENT | ControllerRegister::SPRITE_PATTERN_ADDR);
    assert_eq!(register.vram_address_step(), 32);
    assert_eq!(register.sprite_pattern_address(), 0x1000);
    assert_eq!(register.background_pattern_address(), 0x0000);
    assert!(register.contains(ControllerRegister::VRAM_ADD_INCREMENT));
}

#[test]
fn poll_twice_answers_false_the_second_time() {
    let mut ppu = Ppu::new(vec![], Mirroring::Vertical);
    ppu.set_nmi_interrupt(true);
    assert!(ppu.poll_nmi_interrupt());
    assert!(!ppu.poll_nmi_interrupt());
}

#[test]
fn joypad_button_release_keeps_others() {
    let mut joypad = Joypad::new();
    joypad.set_button_pressed_status(JoypadButton::UP, true);
    joypad.set_button_pressed_status(JoypadButton::DOWN, true);
    joypad.set_button_pressed_status(JoypadButton::UP, false);
    joypad.write(1);
    joypad.write(0);
    let bits: Vec<u8> = (0..8).map(|_| joypad.read()).collect();
    assert_eq!(bits, vec![0, 0, 0, 0, 0, 1, 0, 0]);
    assert_eq!(JoypadButton::RIGHT.bits(), 0b1000_0000);
}

#[test]
fn oam_dma_from_the_cartridge_copies_prg_rom() {
    let mut bus = NESBus::with_program(&[0x11, 0x22, 0x33]);
    bus.write(0x2003, 0x01); // OAM address 1
    bus.write(0x4014, 0x80);
    bus.write(0x2003, 0x01);
    assert_eq!(bus.read(0x2004), 0x11);
    bus.write(0x2003, 0x03);
    assert_eq!(bus.read(0x2004), 0x33);
    bus.write(0x2003, 0x00);
    assert_eq!(bus.read(0x2004), 0x00); // byte 255 of the page wraps to entry 0
}

#[test]
fn oam_data_reads_back_what_was_written() {
    let mut bus = NESBus::with_program(&[0x00]);
    bus.write(0x2003, 0x05);
    bus.write(0x2004, 0x77);
    bus.write(0x2004, 0x88);
    bus.write(0x2003, 0x05);
    assert_eq!(bus.read(0x2004), 0x77);
    assert_eq!(bus.read(0x2004), 0x77);
    bus.write(0x2003, 0x06);
    assert_eq!(bus.read(0x2004), 0x88);
}

#[test]
fn addresses_3000_to_3eff_mirror_the_nametables() {
    let mut bus = NESBus::with_program(&[0x00]);
    set_ppu_address(&mut bus, 0x2005);
    bus.write(0x2007, 0x5C);
    set_ppu_address(&mut bus, 0x3005);
    let _stale = bus.read(0x2007);
    assert_eq!(bus.read(0x2007), 0x5C);
    set_ppu_address(&mut bus, 0x3406); // horizontal: 0x2406 is 0x2006
    bus.write(0x2007, 0x6D);
    set_ppu_address(&mut bus, 0x2006);
    let _stale = bus.read(0x2007);
    assert_eq!(bus.read(0x2007), 0x6D);
}

#[test]
fn four_screen_cartridges_run_on_the_lower_nametables() {
    let mut prg = vec![0u8; 16384];
    prg[0x3FFC] = 0x00;
    prg[0x3FFD] = 0x80;
    let rom = Rom { prg_rom: prg, chr_rom: vec![], mapper: 0, screen_mirroring: Mirroring::FourScreen };
    let mut bus = NESBus::new(rom);
    assert_eq!(bus.read(0xFFFD), 0x80);
    set_ppu_address(&mut bus, 0x2401);
    bus.write(0x2007, 0x42);
    set_ppu_address(&mut bus, 0x2401);
    let _stale = bus.read(0x2007);
    assert_eq!(bus.read(0x2007), 0x42);
    // The upper nametables need memory on the cartridge: refused.
    set_ppu_address(&mut bus, 0x2801);
    bus.write(0x2007, 0x99);
    assert_eq!(bus.read(0x2007), 0x00);
}

#[test]
fn cartridge_reads_past_a_short_prg_rom_answer_zero() {
    let rom = Rom { prg_rom: vec![7u8; 100], chr_rom: vec![], mapper: 0, screen_mirroring: Mirroring::Horizontal };
    let mut bus = NESBus::new(rom);
    assert_eq!(bus.read(0x8000), 7);
    assert_eq!(bus.read(0x8063), 7);
    assert_eq!(bus.read(0x8064), 0);
    assert_eq!(bus.read(0xFFFC), 0);
}
