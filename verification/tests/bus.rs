use nes_rust::bus::NESBus;
use nes_rust::cpu::Clock;
use nes_rust::cpu::bus_access::Bus;
use nes_rust::ppu::controller_register::ControllerRegister;

fn poll_nmi_status_returns_true_and_clears() {
    let mut bus = NESBus::with_program(&[0x00]);
    // Enable NMI through the bus (0x2000 = PPU_CTRL).
    bus.write(0x2000, ControllerRegister::GENERATE_NMI);

    // Reach VBlank (scanline 241): one CPU cycle is three PPU cycles and a
    // scanline is 341 PPU cycles.  Running to scanline 262 would clear the
    // NMI again, so stop right after VBlank starts: each tick of 114 CPU
    // cycles (342 PPU cycles) moves the beam on by one scanline.
    for _ in 0..241 {
        bus.tick(114);
    }

    // The first poll answers true and clears the NMI.
    assert!(bus.poll_nmi_status());
    // The second finds it cleared.
    assert!(!bus.poll_nmi_status());
}

#[test]
fn bus_test_poll_nmi_status_returns_true_and_clears() {
    poll_nmi_status_returns_true_and_clears();
}

#[test]
fn tests_test_poll_nmi_status_returns_true_and_clears() {
    poll_nmi_status_returns_true_and_clears();
}
