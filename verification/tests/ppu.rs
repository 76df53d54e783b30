use nes_rust::Mirroring;
use nes_rust::ppu::controller_register::ControllerRegister;
use nes_rust::ppu::{CYCLES_PER_SCANLINE, Ppu, REG_CONTROLLER, SCANLINES_PER_FRAME, VBLANK_SCANLINE};

fn new_ppu() -> Ppu {
    Ppu::new(vec![0; 2048], Mirroring::Horizontal)
}

// tick: scanline progress
#[test]
fn test_tick_increments_scanline() {
    let mut ppu = new_ppu();
    ppu.tick(CYCLES_PER_SCANLINE as u16);
    assert_eq!(ppu.scanline(), 1);
}

#[test]
fn test_tick_does_not_increment_scanline_before_341_cycles() {
    let mut ppu = new_ppu();
    ppu.tick(340);
    assert_eq!(ppu.scanline(), 0);
}

#[test]
fn test_tick_carries_over_remaining_cycles() {
    let mut ppu = new_ppu();
    ppu.tick(CYCLES_PER_SCANLINE as u16 + 10);
    assert_eq!(ppu.scanline(), 1);
    assert_eq!(ppu.cycles(), 10);
}

// tick: NMI at VBlank
#[test]
fn test_tick_triggers_nmi_at_vblank_with_nmi_enabled() {
    let mut ppu = new_ppu();
    ppu.write_to_register(REG_CONTROLLER, ControllerRegister::GENERATE_NMI);

    // Run to scanline 241.
    for _ in 0..VBLANK_SCANLINE {
        ppu.tick(CYCLES_PER_SCANLINE as u16);
    }
    assert!(ppu.nmi_interrupt());
}

#[test]
fn test_tick_does_not_trigger_nmi_at_vblank_with_nmi_disabled() {
    let mut ppu = new_ppu();
    // GENERATE_NMI stays off.

    for _ in 0..VBLANK_SCANLINE {
        ppu.tick(CYCLES_PER_SCANLINE as u16);
    }
    assert!(!ppu.nmi_interrupt());
}

// tick: end of frame
#[test]
fn test_tick_returns_true_on_frame_complete() {
    let mut ppu = new_ppu();

    for _ in 0..SCANLINES_PER_FRAME - 1 {
        assert!(!ppu.tick(CYCLES_PER_SCANLINE as u16));
    }
    assert!(ppu.tick(CYCLES_PER_SCANLINE as u16)); // the 262nd scanline ends the frame
}

#[test]
fn test_tick_resets_scanline_on_frame_complete() {
    let mut ppu = new_ppu();
    ppu.write_to_register(REG_CONTROLLER, ControllerRegister::GENERATE_NMI);

    for _ in 0..SCANLINES_PER_FRAME {
        ppu.tick(CYCLES_PER_SCANLINE as u16);
    }
    assert_eq!(ppu.scanline(), 0);
    assert!(!ppu.nmi_interrupt()); // the end of the frame clears the NMI
}

// Edge detection: GENERATE_NMI 0 -> 1 during VBlank
#[test]
fn test_edge_detection_nmi_enabled_during_vblank() {
    let mut ppu = new_ppu();

    // Enter VBlank with NMI off.
    for _ in 0..VBLANK_SCANLINE {
        ppu.tick(CYCLES_PER_SCANLINE as u16);
    }
    ppu.set_nmi_interrupt(false);

    // GENERATE_NMI 0 -> 1 during VBlank raises the NMI.
    ppu.write_to_register(REG_CONTROLLER, ControllerRegister::GENERATE_NMI);
    assert!(ppu.nmi_interrupt());
}

// Edge detection: GENERATE_NMI 1 -> 1 raises nothing
#[test]
fn test_edge_detection_nmi_already_enabled_no_trigger() {
    let mut ppu = new_ppu();
    ppu.write_to_register(REG_CONTROLLER, ControllerRegister::GENERATE_NMI);

    // Enter VBlank.
    for _ in 0..VBLANK_SCANLINE {
        ppu.tick(CYCLES_PER_SCANLINE as u16);
    }
    ppu.set_nmi_interrupt(false);

    // GENERATE_NMI is already 1: writing it again raises nothing.
    ppu.write_to_register(REG_CONTROLLER, ControllerRegister::GENERATE_NMI);
    assert!(!ppu.nmi_interrupt());
}

// Edge detection: GENERATE_NMI 0 -> 1 outside VBlank raises nothing
#[test]
fn test_edge_detection_nmi_enabled_outside_vblank() {
    let mut ppu = new_ppu();

    // Scanline 10, outside VBlank.
    for _ in 0..10 {
        ppu.tick(CYCLES_PER_SCANLINE as u16);
    }

    ppu.write_to_register(REG_CONTROLLER, ControllerRegister::GENERATE_NMI);
    assert!(!ppu.nmi_interrupt());
}
