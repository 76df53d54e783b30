# nes_rust

A NES emulator core whose behaviour is stated in Verus contracts and proved.

- `src/` is the verified library: the 6502 CPU (`cpu/`: decoding, addressing
  modes, every instruction, the step and run loops), the CPU bus (`bus.rs`),
  the PPU (`ppu/`: registers, VRAM and palette mirroring, the scanline clock,
  background and sprite rendering), the iNES cartridge reader
  (`cartridge.rs`), the controller port (`joypad.rs`) and a pattern-table
  viewer (`debug/`).  Each public function has a contract; the laws that
  relate several functions are public proof functions (`cpu/laws.rs`,
  `bus.rs`, `ppu/mod.rs`, `joypad.rs`, `ppu/frame.rs`).
- `app/` is the program around it: reading the ROM file, the SDL window and
  keyboard, the system colour table, and the human-readable error report.
- `tests/` runs the library on concrete programs and values.
