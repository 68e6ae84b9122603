# nes_rs

A cycle-aware NES emulator whose core is written in Verus: every function of
the library carries a contract that Verus proves, and the properties that span
functions (stack round trips, interrupt return, mirroring, timing ratios, the
audio ring's FIFO order, ...) stand as proof functions.

## Layout

- `src/` — the verified library
  - `cpu/` — 6502 registers, addressing modes, the 151-opcode table, the
    instruction semantics (`handlers.rs`), the instruction cycle (`run.rs`) and
    CPU laws (`laws.rs`)
  - `ppu/` — registers, VRAM/palette addressing, scanline renderer, palette
  - `apu/` — pulse, triangle, noise and DMC channels, envelope, sweep, length
    and linear counters, frame sequencer
  - `mapper/` — NROM, MMC1, UxROM, CNROM, MMC3, AxROM, MMC2, Color Dreams,
    GxROM, Camerica
  - `bus.rs`, `cartridge.rs`, `controller.rs`, `framebuffer.rs`, `region.rs`
  - `nes.rs` — the emulation loop (CPU, APU and PPU kept in step, 44.1 kHz
    sample points, snapshots); `nes/timing.rs` proves its timing ratios
  - `audio_ring.rs`, `input.rs`, `session.rs`, `rewind.rs`, `stub.rs` — the
    frontend's logic: sample ring buffer, input mapping, per-frame decisions (settings,
    pause, mute, reset, fullscreen, rewind, fast forward, region frame rate),
    rewind history, test-pattern emulator
- `app/` — the program: command line, raylib window, audio device, file
  dialog, and the floating-point mixer and DC-blocking filters
- `tests/` — unit and scenario tests of the library
