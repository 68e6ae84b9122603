use nes_rs::cartridge::CartridgeError;
use nes_rs::controller::{Buttons, BUTTON_A};
use nes_rs::mapper::MapperError;
use nes_rs::nes::{LoadError, Nes, SAMPLE_RATE};
use nes_rs::region::Region;

/// An NROM image whose reset vector points at `JMP $8000` (an endless
/// three-cycle loop).
fn looping_rom(mapper: u8, pal: bool) -> Vec<u8> {
    let mut prg = vec![0u8; 16_384];
    prg[0] = 0x4C;
    prg[1] = 0x00;
    prg[2] = 0x80;
    prg[0x3FFC] = 0x00;
    prg[0x3FFD] = 0x80;
    let mut data = Vec::new();
    data.extend_from_slice(b"NES\x1a");
    data.push(1);
    data.push(0);
    data.push((mapper & 0x0F) << 4);
    data.push(mapper & 0xF0);
    data.push(0);
    data.push(if pal { 1 } else { 0 });
    data.extend_from_slice(&[0u8; 6]);
    data.extend_from_slice(&prg);
    data
}

#[test]
fn new_nes_has_no_cartridge_and_ntsc_timing() {
    let nes = Nes::new(None);
    assert_eq!(nes.region(), Region::Ntsc);
    assert!(nes.framebuffer().as_bytes().iter().all(|&b| b == 0));
    assert!(!nes.bus.has_mapper());
    assert_eq!(nes.cpu.status, 0x24);
}

#[test]
fn load_rom_rejects_bad_magic() {
    let mut nes = Nes::new(None);
    let r = nes.load_rom(b"not a rom");
    assert_eq!(r, Err(LoadError::Cartridge(CartridgeError::BadMagic)));
    assert!(!nes.bus.has_mapper());
}

#[test]
fn load_rom_rejects_truncated_image() {
    let mut nes = Nes::new(None);
    let mut rom = looping_rom(0, false);
    rom.truncate(100);
    assert_eq!(nes.load_rom(&rom), Err(LoadError::Cartridge(CartridgeError::Truncated)));
}

#[test]
fn load_rom_rejects_unsupported_mapper() {
    let mut nes = Nes::new(None);
    let rom = looping_rom(5, false);
    assert_eq!(nes.load_rom(&rom), Err(LoadError::Mapper(MapperError::Unsupported(5))));
    assert_eq!(nes.cpu.pc, 0);
}

#[test]
fn load_rom_resets_to_the_vector_and_takes_the_header_region() {
    let mut nes = Nes::new(None);
    let rom = looping_rom(0, true);
    assert_eq!(nes.load_rom(&rom), Ok(()));
    assert_eq!(nes.cpu.pc, 0x8000);
    assert_eq!(nes.region(), Region::Pal);
    assert_eq!(nes.ppu.r.pre_render_line, 311);
}

#[test]
fn region_override_wins_over_header() {
    let mut nes = Nes::new(Some(Region::Ntsc));
    let rom = looping_rom(0, true);
    assert_eq!(nes.load_rom(&rom), Ok(()));
    assert_eq!(nes.region(), Region::Ntsc);
    assert_eq!(nes.ppu.r.pre_render_line, 261);
}

#[test]
fn empty_prg_loads_and_resets_to_zero() {
    let mut nes = Nes::new(None);
    let mut rom = looping_rom(0, false);
    rom[4] = 0;
    rom.truncate(16);
    assert_eq!(nes.load_rom(&rom), Ok(()));
    assert_eq!(nes.cpu.pc, 0x0000);
}

#[test]
fn ntsc_runs_three_dots_per_cycle() {
    let mut nes = Nes::new(None);
    nes.load_rom(&looping_rom(0, false)).expect("valid ROM");
    let _ = nes.run_cycles(15);
    assert_eq!(nes.ppu.r.scanline, 0);
    assert_eq!(nes.ppu.r.cycle, 45);
    assert_eq!(nes.ppu_frac, 0);
}

#[test]
fn pal_runs_sixteen_dots_per_five_cycles() {
    let mut nes = Nes::new(None);
    nes.load_rom(&looping_rom(0, true)).expect("valid ROM");
    let _ = nes.run_cycles(15);
    assert_eq!(nes.ppu.r.cycle, 48);
    assert_eq!(nes.ppu_frac, 0);
    let _ = nes.run_cycles(3);
    // 18 cycles: 57 dots and 3/5 of a dot left over.
    assert_eq!(nes.ppu.r.cycle, 57);
    assert_eq!(nes.ppu_frac, 3);
}

#[test]
fn samples_follow_the_sample_rate() {
    let mut nes = Nes::new(None);
    nes.load_rom(&looping_rom(0, false)).expect("valid ROM");
    // 40 587 cycles is a whole number of 3-cycle loops.
    let samples = nes.run_cycles(40_587);
    let hz = 1_789_773u64;
    assert_eq!(samples.len() as u64, 40_587 * u64::from(SAMPLE_RATE) / hz);
    assert_eq!(u64::from(nes.sample_clock), 40_587 * u64::from(SAMPLE_RATE) % hz);
}

#[test]
fn cpu_halt_stops_the_run() {
    let mut nes = Nes::new(None);
    // No cartridge: the byte at PC 0 is RAM 0, BRK, which halts at once.
    let samples = nes.run_cycles(1000);
    assert!(samples.is_empty());
    assert_eq!(nes.cpu.cycles, 0);
}

#[test]
fn buttons_reach_the_controller_port() {
    let mut nes = Nes::new(None);
    nes.set_buttons(0, Buttons::from_bits(BUTTON_A));
    assert_eq!(nes.bus.controller1.buttons.bits, BUTTON_A);
    nes.set_buttons(1, Buttons::from_bits(0x80));
    assert_eq!(nes.bus.controller2.buttons.bits, 0x80);
}

#[test]
fn sprite_limit_switch() {
    let mut nes = Nes::new(None);
    nes.set_sprite_limit(false);
    assert!(!nes.ppu.r.sprite_limit);
    nes.set_sprite_limit(true);
    assert!(nes.ppu.r.sprite_limit);
}

#[test]
fn a_frame_is_swapped_in_after_a_full_frame() {
    let mut nes = Nes::new(None);
    nes.load_rom(&looping_rom(0, false)).expect("valid ROM");
    assert!(!nes.frame_ready);
    // One NTSC frame is 262 * 341 = 89 342 dots, under 29 781 cycles.
    let _ = nes.run_cycles(29_781);
    assert!(nes.frame_ready);
}

#[test]
fn restore_returns_to_the_snapshot() {
    let mut nes = Nes::new(None);
    nes.load_rom(&looping_rom(0, false)).expect("valid ROM");
    let _ = nes.run_cycles(300);
    let snap = nes.snapshot();
    let pc = nes.cpu.pc;
    let cycles = nes.cpu.cycles;
    let dot = nes.ppu.r.cycle;
    let _ = nes.run_cycles(3000);
    assert_ne!(nes.cpu.cycles, cycles);
    nes.restore(&snap);
    assert_eq!(nes.cpu.pc, pc);
    assert_eq!(nes.cpu.cycles, cycles);
    assert_eq!(nes.ppu.r.cycle, dot);
}

#[test]
fn reset_reloads_the_vector_and_keeps_the_cartridge() {
    let mut nes = Nes::new(None);
    nes.load_rom(&looping_rom(0, false)).expect("valid ROM");
    let _ = nes.run_cycles(30);
    nes.cpu.a = 7;
    nes.reset();
    assert_eq!(nes.cpu.pc, 0x8000);
    assert_eq!(nes.cpu.a, 0);
    assert!(nes.bus.has_mapper());
}
