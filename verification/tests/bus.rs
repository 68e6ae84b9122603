use nes_rs::apu::Apu;
use nes_rs::bus::Bus;
use nes_rs::cartridge::Cartridge;
use nes_rs::controller::{Buttons, BUTTON_A, BUTTON_START};
use nes_rs::mapper::MapperError;
use nes_rs::ppu::Ppu;

fn make_ines(prg: &[u8]) -> Vec<u8> {
    make_ines_mapper(prg, 0)
}

fn make_ines_mapper(prg: &[u8], mapper: u8) -> Vec<u8> {
    let prg_banks = prg.len() / 16_384;
    let mut data = Vec::new();
    data.extend_from_slice(b"NES\x1a");
    data.push(prg_banks as u8);
    data.push(0);
    data.push((mapper & 0x0F) << 4);
    data.push(mapper & 0xF0);
    data.extend_from_slice(&[0u8; 8]);
    data.extend_from_slice(prg);
    data
}

#[test]
fn ram_read_write() {
    let mut bus = Bus::new();
    let mut ppu = Ppu::new();
    bus.write(0x0000, 0x42, &mut ppu);
    assert_eq!(bus.read(0x0000, &mut ppu), 0x42);
}

#[test]
fn ram_mirrors() {
    let mut bus = Bus::new();
    let mut ppu = Ppu::new();
    bus.write(0x0000, 0xAB, &mut ppu);
    assert_eq!(bus.read(0x0800, &mut ppu), 0xAB);
    assert_eq!(bus.read(0x1000, &mut ppu), 0xAB);
    assert_eq!(bus.read(0x1800, &mut ppu), 0xAB);
}

#[test]
fn cartridge_prg_rom_read() {
    let mut bus = Bus::new();
    let mut ppu = Ppu::new();

    let mut prg = vec![0x00; 16_384];
    prg[0] = 0xEA;
    prg[0x3FFC] = 0x00;
    prg[0x3FFD] = 0x80;

    let cart = Cartridge::from_ines(&make_ines(&prg)).expect("test ROM should be valid");
    bus.load_cartridge(cart).expect("mapper 0 should be supported");

    assert_eq!(bus.read(0x8000, &mut ppu), 0xEA);
    assert_eq!(bus.read(0xC000, &mut ppu), 0xEA);
    assert_eq!(bus.read(0xFFFC, &mut ppu), 0x00);
    assert_eq!(bus.read(0xFFFD, &mut ppu), 0x80);
}

#[test]
fn no_cartridge_reads_zero() {
    let mut bus = Bus::new();
    let mut ppu = Ppu::new();
    assert_eq!(bus.read(0x8000, &mut ppu), 0);
}

#[test]
fn controller_strobe_and_read() {
    let mut bus = Bus::new();
    let mut ppu = Ppu::new();

    bus.set_controller_buttons(0, Buttons::from_bits(BUTTON_A | BUTTON_START));
    bus.write(0x4016, 1, &mut ppu);
    bus.write(0x4016, 0, &mut ppu);

    assert_eq!(bus.read(0x4016, &mut ppu), 1);
    assert_eq!(bus.read(0x4016, &mut ppu), 0);
    assert_eq!(bus.read(0x4016, &mut ppu), 0);
    assert_eq!(bus.read(0x4016, &mut ppu), 1);
}

#[test]
fn apu_register_write_read() {
    let mut bus = Bus::new();
    bus.apu = Some(Apu::new());
    let mut ppu = Ppu::new();

    bus.write(0x4015, 0x01, &mut ppu);
    let status = bus.read(0x4015, &mut ppu);
    assert_eq!(status & 0x01, 0);
}

#[test]
fn ram_write_leaves_other_bytes() {
    let mut bus = Bus::new();
    let mut ppu = Ppu::new();
    bus.write(0x0123, 0x77, &mut ppu);
    bus.write(0x1923, 0x55, &mut ppu);
    assert_eq!(bus.read(0x0123, &mut ppu), 0x55);
    assert_eq!(bus.read(0x0124, &mut ppu), 0x00);
}

#[test]
fn ppu_registers_repeat_every_eight_bytes() {
    let mut bus = Bus::new();
    let mut ppu = Ppu::new();
    let cart = Cartridge::from_ines(&make_ines(&vec![0u8; 16_384])).expect("valid");
    bus.load_cartridge(cart).expect("supported");
    // Address $2400 through the PPUADDR mirror at $3FFE, then write
    // through the PPUDATA mirror at $200F.
    bus.write(0x3FFE, 0x24, &mut ppu);
    bus.write(0x3FFE, 0x00, &mut ppu);
    bus.write(0x200F, 0x99, &mut ppu);
    bus.write(0x2006, 0x24, &mut ppu);
    bus.write(0x2006, 0x00, &mut ppu);
    let _buffered = bus.read(0x2007, &mut ppu);
    assert_eq!(bus.read(0x2007, &mut ppu), 0x99);
}

#[test]
fn unsupported_mapper_is_refused() {
    let mut bus = Bus::new();
    let mut ppu = Ppu::new();
    let cart = Cartridge::from_ines(&make_ines_mapper(&vec![0u8; 16_384], 5)).expect("valid");
    assert!(matches!(bus.load_cartridge(cart), Err(MapperError::Unsupported(5))));
    assert_eq!(bus.read(0x8000, &mut ppu), 0);
    assert!(!bus.has_mapper());
}

#[test]
fn oam_dma_copies_a_page() {
    let mut bus = Bus::new();
    let mut ppu = Ppu::new();
    for i in 0..256u16 {
        bus.write(0x0300 + i, i as u8, &mut ppu);
    }
    bus.write(0x4014, 0x03, &mut ppu);
    assert_eq!(ppu.oam[0], 0);
    assert_eq!(ppu.oam[200], 200);
    assert_eq!(ppu.oam[255], 255);
}

#[test]
fn peek_has_no_side_effect() {
    let mut bus = Bus::new();
    let mut ppu = Ppu::new();
    bus.write(0x0042, 0x17, &mut ppu);
    assert_eq!(bus.peek(0x0042), 0x17);
    assert_eq!(bus.peek(0x4016), 0);
}

#[test]
fn cloned_bus_is_independent() {
    let mut bus = Bus::new();
    let mut ppu = Ppu::new();
    bus.write(0x0001, 0x01, &mut ppu);
    let mut copy = bus.clone();
    copy.write(0x0001, 0x02, &mut ppu);
    assert_eq!(bus.read(0x0001, &mut ppu), 0x01);
    assert_eq!(copy.read(0x0001, &mut ppu), 0x02);
}
