use nes_rs::cartridge::{Cartridge, Mirroring};
use nes_rs::mapper::{is_supported_mapper, Mapper, MapperError};
use nes_rs::region::Region;

/// An image of mapper `id` whose PRG bank `b` (16 KB) is filled with
/// `b` and whose CHR bank `c` (8 KB) is filled with `0x80 | c`.
fn image(id: u8, prg_banks: u8, chr_banks: u8, flags6_low: u8) -> Vec<u8> {
    let mut data = Vec::new();
    data.extend_from_slice(b"NES\x1a");
    data.push(prg_banks);
    data.push(chr_banks);
    data.push(((id & 0x0F) << 4) | flags6_low);
    data.push(id & 0xF0);
    data.extend_from_slice(&[0u8; 8]);
    for b in 0..prg_banks {
        data.extend_from_slice(&vec![b; 16_384]);
    }
    for c in 0..chr_banks {
        data.extend_from_slice(&vec![0x80 | c; 8_192]);
    }
    data
}

fn mapper(id: u8, prg_banks: u8, chr_banks: u8) -> Mapper {
    let cart = Cartridge::from_ines(&image(id, prg_banks, chr_banks, 0)).expect("valid image");
    Mapper::from_cartridge(cart).expect("supported mapper")
}

#[test]
fn supported_mapper_ids() {
    for id in [0u8, 1, 2, 3, 4, 7, 9, 11, 66, 71] {
        assert!(is_supported_mapper(id));
    }
    for id in [5u8, 6, 8, 10, 65, 255] {
        assert!(!is_supported_mapper(id));
    }
}

#[test]
fn unsupported_mapper_error() {
    let cart = Cartridge::from_ines(&image(5, 2, 1, 0)).expect("valid image");
    assert!(matches!(Mapper::from_cartridge(cart), Err(MapperError::Unsupported(5))));
}

#[test]
fn nrom_mirrors_a_single_bank() {
    let m = mapper(0, 1, 1);
    assert_eq!(m.cpu_read(0x8000), 0);
    assert_eq!(m.cpu_read(0xC000), 0);
    let m = mapper(0, 2, 1);
    assert_eq!(m.cpu_read(0xC000), 1);
}

#[test]
fn chr_ram_when_no_chr_rom() {
    let mut m = mapper(0, 1, 0);
    m.ppu_write(0x0123, 0x5A);
    assert_eq!(m.ppu_read(0x0123), 0x5A);
    let mut rom = mapper(0, 1, 1);
    rom.ppu_write(0x0123, 0x5A);
    assert_eq!(rom.ppu_read(0x0123), 0x80);
}

#[test]
fn uxrom_switches_the_low_bank() {
    let mut m = mapper(2, 4, 0);
    assert_eq!(m.cpu_read(0x8000), 0);
    assert_eq!(m.cpu_read(0xC000), 3);
    m.cpu_write(0x8000, 2);
    assert_eq!(m.cpu_read(0x8000), 2);
    assert_eq!(m.cpu_read(0xFFFF), 3);
    // The bank number wraps at the bank count.
    m.cpu_write(0x8000, 5);
    assert_eq!(m.cpu_read(0x8000), 1);
}

#[test]
fn cnrom_switches_chr() {
    let mut m = mapper(3, 1, 4);
    assert_eq!(m.ppu_read(0x0000), 0x80);
    m.cpu_write(0x8000, 2);
    assert_eq!(m.ppu_read(0x0000), 0x82);
}

#[test]
fn mmc1_serial_write_selects_prg_bank() {
    let mut m = mapper(1, 4, 1);
    // Power-on: 16 KB mode with the last bank fixed at $C000.
    assert_eq!(m.cpu_read(0xC000), 3);
    // Five serial writes of 2 (bits 0,1,0,0,0) to $E000.
    for bit in [0u8, 1, 0, 0, 0] {
        m.cpu_write(0xE000, bit);
    }
    assert_eq!(m.cpu_read(0x8000), 2);
    // A write with bit 7 resets the shift register.
    m.cpu_write(0xE000, 1);
    m.cpu_write(0xE000, 0x80);
    for bit in [1u8, 0, 0, 0, 0] {
        m.cpu_write(0xE000, bit);
    }
    assert_eq!(m.cpu_read(0x8000), 1);
}

#[test]
fn mmc1_control_sets_mirroring() {
    let mut m = mapper(1, 2, 1);
    // Power-on control $0C: mirroring bits 0 select the lower page.
    assert_eq!(m.mirroring(), Mirroring::SingleLow);
    // Control = 0b00010: vertical mirroring.
    for bit in [0u8, 1, 0, 0, 0] {
        m.cpu_write(0x8000, bit);
    }
    assert_eq!(m.mirroring(), Mirroring::Vertical);
}

#[test]
fn mmc1_control_selects_each_mirroring_mode() {
    let mut m = mapper(1, 2, 1);
    for (mode, expected) in [
        (0u8, Mirroring::SingleLow),
        (1, Mirroring::SingleHigh),
        (2, Mirroring::Vertical),
        (3, Mirroring::Horizontal),
    ] {
        for i in 0..5 {
            m.cpu_write(0x8000, (mode >> i) & 1);
        }
        assert_eq!(m.mirroring(), expected);
    }
}

#[test]
fn mmc3_scanline_counter_raises_irq() {
    let mut m = mapper(4, 2, 1);
    m.cpu_write(0xC000, 2); // latch
    m.cpu_write(0xC001, 0); // reload
    m.cpu_write(0xE001, 0); // enable
    m.notify_scanline(); // reload to 2
    assert!(!m.irq_pending());
    m.notify_scanline(); // 1
    assert!(!m.irq_pending());
    m.notify_scanline(); // 0 → IRQ
    assert!(m.irq_pending());
    m.cpu_write(0xE000, 0); // acknowledge and disable
    assert!(!m.irq_pending());
}

#[test]
fn mmc3_fixes_the_last_bank() {
    let m = mapper(4, 2, 1);
    // 32 KB = four 8 KB banks; $E000 holds the last one (second half of 16 KB bank 1).
    assert_eq!(m.cpu_read(0xE000), 1);
}

#[test]
fn axrom_selects_32k_banks_and_one_screen() {
    let mut m = mapper(7, 4, 0);
    m.cpu_write(0x8000, 0x11);
    assert_eq!(m.cpu_read(0x8000), 2);
    assert_eq!(m.cpu_read(0xC000), 3);
    assert_eq!(m.mirroring(), Mirroring::SingleHigh);
}

#[test]
fn color_dreams_selects_prg_and_chr() {
    let mut m = mapper(11, 4, 2);
    m.cpu_write(0x8000, 0x11);
    assert_eq!(m.cpu_read(0x8000), 2);
    assert_eq!(m.ppu_read(0x0000), 0x81);
}

#[test]
fn gxrom_selects_prg_and_chr_from_one_register() {
    let mut m = mapper(66, 4, 4);
    m.cpu_write(0x8000, 0x12);
    assert_eq!(m.cpu_read(0x8000), 2);
    assert_eq!(m.cpu_read(0xFFFF), 3);
    assert_eq!(m.ppu_read(0x0000), 0x82);
}

#[test]
fn camerica_switches_the_low_bank() {
    let mut m = mapper(71, 4, 0);
    m.cpu_write(0xC000, 1);
    assert_eq!(m.cpu_read(0x8000), 1);
    assert_eq!(m.cpu_read(0xC000), 3);
}

#[test]
fn mmc2_latch_follows_tile_fetches() {
    let mut m = mapper(9, 2, 4);
    // CHR bank registers: $FD/$FE for the $0000 half.
    m.cpu_write(0xB000, 0); // 4 KB bank 0 when latch = $FD
    m.cpu_write(0xC000, 2); // 4 KB bank 2 when latch = $FE
    // The latch powers on at $FE: 4 KB bank 2 is the second 8 KB bank.
    assert_eq!(m.ppu_read(0x0000), 0x81);
    let _ = m.ppu_read(0x0FD8); // latch to $FD
    assert_eq!(m.ppu_read(0x0000), 0x80);
    let _ = m.ppu_read(0x0FE8); // back to $FE
    assert_eq!(m.ppu_read(0x0000), 0x81);
}

#[test]
fn mmc2_latch_ignores_other_reads_and_writes() {
    let mut m = mapper(9, 2, 4);
    m.cpu_write(0xB000, 0);
    m.cpu_write(0xC000, 2);
    let _ = m.ppu_read(0x0FDB); // latch to $FD
    let _ = m.ppu_read(0x0FE0); // neither tile
    let _ = m.ppu_read(0x1FE8); // the other half's latch
    m.cpu_write(0xF000, 1);
    m.cpu_write(0xA000, 1);
    assert_eq!(m.ppu_read(0x0000), 0x80);
    m.cpu_write(0xB000, 2); // the $FD bank register moves the bank, not the latch
    assert_eq!(m.ppu_read(0x0000), 0x81);
}

fn raw_cart(id: u8, prg: Vec<u8>, chr: Vec<u8>) -> Cartridge {
    Cartridge { prg_rom: prg, chr_rom: chr, mapper_id: id, mirroring: Mirroring::Vertical, region: Region::Ntsc }
}

#[test]
fn empty_nrom_loads_and_reads_zero() {
    let cart = Cartridge::from_ines(&image(0, 0, 0, 0)).expect("valid");
    let m = Mapper::from_cartridge(cart).expect("supported mapper");
    assert_eq!(m.cpu_read(0x8000), 0);
    assert_eq!(m.cpu_read(0xFFFC), 0);
}

#[test]
fn short_nrom_prg_mirrors_its_bytes() {
    let m = Mapper::from_cartridge(raw_cart(0, vec![7, 8, 9], Vec::new())).expect("supported");
    assert_eq!(m.cpu_read(0x8000), 7);
    assert_eq!(m.cpu_read(0x8004), 8);
}

#[test]
fn one_bank_mmc3_repeats_its_bank() {
    let mut prg = vec![0u8; 8_192];
    prg[0x1FFC] = 0x34;
    prg[0x0000] = 0x12;
    let mut m = Mapper::from_cartridge(raw_cart(4, prg, Vec::new())).expect("supported");
    assert_eq!(m.cpu_read(0xFFFC), 0x34);
    assert_eq!(m.cpu_read(0xDFFC), 0x34);
    m.cpu_write(0x8000, 6);
    m.cpu_write(0x8001, 1);
    assert_eq!(m.cpu_read(0x8000), 0x12);
}

#[test]
fn small_mmc1_prg_is_padded_with_zeros() {
    let m = Mapper::from_cartridge(raw_cart(1, vec![5u8; 100], Vec::new())).expect("supported");
    assert_eq!(m.cpu_read(0x8000), 5);
    assert_eq!(m.cpu_read(0x8064), 0);
    assert_eq!(m.cpu_read(0xFFFC), 0);
}

#[test]
fn short_mmc3_chr_is_padded_to_one_bank() {
    let prg = vec![0u8; 16_384];
    let mut m = Mapper::from_cartridge(raw_cart(4, prg, vec![0x42u8; 10])).expect("supported");
    assert_eq!(m.ppu_read(0x0000), 0x42);
    assert_eq!(m.ppu_read(0x000A), 0);
}

#[test]
fn cloned_mapper_keeps_state() {
    let mut m = mapper(2, 4, 0);
    m.cpu_write(0x8000, 2);
    let c = m.clone();
    assert_eq!(c.cpu_read(0x8000), 2);
}
