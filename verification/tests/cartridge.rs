use nes_rs::cartridge::{Cartridge, CartridgeError, Mirroring, CHR_BANK_SIZE, PRG_BANK_SIZE};
use nes_rs::region::Region;

/// Builds a minimal valid iNES image with the given PRG and CHR data.
fn make_ines(prg: &[u8], chr: &[u8], flags6: u8, flags7: u8) -> Vec<u8> {
    let prg_banks = prg.len() / PRG_BANK_SIZE;
    let chr_banks = chr.len() / CHR_BANK_SIZE;
    let mut data = Vec::new();
    data.extend_from_slice(b"NES\x1a");
    data.push(prg_banks as u8);
    data.push(chr_banks as u8);
    data.push(flags6);
    data.push(flags7);
    data.extend_from_slice(&[0u8; 8]);
    data.extend_from_slice(prg);
    data.extend_from_slice(chr);
    data
}

#[test]
fn parse_minimal_rom() {
    let prg = vec![0xEA; PRG_BANK_SIZE];
    let rom = make_ines(&prg, &[], 0x00, 0x00);

    let cart = Cartridge::from_ines(&rom).expect("should parse valid minimal ROM");

    assert_eq!(cart.prg_rom().len(), PRG_BANK_SIZE);
    assert!(cart.chr_rom().is_empty());
    assert_eq!(cart.mapper_id(), 0);
    assert_eq!(cart.mirroring(), Mirroring::Horizontal);
}

#[test]
fn parse_mapper_and_mirroring() {
    let prg = vec![0x00; PRG_BANK_SIZE];
    let rom = make_ines(&prg, &[], 0x11, 0x20);

    let cart = Cartridge::from_ines(&rom).expect("should parse mapper/mirroring");

    assert_eq!(cart.mapper_id(), 0x21);
    assert_eq!(cart.mirroring(), Mirroring::Vertical);
}

#[test]
fn parse_four_screen_mirroring() {
    let prg = vec![0x00; PRG_BANK_SIZE];
    let rom = make_ines(&prg, &[], 0x08, 0x00);

    let cart = Cartridge::from_ines(&rom).expect("should parse four-screen mirroring");

    assert_eq!(cart.mirroring(), Mirroring::FourScreen);
}

#[test]
fn parse_with_chr_rom() {
    let prg = vec![0x00; PRG_BANK_SIZE];
    let chr = vec![0xFF; CHR_BANK_SIZE * 2];
    let rom = make_ines(&prg, &chr, 0x00, 0x00);

    let cart = Cartridge::from_ines(&rom).expect("should parse CHR-ROM");

    assert_eq!(cart.chr_rom().len(), CHR_BANK_SIZE * 2);
}

#[test]
fn parse_with_trainer() {
    let prg = vec![0x00; PRG_BANK_SIZE];
    let mut rom = make_ines(&prg, &[], 0x04, 0x00);
    let trainer = vec![0xAB; 512];
    let _: Vec<u8> = rom.splice(16..16, trainer).collect();

    let cart = Cartridge::from_ines(&rom).expect("should parse ROM with trainer");

    assert_eq!(cart.prg_rom().len(), PRG_BANK_SIZE);
}

#[test]
fn reject_bad_magic() {
    let data = b"NOT_NES_DATA_AT_ALL!";
    let result = Cartridge::from_ines(data);
    assert!(result.is_err());
}

#[test]
fn reject_truncated_data() {
    let mut data = Vec::new();
    data.extend_from_slice(b"NES\x1a");
    data.push(1);
    data.push(0);
    data.extend_from_slice(&[0u8; 10]);

    let result = Cartridge::from_ines(&data);
    assert!(result.is_err());
}

#[test]
fn bad_magic_and_truncation_are_told_apart() {
    assert!(matches!(Cartridge::from_ines(b"NES"), Err(CartridgeError::BadMagic)));
    assert!(matches!(Cartridge::from_ines(b"NES\x1a\x01"), Err(CartridgeError::Truncated)));
    let mut short = make_ines(&vec![0u8; PRG_BANK_SIZE], &[], 0, 0);
    short.pop();
    assert!(matches!(Cartridge::from_ines(&short), Err(CartridgeError::Truncated)));
}

#[test]
fn prg_and_chr_bytes_are_copied_in_order() {
    let mut prg = vec![0u8; PRG_BANK_SIZE];
    prg[0] = 0x11;
    prg[PRG_BANK_SIZE - 1] = 0x22;
    let mut chr = vec![0u8; CHR_BANK_SIZE];
    chr[0] = 0x33;
    chr[CHR_BANK_SIZE - 1] = 0x44;
    let rom = make_ines(&prg, &chr, 0x01, 0x00);
    let cart = Cartridge::from_ines(&rom).expect("valid image");
    assert_eq!(cart.prg_rom()[0], 0x11);
    assert_eq!(cart.prg_rom()[PRG_BANK_SIZE - 1], 0x22);
    assert_eq!(cart.chr_rom()[0], 0x33);
    assert_eq!(cart.chr_rom()[CHR_BANK_SIZE - 1], 0x44);
    assert_eq!(cart.mirroring(), Mirroring::Vertical);
}

#[test]
fn trainer_is_skipped() {
    let mut prg = vec![0u8; PRG_BANK_SIZE];
    prg[0] = 0x5A;
    let mut rom = make_ines(&prg, &[], 0x04, 0x00);
    let _: Vec<u8> = rom.splice(16..16, vec![0xAB; 512]).collect();
    let cart = Cartridge::from_ines(&rom).expect("valid image");
    assert_eq!(cart.prg_rom()[0], 0x5A);
}

#[test]
fn region_comes_from_flags9() {
    let prg = vec![0u8; PRG_BANK_SIZE];
    let mut rom = make_ines(&prg, &[], 0, 0);
    assert_eq!(Cartridge::from_ines(&rom).expect("valid").region(), Region::Ntsc);
    rom[9] = 0x01;
    assert_eq!(Cartridge::from_ines(&rom).expect("valid").region(), Region::Pal);
}
