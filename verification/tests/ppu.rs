use nes_rs::cartridge::{Cartridge, Mirroring};
use nes_rs::framebuffer::Framebuffer;
use nes_rs::mapper::Mapper;
use nes_rs::ppu::addr::{mirror_nametable, mirror_palette};
use nes_rs::ppu::palette::lookup;
use nes_rs::ppu::{Ppu, TickOutput};
use nes_rs::region::Region;

#[test]
fn nametable_horizontal_mirroring() {
    let m = Mirroring::Horizontal;
    assert_eq!(mirror_nametable(0x2000, m), 0x0000);
    assert_eq!(mirror_nametable(0x2400, m), 0x0000);
    assert_eq!(mirror_nametable(0x2800, m), 0x0400);
    assert_eq!(mirror_nametable(0x2C00, m), 0x0400);
}

#[test]
fn nametable_vertical_mirroring() {
    let m = Mirroring::Vertical;
    assert_eq!(mirror_nametable(0x2000, m), 0x0000);
    assert_eq!(mirror_nametable(0x2400, m), 0x0400);
    assert_eq!(mirror_nametable(0x2800, m), 0x0000);
    assert_eq!(mirror_nametable(0x2C00, m), 0x0400);
}

#[test]
fn palette_mirror_sprite_backdrop() {
    assert_eq!(mirror_palette(0x3F10), 0x00);
    assert_eq!(mirror_palette(0x3F14), 0x04);
    assert_eq!(mirror_palette(0x3F18), 0x08);
    assert_eq!(mirror_palette(0x3F1C), 0x0C);
    assert_eq!(mirror_palette(0x3F11), 0x11);
    assert_eq!(mirror_palette(0x3F15), 0x15);
}

#[test]
fn palette_wraps_at_32() {
    assert_eq!(mirror_palette(0x3F20), 0x00);
    assert_eq!(mirror_palette(0x3F3F), 0x1F);
}

#[test]
fn nametable_offsets_within_a_table_are_kept() {
    assert_eq!(mirror_nametable(0x23FF, Mirroring::Horizontal), 0x03FF);
    assert_eq!(mirror_nametable(0x2C01, Mirroring::Vertical), 0x0401);
    assert_eq!(mirror_nametable(0x3000, Mirroring::Vertical), 0x0000);
}

fn nrom_mapper() -> Mapper {
    let mut data = Vec::new();
    data.extend_from_slice(b"NES\x1a");
    data.push(1);
    data.push(1);
    data.extend_from_slice(&[0u8; 10]);
    data.extend_from_slice(&vec![0u8; 16_384]);
    let mut chr = vec![0u8; 8_192];
    chr[0x0010] = 0xC3;
    data.extend_from_slice(&chr);
    let cart = Cartridge::from_ines(&data).expect("valid image");
    Mapper::from_cartridge(cart).expect("supported")
}

#[test]
fn writes_read_back_through_mirrors_across_other_writes() {
    let mut ppu = Ppu::new();
    let mut mapper = nrom_mapper(); // horizontal mirroring
    ppu.ppu_write(0x2005, 0x11, &mut mapper);
    ppu.ppu_write(0x3F10, 0x22, &mut mapper);
    ppu.ppu_write(0x2400, 0x33, &mut mapper);
    ppu.ppu_write(0x2006, 0x44, &mut mapper);
    ppu.ppu_write(0x3F01, 0x55, &mut mapper);
    ppu.ppu_write(0x2800, 0x66, &mut mapper);
    assert_eq!(ppu.ppu_read(0x3005, &mut mapper), 0x11);
    assert_eq!(ppu.ppu_read(0x3F00, &mut mapper), 0x22);
    assert_eq!(ppu.ppu_read(0x2000, &mut mapper), 0x33);
    assert_eq!(ppu.ppu_read(0x6005, &mut mapper), 0x11);
}

#[test]
fn ppuaddr_takes_high_then_low_byte() {
    let mut ppu = Ppu::new();
    let mut mapper = nrom_mapper();
    ppu.cpu_write(6, 0x00, &mut mapper);
    ppu.cpu_write(6, 0x10, &mut mapper);
    assert_eq!(ppu.r.v, 0x0010);
    let _buffered = ppu.cpu_read(7, &mut mapper);
    assert_eq!(ppu.cpu_read(7, &mut mapper), 0xC3);
}

#[test]
fn status_read_clears_vblank_and_latch() {
    let mut ppu = Ppu::new();
    let mut mapper = nrom_mapper();
    ppu.r.status = 0x80;
    ppu.r.w = true;
    let s = ppu.cpu_read(2, &mut mapper);
    assert_eq!(s & 0x80, 0x80);
    assert_eq!(ppu.r.status & 0x80, 0);
    assert!(!ppu.r.w);
}

#[test]
fn palette_ram_through_ppudata() {
    let mut ppu = Ppu::new();
    let mut mapper = nrom_mapper();
    ppu.cpu_write(6, 0x3F, &mut mapper);
    ppu.cpu_write(6, 0x10, &mut mapper);
    ppu.cpu_write(7, 0x2A, &mut mapper);
    assert_eq!(ppu.palette[0], 0x2A);
}

#[test]
fn vblank_signals_nmi_when_enabled() {
    let mut ppu = Ppu::new();
    let mut mapper = nrom_mapper();
    let mut fb = Framebuffer::new();
    ppu.cpu_write(0, 0x80, &mut mapper);
    ppu.r.scanline = 241;
    ppu.r.cycle = 1;
    assert_eq!(ppu.tick(&mut mapper, &mut fb), TickOutput::Nmi);
    assert_eq!(ppu.r.status & 0x80, 0x80);
    assert_eq!(ppu.r.cycle, 2);
}

#[test]
fn frame_ends_after_pre_render_line() {
    let mut ppu = Ppu::new();
    let mut mapper = nrom_mapper();
    let mut fb = Framebuffer::new();
    ppu.set_region(Region::Pal);
    ppu.r.scanline = 311;
    ppu.r.cycle = 340;
    assert_eq!(ppu.tick(&mut mapper, &mut fb), TickOutput::FrameReady);
    assert_eq!(ppu.r.scanline, 0);
    assert_eq!(ppu.r.cycle, 0);
}

#[test]
fn palette_lookup_gives_rgb() {
    // Entry $0F is black and entry $30 is the brightest white.
    assert_eq!(lookup(0x0F), [0, 0, 0]);
    assert_eq!(lookup(0x30), [236, 238, 236]);
    // Only six bits index the palette.
    assert_eq!(lookup(0x4F), lookup(0x0F));
}

#[test]
fn oam_dma_write_advances_address() {
    let mut ppu = Ppu::new();
    ppu.r.oam_addr = 0xFF;
    ppu.oam_dma_write(0x12);
    assert_eq!(ppu.oam[255], 0x12);
    assert_eq!(ppu.r.oam_addr, 0);
}

#[test]
fn at_most_eight_sprites_per_scanline_with_the_limit() {
    let mut ppu = Ppu::new();
    let mut mapper = nrom_mapper();
    for i in 0..64 {
        ppu.oam[4 * i] = if i < 10 { 0 } else { 0xF0 };
    }
    nes_rs::ppu::render::evaluate_sprites(&mut ppu, &mut mapper, 0);
    assert_eq!(ppu.r.sprite_count, 8);
    assert_eq!(ppu.r.status & 0x20, 0x20);

    let mut ppu = Ppu::new();
    ppu.set_sprite_limit(false);
    for i in 0..64 {
        ppu.oam[4 * i] = if i < 10 { 0 } else { 0xF0 };
    }
    nes_rs::ppu::render::evaluate_sprites(&mut ppu, &mut mapper, 0);
    assert_eq!(ppu.r.sprite_count, 10);
}

#[test]
fn unflipped_sprite_off_its_rows_fetches_past_the_tile() {
    let mut ppu = Ppu::new();
    let mut mapper = nrom_mapper();
    ppu.secondary_oam[0] = 0; // sprite Y
    ppu.secondary_oam[1] = 0; // tile
    ppu.secondary_oam[2] = 0; // no flip
    ppu.secondary_oam[3] = 5; // X
    ppu.r.sprite_count = 1;
    nes_rs::ppu::render::load_sprite_patterns(&mut ppu, &mut mapper, 16, 8);
    assert_eq!(ppu.sprite_patterns[0].pattern_lo, 0xC3);
    assert_eq!(ppu.sprite_patterns[0].pattern_hi, 0);
    assert_eq!(ppu.sprite_patterns[0].x, 5);
}

#[test]
fn vblank_without_nmi_enable_is_silent() {
    let mut ppu = Ppu::new();
    let mut mapper = nrom_mapper();
    let mut fb = Framebuffer::new();
    ppu.r.scanline = 241;
    ppu.r.cycle = 1;
    assert_eq!(ppu.tick(&mut mapper, &mut fb), TickOutput::Idle);
    assert_eq!(ppu.r.status & 0x80, 0x80);
}
