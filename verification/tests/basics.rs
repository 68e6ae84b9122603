use nes_rs::controller::{Buttons, Controller, BUTTON_A, BUTTON_RIGHT, BUTTON_SELECT};
use nes_rs::framebuffer::{Framebuffer, FRAME_BYTES};
use nes_rs::region::Region;

#[test]
fn region_timings() {
    assert_eq!(Region::Ntsc.cpu_clock_hz(), 1_789_773);
    assert_eq!(Region::Pal.cpu_clock_hz(), 1_662_607);
    assert_eq!(Region::Ntsc.ppu_ratio(), (3, 1));
    assert_eq!(Region::Pal.ppu_ratio(), (16, 5));
    assert_eq!(Region::Ntsc.pre_render_line(), 261);
    assert_eq!(Region::Pal.pre_render_line(), 311);
    assert_eq!(Region::Ntsc.sequencer_step_cycles(), 7457);
    assert_eq!(Region::Pal.sequencer_step_cycles(), 8313);
    assert!(Region::Ntsc.has_odd_frame_skip());
    assert!(!Region::Pal.has_odd_frame_skip());
    assert_eq!(Region::Ntsc.fps(), 60);
    assert_eq!(Region::Pal.fps(), 50);
    assert_eq!(Region::Ntsc.name(), "NTSC");
    assert_eq!(Region::Pal.name(), "PAL");
    assert_eq!(Region::default_region(), Region::Ntsc);
}

#[test]
fn framebuffer_pixels_are_rgba_row_major() {
    let mut fb = Framebuffer::new();
    assert_eq!(fb.as_bytes().len(), FRAME_BYTES);
    fb.set_pixel(2, 1, [10, 20, 30]);
    let o = (256 + 2) * 4;
    assert_eq!(&fb.as_bytes()[o..o + 4], &[10, 20, 30, 255]);
    // Off-screen coordinates are ignored.
    fb.set_pixel(256, 0, [1, 1, 1]);
    fb.set_pixel(0, 240, [1, 1, 1]);
    assert_eq!(fb.as_bytes().iter().filter(|&&b| b != 0).count(), 4);
    fb.clear();
    assert!(fb.as_bytes().iter().all(|&b| b == 0));
}

#[test]
fn controller_reads_buttons_in_order_then_ones() {
    let mut c = Controller::new();
    c.set_buttons(Buttons::from_bits(BUTTON_SELECT | BUTTON_RIGHT));
    c.write(1);
    c.write(0);
    let bits: Vec<u8> = (0..8).map(|_| c.read()).collect();
    assert_eq!(bits, vec![0, 0, 1, 0, 0, 0, 0, 1]);
    assert_eq!(c.read(), 1);
}

#[test]
fn controller_in_strobe_reads_a_repeatedly() {
    let mut c = Controller::new();
    c.set_buttons(Buttons::from_bits(BUTTON_A));
    c.write(1);
    assert_eq!(c.read(), 1);
    assert_eq!(c.read(), 1);
}

#[test]
fn buttons_union_and_contains() {
    let a = Buttons::from_bits(BUTTON_A);
    let s = Buttons::from_bits(BUTTON_SELECT);
    let both = a.union(s);
    assert!(both.contains(a));
    assert!(!a.contains(both));
    assert_eq!(both.bits(), BUTTON_A | BUTTON_SELECT);
    assert_eq!(Buttons::empty().bits(), 0);
}
