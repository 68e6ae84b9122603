//! The fixed 64-colour NES system palette.
//!
//! Palette RAM holds 6-bit indices into this table, not RGB values.

use vstd::prelude::*;

verus! {

/// RGB colour of system palette entry `i` (0–63); entries past 63 use `i & 0x3F`.
pub open spec fn spec_rgb(i: u8) -> (u8, u8, u8) {
    match i & 0x3F {
        0x0 => (84, 84, 84),
        0x1 => (0, 30, 116),
        0x2 => (8, 16, 144),
        0x3 => (48, 0, 136),
        0x4 => (68, 0, 100),
        0x5 => (92, 0, 48),
        0x6 => (84, 4, 0),
        0x7 => (60, 24, 0),
        0x8 => (32, 42, 0),
        0x9 => (8, 58, 0),
        0xa => (0, 64, 0),
        0xb => (0, 60, 0),
        0xc => (0, 50, 60),
        0xd => (0, 0, 0),
        0xe => (0, 0, 0),
        0xf => (0, 0, 0),
        0x10 => (152, 150, 152),
        0x11 => (8, 76, 196),
        0x12 => (48, 50, 236),
        0x13 => (92, 30, 228),
        0x14 => (136, 20, 176),
        0x15 => (160, 20, 100),
        0x16 => (152, 34, 32),
        0x17 => (120, 60, 0),
        0x18 => (84, 90, 0),
        0x19 => (40, 114, 0),
        0x1a => (8, 124, 0),
        0x1b => (0, 118, 40),
        0x1c => (0, 102, 120),
        0x1d => (0, 0, 0),
        0x1e => (0, 0, 0),
        0x1f => (0, 0, 0),
        0x20 => (236, 238, 236),
        0x21 => (76, 154, 236),
        0x22 => (120, 124, 236),
        0x23 => (176, 98, 236),
        0x24 => (228, 84, 236),
        0x25 => (236, 88, 180),
        0x26 => (236, 106, 100),
        0x27 => (212, 136, 32),
        0x28 => (160, 170, 0),
        0x29 => (116, 196, 0),
        0x2a => (76, 208, 32),
        0x2b => (56, 204, 108),
        0x2c => (56, 180, 204),
        0x2d => (60, 60, 60),
        0x2e => (0, 0, 0),
        0x2f => (0, 0, 0),
        0x30 => (236, 238, 236),
        0x31 => (168, 204, 236),
        0x32 => (188, 188, 236),
        0x33 => (212, 178, 236),
        0x34 => (236, 174, 236),
        0x35 => (236, 174, 212),
        0x36 => (236, 180, 176),
        0x37 => (228, 196, 144),
        0x38 => (204, 210, 120),
        0x39 => (180, 222, 120),
        0x3a => (168, 226, 144),
        0x3b => (152, 226, 180),
        0x3c => (160, 214, 228),
        0x3d => (160, 162, 160),
        0x3e => (0, 0, 0),
        _ => (0, 0, 0),
    }
}

/// RGB colour of system palette entry `i & 0x3F`.
fn rgb(i: u8) -> (c: (u8, u8, u8))
    ensures
        c == spec_rgb(i),
{
    match i & 0x3F {
        0x0 => (84, 84, 84),
        0x1 => (0, 30, 116),
        0x2 => (8, 16, 144),
        0x3 => (48, 0, 136),
        0x4 => (68, 0, 100),
        0x5 => (92, 0, 48),
        0x6 => (84, 4, 0),
        0x7 => (60, 24, 0),
        0x8 => (32, 42, 0),
        0x9 => (8, 58, 0),
        0xa => (0, 64, 0),
        0xb => (0, 60, 0),
        0xc => (0, 50, 60),
        0xd => (0, 0, 0),
        0xe => (0, 0, 0),
        0xf => (0, 0, 0),
        0x10 => (152, 150, 152),
        0x11 => (8, 76, 196),
        0x12 => (48, 50, 236),
        0x13 => (92, 30, 228),
        0x14 => (136, 20, 176),
        0x15 => (160, 20, 100),
        0x16 => (152, 34, 32),
        0x17 => (120, 60, 0),
        0x18 => (84, 90, 0),
        0x19 => (40, 114, 0),
        0x1a => (8, 124, 0),
        0x1b => (0, 118, 40),
        0x1c => (0, 102, 120),
        0x1d => (0, 0, 0),
        0x1e => (0, 0, 0),
        0x1f => (0, 0, 0),
        0x20 => (236, 238, 236),
        0x21 => (76, 154, 236),
        0x22 => (120, 124, 236),
        0x23 => (176, 98, 236),
        0x24 => (228, 84, 236),
        0x25 => (236, 88, 180),
        0x26 => (236, 106, 100),
        0x27 => (212, 136, 32),
        0x28 => (160, 170, 0),
        0x29 => (116, 196, 0),
        0x2a => (76, 208, 32),
        0x2b => (56, 204, 108),
        0x2c => (56, 180, 204),
        0x2d => (60, 60, 60),
        0x2e => (0, 0, 0),
        0x2f => (0, 0, 0),
        0x30 => (236, 238, 236),
        0x31 => (168, 204, 236),
        0x32 => (188, 188, 236),
        0x33 => (212, 178, 236),
        0x34 => (236, 174, 236),
        0x35 => (236, 174, 212),
        0x36 => (236, 180, 176),
        0x37 => (228, 196, 144),
        0x38 => (204, 210, 120),
        0x39 => (180, 222, 120),
        0x3a => (168, 226, 144),
        0x3b => (152, 226, 180),
        0x3c => (160, 214, 228),
        0x3d => (160, 162, 160),
        0x3e => (0, 0, 0),
        _ => (0, 0, 0),
    }
}

/// Looks up the RGB colour of a 6-bit system colour index.
pub fn lookup(color: u8) -> (rgb_out: [u8; 3])
    ensures
        rgb_out@ == seq![spec_rgb(color).0, spec_rgb(color).1, spec_rgb(color).2],
{
    let (r, g, b) = rgb(color);
    let out = [r, g, b];
    assert(out@ =~= seq![r, g, b]);
    out
}

} // verus!
