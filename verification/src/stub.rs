//! Stub emulator for frontend testing.
//!
//! Renders an animated SMPTE-style color bar test pattern without a
//! CPU or PPU: 32-pixel-wide bars of eight colors that scroll one
//! pixel per frame, dimmed in the lower two thirds of the screen.

use vstd::prelude::*;
use crate::controller::Buttons;
use crate::framebuffer::{pixel_offset, with_pixel, Framebuffer, HEIGHT, WIDTH};
use crate::region::Region;

verus! {

/// The (red, green, blue) of color bar `i` (of eight): white, yellow,
/// cyan, green, magenta, red, blue, black.
pub open spec fn bar_rgb(i: int) -> (u8, u8, u8) {
    if i == 0 {
        (255, 255, 255)
    } else if i == 1 {
        (255, 255, 0)
    } else if i == 2 {
        (0, 255, 255)
    } else if i == 3 {
        (0, 255, 0)
    } else if i == 4 {
        (255, 0, 255)
    } else if i == 5 {
        (255, 0, 0)
    } else if i == 6 {
        (0, 0, 255)
    } else {
        (0, 0, 0)
    }
}

/// Brightness of row `y` out of 255: full in the top third, 192 in
/// the middle third, 128 in the bottom third.
pub open spec fn row_dim(y: int) -> int {
    if y > 160 {
        128
    } else if y > 80 {
        192
    } else {
        255
    }
}

/// A color channel scaled by the row's brightness.
pub open spec fn dimmed(c: u8, y: int) -> u8 {
    (c * row_dim(y) / 255) as u8
}

/// The color of pixel (x, y) in frame `shift`: bar ((x + shift) / 32)
/// mod 8, dimmed by row.
pub open spec fn pattern_rgb(x: int, y: int, shift: int) -> (u8, u8, u8) {
    let (r, g, b) = bar_rgb(((x + shift) / 32) % 8);
    (dimmed(r, y), dimmed(g, y), dimmed(b, y))
}

/// Whether pixel (x, y) of `s` shows the pattern of frame `shift`.
pub open spec fn shows_pattern(s: Seq<u8>, x: int, y: int, shift: int) -> bool {
    let o = pixel_offset(x, y);
    let (r, g, b) = pattern_rgb(x, y, shift);
    &&& s[o] == r
    &&& s[o + 1] == g
    &&& s[o + 2] == b
    &&& s[o + 3] == 255
}

/// Stub emulator that renders an animated test pattern.
pub struct StubEmulator {
    /// The rendered frame.
    pub fb: Framebuffer,
    /// Frames rendered so far (wrapping).
    pub frame_count: u32,
}

/// Pixels at different screen positions occupy different bytes.
proof fn lemma_offsets_apart(x1: int, y1: int, x2: int, y2: int)
    requires
        0 <= x1 < 256,
        0 <= y1 < 240,
        0 <= x2 < 256,
        0 <= y2 < 240,
        x1 != x2 || y1 != y2,
    ensures
        pixel_offset(x1, y1) + 4 <= pixel_offset(x2, y2) || pixel_offset(x2, y2) + 4
            <= pixel_offset(x1, y1),
{
    assert(pixel_offset(x1, y1) + 4 <= pixel_offset(x2, y2) || pixel_offset(x2, y2) + 4
        <= pixel_offset(x1, y1)) by (nonlinear_arith)
        requires
            0 <= x1 < 256,
            0 <= x2 < 256,
            x1 != x2 || y1 != y2,
            pixel_offset(x1, y1) == (y1 * 256 + x1) * 4,
            pixel_offset(x2, y2) == (y2 * 256 + x2) * 4,
    ;
}

/// A screen pixel's four bytes lie in the frame.
proof fn lemma_offset_in_frame(x: int, y: int)
    requires
        0 <= x < 256,
        0 <= y < 240,
    ensures
        0 <= pixel_offset(x, y) && pixel_offset(x, y) + 4 <= 245_760,
{
    assert(0 <= pixel_offset(x, y) && pixel_offset(x, y) + 4 <= 245_760) by (nonlinear_arith)
        requires
            0 <= x < 256,
            0 <= y < 240,
            pixel_offset(x, y) == (y * 256 + x) * 4,
    ;
}

/// The pattern color of pixel (x, y) in frame `shift`.
fn pattern_pixel(x: usize, y: usize, shift: u32) -> (rgb: [u8; 3])
    requires
        x < 256,
        y < 240,
    ensures
        ({
            let (r, g, b) = pattern_rgb(x as int, y as int, shift as int);
            rgb@ == seq![r, g, b]
        }),
{
    let col = ((x as u64 + shift as u64) / 32) % 8;
    let rgb: [u8; 3] = if col == 0 {
        [255, 255, 255]
    } else if col == 1 {
        [255, 255, 0]
    } else if col == 2 {
        [0, 255, 255]
    } else if col == 3 {
        [0, 255, 0]
    } else if col == 4 {
        [255, 0, 255]
    } else if col == 5 {
        [255, 0, 0]
    } else if col == 6 {
        [0, 0, 255]
    } else {
        [0, 0, 0]
    };
    let dim: u16 = if y > HEIGHT * 2 / 3 {
        128
    } else if y > HEIGHT / 3 {
        192
    } else {
        255
    };
    let out = [
        ((rgb[0] as u16) * dim / 255) as u8,
        ((rgb[1] as u16) * dim / 255) as u8,
        ((rgb[2] as u16) * dim / 255) as u8,
    ];
    assert(out@ =~= seq![out[0], out[1], out[2]]);
    out
}

impl StubEmulator {
    /// Creates a stub emulator with a black frame.
    pub fn new() -> (e: StubEmulator)
        ensures
            e.fb.wf(),
            e.fb.pixels@ == Seq::new(245_760, |i: int| 0u8),
            e.frame_count == 0,
    {
        StubEmulator { fb: Framebuffer::new(), frame_count: 0 }
    }

    /// Renders the next frame of the test pattern; the time step does
    /// not matter.
    pub fn update(&mut self)
        requires
            old(self).fb.wf(),
        ensures
            final(self).fb.wf(),
            forall|x: int, y: int|
                0 <= x < 256 && 0 <= y < 240 ==> shows_pattern(
                    final(self).fb.pixels@,
                    x,
                    y,
                    old(self).frame_count as int,
                ),
            final(self).frame_count == (if old(self).frame_count == u32::MAX {
                0
            } else {
                (old(self).frame_count + 1) as u32
            }),
    {
        let shift = self.frame_count;
        let mut y: usize = 0;
        while y < HEIGHT
            invariant
                y <= 240,
                self.fb.wf(),
                self.frame_count == shift,
                forall|xx: int, yy: int|
                    0 <= xx < 256 && 0 <= yy < y ==> shows_pattern(
                        self.fb.pixels@,
                        xx,
                        yy,
                        shift as int,
                    ),
            decreases 240 - y,
        {
            let mut x: usize = 0;
            while x < WIDTH
                invariant
                    x <= 256,
                    y < 240,
                    self.fb.wf(),
                    self.frame_count == shift,
                    forall|xx: int, yy: int|
                        0 <= xx < 256 && 0 <= yy < y ==> shows_pattern(
                            self.fb.pixels@,
                            xx,
                            yy,
                            shift as int,
                        ),
                    forall|xx: int|
                        0 <= xx < x ==> shows_pattern(self.fb.pixels@, xx, y as int, shift as int),
                decreases 256 - x,
            {
                let rgb = pattern_pixel(x, y, shift);
                let ghost before = self.fb.pixels@;
                self.fb.set_pixel(x, y, rgb);
                proof {
                    let after = self.fb.pixels@;
                    lemma_offset_in_frame(x as int, y as int);
                    assert(after == with_pixel(before, x as int, y as int, rgb@));
                    assert forall|xx: int, yy: int|
                        0 <= xx < 256 && 0 <= yy < 240 && (xx != x || yy != y) implies
                        #[trigger] shows_pattern(after, xx, yy, shift as int) == shows_pattern(
                            before,
                            xx,
                            yy,
                            shift as int,
                        ) by {
                        lemma_offsets_apart(x as int, y as int, xx, yy);
                        lemma_offsets_apart(xx, yy, x as int, y as int);
                    }
                    assert(shows_pattern(after, x as int, y as int, shift as int));
                }
                x = x + 1;
            }
            y = y + 1;
        }
        self.frame_count = self.frame_count.wrapping_add(1);
    }

    /// Returns the rendered frame.
    pub fn framebuffer(&self) -> (fb: &Framebuffer)
        ensures
            fb == &self.fb,
    {
        &self.fb
    }

    /// Controllers are ignored.
    pub fn set_buttons(&mut self, _player: u8, _buttons: Buttons)
        ensures
            *final(self) == *old(self),
    {
    }

    /// The stub always reports the default region.
    pub fn region(&self) -> (r: Region)
        ensures
            r == Region::Ntsc,
    {
        Region::default_region()
    }
}

impl Default for StubEmulator {
    /// A stub emulator with a black frame.
    fn default() -> (e: StubEmulator)
        ensures
            e.fb.wf(),
            e.fb.pixels@ == Seq::new(245_760, |i: int| 0u8),
            e.frame_count == 0,
    {
        StubEmulator::new()
    }
}

} // verus!
