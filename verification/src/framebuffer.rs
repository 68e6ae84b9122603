//! RGBA framebuffer for the NES 256×240 display.

use vstd::prelude::*;

verus! {

/// NES screen width in pixels.
pub const WIDTH: usize = 256;

/// NES screen height in pixels.
pub const HEIGHT: usize = 240;

/// Bytes per pixel (RGBA).
pub const BYTES_PER_PIXEL: usize = 4;

/// Number of bytes in a frame.
pub const FRAME_BYTES: usize = 245_760;

/// RGBA framebuffer representing the NES screen.
///
/// Pixels are stored in row-major order as `[R, G, B, A]` tuples,
/// matching the layout expected by GPU texture uploads.
pub struct Framebuffer {
    pub pixels: Vec<u8>,
}

/// Byte offset of pixel (x, y).
pub open spec fn pixel_offset(x: int, y: int) -> int {
    (y * 256 + x) * 4
}

/// The frame after pixel (x, y) is set to `rgb` (alpha 255); pixels
/// outside the screen leave it unchanged.
pub open spec fn with_pixel(s: Seq<u8>, x: int, y: int, rgb: Seq<u8>) -> Seq<u8> {
    if 0 <= x < 256 && 0 <= y < 240 {
        let o = pixel_offset(x, y);
        s.update(o, rgb[0]).update(o + 1, rgb[1]).update(o + 2, rgb[2]).update(o + 3, 255u8)
    } else {
        s
    }
}

impl Framebuffer {
    /// The invariant: one RGBA quadruple per screen pixel.
    pub open spec fn wf(&self) -> bool {
        self.pixels@.len() == 245_760
    }

    /// Creates a new black framebuffer.
    pub fn new() -> (fb: Framebuffer)
        ensures
            fb.wf(),
            fb.pixels@ == Seq::new(245_760, |i: int| 0u8),
    {
        let pixels = vec![0u8; FRAME_BYTES];
        assert(pixels@ =~= Seq::new(245_760, |i: int| 0u8));
        Framebuffer { pixels }
    }

    /// Sets a single pixel to the given RGB color (alpha is always 255).
    ///
    /// Coordinates outside the screen bounds are silently ignored.
    pub fn set_pixel(&mut self, x: usize, y: usize, rgb: [u8; 3])
        requires
            old(self).wf(),
        ensures
            final(self).wf(),
            final(self).pixels@ == with_pixel(old(self).pixels@, x as int, y as int, rgb@),
    {
        if x >= WIDTH || y >= HEIGHT {
            return;
        }
        let offset = (y * WIDTH + x) * BYTES_PER_PIXEL;
        assert(offset + 3 < 245_760) by (nonlinear_arith)
            requires
                x < 256,
                y < 240,
                offset == (y * 256 + x) * 4,
        ;
        self.pixels.set(offset, rgb[0]);
        self.pixels.set(offset + 1, rgb[1]);
        self.pixels.set(offset + 2, rgb[2]);
        self.pixels.set(offset + 3, 255);
    }

    /// Returns the raw RGBA pixel data.
    pub fn as_bytes(&self) -> (s: &[u8])
        ensures
            s@ == self.pixels@,
    {
        self.pixels.as_slice()
    }

    /// Fills the entire framebuffer with black.
    pub fn clear(&mut self)
        requires
            old(self).wf(),
        ensures
            final(self).wf(),
            final(self).pixels@ == Seq::new(245_760, |i: int| 0u8),
    {
        let mut i: usize = 0;
        while i < FRAME_BYTES
            invariant
                self.pixels@.len() == 245_760,
                i <= 245_760,
                forall|j: int| 0 <= j < i ==> self.pixels@[j] == 0u8,
            decreases 245_760 - i,
        {
            self.pixels.set(i, 0);
            i = i + 1;
        }
        assert(self.pixels@ =~= Seq::new(245_760, |i: int| 0u8));
    }
}

impl Clone for Framebuffer {
    /// A copy of the frame.
    fn clone(&self) -> (fb: Framebuffer)
        ensures
            fb.pixels@ == self.pixels@,
    {
        let pixels = self.pixels.clone();
        assert(pixels@ =~= self.pixels@);
        Framebuffer { pixels }
    }
}

impl Default for Framebuffer {
    /// A black framebuffer.
    fn default() -> (fb: Framebuffer)
        ensures
            fb.wf(),
            fb.pixels@ == Seq::new(245_760, |i: int| 0u8),
    {
        Framebuffer::new()
    }
}

} // verus!
