//! Picture Processing Unit (2C02).
//!
//! The PPU renders the NES display at 256×240 pixels. It has its own
//! 16 KB address space for pattern tables, nametables, and palettes.
//! The CPU communicates with it through memory-mapped registers at
//! $2000–$2007.

use vstd::prelude::*;
use crate::bits::{wadd8, wadd16};
use crate::framebuffer::Framebuffer;
use crate::mapper::{Mapper, MapperView};
use crate::region::Region;

pub mod addr;
pub mod palette;
pub mod regs;
pub mod render;

verus! {

/// Signal produced by one PPU cycle.
#[derive(Debug, Clone, Copy, PartialEq, Eq, Structural)]
pub enum TickOutput {
    /// Nothing noteworthy happened this cycle.
    Idle,
    /// The PPU entered `VBlank` with NMI enabled — CPU should fire NMI.
    Nmi,
    /// A complete frame has been rendered and the framebuffer is ready.
    FrameReady,
}

/// Cached sprite data for one scanline position.
#[derive(Debug, Clone, Copy, PartialEq, Eq, Structural)]
pub struct SpriteRow {
    /// Low byte of pattern data.
    pub pattern_lo: u8,
    /// High byte of pattern data.
    pub pattern_hi: u8,
    /// Sprite attribute byte (palette, priority, flip).
    pub attr: u8,
    /// X position on screen.
    pub x: u8,
}

/// The PPU's registers, latches and counters.
#[derive(Debug, Clone, Copy, PartialEq, Eq, Structural)]
pub struct PpuRegs {
    /// Current scanline.
    pub scanline: u16,
    /// Current cycle within scanline (0–340).
    pub cycle: u16,
    /// Odd frame toggle (pre-render skips one cycle on odd frames).
    pub odd_frame: bool,
    /// $2000 PPUCTRL.
    pub ctrl: u8,
    /// $2001 PPUMASK.
    pub mask: u8,
    /// $2002 PPUSTATUS.
    pub status: u8,
    /// OAM address register ($2003).
    pub oam_addr: u8,
    /// Current VRAM address.
    pub v: u16,
    /// Temporary VRAM address.
    pub t: u16,
    /// Fine X scroll (3 bits).
    pub fine_x: u8,
    /// Write toggle (false = first write, true = second).
    pub w: bool,
    /// PPUDATA read buffer.
    pub read_buffer: u8,
    /// Pending nametable byte.
    pub nt_byte: u8,
    /// Pending attribute byte.
    pub at_byte: u8,
    /// Pending pattern table low byte.
    pub pt_low: u8,
    /// Pending pattern table high byte.
    pub pt_high: u8,
    /// Background pattern shift register (low plane).
    pub bg_shift_lo: u16,
    /// Background pattern shift register (high plane).
    pub bg_shift_hi: u16,
    /// Background attribute shift register (low bit).
    pub at_shift_lo: u8,
    /// Background attribute shift register (high bit).
    pub at_shift_hi: u8,
    /// Attribute latch for next tile (low bit).
    pub at_latch_lo: bool,
    /// Attribute latch for next tile (high bit).
    pub at_latch_hi: bool,
    /// Number of sprites found for the next scanline.
    pub sprite_count: u8,
    /// Sprite zero will be on the next scanline.
    pub sprite_zero_next: bool,
    /// Sprite zero is on the current scanline.
    pub sprite_zero_current: bool,
    /// When false, removes the 8-sprite-per-scanline hardware limit.
    pub sprite_limit: bool,
    /// `VBlank` NMI has fired this frame.
    pub nmi_occurred: bool,
    /// Last scanline of the frame (region dependent).
    pub pre_render_line: u16,
    /// Whether the pre-render line is one dot shorter on odd frames.
    pub odd_frame_skip: bool,
}

/// PPU state: registers, VRAM, OAM, palette and sprite buffers.
pub struct Ppu {
    /// Registers, latches and counters.
    pub r: PpuRegs,
    /// PPU-internal VRAM (2 KB nametable RAM).
    pub vram: Vec<u8>,
    /// Object Attribute Memory (256 bytes, 64 sprites × 4 bytes).
    pub oam: Vec<u8>,
    /// Palette RAM (32 bytes).
    pub palette: Vec<u8>,
    /// Secondary OAM (sprites selected for the next scanline).
    pub secondary_oam: Vec<u8>,
    /// Sprite pattern data for the current scanline.
    pub sprite_patterns: Vec<SpriteRow>,
}

/// Mathematical model of a [`Ppu`].
pub struct PpuView {
    pub r: PpuRegs,
    pub vram: Seq<u8>,
    pub oam: Seq<u8>,
    pub palette: Seq<u8>,
    pub secondary_oam: Seq<u8>,
    pub sprites: Seq<SpriteRow>,
}

impl Clone for Ppu {
    /// A copy of the registers and all PPU memories.
    fn clone(&self) -> (p: Ppu)
        ensures
            p@ == self@,
    {
        let vram = self.vram.clone();
        let oam = self.oam.clone();
        let palette = self.palette.clone();
        let secondary_oam = self.secondary_oam.clone();
        let sprite_patterns = self.sprite_patterns.clone();
        assert(vram@ =~= self.vram@);
        assert(oam@ =~= self.oam@);
        assert(palette@ =~= self.palette@);
        assert(secondary_oam@ =~= self.secondary_oam@);
        assert(sprite_patterns@ =~= self.sprite_patterns@);
        Ppu { r: self.r, vram, oam, palette, secondary_oam, sprite_patterns }
    }
}

impl View for Ppu {
    type V = PpuView;

    open spec fn view(&self) -> PpuView {
        PpuView {
            r: self.r,
            vram: self.vram@,
            oam: self.oam@,
            palette: self.palette@,
            secondary_oam: self.secondary_oam@,
            sprites: self.sprite_patterns@,
        }
    }
}

/// The power-on register state.
pub open spec fn initial_regs() -> PpuRegs {
    PpuRegs {
        scanline: 0,
        cycle: 0,
        odd_frame: false,
        ctrl: 0,
        mask: 0,
        status: 0,
        oam_addr: 0,
        v: 0,
        t: 0,
        fine_x: 0,
        w: false,
        read_buffer: 0,
        nt_byte: 0,
        at_byte: 0,
        pt_low: 0,
        pt_high: 0,
        bg_shift_lo: 0,
        bg_shift_hi: 0,
        at_shift_lo: 0,
        at_shift_hi: 0,
        at_latch_lo: false,
        at_latch_hi: false,
        sprite_count: 0,
        sprite_zero_next: false,
        sprite_zero_current: false,
        sprite_limit: true,
        nmi_occurred: false,
        pre_render_line: 261,
        odd_frame_skip: true,
    }
}

impl PpuRegs {
    /// Whether NMI is enabled (PPUCTRL bit 7).
    pub open spec fn nmi_enabled(self) -> bool {
        self.ctrl & 0x80 != 0
    }

    /// Sprite height: 8 or 16 pixels (PPUCTRL bit 5).
    pub open spec fn sprite_height(self) -> u8 {
        if self.ctrl & 0x20 != 0 {
            16
        } else {
            8
        }
    }

    /// Base address of the background pattern table (PPUCTRL bit 4).
    pub open spec fn bg_pattern_addr(self) -> u16 {
        if self.ctrl & 0x10 != 0 {
            0x1000
        } else {
            0
        }
    }

    /// Base address of the sprite pattern table (PPUCTRL bit 3).
    pub open spec fn sprite_pattern_addr(self) -> u16 {
        if self.ctrl & 0x08 != 0 {
            0x1000
        } else {
            0
        }
    }

    /// VRAM address increment per $2007 access (1 or 32).
    pub open spec fn vram_increment(self) -> u16 {
        if self.ctrl & 0x04 != 0 {
            32
        } else {
            1
        }
    }

    /// Whether any rendering is enabled (background or sprites).
    pub open spec fn rendering_enabled(self) -> bool {
        self.mask & 0x18 != 0
    }

    /// Whether background rendering is enabled (PPUMASK bit 3).
    pub open spec fn show_bg(self) -> bool {
        self.mask & 0x08 != 0
    }

    /// Whether sprite rendering is enabled (PPUMASK bit 4).
    pub open spec fn show_sprites(self) -> bool {
        self.mask & 0x10 != 0
    }

    /// Whether to show background in leftmost 8 pixels (PPUMASK bit 1).
    pub open spec fn show_bg_left(self) -> bool {
        self.mask & 0x02 != 0
    }

    /// Whether to show sprites in leftmost 8 pixels (PPUMASK bit 2).
    pub open spec fn show_sprites_left(self) -> bool {
        self.mask & 0x04 != 0
    }
}

impl PpuView {
    /// The invariant: memory sizes and register ranges.
    pub open spec fn wf(self) -> bool {
        &&& self.vram.len() == 2048
        &&& self.oam.len() == 256
        &&& self.palette.len() == 32
        &&& self.secondary_oam.len() == 256
        &&& self.sprites.len() == 64
        &&& self.r.fine_x < 8
        &&& self.r.cycle <= 340
        &&& self.r.scanline <= 311
        &&& (self.r.pre_render_line == 261 || self.r.pre_render_line == 311)
        &&& self.r.sprite_count <= 64
    }

    /// The PPU with its registers replaced.
    pub open spec fn with_regs(self, r: PpuRegs) -> PpuView {
        PpuView { r, ..self }
    }
}

/// The timing counters after one dot: the dot advances, a line ends
/// after dot 340, and the frame ends after the pre-render line, which
/// flips the odd-frame toggle and reports a finished frame.
pub open spec fn advance_regs(r: PpuRegs, out: TickOutput) -> (PpuRegs, TickOutput) {
    if r.cycle + 1 > 340 {
        if r.scanline + 1 > r.pre_render_line {
            (PpuRegs { cycle: 0, scanline: 0, odd_frame: !r.odd_frame, ..r }, TickOutput::FrameReady)
        } else {
            (PpuRegs { cycle: 0, scanline: (r.scanline + 1) as u16, ..r }, out)
        }
    } else {
        (PpuRegs { cycle: (r.cycle + 1) as u16, ..r }, out)
    }
}

/// The registers after the vertical-blank dot (scanline 241, dot 1),
/// and whether it signals an NMI.
pub open spec fn vblank_regs(r: PpuRegs) -> (PpuRegs, TickOutput) {
    if r.cycle == 1 {
        let r2 = PpuRegs { status: r.status | 0x80, nmi_occurred: true, ..r };
        (r2, if r.nmi_enabled() { TickOutput::Nmi } else { TickOutput::Idle })
    } else {
        (r, TickOutput::Idle)
    }
}

impl Ppu {
    /// Creates a PPU in its power-on state (NTSC timing).
    pub fn new() -> (p: Ppu)
        ensures
            p@.wf(),
            p@.r == initial_regs(),
            p@.vram == Seq::new(2048, |i: int| 0u8),
            p@.oam == Seq::new(256, |i: int| 0u8),
            p@.palette == Seq::new(32, |i: int| 0u8),
            p@.secondary_oam == Seq::new(256, |i: int| 0u8),
            p@.sprites == Seq::new(
                64,
                |i: int| SpriteRow { pattern_lo: 0, pattern_hi: 0, attr: 0, x: 0 },
            ),
    {
        let vram = vec![0u8; 2048];
        let oam = vec![0u8; 256];
        let palette = vec![0u8; 32];
        let secondary_oam = vec![0u8; 256];
        let sprite_patterns = vec![SpriteRow { pattern_lo: 0, pattern_hi: 0, attr: 0, x: 0 }; 64];
        assert(vram@ =~= Seq::new(2048, |i: int| 0u8));
        assert(oam@ =~= Seq::new(256, |i: int| 0u8));
        assert(palette@ =~= Seq::new(32, |i: int| 0u8));
        assert(secondary_oam@ =~= Seq::new(256, |i: int| 0u8));
        assert(sprite_patterns@ =~= Seq::new(
            64,
            |i: int| SpriteRow { pattern_lo: 0, pattern_hi: 0, attr: 0, x: 0 },
        ));
        Ppu {
            r: PpuRegs {
                scanline: 0,
                cycle: 0,
                odd_frame: false,
                ctrl: 0,
                mask: 0,
                status: 0,
                oam_addr: 0,
                v: 0,
                t: 0,
                fine_x: 0,
                w: false,
                read_buffer: 0,
                nt_byte: 0,
                at_byte: 0,
                pt_low: 0,
                pt_high: 0,
                bg_shift_lo: 0,
                bg_shift_hi: 0,
                at_shift_lo: 0,
                at_shift_hi: 0,
                at_latch_lo: false,
                at_latch_hi: false,
                sprite_count: 0,
                sprite_zero_next: false,
                sprite_zero_current: false,
                sprite_limit: true,
                nmi_occurred: false,
                pre_render_line: 261,
                odd_frame_skip: true,
            },
            vram,
            oam,
            palette,
            secondary_oam,
            sprite_patterns,
        }
    }

    /// Configures frame length and odd-frame skip for a TV region.
    pub fn set_region(&mut self, region: Region)
        requires
            old(self)@.wf(),
        ensures
            final(self)@ == old(self)@.with_regs(
                PpuRegs {
                    pre_render_line: region.spec_pre_render_line(),
                    odd_frame_skip: region == Region::Ntsc,
                    ..old(self)@.r
                },
            ),
            final(self)@.wf(),
    {
        self.r.pre_render_line = region.pre_render_line();
        self.r.odd_frame_skip = region.has_odd_frame_skip();
    }

    /// Enables or disables the 8-sprite-per-scanline limit.
    pub fn set_sprite_limit(&mut self, enabled: bool)
        ensures
            final(self)@ == old(self)@.with_regs(PpuRegs { sprite_limit: enabled, ..old(self)@.r }),
    {
        self.r.sprite_limit = enabled;
    }

    /// Whether NMI is enabled (PPUCTRL bit 7).
    pub fn nmi_enabled(&self) -> (b: bool)
        ensures
            b == self.r.nmi_enabled(),
    {
        self.r.ctrl & 0x80 != 0
    }

    /// Sprite height: 8 or 16 pixels (PPUCTRL bit 5).
    pub fn sprite_height(&self) -> (h: u8)
        ensures
            h == self.r.sprite_height(),
    {
        if self.r.ctrl & 0x20 != 0 {
            16
        } else {
            8
        }
    }

    /// Base address of the background pattern table (PPUCTRL bit 4).
    pub fn bg_pattern_addr(&self) -> (a: u16)
        ensures
            a == self.r.bg_pattern_addr(),
    {
        if self.r.ctrl & 0x10 != 0 {
            0x1000
        } else {
            0
        }
    }

    /// Base address of the sprite pattern table (PPUCTRL bit 3).
    pub fn sprite_pattern_addr(&self) -> (a: u16)
        ensures
            a == self.r.sprite_pattern_addr(),
    {
        if self.r.ctrl & 0x08 != 0 {
            0x1000
        } else {
            0
        }
    }

    /// VRAM address increment per $2007 access (1 or 32).
    pub fn vram_increment(&self) -> (i: u16)
        ensures
            i == self.r.vram_increment(),
    {
        if self.r.ctrl & 0x04 != 0 {
            32
        } else {
            1
        }
    }

    /// Whether any rendering is enabled (background or sprites).
    pub fn rendering_enabled(&self) -> (b: bool)
        ensures
            b == self.r.rendering_enabled(),
    {
        self.r.mask & 0x18 != 0
    }

    /// Whether background rendering is enabled (PPUMASK bit 3).
    pub fn show_bg(&self) -> (b: bool)
        ensures
            b == self.r.show_bg(),
    {
        self.r.mask & 0x08 != 0
    }

    /// Whether sprite rendering is enabled (PPUMASK bit 4).
    pub fn show_sprites(&self) -> (b: bool)
        ensures
            b == self.r.show_sprites(),
    {
        self.r.mask & 0x10 != 0
    }

    /// Whether to show background in leftmost 8 pixels (PPUMASK bit 1).
    pub fn show_bg_left(&self) -> (b: bool)
        ensures
            b == self.r.show_bg_left(),
    {
        self.r.mask & 0x02 != 0
    }

    /// Whether to show sprites in leftmost 8 pixels (PPUMASK bit 2).
    pub fn show_sprites_left(&self) -> (b: bool)
        ensures
            b == self.r.show_sprites_left(),
    {
        self.r.mask & 0x04 != 0
    }

    /// Writes one byte during OAM DMA and advances the OAM address.
    pub fn oam_dma_write(&mut self, val: u8)
        requires
            old(self)@.wf(),
        ensures
            final(self)@ == (PpuView {
                oam: old(self)@.oam.update(old(self)@.r.oam_addr as int, val),
                r: PpuRegs { oam_addr: wadd8(old(self)@.r.oam_addr, 1), ..old(self)@.r },
                ..old(self)@
            }),
            final(self)@.wf(),
    {
        let a = self.r.oam_addr as usize;
        self.oam.set(a, val);
        self.r.oam_addr = self.r.oam_addr.wrapping_add(1);
    }

    /// Advances cycle/scanline counters, handling line and frame wraparound.
    pub fn advance_cycle(&mut self, output: &mut TickOutput)
        requires
            old(self)@.wf(),
        ensures
            (final(self)@.r, *final(output)) == advance_regs(old(self)@.r, *old(output)),
            final(self)@ == old(self)@.with_regs(final(self)@.r),
            final(self)@.wf(),
    {
        self.r.cycle = self.r.cycle + 1;
        if self.r.cycle > 340 {
            self.r.cycle = 0;
            self.r.scanline = self.r.scanline + 1;
            if self.r.scanline > self.r.pre_render_line {
                self.r.scanline = 0;
                self.r.odd_frame = !self.r.odd_frame;
                *output = TickOutput::FrameReady;
            }
        }
    }
}

/// One PPU dot: the signal, and the PPU, mapper and frame after it.
///
/// Visible lines (0–239) render, line 241 dot 1 sets vblank (and
/// signals NMI when enabled), the pre-render line prepares the next
/// frame, other lines idle; then the dot counters advance, and the
/// end of the pre-render line signals a finished frame.
pub open spec fn tick_result(p: PpuView, m: MapperView, fb: Seq<u8>) -> (TickOutput, PpuView, MapperView, Seq<u8>) {
    let (p1, m1, fb1, out) = if p.r.scanline <= 239 {
        let (a, b, c) = render::render_cycle_result(p, m, fb);
        (a, b, c, TickOutput::Idle)
    } else if p.r.scanline == 241 {
        let (r, o) = vblank_regs(p.r);
        (p.with_regs(r), m, fb, o)
    } else if p.r.scanline == p.r.pre_render_line {
        let (a, b) = render::pre_render_result(p, m);
        (a, b, fb, TickOutput::Idle)
    } else {
        (p, m, fb, TickOutput::Idle)
    };
    let (r2, out2) = advance_regs(p1.r, out);
    (out2, p1.with_regs(r2), m1, fb1)
}

impl Ppu {
    /// Advances the PPU by one dot and reports NMI or a finished frame.
    pub fn tick(&mut self, mapper: &mut Mapper, fb: &mut Framebuffer) -> (out: TickOutput)
        requires
            old(self)@.wf(),
            old(mapper)@.wf(),
            old(fb).wf(),
        ensures
            (out, final(self)@, final(mapper)@, final(fb).pixels@) == tick_result(
                old(self)@,
                old(mapper)@,
                old(fb).pixels@,
            ),
            final(self)@.wf(),
            final(mapper)@.wf(),
            final(fb).wf(),
    {
        let mut output = TickOutput::Idle;
        if self.r.scanline <= 239 {
            render::render_cycle(self, mapper, fb);
        } else if self.r.scanline == 241 {
            if self.r.cycle == 1 {
                self.r.status = self.r.status | 0x80;
                self.r.nmi_occurred = true;
                if self.nmi_enabled() {
                    output = TickOutput::Nmi;
                }
            }
        } else if self.r.scanline == self.r.pre_render_line {
            render::pre_render_cycle(self, mapper);
        }
        self.advance_cycle(&mut output);
        output
    }
}

/// Vertical blank starts at scanline 241, dot 1: the status flag is
/// set, and an NMI is signalled exactly when PPUCTRL enables it.
pub proof fn lemma_vblank_nmi(p: PpuView, m: MapperView, fb: Seq<u8>)
    requires
        p.wf(),
        p.r.scanline == 241,
        p.r.cycle == 1,
    ensures
        ({
            let (out, p2, _, _) = tick_result(p, m, fb);
            &&& p2.r.status & 0x80 != 0
            &&& p2.r.nmi_occurred
            &&& (out == TickOutput::Nmi) == p.r.nmi_enabled()
        }),
{
    let s = p.r.status;
    assert((s | 0x80) & 0x80 != 0) by (bit_vector);
}

} // verus!
