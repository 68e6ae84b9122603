//! Per-cycle background and sprite rendering.
//!
//! Called from [`Ppu::tick`] for visible scanlines (0–239) and the
//! pre-render scanline. Handles background tile fetching, shift
//! register updates, sprite evaluation, and pixel output.

use vstd::prelude::*;
use super::{Ppu, PpuRegs, PpuView, SpriteRow};
use super::addr::mapper_after_ppu_read;
use super::palette::{lookup, spec_rgb};
use crate::bits::{lemma_u16_masks, lemma_u8_masks, reverse8, reverse_bits, wadd16, wsub16};
use crate::framebuffer::{with_pixel, Framebuffer};
use crate::mapper::{Mapper, MapperView};

verus! {

// ── Register transforms ──────────────────────────────────────────

/// 1 for `true`, 0 for `false`.
pub open spec fn bit(b: bool) -> u8 {
    if b {
        1
    } else {
        0
    }
}

/// Registers after the background shift registers shift by one.
pub open spec fn shifted(r: PpuRegs) -> PpuRegs {
    PpuRegs {
        bg_shift_lo: r.bg_shift_lo << 1u16,
        bg_shift_hi: r.bg_shift_hi << 1u16,
        at_shift_lo: (r.at_shift_lo << 1u8) | bit(r.at_latch_lo),
        at_shift_hi: (r.at_shift_hi << 1u8) | bit(r.at_latch_hi),
        ..r
    }
}

/// Registers after the fetched tile is loaded into the low halves of
/// the shift registers and the attribute latches.
pub open spec fn loaded(r: PpuRegs) -> PpuRegs {
    PpuRegs {
        bg_shift_lo: (r.bg_shift_lo & 0xFF00) | (r.pt_low as u16),
        bg_shift_hi: (r.bg_shift_hi & 0xFF00) | (r.pt_high as u16),
        at_latch_lo: r.at_byte & 0x01 != 0,
        at_latch_hi: r.at_byte & 0x02 != 0,
        ..r
    }
}

/// `v` after the coarse X scroll steps one tile (wrapping into the
/// horizontally adjacent nametable after column 31).
pub open spec fn inc_x(v: u16) -> u16 {
    if v & 0x001F == 31 {
        (v & 0xFFE0) ^ 0x0400
    } else {
        (v + 1) as u16
    }
}

/// `v` after the vertical scroll steps one pixel row: fine Y counts
/// to 7, then coarse Y steps; row 29 wraps into the vertically
/// adjacent nametable, row 31 wraps without switching.
pub open spec fn inc_y(v: u16) -> u16 {
    if v & 0x7000 == 0x7000 {
        let v1 = v & 0x8FFF;
        let coarse_y = (v1 & 0x03E0) >> 5u16;
        let (v2, cy) = if coarse_y == 29 {
            (v1 ^ 0x0800, 0u16)
        } else if coarse_y == 31 {
            (v1, 0u16)
        } else {
            (v1, (coarse_y + 1) as u16)
        };
        (v2 & 0xFC1F) | (cy << 5u16)
    } else {
        (v + 0x1000) as u16
    }
}

/// `v` with the horizontal scroll bits copied from `t`.
pub open spec fn copy_h(v: u16, t: u16) -> u16 {
    (v & 0xFBE0) | (t & 0x041F)
}

/// `v` with the vertical scroll bits copied from `t`.
pub open spec fn copy_v(v: u16, t: u16) -> u16 {
    (v & 0x841F) | (t & 0x7BE0)
}

/// Nametable address of the tile `v` points at.
pub open spec fn nt_addr(v: u16) -> u16 {
    0x2000 | (v & 0x0FFF)
}

/// Attribute-table address of the tile `v` points at.
pub open spec fn at_addr(v: u16) -> u16 {
    0x23C0 | (v & 0x0C00) | ((v >> 4u16) & 0x38) | ((v >> 2u16) & 0x07)
}

/// Which 2-bit field of the attribute byte the tile `v` points at uses.
pub open spec fn at_shift(v: u16) -> u16 {
    ((v >> 4u16) & 0x04) | (v & 0x02)
}

/// Pattern-table address of the low plane of the fetched tile's row.
pub open spec fn bg_pattern_row_addr(r: PpuRegs) -> u16 {
    (r.bg_pattern_addr() + (r.nt_byte as u16) * 16 + ((r.v >> 12u16) & 0x07)) as u16
}

/// One step of the background fetch pipeline: the PPU and mapper after it.
pub open spec fn fetch_bg_result(p: PpuView, m: MapperView) -> (PpuView, MapperView) {
    let r1 = shifted(p.r);
    let p1 = p.with_regs(r1);
    let phase = r1.cycle % 8;
    if phase == 1 {
        let r2 = loaded(r1);
        let p2 = p.with_regs(r2);
        let a = nt_addr(r2.v);
        (p.with_regs(PpuRegs { nt_byte: p2.read_value(m, a), ..r2 }), mapper_after_ppu_read(m, a))
    } else if phase == 3 {
        let a = at_addr(r1.v);
        let at = p1.read_value(m, a);
        (
            p.with_regs(PpuRegs { at_byte: (at >> (at_shift(r1.v) as u8)) & 0x03, ..r1 }),
            mapper_after_ppu_read(m, a),
        )
    } else if phase == 5 {
        let a = bg_pattern_row_addr(r1);
        (p.with_regs(PpuRegs { pt_low: p1.read_value(m, a), ..r1 }), mapper_after_ppu_read(m, a))
    } else if phase == 7 {
        let a = (bg_pattern_row_addr(r1) + 8) as u16;
        (p.with_regs(PpuRegs { pt_high: p1.read_value(m, a), ..r1 }), mapper_after_ppu_read(m, a))
    } else if phase == 0 {
        (p.with_regs(PpuRegs { v: inc_x(r1.v), ..r1 }), m)
    } else {
        (p1, m)
    }
}

// ── Pixels ───────────────────────────────────────────────────────

/// Background pixel at screen column `x`: 2-bit palette number and
/// 2-bit colour, 0 when transparent or hidden.
pub open spec fn bg_pixel_value(r: PpuRegs, x: u16) -> u8 {
    if !r.show_bg() || (x < 8 && !r.show_bg_left()) {
        0
    } else {
        let shift = (15 - r.fine_x) as u16;
        let lo = ((r.bg_shift_lo >> shift) & 1) as u8;
        let hi = ((r.bg_shift_hi >> shift) & 1) as u8;
        let pixel = (hi << 1u8) | lo;
        if pixel == 0 {
            0
        } else {
            let at_shift = (7 - r.fine_x) as u8;
            let at_lo = (r.at_shift_lo >> at_shift) & 1;
            let at_hi = (r.at_shift_hi >> at_shift) & 1;
            let palette_id = (at_hi << 1u8) | at_lo;
            (palette_id << 2u8) | pixel
        }
    }
}

/// First opaque sprite pixel at column `x` among sprites `i..count`:
/// colour index (palette 4–7), attribute byte, and whether it is sprite zero.
pub open spec fn sprite_pixel_from(p: PpuView, x: u16, i: int) -> (u8, u8, bool)
    decreases 64 - i,
{
    if i >= p.r.sprite_count || i >= 64 || i < 0 {
        (0, 0, false)
    } else {
        let sp = p.sprites[i];
        let offset = wsub16(x, sp.x as u16);
        if offset >= 8 {
            sprite_pixel_from(p, x, i + 1)
        } else {
            let shift = (7 - offset) as u8;
            let lo = (sp.pattern_lo >> shift) & 1;
            let hi = (sp.pattern_hi >> shift) & 1;
            let pixel = (hi << 1u8) | lo;
            if pixel == 0 {
                sprite_pixel_from(p, x, i + 1)
            } else {
                let palette_id = ((sp.attr & 0x03) + 4) as u8;
                ((palette_id << 2u8) | pixel, sp.attr, i == 0 && p.r.sprite_zero_current)
            }
        }
    }
}

/// Sprite pixel at column `x`, or transparent when sprites are hidden there.
pub open spec fn sprite_pixel_value(p: PpuView, x: u16) -> (u8, u8, bool) {
    if !p.r.show_sprites() || (x < 8 && !p.r.show_sprites_left()) {
        (0, 0, false)
    } else {
        sprite_pixel_from(p, x, 0)
    }
}

/// Palette index shown when background `bg` and sprite `sp` meet:
/// the backdrop when both are transparent, the opaque one when only
/// one is, and the background when the sprite's priority bit puts it behind.
pub open spec fn composed(bg: u8, sp: u8, sp_attr: u8) -> u8 {
    let bg_opaque = bg & 0x03 != 0;
    let sp_opaque = sp & 0x03 != 0;
    if !bg_opaque && !sp_opaque {
        0
    } else if !bg_opaque {
        sp
    } else if !sp_opaque {
        bg
    } else if sp_attr & 0x20 != 0 {
        bg
    } else {
        sp
    }
}

/// Status after composition: sprite-zero hit when sprite zero's
/// opaque pixel meets an opaque background pixel (not at dot 256).
pub open spec fn hit_status(r: PpuRegs, bg: u8, sp: u8, sp_is_zero: bool) -> u8 {
    if sp_is_zero && bg & 0x03 != 0 && sp & 0x03 != 0 && r.cycle != 256 {
        r.status | 0x40
    } else {
        r.status
    }
}

/// The PPU and frame after the pixel of the current dot is output.
pub open spec fn output_pixel_result(p: PpuView, fb: Seq<u8>) -> (PpuView, Seq<u8>) {
    let x = (p.r.cycle - 1) as u16;
    let bg = bg_pixel_value(p.r, x);
    let (sp, attr, zero) = sprite_pixel_value(p, x);
    let pal_index = composed(bg, sp, attr);
    let color = spec_rgb(p.palette[(pal_index & 0x1F) as int]);
    (
        p.with_regs(PpuRegs { status: hit_status(p.r, bg, sp, zero), ..p.r }),
        with_pixel(fb, x as int, p.r.scanline as int, seq![color.0, color.1, color.2]),
    )
}

// ── Sprite evaluation ────────────────────────────────────────────

/// Progress of sprite evaluation.
pub struct EvalState {
    pub count: u8,
    pub zero_next: bool,
    pub overflow: bool,
    pub secondary: Seq<u8>,
    pub done: bool,
}

/// Row of sprite `i`'s top edge that scanline `y` crosses (wrapping).
pub open spec fn sprite_row(oam: Seq<u8>, y: u16, i: int) -> u16 {
    wsub16(y, oam[4 * i] as u16)
}

/// Sprite evaluation from OAM entry `i` on: each sprite whose rows
/// include `y` is copied to the next free slot of secondary OAM; a
/// ninth such sprite sets the overflow flag and, with the limit on,
/// ends the search.
pub open spec fn eval_from(oam: Seq<u8>, y: u16, h: u16, limit: bool, i: int, st: EvalState) -> EvalState
    decreases 64 - i,
{
    if i >= 64 || i < 0 || st.done {
        st
    } else if sprite_row(oam, y, i) >= h {
        eval_from(oam, y, h, limit, i + 1, st)
    } else if st.count >= 8 && limit {
        EvalState { overflow: true, done: true, ..st }
    } else {
        let c = 4 * st.count;
        let sec = st.secondary.update(c, oam[4 * i]).update(c + 1, oam[4 * i + 1]).update(
            c + 2,
            oam[4 * i + 2],
        ).update(c + 3, oam[4 * i + 3]);
        eval_from(
            oam,
            y,
            h,
            limit,
            i + 1,
            EvalState {
                count: (st.count + 1) as u8,
                zero_next: if i == 0 { true } else { st.zero_next },
                overflow: if st.count >= 8 { true } else { st.overflow },
                secondary: sec,
                done: false,
            },
        )
    }
}

/// Evaluation of all 64 sprites for scanline `y`, starting from an
/// empty secondary OAM.
pub open spec fn evaluation(p: PpuView, y: u16) -> EvalState {
    eval_from(
        p.oam,
        y,
        p.r.sprite_height() as u16,
        p.r.sprite_limit,
        0,
        EvalState {
            count: 0,
            zero_next: false,
            overflow: false,
            secondary: Seq::new(256, |i: int| 0xFFu8),
            done: false,
        },
    )
}

/// Evaluation from a state with at most eight sprites, limit on, ends
/// with at most eight.
proof fn lemma_eval_limit(oam: Seq<u8>, y: u16, h: u16, i: int, st: EvalState)
    requires
        st.count <= 8,
    ensures
        eval_from(oam, y, h, true, i, st).count <= 8,
    decreases 64 - i,
{
    if !(i >= 64 || i < 0 || st.done) && sprite_row(oam, y, i) >= h {
        lemma_eval_limit(oam, y, h, i + 1, st);
    } else if !(i >= 64 || i < 0 || st.done) && st.count < 8 {
        let c = 4 * st.count;
        let sec = st.secondary.update(c, oam[4 * i]).update(c + 1, oam[4 * i + 1]).update(
            c + 2,
            oam[4 * i + 2],
        ).update(c + 3, oam[4 * i + 3]);
        lemma_eval_limit(
            oam,
            y,
            h,
            i + 1,
            EvalState {
                count: (st.count + 1) as u8,
                zero_next: if i == 0 { true } else { st.zero_next },
                overflow: if st.count >= 8 { true } else { st.overflow },
                secondary: sec,
                done: false,
            },
        );
    }
}

/// With the sprite limit on (the hardware's behaviour), at most eight
/// sprites are selected for a scanline.
pub proof fn lemma_sprite_limit(p: PpuView, y: u16)
    requires
        p.r.sprite_limit,
    ensures
        evaluation(p, y).count <= 8,
{
    lemma_eval_limit(
        p.oam,
        y,
        p.r.sprite_height() as u16,
        0,
        EvalState {
            count: 0,
            zero_next: false,
            overflow: false,
            secondary: Seq::new(256, |i: int| 0xFFu8),
            done: false,
        },
    );
}

/// Pattern row of a selected sprite: pattern address and flip handling.
/// The row is added to the tile's address in 16-bit arithmetic.
pub open spec fn sprite_fetch_addr(r: PpuRegs, sy: u8, tile: u8, attr: u8, scanline: u16, height: u16) -> u16 {
    let row0 = wsub16(scanline, sy as u16);
    let row = if attr & 0x80 != 0 { (height - 1 - row0) as u16 } else { row0 };
    if height == 16 {
        let bank = ((tile & 0x01) as u16) * 0x1000;
        let t = (tile & 0xFE) as u16;
        if row < 8 {
            wadd16((bank + t * 16) as u16, row)
        } else {
            wadd16((bank + (t + 1) * 16) as u16, (row - 8) as u16)
        }
    } else {
        wadd16((r.sprite_pattern_addr() + (tile as u16) * 16) as u16, row)
    }
}

/// Whether selected sprite `k` can be fetched on `scanline`: a
/// vertically flipped sprite must lie on it (its row is counted from
/// the bottom).
pub open spec fn fetchable(p: PpuView, scanline: u16, height: u16, k: int) -> bool {
    p.secondary_oam[4 * k + 2] & 0x80 != 0 ==> wsub16(scanline, p.secondary_oam[4 * k] as u16) < height
}

/// Pattern row of selected sprite `i` and the mapper after its two reads.
pub open spec fn sprite_row_fetch(p: PpuView, m: MapperView, scanline: u16, height: u16, i: int) -> (SpriteRow, MapperView) {
    let base = 4 * i;
    let sy = p.secondary_oam[base];
    let tile = p.secondary_oam[base + 1];
    let attr = p.secondary_oam[base + 2];
    let sx = p.secondary_oam[base + 3];
    let a = sprite_fetch_addr(p.r, sy, tile, attr, scanline, height);
    let lo0 = p.read_value(m, a);
    let m1 = mapper_after_ppu_read(m, a);
    let hi0 = p.read_value(m1, wadd16(a, 8));
    let m2 = mapper_after_ppu_read(m1, wadd16(a, 8));
    let (lo, hi) = if attr & 0x40 != 0 { (reverse8(lo0), reverse8(hi0)) } else { (lo0, hi0) };
    (SpriteRow { pattern_lo: lo, pattern_hi: hi, attr, x: sx }, m2)
}

/// Pattern fetch for selected sprites `i..count`: the sprite rows and
/// the mapper after the reads.
pub open spec fn load_from(p: PpuView, m: MapperView, scanline: u16, height: u16, i: int) -> (Seq<SpriteRow>, MapperView)
    decreases 64 - i,
{
    if i >= p.r.sprite_count || i >= 64 || i < 0 {
        (p.sprites, m)
    } else {
        let (row, m2) = sprite_row_fetch(p, m, scanline, height, i);
        load_from(
            PpuView { sprites: p.sprites.update(i, row), ..p },
            m2,
            scanline,
            height,
            i + 1,
        )
    }
}

/// The PPU and mapper after sprite evaluation for scanline `y`
/// followed by the pattern fetch of the selected sprites.
pub open spec fn evaluate_result(p: PpuView, m: MapperView, y: u16) -> (PpuView, MapperView) {
    let e = evaluation(p, y);
    let p1 = PpuView {
        secondary_oam: e.secondary,
        r: PpuRegs {
            sprite_count: e.count,
            sprite_zero_next: e.zero_next,
            status: if e.overflow { p.r.status | 0x20 } else { p.r.status },
            ..p.r
        },
        ..p
    };
    let (sprites, m2) = load_from(p1, m, y, p.r.sprite_height() as u16, 0);
    (PpuView { sprites, ..p1 }, m2)
}

// ── Executable rendering ─────────────────────────────────────────

/// Shifts the background and attribute shift registers by one.
pub fn shift_bg_registers(ppu: &mut Ppu)
    ensures
        final(ppu)@ == old(ppu)@.with_regs(shifted(old(ppu)@.r)),
{
    ppu.r.bg_shift_lo = ppu.r.bg_shift_lo << 1;
    ppu.r.bg_shift_hi = ppu.r.bg_shift_hi << 1;
    let lo: u8 = if ppu.r.at_latch_lo { 1 } else { 0 };
    let hi: u8 = if ppu.r.at_latch_hi { 1 } else { 0 };
    ppu.r.at_shift_lo = (ppu.r.at_shift_lo << 1) | lo;
    ppu.r.at_shift_hi = (ppu.r.at_shift_hi << 1) | hi;
}

/// Loads new tile data into the low 8 bits of the shift registers.
pub fn load_shift_registers(ppu: &mut Ppu)
    ensures
        final(ppu)@ == old(ppu)@.with_regs(loaded(old(ppu)@.r)),
{
    ppu.r.bg_shift_lo = (ppu.r.bg_shift_lo & 0xFF00) | (ppu.r.pt_low as u16);
    ppu.r.bg_shift_hi = (ppu.r.bg_shift_hi & 0xFF00) | (ppu.r.pt_high as u16);
    ppu.r.at_latch_lo = ppu.r.at_byte & 0x01 != 0;
    ppu.r.at_latch_hi = ppu.r.at_byte & 0x02 != 0;
}

/// Fetches the nametable byte of the tile `v` points at.
fn fetch_nametable(ppu: &mut Ppu, mapper: &mut Mapper)
    requires
        old(ppu)@.wf(),
        old(mapper)@.wf(),
    ensures
        final(ppu)@ == old(ppu)@.with_regs(
            PpuRegs { nt_byte: old(ppu)@.read_value(old(mapper)@, nt_addr(old(ppu)@.r.v)), ..old(ppu)@.r },
        ),
        final(mapper)@ == mapper_after_ppu_read(old(mapper)@, nt_addr(old(ppu)@.r.v)),
        final(mapper)@.wf(),
{
    let a = 0x2000 | (ppu.r.v & 0x0FFF);
    let b = ppu.ppu_read(a, mapper);
    ppu.r.nt_byte = b;
}

/// Fetches the attribute bits of the tile `v` points at.
fn fetch_attribute(ppu: &mut Ppu, mapper: &mut Mapper)
    requires
        old(ppu)@.wf(),
        old(mapper)@.wf(),
    ensures
        final(ppu)@ == old(ppu)@.with_regs(
            PpuRegs {
                at_byte: (old(ppu)@.read_value(old(mapper)@, at_addr(old(ppu)@.r.v)) >> (at_shift(
                    old(ppu)@.r.v,
                ) as u8)) & 0x03,
                ..old(ppu)@.r
            },
        ),
        final(mapper)@ == mapper_after_ppu_read(old(mapper)@, at_addr(old(ppu)@.r.v)),
        final(mapper)@.wf(),
{
    let v = ppu.r.v;
    let a = 0x23C0 | (v & 0x0C00) | ((v >> 4) & 0x38) | ((v >> 2) & 0x07);
    let at = ppu.ppu_read(a, mapper);
    let s16 = ((v >> 4) & 0x04) | (v & 0x02);
    assert(s16 <= 6) by (bit_vector)
        requires
            s16 == ((v >> 4u16) & 0x04) | (v & 0x02),
    ;
    let shift = s16 as u8;
    ppu.r.at_byte = (at >> shift) & 0x03;
}

/// Address of the low pattern plane of the fetched tile's row.
fn bg_row_addr(ppu: &Ppu) -> (a: u16)
    ensures
        a == bg_pattern_row_addr(ppu@.r),
        a as int + 8 <= 0xFFFF,
{
    let v = ppu.r.v;
    let fine_y = (v >> 12) & 0x07;
    assert(fine_y <= 7) by (bit_vector)
        requires
            fine_y == (v >> 12u16) & 0x07,
    ;
    let tile = ppu.r.nt_byte as u16;
    ppu.bg_pattern_addr() + tile * 16 + fine_y
}

/// One step of the 8-cycle background tile fetch pipeline.
pub fn fetch_bg_step(ppu: &mut Ppu, mapper: &mut Mapper)
    requires
        old(ppu)@.wf(),
        old(mapper)@.wf(),
    ensures
        (final(ppu)@, final(mapper)@) == fetch_bg_result(old(ppu)@, old(mapper)@),
        final(ppu)@.wf(),
        final(mapper)@.wf(),
{
    shift_bg_registers(ppu);
    let phase = ppu.r.cycle % 8;
    if phase == 1 {
        load_shift_registers(ppu);
        fetch_nametable(ppu, mapper);
    } else if phase == 3 {
        fetch_attribute(ppu, mapper);
    } else if phase == 5 {
        let a = bg_row_addr(ppu);
        let b = ppu.ppu_read(a, mapper);
        ppu.r.pt_low = b;
    } else if phase == 7 {
        let a = bg_row_addr(ppu) + 8;
        let b = ppu.ppu_read(a, mapper);
        ppu.r.pt_high = b;
    } else if phase == 0 {
        increment_x(ppu);
    }
}

/// Extracts the current background pixel (2-bit palette + 2-bit color).
pub fn bg_pixel(ppu: &Ppu, x: u16) -> (px: u8)
    requires
        ppu@.wf(),
    ensures
        px == bg_pixel_value(ppu@.r, x),
{
    if !ppu.show_bg() || (x < 8 && !ppu.show_bg_left()) {
        return 0;
    }
    let shift = (15 - ppu.r.fine_x) as u16;
    let lo = ((ppu.r.bg_shift_lo >> shift) & 1) as u8;
    let hi = ((ppu.r.bg_shift_hi >> shift) & 1) as u8;
    let pixel = (hi << 1) | lo;
    if pixel == 0 {
        return 0;
    }
    let at_shift = 7 - ppu.r.fine_x;
    let at_lo = (ppu.r.at_shift_lo >> at_shift) & 1;
    let at_hi = (ppu.r.at_shift_hi >> at_shift) & 1;
    let palette_id = (at_hi << 1) | at_lo;
    (palette_id << 2) | pixel
}

/// Finds the highest-priority (lowest-index) opaque sprite pixel at `x`.
pub fn sprite_pixel(ppu: &Ppu, x: u16) -> (r: (u8, u8, bool))
    requires
        ppu@.wf(),
    ensures
        r == sprite_pixel_value(ppu@, x),
{
    proof {
        lemma_u8_masks();
    }
    if !ppu.show_sprites() || (x < 8 && !ppu.show_sprites_left()) {
        return (0, 0, false);
    }
    let count = ppu.r.sprite_count as usize;
    let mut i: usize = 0;
    while i < count
        invariant
            ppu@.wf(),
            count == ppu@.r.sprite_count,
            ppu@.r.show_sprites(),
            x >= 8 || ppu@.r.show_sprites_left(),
            i <= count,
            sprite_pixel_from(ppu@, x, 0) == sprite_pixel_from(ppu@, x, i as int),
        decreases count - i,
    {
        proof {
            lemma_u8_masks();
        }
        let sp = ppu.sprite_patterns[i];
        let offset = x.wrapping_sub(sp.x as u16);
        if offset < 8 {
            let shift = 7 - (offset as u8);
            let lo = (sp.pattern_lo >> shift) & 1;
            let hi = (sp.pattern_hi >> shift) & 1;
            let pixel = (hi << 1) | lo;
            if pixel != 0 {
                let palette_id = (sp.attr & 0x03) + 4;
                let color = (palette_id << 2) | pixel;
                let is_zero = i == 0 && ppu.r.sprite_zero_current;
                assert(sprite_pixel_from(ppu@, x, i as int) == (color, sp.attr, is_zero));
                return (color, sp.attr, is_zero);
            }
        }
        i = i + 1;
    }
    (0, 0, false)
}

/// Composes the final pixel from BG and sprite, applying priority and
/// recording a sprite-zero hit.
pub fn compose_pixel(ppu: &mut Ppu, bg: u8, sp: u8, sp_attr: u8, sp_is_zero: bool) -> (px: u8)
    ensures
        px == composed(bg, sp, sp_attr),
        final(ppu)@ == old(ppu)@.with_regs(
            PpuRegs { status: hit_status(old(ppu)@.r, bg, sp, sp_is_zero), ..old(ppu)@.r },
        ),
{
    let bg_opaque = bg & 0x03 != 0;
    let sp_opaque = sp & 0x03 != 0;
    if sp_is_zero && bg_opaque && sp_opaque && ppu.r.cycle != 256 {
        ppu.r.status = ppu.r.status | 0x40;
    }
    if !bg_opaque && !sp_opaque {
        0
    } else if !bg_opaque {
        sp
    } else if !sp_opaque {
        bg
    } else if sp_attr & 0x20 != 0 {
        bg
    } else {
        sp
    }
}

/// Composes one pixel from BG + sprite data and writes it to the framebuffer.
pub fn output_pixel(ppu: &mut Ppu, fb: &mut Framebuffer)
    requires
        old(ppu)@.wf(),
        old(fb).wf(),
        old(ppu)@.r.cycle >= 1,
    ensures
        (final(ppu)@, final(fb).pixels@) == output_pixel_result(old(ppu)@, old(fb).pixels@),
        final(ppu)@.wf(),
        final(fb).wf(),
{
    let x = ppu.r.cycle - 1;
    let y = ppu.r.scanline;
    let bg = bg_pixel(ppu, x);
    let (sp, attr, zero) = sprite_pixel(ppu, x);
    let pal_index = compose_pixel(ppu, bg, sp, attr, zero);
    proof {
        lemma_u8_masks();
    }
    let system_color = ppu.palette[(pal_index & 0x1F) as usize];
    let color = lookup(system_color);
    fb.set_pixel(x as usize, y as usize, color);
}

/// Evaluates which sprites are visible on `target_scanline` and fetches
/// their pattern rows.
pub fn evaluate_sprites(ppu: &mut Ppu, mapper: &mut Mapper, target_scanline: u16)
    requires
        old(ppu)@.wf(),
        old(mapper)@.wf(),
    ensures
        (final(ppu)@, final(mapper)@) == evaluate_result(old(ppu)@, old(mapper)@, target_scanline),
        final(ppu)@.wf(),
        final(mapper)@.wf(),
{
    let height = ppu.sprite_height() as u16;
    let y = target_scanline;
    let limit = ppu.r.sprite_limit;
    let (count, zero_next, overflow, secondary) = scan_oam(&ppu.oam, y, height, limit);
    ppu.r.sprite_count = count;
    ppu.r.sprite_zero_next = zero_next;
    ppu.secondary_oam = secondary;
    if overflow {
        ppu.r.status = ppu.r.status | 0x20;
    }
    load_sprite_patterns(ppu, mapper, y, height);
}

/// Scans OAM for the sprites on scanline `y`: their number, whether
/// sprite zero is among them, whether more than eight were found, and
/// the secondary OAM holding them.
fn scan_oam(oam: &Vec<u8>, y: u16, height: u16, limit: bool) -> (r: (u8, bool, bool, Vec<u8>))
    requires
        oam@.len() == 256,
    ensures
        ({
            let e = eval_from(
                oam@,
                y,
                height,
                limit,
                0,
                EvalState {
                    count: 0,
                    zero_next: false,
                    overflow: false,
                    secondary: Seq::new(256, |i: int| 0xFFu8),
                    done: false,
                },
            );
            &&& r.0 == e.count
            &&& r.1 == e.zero_next
            &&& r.2 == e.overflow
            &&& r.3@ == e.secondary
        }),
        r.0 <= 64,
        r.3@.len() == 256,
        forall|k: int| 0 <= k < r.0 ==> wsub16(y, #[trigger] r.3@[4 * k] as u16) < height,
{
    let mut secondary = vec![0xFFu8; 256];
    assert(secondary@ =~= Seq::new(256, |i: int| 0xFFu8));
    let mut count: u8 = 0;
    let mut zero_next = false;
    let mut overflow = false;
    let ghost target = eval_from(
        oam@,
        y,
        height,
        limit,
        0,
        EvalState {
            count: 0,
            zero_next: false,
            overflow: false,
            secondary: secondary@,
            done: false,
        },
    );
    let mut i: usize = 0;
    while i < 64
        invariant_except_break
            i <= 64,
            oam@.len() == 256,
            secondary@.len() == 256,
            count <= i,
            forall|k: int| 0 <= k < count ==> wsub16(y, #[trigger] secondary@[4 * k] as u16) < height,
            eval_from(
                oam@,
                y,
                height,
                limit,
                i as int,
                EvalState { count, zero_next, overflow, secondary: secondary@, done: false },
            ) == target,
        ensures
            secondary@.len() == 256,
            count <= 64,
            forall|k: int| 0 <= k < count ==> wsub16(y, #[trigger] secondary@[4 * k] as u16) < height,
            target.count == count,
            target.zero_next == zero_next,
            target.overflow == overflow,
            target.secondary == secondary@,
        decreases 64 - i,
    {
        let base = i * 4;
        let sprite_y = oam[base];
        let row = y.wrapping_sub(sprite_y as u16);
        if row < height {
            if count >= 8 && limit {
                overflow = true;
                break;
            }
            if count >= 8 {
                overflow = true;
            }
            if i == 0 {
                zero_next = true;
            }
            let idx = (count as usize) * 4;
            let ghost old_sec = secondary@;
            secondary.set(idx, oam[base]);
            secondary.set(idx + 1, oam[base + 1]);
            secondary.set(idx + 2, oam[base + 2]);
            secondary.set(idx + 3, oam[base + 3]);
            assert forall|k: int| 0 <= k < count + 1 implies wsub16(y, #[trigger] secondary@[4 * k] as u16) < height by {
                if k < count {
                    assert(secondary@[4 * k] == old_sec[4 * k]);
                }
            }
            count = count + 1;
        }
        i = i + 1;
    }
    (count, zero_next, overflow, secondary)
}

/// Fetches the pattern row of selected sprite `i`.
fn fetch_sprite_row(ppu: &Ppu, mapper: &mut Mapper, scanline: u16, height: u16, i: usize) -> (row: SpriteRow)
    requires
        ppu@.wf(),
        old(mapper)@.wf(),
        height == 8 || height == 16,
        i < 64,
        fetchable(ppu@, scanline, height, i as int),
    ensures
        (row, final(mapper)@) == sprite_row_fetch(ppu@, old(mapper)@, scanline, height, i as int),
        final(mapper)@.wf(),
{
    let base = i * 4;
    let sprite_y = ppu.secondary_oam[base];
    let tile_idx = ppu.secondary_oam[base + 1];
    let attr = ppu.secondary_oam[base + 2];
    let sprite_x = ppu.secondary_oam[base + 3];
    let pattern_addr = sprite_pattern_address(ppu, sprite_y, tile_idx, attr, scanline, height);
    let mut lo = ppu.ppu_read(pattern_addr, mapper);
    let mut hi = ppu.ppu_read(pattern_addr.wrapping_add(8), mapper);
    if attr & 0x40 != 0 {
        lo = reverse_bits(lo);
        hi = reverse_bits(hi);
    }
    SpriteRow { pattern_lo: lo, pattern_hi: hi, attr, x: sprite_x }
}

/// Pattern address of a selected sprite's row on `scanline`.
fn sprite_pattern_address(ppu: &Ppu, sprite_y: u8, tile_idx: u8, attr: u8, scanline: u16, height: u16) -> (a: u16)
    requires
        height == 8 || height == 16,
        attr & 0x80 != 0 ==> wsub16(scanline, sprite_y as u16) < height,
    ensures
        a == sprite_fetch_addr(ppu@.r, sprite_y, tile_idx, attr, scanline, height),
{
    let mut row = scanline.wrapping_sub(sprite_y as u16);
    if attr & 0x80 != 0 {
        row = height - 1 - row;
    }
    if height == 16 {
        let b = tile_idx & 0x01;
        let t8 = tile_idx & 0xFE;
        assert(b <= 1 && t8 <= 0xFE) by (bit_vector)
            requires
                b == tile_idx & 0x01,
                t8 == tile_idx & 0xFE,
        ;
        let bank = (b as u16) * 0x1000;
        let tile = t8 as u16;
        if row < 8 {
            (bank + tile * 16).wrapping_add(row)
        } else {
            (bank + (tile + 1) * 16).wrapping_add(row - 8)
        }
    } else {
        (ppu.sprite_pattern_addr() + (tile_idx as u16) * 16).wrapping_add(row)
    }
}

/// Fetches pattern data for each sprite in secondary OAM, applying
/// vertical and horizontal flips.
pub fn load_sprite_patterns(ppu: &mut Ppu, mapper: &mut Mapper, scanline: u16, height: u16)
    requires
        old(ppu)@.wf(),
        old(mapper)@.wf(),
        height == 8 || height == 16,
        forall|k: int| 0 <= k < old(ppu)@.r.sprite_count ==> #[trigger] fetchable(old(ppu)@, scanline, height, k),
    ensures
        (final(ppu)@.sprites, final(mapper)@) == load_from(old(ppu)@, old(mapper)@, scanline, height, 0),
        final(ppu)@ == (PpuView { sprites: final(ppu)@.sprites, ..old(ppu)@ }),
        final(ppu)@.wf(),
        final(mapper)@.wf(),
{
    let ghost p0 = ppu@;
    let count = ppu.r.sprite_count as usize;
    let mut i: usize = 0;
    while i < count
        invariant
            i <= count,
            count == p0.r.sprite_count,
            p0.wf(),
            mapper@.wf(),
            height == 8 || height == 16,
            forall|k: int| 0 <= k < p0.r.sprite_count ==> #[trigger] fetchable(p0, scanline, height, k),
            ppu@ == (PpuView { sprites: ppu@.sprites, ..p0 }),
            ppu@.sprites.len() == 64,
            load_from(ppu@, mapper@, scanline, height, i as int) == load_from(p0, old(mapper)@, scanline, height, 0),
        decreases count - i,
    {
        assert(fetchable(p0, scanline, height, i as int));
        let row = fetch_sprite_row(ppu, mapper, scanline, height, i);
        ppu.sprite_patterns.set(i, row);
        i = i + 1;
    }
}

// ── Scroll helpers ───────────────────────────────────────────────

/// Increments the coarse X scroll in v.
pub fn increment_x(ppu: &mut Ppu)
    ensures
        final(ppu)@ == old(ppu)@.with_regs(PpuRegs { v: inc_x(old(ppu)@.r.v), ..old(ppu)@.r }),
{
    proof {
        lemma_u16_masks();
    }
    if (ppu.r.v & 0x001F) == 31 {
        ppu.r.v = (ppu.r.v & 0xFFE0) ^ 0x0400;
    } else {
        ppu.r.v = ppu.r.v + 1;
    }
}

/// Increments the Y scroll in v (fine Y, then coarse Y).
pub fn increment_y(ppu: &mut Ppu)
    ensures
        final(ppu)@ == old(ppu)@.with_regs(PpuRegs { v: inc_y(old(ppu)@.r.v), ..old(ppu)@.r }),
{
    proof {
        lemma_u16_masks();
    }
    if (ppu.r.v & 0x7000) == 0x7000 {
        let mut v = ppu.r.v & 0x8FFF;
        let mut coarse_y = (v & 0x03E0) >> 5;
        if coarse_y == 29 {
            coarse_y = 0;
            v = v ^ 0x0800;
        } else if coarse_y == 31 {
            coarse_y = 0;
        } else {
            coarse_y = coarse_y + 1;
        }
        ppu.r.v = (v & 0xFC1F) | (coarse_y << 5);
    } else {
        ppu.r.v = ppu.r.v + 0x1000;
    }
}

/// Copies horizontal scroll bits from t to v.
pub fn copy_horizontal(ppu: &mut Ppu)
    ensures
        final(ppu)@ == old(ppu)@.with_regs(PpuRegs { v: copy_h(old(ppu)@.r.v, old(ppu)@.r.t), ..old(ppu)@.r }),
{
    ppu.r.v = (ppu.r.v & 0xFBE0) | (ppu.r.t & 0x041F);
}

/// Copies vertical scroll bits from t to v.
pub fn copy_vertical(ppu: &mut Ppu)
    ensures
        final(ppu)@ == old(ppu)@.with_regs(PpuRegs { v: copy_v(old(ppu)@.r.v, old(ppu)@.r.t), ..old(ppu)@.r }),
{
    ppu.r.v = (ppu.r.v & 0x841F) | (ppu.r.t & 0x7BE0);
}

// ── Scanline drivers ─────────────────────────────────────────────

/// One dot of a visible scanline (0–239): the PPU, mapper and frame after it.
///
/// Dot 0 promotes the sprite-zero flag; with rendering enabled, dots
/// 1–256 output a pixel and fetch background data, dot 256 steps the
/// vertical scroll, dot 257 restores the horizontal scroll and
/// evaluates sprites, dot 260 clocks the mapper's scanline counter, and
/// dots 321–336 prefetch the next line's first two tiles.
pub open spec fn render_cycle_result(p: PpuView, m: MapperView, fb: Seq<u8>) -> (PpuView, MapperView, Seq<u8>) {
    let c = p.r.cycle;
    let p0 = if c == 0 {
        p.with_regs(PpuRegs { sprite_zero_current: p.r.sprite_zero_next, ..p.r })
    } else {
        p
    };
    if !p0.r.rendering_enabled() {
        (p0, m, fb)
    } else {
        let (p1, m1, fb1) = if 1 <= c && c <= 256 {
            let (pa, fba) = output_pixel_result(p0, fb);
            let (pb, mb) = fetch_bg_result(pa, m);
            (pb, mb, fba)
        } else {
            (p0, m, fb)
        };
        let p2 = if c == 256 { p1.with_regs(PpuRegs { v: inc_y(p1.r.v), ..p1.r }) } else { p1 };
        let (p3, m3) = if c == 257 {
            evaluate_result(p2.with_regs(PpuRegs { v: copy_h(p2.r.v, p2.r.t), ..p2.r }), m1, p2.r.scanline)
        } else {
            (p2, m1)
        };
        let m4 = if c == 260 { m3.after_scanline() } else { m3 };
        let (p5, m5) = if 321 <= c && c <= 336 { fetch_bg_result(p3, m4) } else { (p3, m4) };
        (p5, m5, fb1)
    }
}

/// One dot of the pre-render scanline: the PPU and mapper after it.
///
/// Dot 1 clears vblank, sprite-zero hit and overflow; with rendering
/// enabled the line fetches like a visible one without output, copies
/// the vertical scroll from t during dots 280–304, and on odd frames
/// with the odd-frame skip ends one dot early.
pub open spec fn pre_render_result(p: PpuView, m: MapperView) -> (PpuView, MapperView) {
    let c = p.r.cycle;
    let p0 = if c == 1 {
        p.with_regs(PpuRegs { status: p.r.status & 0x1F, nmi_occurred: false, ..p.r })
    } else {
        p
    };
    if !p0.r.rendering_enabled() {
        (p0, m)
    } else {
        let (p1, m1) = if 1 <= c && c <= 256 { fetch_bg_result(p0, m) } else { (p0, m) };
        let p2 = if c == 256 { p1.with_regs(PpuRegs { v: inc_y(p1.r.v), ..p1.r }) } else { p1 };
        let (p3, m3) = if c == 257 {
            evaluate_result(p2.with_regs(PpuRegs { v: copy_h(p2.r.v, p2.r.t), ..p2.r }), m1, p2.r.scanline)
        } else {
            (p2, m1)
        };
        let m4 = if c == 260 { m3.after_scanline() } else { m3 };
        let p5 = if 280 <= c && c <= 304 { p3.with_regs(PpuRegs { v: copy_v(p3.r.v, p3.r.t), ..p3.r }) } else { p3 };
        let (p6, m6) = if 321 <= c && c <= 336 { fetch_bg_result(p5, m4) } else { (p5, m4) };
        let p7 = if p6.r.odd_frame_skip && c == 339 && p6.r.odd_frame {
            p6.with_regs(PpuRegs { cycle: 340, ..p6.r })
        } else {
            p6
        };
        (p7, m6)
    }
}

/// Executes one cycle of a visible scanline (0–239).
pub fn render_cycle(ppu: &mut Ppu, mapper: &mut Mapper, fb: &mut Framebuffer)
    requires
        old(ppu)@.wf(),
        old(mapper)@.wf(),
        old(fb).wf(),
    ensures
        (final(ppu)@, final(mapper)@, final(fb).pixels@) == render_cycle_result(old(ppu)@, old(mapper)@, old(fb).pixels@),
        final(ppu)@.wf(),
        final(mapper)@.wf(),
        final(fb).wf(),
{
    let c = ppu.r.cycle;
    if c == 0 {
        ppu.r.sprite_zero_current = ppu.r.sprite_zero_next;
    }
    if ppu.rendering_enabled() {
        if c >= 1 && c <= 256 {
            output_pixel(ppu, fb);
            fetch_bg_step(ppu, mapper);
        }
        if c == 256 {
            increment_y(ppu);
        }
        if c == 257 {
            copy_horizontal(ppu);
            let line = ppu.r.scanline;
            evaluate_sprites(ppu, mapper, line);
        }
        if c == 260 {
            mapper.notify_scanline();
        }
        if c >= 321 && c <= 336 {
            fetch_bg_step(ppu, mapper);
        }
    }
}

/// Executes one cycle of the pre-render scanline.
#[verifier::rlimit(40)]
pub fn pre_render_cycle(ppu: &mut Ppu, mapper: &mut Mapper)
    requires
        old(ppu)@.wf(),
        old(mapper)@.wf(),
    ensures
        (final(ppu)@, final(mapper)@) == pre_render_result(old(ppu)@, old(mapper)@),
        final(ppu)@.wf(),
        final(mapper)@.wf(),
{
    let c = ppu.r.cycle;
    if c == 1 {
        ppu.r.status = ppu.r.status & 0x1F;
        ppu.r.nmi_occurred = false;
    }
    if ppu.rendering_enabled() {
        if c >= 1 && c <= 256 {
            fetch_bg_step(ppu, mapper);
        }
        if c == 256 {
            increment_y(ppu);
        }
        if c == 257 {
            copy_horizontal(ppu);
            let line = ppu.r.scanline;
            evaluate_sprites(ppu, mapper, line);
        }
        if c == 260 {
            mapper.notify_scanline();
        }
        if c >= 280 && c <= 304 {
            copy_vertical(ppu);
        }
        if c >= 321 && c <= 336 {
            fetch_bg_step(ppu, mapper);
        }
        if ppu.r.odd_frame_skip && c == 339 && ppu.r.odd_frame {
            ppu.r.cycle = 340;
        }
    }
}

/// Sprite priority: a transparent pixel (low two bits zero) never
/// covers an opaque one, two transparent pixels show the backdrop, and
/// where both are opaque the sprite is drawn in front of the background
/// exactly when bit 5 of its attribute byte is clear; toggling that bit
/// then swaps which of the two is shown.
pub proof fn lemma_sprite_priority(bg: u8, sp: u8, attr: u8)
    ensures
        (bg & 0x03 == 0 && sp & 0x03 == 0) ==> composed(bg, sp, attr) == 0,
        (bg & 0x03 != 0 && sp & 0x03 == 0) ==> composed(bg, sp, attr) == bg,
        (bg & 0x03 == 0 && sp & 0x03 != 0) ==> composed(bg, sp, attr) == sp,
        (bg & 0x03 != 0 && sp & 0x03 != 0 && attr & 0x20 == 0) ==> composed(bg, sp, attr) == sp,
        (bg & 0x03 != 0 && sp & 0x03 != 0 && attr & 0x20 != 0) ==> composed(bg, sp, attr) == bg,
        (bg & 0x03 != 0 && sp & 0x03 != 0) ==> composed(bg, sp, attr ^ 0x20) == if composed(
            bg,
            sp,
            attr,
        ) == sp && attr & 0x20 == 0 {
            bg
        } else {
            sp
        },
{
    assert(((attr ^ 0x20) & 0x20 != 0) == (attr & 0x20 == 0)) by (bit_vector);
}

/// The bit arithmetic of the scroll steps and tile addresses.
proof fn lemma_scroll_bits(v: u16, c: u16)
    by (bit_vector)
    requires
        v < 0x8000,
        c == ((v & 0x8FFF) & 0x03E0) >> 5u16,
    ensures
        c == v / 32 % 32,
        v & 0x7000 == 0x7000 <==> v / 4096 % 8 == 7,
        v % 32 < 31 ==> inc_x(v) == v + 1,
        v % 32 == 31 ==> inc_x(v) % 32 == 0 && inc_x(v) / 32 % 32 == v / 32 % 32 && inc_x(v) / 1024
            % 2 != v / 1024 % 2 && inc_x(v) / 2048 % 2 == v / 2048 % 2 && inc_x(v) / 4096 % 8 == v
            / 4096 % 8,
        v / 4096 % 8 < 7 ==> (v + 0x1000) as u16 == v + 4096,
        ({
            let w = (((v & 0x8FFF) ^ 0x0800) & 0xFC1F) | (0u16 << 5u16);
            &&& w / 4096 % 8 == 0 && w % 32 == v % 32 && w / 1024 % 2 == v / 1024 % 2
            &&& w / 32 % 32 == 0 && w / 2048 % 2 != v / 2048 % 2
        }),
        ({
            let w = ((v & 0x8FFF) & 0xFC1F) | (0u16 << 5u16);
            &&& w / 4096 % 8 == 0 && w % 32 == v % 32 && w / 1024 % 2 == v / 1024 % 2
            &&& w / 32 % 32 == 0 && w / 2048 % 2 == v / 2048 % 2
        }),
        c < 31 ==> ({
            let w = ((v & 0x8FFF) & 0xFC1F) | (((c + 1) as u16) << 5u16);
            &&& w / 4096 % 8 == 0 && w % 32 == v % 32 && w / 1024 % 2 == v / 1024 % 2
            &&& w / 32 % 32 == c + 1 && w / 2048 % 2 == v / 2048 % 2
        }),
        nt_addr(v) == 0x2000 + v % 4096,
        at_addr(v) == 0x23C0 + (v / 1024 % 2 + 2 * (v / 2048 % 2)) * 1024 + (v / 32 % 32 / 4) * 8
            + v % 32 / 4,
{
}

/// The scroll steps of the background fetch, over the fields of the
/// VRAM address (coarse X `v % 32`, coarse Y `v / 32 % 32`, the
/// nametable bits `v / 1024 % 2` and `v / 2048 % 2`, fine Y
/// `v / 4096 % 8`): the horizontal step moves
/// coarse X on by one, and from column 31 wraps to column 0 of the
/// horizontally adjacent nametable; the vertical step moves fine Y on
/// by one, and from fine Y 7 wraps to 0 and moves coarse Y on, row 29
/// wrapping to row 0 of the vertically adjacent nametable and row 31
/// wrapping to row 0 of the same one. Tiles are fetched from the
/// nametable byte the address points at and from the attribute byte of
/// its 4×4-tile block.
pub proof fn lemma_scroll_steps(v: u16)
    requires
        v < 0x8000,
    ensures
        v % 32 < 31 ==> inc_x(v) == v + 1,
        v % 32 == 31 ==> inc_x(v) % 32 == 0 && inc_x(v) / 32 % 32 == v / 32 % 32 && inc_x(v) / 1024
            % 2 != v / 1024 % 2 && inc_x(v) / 2048 % 2 == v / 2048 % 2 && inc_x(v) / 4096 % 8 == v
            / 4096 % 8,
        v / 4096 % 8 < 7 ==> inc_y(v) == v + 4096,
        v / 4096 % 8 == 7 ==> inc_y(v) / 4096 % 8 == 0 && inc_y(v) % 32 == v % 32 && inc_y(v) / 1024
            % 2 == v / 1024 % 2,
        (v / 4096 % 8 == 7 && v / 32 % 32 == 29) ==> inc_y(v) / 32 % 32 == 0 && inc_y(v) / 2048 % 2
            != v / 2048 % 2,
        (v / 4096 % 8 == 7 && v / 32 % 32 == 31) ==> inc_y(v) / 32 % 32 == 0 && inc_y(v) / 2048 % 2
            == v / 2048 % 2,
        (v / 4096 % 8 == 7 && v / 32 % 32 != 29 && v / 32 % 32 != 31) ==> inc_y(v) / 32 % 32 == v
            / 32 % 32 + 1 && inc_y(v) / 2048 % 2 == v / 2048 % 2,
        nt_addr(v) == 0x2000 + v % 4096,
        at_addr(v) == 0x23C0 + (v / 1024 % 2 + 2 * (v / 2048 % 2)) * 1024 + (v / 32 % 32 / 4) * 8
            + v % 32 / 4,
{
    let c = ((v & 0x8FFF) & 0x03E0) >> 5u16;
    lemma_scroll_bits(v, c);
    if v & 0x7000 == 0x7000 {
        if c == 29 {
            assert(inc_y(v) == (((v & 0x8FFF) ^ 0x0800) & 0xFC1F) | (0u16 << 5u16));
        } else if c == 31 {
            assert(inc_y(v) == ((v & 0x8FFF) & 0xFC1F) | (0u16 << 5u16));
        } else {
            assert(inc_y(v) == ((v & 0x8FFF) & 0xFC1F) | (((c + 1) as u16) << 5u16));
        }
    }
}

} // verus!
