//! PPU address space — internal VRAM, palette, and mapper routing.
//!
//! | Range         | Device                              |
//! |---------------|-------------------------------------|
//! | $0000–$1FFF   | Pattern tables (via mapper CHR)     |
//! | $2000–$2FFF   | Nametables (internal VRAM, mirrored)|
//! | $3000–$3EFF   | Nametable mirrors                   |
//! | $3F00–$3FFF   | Palette RAM                         |

use vstd::prelude::*;
use super::{Ppu, PpuView};
use crate::bits::lemma_u16_masks;
use crate::cartridge::Mirroring;
use crate::mapper::{byte_at, Mapper, MapperView};

verus! {

/// Physical nametable page (0–3) that logical page `table` (0–3) shows.
pub open spec fn physical_table(table: int, mirroring: Mirroring) -> int {
    match mirroring {
        Mirroring::Horizontal => table / 2,
        Mirroring::Vertical => table % 2,
        Mirroring::FourScreen => table,
        Mirroring::SingleLow => 0,
        Mirroring::SingleHigh => 1,
    }
}

/// VRAM index of a nametable address ($2000–$3EFF).
pub open spec fn spec_mirror_nametable(addr: u16, mirroring: Mirroring) -> int {
    let a = (addr - 0x2000) % 0x1000;
    physical_table(a / 0x400, mirroring) * 0x400 + a % 0x400
}

/// Maps a nametable address ($2000–$2FFF and its mirrors) to a VRAM
/// index: four logical 1 KB pages map to the physical pages that the
/// mirroring mode selects.
pub fn mirror_nametable(addr: u16, mirroring: Mirroring) -> (i: usize)
    requires
        addr >= 0x2000,
    ensures
        i == spec_mirror_nametable(addr, mirroring),
        mirroring != Mirroring::FourScreen ==> i < 2048,
        i < 4096,
{
    proof {
        lemma_u16_masks();
    }
    let a = (addr - 0x2000) & 0x0FFF;
    let table = a / 0x0400;
    let offset = a % 0x0400;
    let physical: u16 = match mirroring {
        Mirroring::Horizontal => table / 2,
        Mirroring::Vertical => table % 2,
        Mirroring::FourScreen => table,
        Mirroring::SingleLow => 0,
        Mirroring::SingleHigh => 1,
    };
    (physical * 0x0400 + offset) as usize
}

/// Palette RAM index of a palette address ($3F00–$3FFF).
pub open spec fn spec_mirror_palette(addr: u16) -> int {
    let i = addr % 32;
    if i >= 16 && i % 4 == 0 {
        i - 16
    } else {
        i as int
    }
}

/// Maps a palette address ($3F00–$3FFF) to a palette RAM index (0–31).
///
/// Sprite palette entry 0 mirrors the background color:
/// $3F10→$3F00, $3F14→$3F04, $3F18→$3F08, $3F1C→$3F0C.
pub fn mirror_palette(addr: u16) -> (i: usize)
    ensures
        i == spec_mirror_palette(addr),
        i < 32,
{
    proof {
        lemma_u16_masks();
    }
    let mut index = (addr & 0x1F) as usize;
    if index >= 0x10 && index % 4 == 0 {
        index = index - 0x10;
    }
    index
}

impl PpuView {
    /// The byte a PPU read at `addr` returns.
    #[verifier::opaque]
    pub open spec fn read_value(self, m: MapperView, addr: u16) -> u8 {
        let a = addr % 0x4000;
        if a <= 0x1FFF {
            m.ppu_read_value(a as u16)
        } else if a <= 0x3EFF {
            byte_at(self.vram, spec_mirror_nametable(a as u16, m.mirroring_value()))
        } else {
            byte_at(self.palette, spec_mirror_palette(a as u16))
        }
    }

    /// The PPU after a write of `val` at `addr` (the mapper's CHR is
    /// changed separately, see [`mapper_after_ppu_write`]).
    #[verifier::opaque]
    pub open spec fn after_write(self, m: MapperView, addr: u16, val: u8) -> PpuView {
        let a = addr % 0x4000;
        if a <= 0x1FFF {
            self
        } else if a <= 0x3EFF {
            let i = spec_mirror_nametable(a as u16, m.mirroring_value());
            if i < 2048 {
                PpuView { vram: self.vram.update(i, val), ..self }
            } else {
                self
            }
        } else {
            PpuView { palette: self.palette.update(spec_mirror_palette(a as u16), val), ..self }
        }
    }
}

/// The mapper after the PPU reads `addr`.
#[verifier::opaque]
pub open spec fn mapper_after_ppu_read(m: MapperView, addr: u16) -> MapperView {
    let a = addr % 0x4000;
    if a <= 0x1FFF {
        m.after_ppu_read(a as u16)
    } else {
        m
    }
}

/// The mapper after the PPU writes `val` at `addr`.
#[verifier::opaque]
pub open spec fn mapper_after_ppu_write(m: MapperView, addr: u16, val: u8) -> MapperView {
    let a = addr % 0x4000;
    if a <= 0x1FFF {
        m.after_ppu_write(a as u16, val)
    } else {
        m
    }
}

impl Ppu {
    /// Reads a byte from the PPU address space.
    pub fn ppu_read(&self, addr: u16, mapper: &mut Mapper) -> (v: u8)
        requires
            self@.wf(),
            old(mapper)@.wf(),
        ensures
            v == self@.read_value(old(mapper)@, addr),
            final(mapper)@ == mapper_after_ppu_read(old(mapper)@, addr),
            final(mapper)@.wf(),
    {
        proof {
            lemma_u16_masks();
            reveal(PpuView::read_value);
            reveal(mapper_after_ppu_read);
        }
        let addr = addr & 0x3FFF;
        if addr <= 0x1FFF {
            mapper.ppu_read(addr)
        } else if addr <= 0x3EFF {
            let index = mirror_nametable(addr, mapper.mirroring());
            if index < self.vram.len() {
                self.vram[index]
            } else {
                0
            }
        } else {
            let index = mirror_palette(addr);
            self.palette[index]
        }
    }

    /// Writes a byte to the PPU address space.
    pub fn ppu_write(&mut self, addr: u16, val: u8, mapper: &mut Mapper)
        requires
            old(self)@.wf(),
            old(mapper)@.wf(),
        ensures
            final(self)@ == old(self)@.after_write(old(mapper)@, addr, val),
            final(self)@.r == old(self)@.r,
            final(mapper)@ == mapper_after_ppu_write(old(mapper)@, addr, val),
            final(self)@.wf(),
            final(mapper)@.wf(),
    {
        proof {
            lemma_u16_masks();
            reveal(PpuView::after_write);
            reveal(mapper_after_ppu_write);
        }
        let addr = addr & 0x3FFF;
        if addr <= 0x1FFF {
            mapper.ppu_write(addr, val);
        } else if addr <= 0x3EFF {
            let index = mirror_nametable(addr, mapper.mirroring());
            if index < self.vram.len() {
                self.vram.set(index, val);
            }
        } else {
            let index = mirror_palette(addr);
            self.palette.set(index, val);
        }
    }
}

/// With horizontal mirroring, logical nametables 0 and 1 share the
/// first physical page and 2 and 3 share the second; with vertical
/// mirroring, 0 and 2 share one page and 1 and 3 the other. Every
/// two-page mode stays inside the 2 KB of VRAM.
pub proof fn lemma_nametable_mirroring(offset: u16)
    requires
        offset < 0x400,
    ensures
        spec_mirror_nametable((0x2000 + offset) as u16, Mirroring::Horizontal)
            == spec_mirror_nametable((0x2400 + offset) as u16, Mirroring::Horizontal),
        spec_mirror_nametable((0x2800 + offset) as u16, Mirroring::Horizontal)
            == spec_mirror_nametable((0x2C00 + offset) as u16, Mirroring::Horizontal),
        spec_mirror_nametable((0x2000 + offset) as u16, Mirroring::Horizontal) == offset,
        spec_mirror_nametable((0x2800 + offset) as u16, Mirroring::Horizontal) == 0x400 + offset,
        spec_mirror_nametable((0x2000 + offset) as u16, Mirroring::Vertical)
            == spec_mirror_nametable((0x2800 + offset) as u16, Mirroring::Vertical),
        spec_mirror_nametable((0x2400 + offset) as u16, Mirroring::Vertical)
            == spec_mirror_nametable((0x2C00 + offset) as u16, Mirroring::Vertical),
        spec_mirror_nametable((0x2000 + offset) as u16, Mirroring::Vertical) == offset,
        spec_mirror_nametable((0x2400 + offset) as u16, Mirroring::Vertical) == 0x400 + offset,
{
}

/// The nametable region repeats every 4 KB: $3000–$3EFF shows $2000–$2EFF.
pub proof fn lemma_nametable_repeats(addr: u16, mirroring: Mirroring)
    requires
        0x2000 <= addr < 0x2F00,
    ensures
        spec_mirror_nametable((addr + 0x1000) as u16, mirroring) == spec_mirror_nametable(
            addr,
            mirroring,
        ),
{
}

/// Palette addresses repeat every 32 bytes, the sprite backdrop entries
/// ($3F10/$3F14/$3F18/$3F1C) show the background ones, and every other
/// entry is its own.
pub proof fn lemma_palette_mirroring(addr: u16)
    requires
        0x3F00 <= addr <= 0x3FFF,
    ensures
        spec_mirror_palette(addr) < 32,
        addr + 32 <= 0x3FFF ==> spec_mirror_palette((addr + 32) as u16) == spec_mirror_palette(
            addr,
        ),
        (addr % 32 >= 16 && addr % 4 == 0) ==> spec_mirror_palette(addr) == addr % 32 - 16,
        !(addr % 32 >= 16 && addr % 4 == 0) ==> spec_mirror_palette(addr) == addr % 32,
{
}

/// Where a PPU address keeps its byte under mirroring `m`:
/// `Some((false, i))` for VRAM index `i`, `Some((true, i))` for palette
/// index `i`, `None` for the pattern tables (the cartridge's CHR).
pub open spec fn storage_cell(m: Mirroring, addr: u16) -> Option<(bool, int)> {
    let a = addr % 0x4000;
    if a <= 0x1FFF {
        None
    } else if a <= 0x3EFF {
        Some((false, spec_mirror_nametable(a as u16, m)))
    } else {
        Some((true, spec_mirror_palette(a as u16)))
    }
}

/// The PPU and the mapper after the PPU writes `ws` (address, value), in order.
pub open spec fn after_writes(p: PpuView, m: MapperView, ws: Seq<(u16, u8)>) -> (PpuView, MapperView)
    decreases ws.len(),
{
    if ws.len() == 0 {
        (p, m)
    } else {
        let (p1, m1) = after_writes(p, m, ws.drop_last());
        let (a, v) = ws.last();
        (p1.after_write(m1, a, v), mapper_after_ppu_write(m1, a, v))
    }
}

/// The byte kept in a VRAM or palette cell.
pub open spec fn cell_value(p: PpuView, c: (bool, int)) -> u8 {
    if c.0 {
        byte_at(p.palette, c.1)
    } else {
        byte_at(p.vram, c.1)
    }
}

/// Under two-page mirroring every nametable address lands in the 2 KB of VRAM.
proof fn lemma_two_page_in_vram(m: Mirroring, addr: u16)
    requires
        m == Mirroring::Horizontal || m == Mirroring::Vertical,
        0x2000 <= addr <= 0x3EFF,
    ensures
        0 <= spec_mirror_nametable(addr, m) < 2048,
{
}

/// Writes to other cells leave a cell's byte, the memories' sizes and the
/// mirroring as they are.
proof fn lemma_other_writes_keep_cell(p: PpuView, m: MapperView, ws: Seq<(u16, u8)>, c: (bool, int))
    requires
        p.vram.len() == 2048,
        p.palette.len() == 32,
        forall|k: int| 0 <= k < ws.len() ==> storage_cell(m.mirroring_value(), #[trigger] ws[k].0) != Some(c),
    ensures
        after_writes(p, m, ws).1.mirroring_value() == m.mirroring_value(),
        after_writes(p, m, ws).0.vram.len() == 2048,
        after_writes(p, m, ws).0.palette.len() == 32,
        cell_value(after_writes(p, m, ws).0, c) == cell_value(p, c),
    decreases ws.len(),
{
    reveal(PpuView::after_write);
    reveal(mapper_after_ppu_write);
    reveal(MapperView::after_ppu_write);
    if ws.len() > 0 {
        let front = ws.drop_last();
        assert forall|k: int| 0 <= k < front.len() implies storage_cell(
            m.mirroring_value(),
            #[trigger] front[k].0,
        ) != Some(c) by {
            assert(front[k] == ws[k]);
        }
        lemma_other_writes_keep_cell(p, m, front, c);
        assert(storage_cell(m.mirroring_value(), ws[ws.len() - 1].0) != Some(c));
        lemma_u16_masks();
    }
}

/// Law: with horizontal or vertical mirroring, a byte written to a
/// nametable or palette address reads back from every address that
/// mirrors it ($2005 and $3005; $3F10 and $3F00; under horizontal
/// mirroring $2400 and $2000), whatever is written to other cells in
/// between.
pub proof fn lemma_read_after_write_through_mirrors(
    p: PpuView,
    m: MapperView,
    a: u16,
    val: u8,
    ws: Seq<(u16, u8)>,
    b: u16,
)
    requires
        p.wf(),
        m.mirroring_value() == Mirroring::Horizontal || m.mirroring_value() == Mirroring::Vertical,
        storage_cell(m.mirroring_value(), a) is Some,
        storage_cell(m.mirroring_value(), b) == storage_cell(m.mirroring_value(), a),
        forall|k: int|
            0 <= k < ws.len() ==> storage_cell(m.mirroring_value(), #[trigger] ws[k].0)
                != storage_cell(m.mirroring_value(), a),
    ensures
        after_writes(p.after_write(m, a, val), mapper_after_ppu_write(m, a, val), ws).0.read_value(
            after_writes(p.after_write(m, a, val), mapper_after_ppu_write(m, a, val), ws).1,
            b,
        ) == val,
{
    reveal(PpuView::after_write);
    reveal(PpuView::read_value);
    reveal(mapper_after_ppu_write);
    reveal(MapperView::after_ppu_write);
    let mir = m.mirroring_value();
    let c = storage_cell(mir, a)->0;
    let p0 = p.after_write(m, a, val);
    let m0 = mapper_after_ppu_write(m, a, val);
    let aa = (a % 0x4000) as u16;
    if !c.0 {
        lemma_two_page_in_vram(mir, aa);
    }
    assert(m0.mirroring_value() == mir);
    assert(cell_value(p0, c) == val);
    lemma_other_writes_keep_cell(p0, m0, ws, c);
    let bb = (b % 0x4000) as u16;
    if !c.0 {
        lemma_two_page_in_vram(mir, bb);
    }
}

} // verus!
