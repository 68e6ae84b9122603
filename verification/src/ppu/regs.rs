//! CPU-facing PPU register I/O ($2000–$2007).
//!
//! The CPU accesses the PPU through 8 memory-mapped registers.
//! Several registers use a shared write toggle (`w`) for
//! double-write sequences (PPUSCROLL, PPUADDR).

use vstd::prelude::*;
use crate::bits::{wadd8, wadd16};
use super::{Ppu, PpuRegs, PpuView};
use super::addr::{mapper_after_ppu_read, mapper_after_ppu_write};
use crate::mapper::{byte_at, Mapper, MapperView};

verus! {

/// Registers after PPUSCROLL ($2005) receives `val`.
pub open spec fn scroll_regs(r: PpuRegs, val: u8) -> PpuRegs {
    if r.w {
        PpuRegs {
            t: (r.t & 0x8C1F) | (((val & 0x07) as u16) << 12u16) | (((val >> 3u8) as u16) << 5u16),
            w: false,
            ..r
        }
    } else {
        PpuRegs { t: (r.t & 0xFFE0) | ((val >> 3u8) as u16), fine_x: val & 0x07, w: true, ..r }
    }
}

/// Registers after PPUADDR ($2006) receives `val`.
pub open spec fn addr_regs(r: PpuRegs, val: u8) -> PpuRegs {
    if r.w {
        let t = (r.t & 0xFF00) | (val as u16);
        PpuRegs { t, v: t, w: false, ..r }
    } else {
        PpuRegs { t: (r.t & 0x00FF) | (((val & 0x3F) as u16) << 8u16), w: true, ..r }
    }
}

/// The PPUDATA ($2007) read: the value returned, the PPU after it and the mapper after it.
///
/// Non-palette reads return the buffer and refill it from the address;
/// palette reads return the palette byte directly and refill the buffer
/// from the nametable byte 4 KB below.
pub open spec fn read_ppudata_result(p: PpuView, m: MapperView) -> (u8, PpuView, MapperView) {
    let addr = p.r.v;
    let raw = p.read_value(m, addr);
    let m1 = mapper_after_ppu_read(m, addr);
    let v = wadd16(addr, p.r.vram_increment());
    if addr % 0x4000 >= 0x3F00 {
        let below = (addr - 0x1000) as u16;
        let buf = p.read_value(m1, below);
        (raw, p.with_regs(PpuRegs { read_buffer: buf, v, ..p.r }), mapper_after_ppu_read(m1, below))
    } else {
        (p.r.read_buffer, p.with_regs(PpuRegs { read_buffer: raw, v, ..p.r }), m1)
    }
}

/// A CPU read of PPU register `reg` (0–7): the value, the PPU after it
/// and the mapper after it.
pub open spec fn cpu_read_result(p: PpuView, m: MapperView, reg: u8) -> (u8, PpuView, MapperView) {
    if reg == 2 {
        (
            (p.r.status & 0xE0) | (p.r.read_buffer & 0x1F),
            p.with_regs(PpuRegs { status: p.r.status & 0x7F, w: false, ..p.r }),
            m,
        )
    } else if reg == 4 {
        (byte_at(p.oam, p.r.oam_addr as int), p, m)
    } else if reg == 7 {
        read_ppudata_result(p, m)
    } else {
        (0, p, m)
    }
}

/// A CPU write of `val` to PPU register `reg` (0–7): the PPU after it
/// and the mapper after it.
pub open spec fn cpu_write_result(p: PpuView, m: MapperView, reg: u8, val: u8) -> (PpuView, MapperView) {
    let r = p.r;
    if reg == 0 {
        (p.with_regs(PpuRegs { ctrl: val, t: (r.t & 0xF3FF) | (((val & 0x03) as u16) << 10u16), ..r }), m)
    } else if reg == 1 {
        (p.with_regs(PpuRegs { mask: val, ..r }), m)
    } else if reg == 3 {
        (p.with_regs(PpuRegs { oam_addr: val, ..r }), m)
    } else if reg == 4 {
        (
            PpuView {
                oam: p.oam.update(r.oam_addr as int, val),
                r: PpuRegs { oam_addr: wadd8(r.oam_addr, 1), ..r },
                ..p
            },
            m,
        )
    } else if reg == 5 {
        (p.with_regs(scroll_regs(r, val)), m)
    } else if reg == 6 {
        (p.with_regs(addr_regs(r, val)), m)
    } else if reg == 7 {
        let p2 = p.after_write(m, r.v, val);
        (
            p2.with_regs(PpuRegs { v: wadd16(r.v, r.vram_increment()), ..p2.r }),
            mapper_after_ppu_write(m, r.v, val),
        )
    } else {
        (p, m)
    }
}

impl Ppu {
    /// Handles a CPU read from a PPU register.
    ///
    /// `reg` is the register offset (0–7, i.e., address & 0x07). Reading
    /// PPUSTATUS clears the vblank flag and the write toggle; reading
    /// PPUDATA goes through the read buffer.
    pub fn cpu_read(&mut self, reg: u8, mapper: &mut Mapper) -> (v: u8)
        requires
            old(self)@.wf(),
            old(mapper)@.wf(),
        ensures
            (v, final(self)@, final(mapper)@) == cpu_read_result(old(self)@, old(mapper)@, reg),
            final(self)@.wf(),
            final(mapper)@.wf(),
    {
        if reg == 2 {
            let val = (self.r.status & 0xE0) | (self.r.read_buffer & 0x1F);
            self.r.status = self.r.status & 0x7F;
            self.r.w = false;
            val
        } else if reg == 4 {
            let a = self.r.oam_addr as usize;
            self.oam[a]
        } else if reg == 7 {
            self.read_ppudata(mapper)
        } else {
            0
        }
    }

    /// Handles a CPU write to a PPU register.
    ///
    /// `reg` is the register offset (0–7, i.e., address & 0x07).
    #[verifier::rlimit(50)]
    pub fn cpu_write(&mut self, reg: u8, val: u8, mapper: &mut Mapper)
        requires
            old(self)@.wf(),
            old(mapper)@.wf(),
        ensures
            (final(self)@, final(mapper)@) == cpu_write_result(old(self)@, old(mapper)@, reg, val),
            final(self)@.wf(),
            final(mapper)@.wf(),
    {
        if reg == 0 {
            self.r.ctrl = val;
            self.r.t = (self.r.t & 0xF3FF) | (((val & 0x03) as u16) << 10);
        } else if reg == 1 {
            self.r.mask = val;
        } else if reg == 3 {
            self.r.oam_addr = val;
        } else if reg == 4 {
            let a = self.r.oam_addr as usize;
            self.oam.set(a, val);
            self.r.oam_addr = self.r.oam_addr.wrapping_add(1);
        } else if reg == 5 {
            self.write_scroll(val);
        } else if reg == 6 {
            self.write_addr(val);
        } else if reg == 7 {
            self.write_ppudata(val, mapper);
        }
    }

    /// Handles PPUDATA ($2007) reads with buffering.
    pub fn read_ppudata(&mut self, mapper: &mut Mapper) -> (v: u8)
        requires
            old(self)@.wf(),
            old(mapper)@.wf(),
        ensures
            (v, final(self)@, final(mapper)@) == read_ppudata_result(old(self)@, old(mapper)@),
            final(self)@.wf(),
            final(mapper)@.wf(),
    {
        proof {
            crate::bits::lemma_u16_masks();
        }
        let addr = self.r.v;
        let raw = self.ppu_read(addr, mapper);
        let inc = self.vram_increment();
        let result = if (addr & 0x3FFF) >= 0x3F00 {
            let buf = self.ppu_read(addr - 0x1000, mapper);
            self.r.read_buffer = buf;
            raw
        } else {
            let buffered = self.r.read_buffer;
            self.r.read_buffer = raw;
            buffered
        };
        self.r.v = self.r.v.wrapping_add(inc);
        result
    }

    /// Handles PPUDATA ($2007) writes.
    pub fn write_ppudata(&mut self, val: u8, mapper: &mut Mapper)
        requires
            old(self)@.wf(),
            old(mapper)@.wf(),
        ensures
            (final(self)@, final(mapper)@) == cpu_write_result(old(self)@, old(mapper)@, 7, val),
            final(self)@.wf(),
            final(mapper)@.wf(),
    {
        let addr = self.r.v;
        let inc = self.vram_increment();
        self.ppu_write(addr, val, mapper);
        self.r.v = self.r.v.wrapping_add(inc);
    }

    /// Handles PPUSCROLL ($2005) double-write: coarse/fine X first,
    /// coarse/fine Y second.
    pub fn write_scroll(&mut self, val: u8)
        requires
            old(self)@.wf(),
        ensures
            final(self)@ == old(self)@.with_regs(scroll_regs(old(self)@.r, val)),
            final(self)@.wf(),
    {
        proof {
            crate::bits::lemma_u8_masks();
        }
        if self.r.w {
            self.r.t = (self.r.t & 0x8C1F) | (((val & 0x07) as u16) << 12) | (((val >> 3) as u16)
                << 5);
        } else {
            self.r.t = (self.r.t & 0xFFE0) | ((val >> 3) as u16);
            self.r.fine_x = val & 0x07;
        }
        self.r.w = !self.r.w;
    }

    /// Handles PPUADDR ($2006) double-write: high byte (bits 8–13) first,
    /// then low byte, which also copies t into v.
    pub fn write_addr(&mut self, val: u8)
        requires
            old(self)@.wf(),
        ensures
            final(self)@ == old(self)@.with_regs(addr_regs(old(self)@.r, val)),
            final(self)@.wf(),
    {
        if self.r.w {
            self.r.t = (self.r.t & 0xFF00) | (val as u16);
            self.r.v = self.r.t;
        } else {
            self.r.t = (self.r.t & 0x00FF) | (((val & 0x3F) as u16) << 8);
        }
        self.r.w = !self.r.w;
    }
}

/// Two PPUADDR writes starting from a cleared toggle set the VRAM
/// address to the high byte (6 bits) and the low byte, and leave the
/// toggle cleared.
pub proof fn lemma_ppuaddr_pair(r: PpuRegs, hi: u8, lo: u8)
    requires
        !r.w,
    ensures
        addr_regs(addr_regs(r, hi), lo).v == ((hi & 0x3F) as u16) * 256 + lo,
        !addr_regs(addr_regs(r, hi), lo).w,
{
    let t0 = r.t;
    let t1 = (t0 & 0x00FF) | (((hi & 0x3F) as u16) << 8u16);
    let t2 = (t1 & 0xFF00) | (lo as u16);
    assert(t2 == ((hi & 0x3F) as u16) * 256 + lo) by (bit_vector)
        requires
            t1 == (t0 & 0x00FF) | (((hi & 0x3F) as u16) << 8u16),
            t2 == (t1 & 0xFF00) | (lo as u16),
    ;
}

/// Reading PPUSTATUS reports the vblank flag it finds, then clears it
/// and the write toggle.
pub proof fn lemma_status_read_clears_vblank(p: PpuView, m: MapperView)
    ensures
        ({
            let (v, p2, m2) = cpu_read_result(p, m, 2);
            &&& (v & 0x80 != 0) == (p.r.status & 0x80 != 0)
            &&& p2.r.status & 0x80 == 0
            &&& !p2.r.w
            &&& m2 == m
        }),
{
    let s = p.r.status;
    let b = p.r.read_buffer;
    assert((((s & 0xE0) | (b & 0x1F)) & 0x80 != 0) == (s & 0x80 != 0) && (s & 0x7F) & 0x80 == 0)
        by (bit_vector);
}

/// A PPUDATA ($2007) access, read or write, moves the VRAM address on
/// by 32 (one nametable row down) when PPUCTRL bit 2 is set and by 1
/// otherwise, wrapping at 16 bits; so after PPUCTRL is written with `c`,
/// PPUDATA writes step by 32 exactly when bit 2 of `c` is set.
pub proof fn lemma_ppudata_steps_the_address(p: PpuView, m: MapperView, val: u8, c: u8)
    ensures
        cpu_write_result(p, m, 7, val).0.r.v == (p.r.v + if p.r.ctrl & 0x04 != 0 {
            32int
        } else {
            1int
        }) % 0x10000,
        cpu_read_result(p, m, 7).1.r.v == (p.r.v + if p.r.ctrl & 0x04 != 0 {
            32int
        } else {
            1int
        }) % 0x10000,
        ({
            let (q, mq) = cpu_write_result(p, m, 0, c);
            cpu_write_result(q, mq, 7, val).0.r.v == (p.r.v + if c & 0x04 != 0 {
                32int
            } else {
                1int
            }) % 0x10000
        }),
{
}

/// Two PPUSCROLL writes starting from a cleared toggle: the first byte
/// `x` gives the fine X scroll (its low three bits) and the coarse X
/// (its high five bits, bits 0–4 of t); the second byte `y` gives the
/// coarse Y (bits 5–9 of t) and the fine Y (bits 12–14 of t); the
/// nametable select (bits 10–11) is kept and the toggle ends cleared.
pub proof fn lemma_ppuscroll_pair(r: PpuRegs, x: u8, y: u8)
    requires
        !r.w,
    ensures
        scroll_regs(scroll_regs(r, x), y).fine_x == x % 8,
        scroll_regs(scroll_regs(r, x), y).t % 32 == x / 8,
        (scroll_regs(scroll_regs(r, x), y).t / 32) % 32 == y / 8,
        (scroll_regs(scroll_regs(r, x), y).t / 4096) % 8 == y % 8,
        (scroll_regs(scroll_regs(r, x), y).t / 1024) % 4 == (r.t / 1024) % 4,
        !scroll_regs(scroll_regs(r, x), y).w,
{
    let t0 = r.t;
    let t1 = (t0 & 0xFFE0) | ((x >> 3u8) as u16);
    let t2 = (t1 & 0x8C1F) | (((y & 0x07) as u16) << 12u16) | (((y >> 3u8) as u16) << 5u16);
    assert((x & 0x07) == x % 8 && t2 % 32 == (x / 8) as u16 && (t2 / 32) % 32 == (y / 8) as u16
        && (t2 / 4096) % 8 == (y % 8) as u16 && (t2 / 1024) % 4 == (t0 / 1024) % 4) by (bit_vector)
        requires
            t1 == (t0 & 0xFFE0) | ((x >> 3u8) as u16),
            t2 == (t1 & 0x8C1F) | (((y & 0x07) as u16) << 12u16) | (((y >> 3u8) as u16) << 5u16),
    ;
}

/// A PPUCTRL write selects the base nametable with its low two bits
/// (bits 10–11 of t) and leaves the rest of t as it was.
pub proof fn lemma_ppuctrl_selects_nametable(p: PpuView, m: MapperView, c: u8)
    ensures
        cpu_write_result(p, m, 0, c).0.r.ctrl == c,
        (cpu_write_result(p, m, 0, c).0.r.t / 1024) % 4 == c % 4,
        cpu_write_result(p, m, 0, c).0.r.t % 1024 == p.r.t % 1024,
        cpu_write_result(p, m, 0, c).0.r.t / 4096 == p.r.t / 4096,
{
    let t = p.r.t;
    assert(((((t & 0xF3FF) | (((c & 0x03) as u16) << 10u16)) / 1024) % 4) == (c % 4) as u16 && (((t
        & 0xF3FF) | (((c & 0x03) as u16) << 10u16)) % 1024) == t % 1024 && (((t & 0xF3FF) | (((c
        & 0x03) as u16) << 10u16)) / 4096) == t / 4096) by (bit_vector);
}

/// An OAMDATA ($2004) write stores the byte at the OAM address, changes
/// no other OAM byte, and moves the address on by one, wrapping at 256.
pub proof fn lemma_oamdata_write(p: PpuView, m: MapperView, val: u8)
    requires
        p.wf(),
    ensures
        cpu_write_result(p, m, 4, val).0.oam[p.r.oam_addr as int] == val,
        forall|i: int|
            0 <= i < 256 && i != p.r.oam_addr ==> #[trigger] cpu_write_result(p, m, 4, val).0.oam[i]
                == p.oam[i],
        cpu_write_result(p, m, 4, val).0.r.oam_addr == (p.r.oam_addr + 1) % 256,
{
}

} // verus!
