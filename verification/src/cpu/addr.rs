//! 6502 addressing mode resolution.
//!
//! Each addressing mode reads 0–2 operand bytes after the opcode
//! and computes an effective address. The resolved [`Operand`]
//! carries the address, instruction size, and page-cross flag.

use vstd::prelude::*;
use super::{machine, Cpu, Machine};
use crate::bits::{wadd8, wadd16};
use crate::bus::Bus;
use crate::ppu::Ppu;

verus! {

/// 6502 addressing modes.
#[derive(Debug, Clone, Copy, PartialEq, Eq, Structural)]
pub enum AddrMode {
    /// No operand (e.g., CLC, RTS).
    Implicit,
    /// Operand is the accumulator register.
    Accumulator,
    /// 8-bit literal at PC+1.
    Immediate,
    /// 8-bit zero-page address at PC+1.
    ZeroPage,
    /// Zero-page address + X (wraps within page zero).
    ZeroPageX,
    /// Zero-page address + Y (wraps within page zero).
    ZeroPageY,
    /// 16-bit absolute address at PC+1..PC+2.
    Absolute,
    /// Absolute + X (may cross page).
    AbsoluteX,
    /// Absolute + Y (may cross page).
    AbsoluteY,
    /// 16-bit pointer at PC+1..PC+2, used only by JMP, with the
    /// page-boundary bug: the high byte is read from the same page.
    Indirect,
    /// (Indirect,X): zero-page pointer + X → 16-bit address.
    IndirectX,
    /// (Indirect),Y: zero-page pointer → 16-bit base + Y.
    IndirectY,
    /// Signed 8-bit offset from PC+2 (branches only).
    Relative,
}

/// Resolved operand from an addressing mode.
#[derive(Debug, Clone, Copy, PartialEq, Eq, Structural)]
pub struct Operand {
    /// Effective address (meaningless for Implicit/Accumulator).
    pub addr: u16,
    /// Total instruction size in bytes (1–3), including the opcode.
    pub size: u8,
    /// Whether computing the address crossed a 256-byte page boundary.
    pub page_cross: bool,
}

/// Whether two addresses lie in different 256-byte pages.
pub open spec fn spec_crosses_page(a: u16, b: u16) -> bool {
    (a & 0xFF00) != (b & 0xFF00)
}

/// Returns `true` if two addresses are in different 256-byte pages.
pub fn crosses_page(a: u16, b: u16) -> (r: bool)
    ensures
        r == spec_crosses_page(a, b),
{
    (a & 0xFF00) != (b & 0xFF00)
}

/// Little-endian 16-bit read from `addr` and `addr + 1`.
pub open spec fn read_u16_spec(m: Machine, addr: u16) -> (u16, Machine) {
    let (lo, m1) = m.read(addr);
    let (hi, m2) = m1.read(wadd16(addr, 1));
    ((hi * 256 + lo) as u16, m2)
}

/// 16-bit read from zero page, the high byte wrapping to $00.
pub open spec fn read_u16_zp_spec(m: Machine, addr: u8) -> (u16, Machine) {
    let (lo, m1) = m.read(addr as u16);
    let (hi, m2) = m1.read(wadd8(addr, 1) as u16);
    ((hi * 256 + lo) as u16, m2)
}

/// 16-bit read whose high byte comes from the same page as the low byte.
pub open spec fn read_u16_wrapped_spec(m: Machine, ptr: u16) -> (u16, Machine) {
    let (lo, m1) = m.read(ptr);
    let (hi, m2) = m1.read((ptr & 0xFF00) | (wadd8(ptr as u8, 1) as u16));
    ((hi * 256 + lo) as u16, m2)
}

/// Sign-extension of a branch offset byte.
pub open spec fn offset16(v: u8) -> u16 {
    if v >= 128 {
        (v + 0xFF00) as u16
    } else {
        v as u16
    }
}

/// The operand an addressing mode resolves to, and the machine after
/// the operand-byte reads.
pub open spec fn resolve_spec(mode: AddrMode, m: Machine) -> (Operand, Machine) {
    let pc = m.cpu.pc;
    let next = wadd16(pc, 1);
    match mode {
        AddrMode::Implicit => (Operand { addr: 0, size: 1, page_cross: false }, m),
        AddrMode::Accumulator => (Operand { addr: 0, size: 1, page_cross: false }, m),
        AddrMode::Immediate => (Operand { addr: next, size: 2, page_cross: false }, m),
        AddrMode::ZeroPage => {
            let (v, m1) = m.read(next);
            (Operand { addr: v as u16, size: 2, page_cross: false }, m1)
        },
        AddrMode::ZeroPageX => {
            let (v, m1) = m.read(next);
            (Operand { addr: wadd8(v, m.cpu.x) as u16, size: 2, page_cross: false }, m1)
        },
        AddrMode::ZeroPageY => {
            let (v, m1) = m.read(next);
            (Operand { addr: wadd8(v, m.cpu.y) as u16, size: 2, page_cross: false }, m1)
        },
        AddrMode::Absolute => {
            let (a, m1) = read_u16_spec(m, next);
            (Operand { addr: a, size: 3, page_cross: false }, m1)
        },
        AddrMode::AbsoluteX => {
            let (base, m1) = read_u16_spec(m, next);
            let a = wadd16(base, m.cpu.x as u16);
            (Operand { addr: a, size: 3, page_cross: spec_crosses_page(base, a) }, m1)
        },
        AddrMode::AbsoluteY => {
            let (base, m1) = read_u16_spec(m, next);
            let a = wadd16(base, m.cpu.y as u16);
            (Operand { addr: a, size: 3, page_cross: spec_crosses_page(base, a) }, m1)
        },
        AddrMode::Indirect => {
            let (ptr, m1) = read_u16_spec(m, next);
            let (a, m2) = read_u16_wrapped_spec(m1, ptr);
            (Operand { addr: a, size: 3, page_cross: false }, m2)
        },
        AddrMode::IndirectX => {
            let (v, m1) = m.read(next);
            let (a, m2) = read_u16_zp_spec(m1, wadd8(v, m.cpu.x));
            (Operand { addr: a, size: 2, page_cross: false }, m2)
        },
        AddrMode::IndirectY => {
            let (bp, m1) = m.read(next);
            let (base, m2) = read_u16_zp_spec(m1, bp);
            let a = wadd16(base, m.cpu.y as u16);
            (Operand { addr: a, size: 2, page_cross: spec_crosses_page(base, a) }, m2)
        },
        AddrMode::Relative => {
            let (v, m1) = m.read(next);
            let n = wadd16(pc, 2);
            let a = wadd16(n, offset16(v));
            (Operand { addr: a, size: 2, page_cross: spec_crosses_page(n, a) }, m1)
        },
    }
}

/// Little-endian 16-bit read from two consecutive addresses.
pub fn read_u16(cpu: &Cpu, bus: &mut Bus, ppu: &mut Ppu, addr: u16) -> (v: u16)
    requires
        old(bus)@.wf(),
        old(ppu)@.wf(),
    ensures
        (v, machine(*cpu, final(bus)@, final(ppu)@)) == read_u16_spec(machine(*cpu, old(bus)@, old(ppu)@), addr),
        final(bus)@.wf(),
        final(ppu)@.wf(),
{
    let lo = bus.read(addr, ppu);
    let hi = bus.read(addr.wrapping_add(1), ppu);
    proof {
        crate::bits::lemma_u16_masks();
    }
    ((hi as u16) << 8) | (lo as u16)
}

/// 16-bit read from zero page with wrapping (high byte wraps to $00).
pub fn read_u16_zp(cpu: &Cpu, bus: &mut Bus, ppu: &mut Ppu, addr: u8) -> (v: u16)
    requires
        old(bus)@.wf(),
        old(ppu)@.wf(),
    ensures
        (v, machine(*cpu, final(bus)@, final(ppu)@)) == read_u16_zp_spec(machine(*cpu, old(bus)@, old(ppu)@), addr),
        final(bus)@.wf(),
        final(ppu)@.wf(),
{
    let lo = bus.read(addr as u16, ppu);
    let hi = bus.read(addr.wrapping_add(1) as u16, ppu);
    proof {
        crate::bits::lemma_u16_masks();
    }
    ((hi as u16) << 8) | (lo as u16)
}

/// 16-bit read that replicates the 6502 JMP indirect page-boundary bug.
pub fn read_u16_wrapped(cpu: &Cpu, bus: &mut Bus, ppu: &mut Ppu, ptr: u16) -> (v: u16)
    requires
        old(bus)@.wf(),
        old(ppu)@.wf(),
    ensures
        (v, machine(*cpu, final(bus)@, final(ppu)@)) == read_u16_wrapped_spec(machine(*cpu, old(bus)@, old(ppu)@), ptr),
        final(bus)@.wf(),
        final(ppu)@.wf(),
{
    let lo = bus.read(ptr, ppu);
    let hi_addr = (ptr & 0xFF00) | ((ptr as u8).wrapping_add(1) as u16);
    let hi = bus.read(hi_addr, ppu);
    proof {
        crate::bits::lemma_u16_masks();
    }
    ((hi as u16) << 8) | (lo as u16)
}

/// Resolves an addressing mode to an [`Operand`], reading the operand
/// bytes that follow the opcode.
pub fn resolve(mode: AddrMode, cpu: &Cpu, bus: &mut Bus, ppu: &mut Ppu) -> (o: Operand)
    requires
        old(bus)@.wf(),
        old(ppu)@.wf(),
    ensures
        (o, machine(*cpu, final(bus)@, final(ppu)@)) == resolve_spec(mode, machine(*cpu, old(bus)@, old(ppu)@)),
        final(bus)@.wf(),
        final(ppu)@.wf(),
{
    let pc = cpu.pc;
    let next = pc.wrapping_add(1);
    match mode {
        AddrMode::Implicit => Operand { addr: 0, size: 1, page_cross: false },
        AddrMode::Accumulator => Operand { addr: 0, size: 1, page_cross: false },
        AddrMode::Immediate => Operand { addr: next, size: 2, page_cross: false },
        AddrMode::ZeroPage => {
            let v = bus.read(next, ppu);
            Operand { addr: v as u16, size: 2, page_cross: false }
        },
        AddrMode::ZeroPageX => {
            let v = bus.read(next, ppu);
            Operand { addr: v.wrapping_add(cpu.x) as u16, size: 2, page_cross: false }
        },
        AddrMode::ZeroPageY => {
            let v = bus.read(next, ppu);
            Operand { addr: v.wrapping_add(cpu.y) as u16, size: 2, page_cross: false }
        },
        AddrMode::Absolute => {
            let a = read_u16(cpu, bus, ppu, next);
            Operand { addr: a, size: 3, page_cross: false }
        },
        AddrMode::AbsoluteX => {
            let base = read_u16(cpu, bus, ppu, next);
            let a = base.wrapping_add(cpu.x as u16);
            Operand { addr: a, size: 3, page_cross: crosses_page(base, a) }
        },
        AddrMode::AbsoluteY => {
            let base = read_u16(cpu, bus, ppu, next);
            let a = base.wrapping_add(cpu.y as u16);
            Operand { addr: a, size: 3, page_cross: crosses_page(base, a) }
        },
        AddrMode::Indirect => {
            let ptr = read_u16(cpu, bus, ppu, next);
            let a = read_u16_wrapped(cpu, bus, ppu, ptr);
            Operand { addr: a, size: 3, page_cross: false }
        },
        AddrMode::IndirectX => {
            let v = bus.read(next, ppu);
            let a = read_u16_zp(cpu, bus, ppu, v.wrapping_add(cpu.x));
            Operand { addr: a, size: 2, page_cross: false }
        },
        AddrMode::IndirectY => {
            let bp = bus.read(next, ppu);
            let base = read_u16_zp(cpu, bus, ppu, bp);
            let a = base.wrapping_add(cpu.y as u16);
            Operand { addr: a, size: 2, page_cross: crosses_page(base, a) }
        },
        AddrMode::Relative => {
            let v = bus.read(next, ppu);
            let n = pc.wrapping_add(2);
            let off: u16 = if v >= 128 { (v as u16) + 0xFF00 } else { v as u16 };
            let a = n.wrapping_add(off);
            Operand { addr: a, size: 2, page_cross: crosses_page(n, a) }
        },
    }
}

/// Two addresses are on different pages exactly when their high bytes differ.
proof fn lemma_page_of(a: u16, b: u16)
    ensures
        spec_crosses_page(a, b) == (a / 256 != b / 256),
{
    assert(((a & 0xFF00) != (b & 0xFF00)) == (a / 256 != b / 256)) by (bit_vector);
}

/// Where the indexed addressing modes point, for the operand bytes that
/// follow the opcode: zero-page modes add the index within page zero;
/// absolute modes add it across the whole 64 KB, crossing a page when
/// the high byte changes.
pub proof fn lemma_indexed_modes(m: Machine)
    ensures
        ({
            let next = wadd16(m.cpu.pc, 1);
            let b1 = m.read(next).0;
            let w = read_u16_spec(m, next).0;
            &&& resolve_spec(AddrMode::Immediate, m).0.addr == next
            &&& resolve_spec(AddrMode::ZeroPage, m).0.addr == b1
            &&& resolve_spec(AddrMode::ZeroPageX, m).0.addr == (b1 + m.cpu.x) % 256
            &&& resolve_spec(AddrMode::ZeroPageY, m).0.addr == (b1 + m.cpu.y) % 256
            &&& resolve_spec(AddrMode::Absolute, m).0.addr == w
            &&& resolve_spec(AddrMode::AbsoluteX, m).0.addr == (w + m.cpu.x) % 65536
            &&& resolve_spec(AddrMode::AbsoluteX, m).0.page_cross == (w / 256 != ((w + m.cpu.x)
                % 65536) / 256)
            &&& resolve_spec(AddrMode::AbsoluteY, m).0.addr == (w + m.cpu.y) % 65536
            &&& resolve_spec(AddrMode::AbsoluteY, m).0.page_cross == (w / 256 != ((w + m.cpu.y)
                % 65536) / 256)
        }),
{
    let next = wadd16(m.cpu.pc, 1);
    let w = read_u16_spec(m, next).0;
    lemma_page_of(w, wadd16(w, m.cpu.x as u16));
    lemma_page_of(w, wadd16(w, m.cpu.y as u16));
}

/// Where the indirect addressing modes point: (zp,X) reads its pointer
/// from page zero at the operand plus X, (zp),Y adds Y to the pointer
/// read from page zero, and JMP's indirect pointer never carries into
/// the next page when fetching its high byte.
pub proof fn lemma_indirect_modes(m: Machine)
    ensures
        ({
            let next = wadd16(m.cpu.pc, 1);
            let (b1, m1) = m.read(next);
            let (w, mw) = read_u16_spec(m, next);
            let (lo, ml) = mw.read(w);
            &&& resolve_spec(AddrMode::IndirectX, m).0.addr == read_u16_zp_spec(
                m1,
                ((b1 + m.cpu.x) % 256) as u8,
            ).0
            &&& resolve_spec(AddrMode::IndirectY, m).0.addr == (read_u16_zp_spec(m1, b1).0
                + m.cpu.y) % 65536
            &&& resolve_spec(AddrMode::Indirect, m).0.addr == ml.read(
                ((w / 256) * 256 + (w % 256 + 1) % 256) as u16,
            ).0 * 256 + lo
        }),
{
    let next = wadd16(m.cpu.pc, 1);
    let w = read_u16_spec(m, next).0;
    let p8 = w as u8;
    let inc = wadd8(p8, 1);
    assert(p8 as u16 == w % 256) by (bit_vector)
        requires
            p8 == w as u8,
    ;
    assert(inc as u16 == ((w % 256 + 1) % 256) as u16);
    assert((w & 0xFF00) | (inc as u16) == (w / 256) * 256 + (w % 256 + 1) % 256) by (bit_vector)
        requires
            inc as u16 == ((w % 256 + 1) % 256) as u16,
    ;
}

/// A branch target is the following instruction's address moved by the
/// signed offset byte, wrapping at 64 KB; it crosses a page when its
/// high byte differs from the following instruction's.
pub proof fn lemma_relative_mode(m: Machine)
    ensures
        ({
            let b1 = m.read(wadd16(m.cpu.pc, 1)).0;
            let n = (m.cpu.pc + 2) % 65536;
            let t = (m.cpu.pc + 2 + crate::cpu::laws::signed(b1) + 65536) % 65536;
            &&& resolve_spec(AddrMode::Relative, m).0.addr == t
            &&& resolve_spec(AddrMode::Relative, m).0.page_cross == (n / 256 != t / 256)
        }),
{
    let b1 = m.read(wadd16(m.cpu.pc, 1)).0;
    let n = wadd16(m.cpu.pc, 2);
    lemma_page_of(n, wadd16(n, offset16(b1)));
}

} // verus!
