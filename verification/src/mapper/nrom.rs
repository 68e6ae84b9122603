//! NROM (mapper 0) — no bank switching.
//!
//! PRG-ROM is fixed at $8000–$FFFF: a 32 KB ROM fills the window,
//! a 16 KB ROM mirrors into both halves. CHR-ROM (or CHR-RAM) is fixed
//! at PPU $0000–$1FFF and mirrors over its own length.

use vstd::prelude::*;

verus! {

/// PRG-ROM start address in CPU space.
pub const PRG_START: u16 = 0x8000;

/// PRG-ROM offset that a CPU read at `addr` reaches, if any.
pub open spec fn spec_prg_offset(addr: u16, prg_len: int) -> Option<int> {
    if addr < 0x8000 {
        None
    } else {
        Some((addr - 0x8000) % prg_len)
    }
}

/// PRG-ROM offset that a CPU read at `addr` reaches, if any.
pub fn prg_offset(addr: u16, prg_len: usize) -> (r: Option<usize>)
    requires
        prg_len > 0,
    ensures
        r matches Some(o) ==> o < prg_len,
        r matches Some(o) ==> spec_prg_offset(addr, prg_len as int) == Some(o as int),
        r is None ==> spec_prg_offset(addr, prg_len as int) is None,
{
    if addr < PRG_START {
        None
    } else {
        Some(((addr - PRG_START) as usize) % prg_len)
    }
}

/// CHR offset that a PPU access at `addr` reaches (mirrors over the CHR size).
pub fn chr_offset(addr: u16, chr_len: usize) -> (o: usize)
    requires
        chr_len > 0,
    ensures
        o == (addr as int) % (chr_len as int),
        o < chr_len,
{
    (addr as usize) % chr_len
}

} // verus!
