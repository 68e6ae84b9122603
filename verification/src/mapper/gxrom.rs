//! GxROM (mapper 66) — 32 KB PRG + 8 KB CHR bank switching through one
//! register.
//!
//! - $8000–$FFFF: switchable 32 KB PRG bank
//! - CHR-ROM: switchable 8 KB bank
//! - Mirroring: static (from cartridge header)
//!
//! Write to $8000–$FFFF: bits 4–5 = PRG bank, bits 0–1 = CHR bank.

use vstd::prelude::*;
use super::cnrom::{bank_count_min1, spec_bank_count_min1};

verus! {

/// Size of one PRG bank.
pub const PRG_BANK_SIZE: usize = 32_768;

/// Size of one CHR bank.
pub const CHR_BANK_SIZE: usize = 8_192;

/// GxROM bank-switching state.
#[derive(Debug, Clone, Copy, PartialEq, Eq, Structural)]
pub struct GxromState {
    pub prg_bank: u8,
    pub chr_bank: u8,
    pub prg_bank_count: u8,
    pub chr_bank_count: u8,
}

impl GxromState {
    /// The state's invariant: there is at least one bank of each kind.
    pub open spec fn wf(self) -> bool {
        self.prg_bank_count >= 1 && self.chr_bank_count >= 1
    }

    /// Power-on state for the given ROM sizes.
    pub fn new(prg_len: usize, chr_len: usize) -> (s: GxromState)
        ensures
            s == (GxromState {
                prg_bank: 0,
                chr_bank: 0,
                prg_bank_count: spec_bank_count_min1(prg_len as int, 32768),
                chr_bank_count: spec_bank_count_min1(chr_len as int, 8192),
            }),
    {
        GxromState {
            prg_bank: 0,
            chr_bank: 0,
            prg_bank_count: bank_count_min1(prg_len, PRG_BANK_SIZE),
            chr_bank_count: bank_count_min1(chr_len, CHR_BANK_SIZE),
        }
    }

    /// PRG-ROM offset that a CPU read at `addr` reaches, if any.
    pub open spec fn spec_prg_offset(self, addr: u16) -> Option<int> {
        if addr < 0x8000 {
            None
        } else {
            Some(self.prg_bank * 32768 + (addr - 0x8000))
        }
    }

    /// PRG-ROM offset that a CPU read at `addr` reaches, if any.
    pub fn prg_offset(&self, addr: u16) -> (r: Option<usize>)
        ensures
            r matches Some(o) ==> self.spec_prg_offset(addr) == Some(o as int),
            r is None ==> self.spec_prg_offset(addr) is None,
    {
        if addr < 0x8000 {
            None
        } else {
            Some((self.prg_bank as usize) * PRG_BANK_SIZE + ((addr - 0x8000) as usize))
        }
    }

    /// CHR offset that a PPU read at `addr` reaches.
    pub open spec fn spec_chr_offset(self, addr: u16) -> int {
        self.chr_bank * 8192 + addr
    }

    /// CHR offset that a PPU read at `addr` reaches.
    pub fn chr_offset(&self, addr: u16) -> (o: usize)
        ensures
            o == self.spec_chr_offset(addr),
    {
        (self.chr_bank as usize) * CHR_BANK_SIZE + (addr as usize)
    }

    /// State after a CPU write at `addr`.
    pub open spec fn after_cpu_write(self, addr: u16, val: u8) -> GxromState {
        if addr >= 0x8000 {
            GxromState {
                prg_bank: ((val >> 4u8) & 0x03) % self.prg_bank_count,
                chr_bank: (val & 0x03) % self.chr_bank_count,
                ..self
            }
        } else {
            self
        }
    }

    /// A write to $8000–$FFFF selects both banks.
    pub fn cpu_write(&mut self, addr: u16, val: u8)
        requires
            old(self).wf(),
        ensures
            *final(self) == old(self).after_cpu_write(addr, val),
    {
        if addr >= 0x8000 {
            self.prg_bank = ((val >> 4) & 0x03) % self.prg_bank_count;
            self.chr_bank = (val & 0x03) % self.chr_bank_count;
        }
    }
}

/// A write of `val` to $8000–$FFFF switches the 32 KB PRG bank to bits
/// 4–5 of `val` and the 8 KB CHR bank to bits 0–1, each modulo its
/// bank count.
pub proof fn lemma_gxrom_bank_switch(s: GxromState, w: u16, val: u8, addr: u16, caddr: u16)
    requires
        s.wf(),
        w >= 0x8000,
        addr >= 0x8000,
    ensures
        s.after_cpu_write(w, val).spec_prg_offset(addr) == Some(
            (val / 16 % 4 % s.prg_bank_count) as int * 32768 + (addr - 0x8000),
        ),
        s.after_cpu_write(w, val).spec_chr_offset(caddr) == (val % 4 % s.chr_bank_count) as int
            * 8192 + caddr,
{
    crate::mapper::lemma_register_fields(val);
}

} // verus!
