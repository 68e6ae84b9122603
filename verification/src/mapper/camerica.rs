//! Camerica / Codemasters (mapper 71) — 16 KB switchable PRG bank.
//!
//! - $8000–$BFFF: switchable 16 KB PRG bank
//! - $C000–$FFFF: fixed to last 16 KB bank
//! - CHR: 8 KB CHR-RAM
//! - Mirroring: static (from cartridge header)
//!
//! Write to $C000–$FFFF: bits 0–3 = PRG bank select.

use vstd::prelude::*;
use super::cnrom::{bank_count_min1, spec_bank_count_min1};

verus! {

/// Size of one PRG bank.
pub const PRG_BANK_SIZE: usize = 16_384;

/// Camerica bank-switching state.
#[derive(Debug, Clone, Copy, PartialEq, Eq, Structural)]
pub struct CamericaState {
    /// Currently selected 16 KB bank for $8000–$BFFF.
    pub bank_select: u8,
    /// Total number of 16 KB PRG banks (at least 1).
    pub bank_count: u8,
}

impl CamericaState {
    /// The state's invariant: there is at least one PRG bank.
    pub open spec fn wf(self) -> bool {
        self.bank_count >= 1
    }

    /// Power-on state for a PRG-ROM of `prg_len` bytes.
    pub fn new(prg_len: usize) -> (s: CamericaState)
        ensures
            s == (CamericaState { bank_select: 0, bank_count: spec_bank_count_min1(prg_len as int, 16384) }),
    {
        CamericaState { bank_select: 0, bank_count: bank_count_min1(prg_len, PRG_BANK_SIZE) }
    }

    /// PRG-ROM offset that a CPU read at `addr` reaches, if any.
    pub open spec fn spec_prg_offset(self, addr: u16) -> Option<int> {
        if 0x8000 <= addr && addr <= 0xBFFF {
            Some(self.bank_select * 16384 + (addr - 0x8000))
        } else if addr >= 0xC000 {
            Some((self.bank_count - 1) * 16384 + (addr - 0xC000))
        } else {
            None
        }
    }

    /// PRG-ROM offset that a CPU read at `addr` reaches, if any.
    pub fn prg_offset(&self, addr: u16) -> (r: Option<usize>)
        requires
            self.wf(),
        ensures
            r matches Some(o) ==> self.spec_prg_offset(addr) == Some(o as int),
            r is None ==> self.spec_prg_offset(addr) is None,
    {
        if addr >= 0x8000 && addr <= 0xBFFF {
            Some((self.bank_select as usize) * PRG_BANK_SIZE + ((addr - 0x8000) as usize))
        } else if addr >= 0xC000 {
            Some(((self.bank_count - 1) as usize) * PRG_BANK_SIZE + ((addr - 0xC000) as usize))
        } else {
            None
        }
    }

    /// State after a CPU write at `addr`.
    pub open spec fn after_cpu_write(self, addr: u16, val: u8) -> CamericaState {
        if addr >= 0xC000 {
            CamericaState { bank_select: (val & 0x0F) % self.bank_count, ..self }
        } else {
            self
        }
    }

    /// A write to $C000–$FFFF selects the bank (bits 0–3, modulo the bank count).
    pub fn cpu_write(&mut self, addr: u16, val: u8)
        requires
            old(self).wf(),
        ensures
            *final(self) == old(self).after_cpu_write(addr, val),
    {
        if addr >= 0xC000 {
            self.bank_select = (val & 0x0F) % self.bank_count;
        }
    }
}

/// A write of `val` to $C000–$FFFF switches the 16 KB bank at $8000 to
/// its low four bits modulo the bank count; writes below $C000 change
/// nothing; $C000–$FFFF always shows the last bank.
pub proof fn lemma_camerica_bank_switch(s: CamericaState, w: u16, val: u8, addr: u16)
    requires
        s.wf(),
        addr >= 0x8000,
    ensures
        w < 0xC000 ==> s.after_cpu_write(w, val) == s,
        (w >= 0xC000 && addr < 0xC000) ==> s.after_cpu_write(w, val).spec_prg_offset(addr) == Some(
            (val % 16 % s.bank_count) as int * 16384 + (addr - 0x8000),
        ),
        addr >= 0xC000 ==> s.after_cpu_write(w, val).spec_prg_offset(addr) == Some(
            (s.bank_count - 1) * 16384 + (addr - 0xC000),
        ),
{
    crate::mapper::lemma_register_fields(val);
}

} // verus!
