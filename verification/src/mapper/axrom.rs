//! `AxROM` (mapper 7) — 32 KB PRG bank switching with single-screen mirroring.
//!
//! - $8000–$FFFF: switchable 32 KB PRG bank
//! - CHR: 8 KB CHR-RAM
//! - Mirroring: single-screen, selected by bit 4 of the bank register

use vstd::prelude::*;
use super::cnrom::{bank_count_min1, spec_bank_count_min1};
use crate::cartridge::Mirroring;

verus! {

/// Size of one PRG bank.
pub const PRG_BANK_SIZE: usize = 32_768;

/// `AxROM` bank-switching state.
#[derive(Debug, Clone, Copy, PartialEq, Eq, Structural)]
pub struct AxromState {
    /// Currently selected 32 KB PRG bank (bits 0–2 of write).
    pub bank_select: u8,
    /// Total number of 32 KB PRG banks (at least 1).
    pub bank_count: u8,
    /// Single-screen nametable select (bit 4 of write).
    pub nametable: u8,
}

impl AxromState {
    /// The state's invariant: there is at least one PRG bank.
    pub open spec fn wf(self) -> bool {
        self.bank_count >= 1
    }

    /// Power-on state for a PRG-ROM of `prg_len` bytes.
    pub fn new(prg_len: usize) -> (s: AxromState)
        ensures
            s == (AxromState {
                bank_select: 0,
                bank_count: spec_bank_count_min1(prg_len as int, 32768),
                nametable: 0,
            }),
    {
        AxromState { bank_select: 0, bank_count: bank_count_min1(prg_len, PRG_BANK_SIZE), nametable: 0 }
    }

    /// PRG-ROM offset that a CPU read at `addr` reaches, if any.
    pub open spec fn spec_prg_offset(self, addr: u16) -> Option<int> {
        if addr < 0x8000 {
            None
        } else {
            Some(self.bank_select * 32768 + (addr - 0x8000))
        }
    }

    /// PRG-ROM offset that a CPU read at `addr` reaches, if any.
    pub fn prg_offset(&self, addr: u16) -> (r: Option<usize>)
        ensures
            r matches Some(o) ==> self.spec_prg_offset(addr) == Some(o as int),
            r is None ==> self.spec_prg_offset(addr) is None,
    {
        if addr < 0x8000 {
            None
        } else {
            Some((self.bank_select as usize) * PRG_BANK_SIZE + ((addr - 0x8000) as usize))
        }
    }

    /// State after a CPU write at `addr`.
    pub open spec fn after_cpu_write(self, addr: u16, val: u8) -> AxromState {
        if addr >= 0x8000 {
            AxromState {
                bank_select: (val & 0x07) % self.bank_count,
                nametable: (val >> 4u8) & 1,
                ..self
            }
        } else {
            self
        }
    }

    /// A write to $8000–$FFFF selects the PRG bank and the nametable page.
    pub fn cpu_write(&mut self, addr: u16, val: u8)
        requires
            old(self).wf(),
        ensures
            *final(self) == old(self).after_cpu_write(addr, val),
    {
        if addr >= 0x8000 {
            self.bank_select = (val & 0x07) % self.bank_count;
            self.nametable = (val >> 4) & 1;
        }
    }

    /// Mirroring selected by the nametable bit.
    pub open spec fn spec_mirroring(self) -> Mirroring {
        if self.nametable == 0 {
            Mirroring::SingleLow
        } else {
            Mirroring::SingleHigh
        }
    }

    /// Returns the single-screen mirroring mode in effect.
    pub fn mirroring(&self) -> (m: Mirroring)
        ensures
            m == self.spec_mirroring(),
    {
        if self.nametable == 0 {
            Mirroring::SingleLow
        } else {
            Mirroring::SingleHigh
        }
    }
}

/// A write of `val` to $8000–$FFFF switches the 32 KB PRG bank to bits
/// 0–2 of `val` (modulo the bank count) and shows the nametable page
/// that bit 4 selects on every screen.
pub proof fn lemma_axrom_bank_switch(s: AxromState, w: u16, val: u8, addr: u16)
    requires
        s.wf(),
        w >= 0x8000,
        addr >= 0x8000,
    ensures
        s.after_cpu_write(w, val).spec_prg_offset(addr) == Some(
            (val % 8 % s.bank_count) as int * 32768 + (addr - 0x8000),
        ),
        s.after_cpu_write(w, val).spec_mirroring() == if val / 16 % 2 == 1 {
            Mirroring::SingleHigh
        } else {
            Mirroring::SingleLow
        },
{
    crate::mapper::lemma_register_fields(val);
}

} // verus!
