//! CNROM (mapper 3) — switchable 8 KB CHR bank.
//!
//! - PRG-ROM: fixed 16/32 KB at $8000–$FFFF (same as NROM)
//! - CHR-ROM: switchable 8 KB bank (selected by writes to $8000–$FFFF)

use vstd::prelude::*;

verus! {

/// Size of one CHR bank.
pub const CHR_BANK_SIZE: usize = 8192;

/// CNROM bank-switching state.
#[derive(Debug, Clone, Copy, PartialEq, Eq, Structural)]
pub struct CnromState {
    /// Currently selected 8 KB CHR bank.
    pub chr_bank: u8,
    /// Total number of 8 KB CHR banks (at least 1).
    pub chr_bank_count: u8,
}

/// Number of banks of `bank_size` bytes in `len` bytes, at least 1, as a byte.
pub open spec fn spec_bank_count_min1(len: int, bank_size: int) -> u8 {
    (if len / bank_size >= 1 { len / bank_size } else { 1 }) as u8
}

/// Number of banks of `bank_size` bytes in `len` bytes, at least 1, as a byte.
pub fn bank_count_min1(len: usize, bank_size: usize) -> (c: u8)
    requires
        bank_size > 0,
    ensures
        c == spec_bank_count_min1(len as int, bank_size as int),
{
    let n = len / bank_size;
    (if n >= 1 { n } else { 1 }) as u8
}

impl CnromState {
    /// The state's invariant: there is at least one CHR bank.
    pub open spec fn wf(self) -> bool {
        self.chr_bank_count >= 1
    }

    /// Power-on state for a CHR-ROM of `chr_len` bytes.
    pub fn new(chr_len: usize) -> (s: CnromState)
        ensures
            s == (CnromState { chr_bank: 0, chr_bank_count: spec_bank_count_min1(chr_len as int, 8192) }),
    {
        CnromState { chr_bank: 0, chr_bank_count: bank_count_min1(chr_len, CHR_BANK_SIZE) }
    }

    /// CHR offset that a PPU read at `addr` reaches.
    pub open spec fn spec_chr_offset(self, addr: u16) -> int {
        self.chr_bank * 8192 + addr
    }

    /// CHR offset that a PPU read at `addr` reaches.
    pub fn chr_offset(&self, addr: u16) -> (o: usize)
        ensures
            o == self.spec_chr_offset(addr),
    {
        (self.chr_bank as usize) * CHR_BANK_SIZE + (addr as usize)
    }

    /// State after a CPU write at `addr`.
    pub open spec fn after_cpu_write(self, addr: u16, val: u8) -> CnromState {
        if addr >= 0x8000 {
            CnromState { chr_bank: val % self.chr_bank_count, ..self }
        } else {
            self
        }
    }

    /// A write to $8000–$FFFF selects the CHR bank (modulo the bank count).
    pub fn cpu_write(&mut self, addr: u16, val: u8)
        requires
            old(self).wf(),
        ensures
            *final(self) == old(self).after_cpu_write(addr, val),
    {
        if addr >= 0x8000 {
            self.chr_bank = val % self.chr_bank_count;
        }
    }
}

/// A write of `val` to $8000–$FFFF switches the 8 KB CHR bank to `val`
/// modulo the bank count.
pub proof fn lemma_cnrom_bank_switch(s: CnromState, w: u16, val: u8, addr: u16)
    requires
        s.wf(),
        w >= 0x8000,
    ensures
        s.after_cpu_write(w, val).spec_chr_offset(addr) == (val % s.chr_bank_count) as int * 8192
            + addr,
{
}

} // verus!
