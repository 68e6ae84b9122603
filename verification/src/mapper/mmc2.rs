//! MMC2 / `PxROM` (mapper 9) — latch-switched CHR banks.
//!
//! - $8000–$9FFF: switchable 8 KB PRG bank
//! - $A000–$FFFF: fixed to the last three 8 KB PRG banks
//! - CHR: two 4 KB halves, each with two selectable banks
//!   that switch automatically based on PPU tile fetches
//! - Mirroring: dynamic (register at $F000)
//!
//! The latch mechanism: reading tile $FD from a pattern table
//! half selects one CHR bank; reading tile $FE selects another.

use vstd::prelude::*;
use crate::cartridge::Mirroring;

verus! {

/// Size of one PRG bank.
pub const PRG_BANK_SIZE: usize = 8_192;

/// Size of one CHR bank.
pub const CHR_BANK_SIZE: usize = 4_096;

/// MMC2 bank registers and latches.
#[derive(Debug, Clone, Copy, PartialEq, Eq, Structural)]
pub struct Mmc2State {
    /// Number of 8 KB PRG banks.
    pub prg_bank_count: u8,
    /// 8 KB PRG bank at $8000–$9FFF.
    pub prg_bank: u8,
    /// CHR bank selected when latch 0 sees $FD.
    pub chr_bank_0_fd: u8,
    /// CHR bank selected when latch 0 sees $FE.
    pub chr_bank_0_fe: u8,
    /// CHR bank selected when latch 1 sees $FD.
    pub chr_bank_1_fd: u8,
    /// CHR bank selected when latch 1 sees $FE.
    pub chr_bank_1_fe: u8,
    /// Current latch for $0000–$0FFF (false = FD, true = FE).
    pub latch_0: bool,
    /// Current latch for $1000–$1FFF.
    pub latch_1: bool,
    /// Mirroring mode (bit 0 of $F000 write).
    pub mirroring: Mirroring,
}

impl Mmc2State {
    /// The state's invariant: the three fixed banks exist.
    pub open spec fn wf(self) -> bool {
        self.prg_bank_count >= 3
    }

    /// Power-on state for a PRG-ROM of `prg_len` bytes.
    pub fn new(prg_len: usize, mirroring: Mirroring) -> (s: Mmc2State)
        ensures
            s == (Mmc2State {
                prg_bank_count: (prg_len / 8192) as u8,
                prg_bank: 0,
                chr_bank_0_fd: 0,
                chr_bank_0_fe: 0,
                chr_bank_1_fd: 0,
                chr_bank_1_fe: 0,
                latch_0: true,
                latch_1: true,
                mirroring,
            }),
    {
        Mmc2State {
            prg_bank_count: (prg_len / PRG_BANK_SIZE) as u8,
            prg_bank: 0,
            chr_bank_0_fd: 0,
            chr_bank_0_fe: 0,
            chr_bank_1_fd: 0,
            chr_bank_1_fe: 0,
            latch_0: true,
            latch_1: true,
            mirroring,
        }
    }

    /// Active 4 KB CHR bank for the low half ($0000–$0FFF).
    pub open spec fn spec_chr_bank_0(self) -> u8 {
        if self.latch_0 {
            self.chr_bank_0_fe
        } else {
            self.chr_bank_0_fd
        }
    }

    /// Returns the active 4 KB CHR bank for the low half ($0000–$0FFF).
    pub fn chr_bank_0(&self) -> (b: u8)
        ensures
            b == self.spec_chr_bank_0(),
    {
        if self.latch_0 {
            self.chr_bank_0_fe
        } else {
            self.chr_bank_0_fd
        }
    }

    /// Active 4 KB CHR bank for the high half ($1000–$1FFF).
    pub open spec fn spec_chr_bank_1(self) -> u8 {
        if self.latch_1 {
            self.chr_bank_1_fe
        } else {
            self.chr_bank_1_fd
        }
    }

    /// Returns the active 4 KB CHR bank for the high half ($1000–$1FFF).
    pub fn chr_bank_1(&self) -> (b: u8)
        ensures
            b == self.spec_chr_bank_1(),
    {
        if self.latch_1 {
            self.chr_bank_1_fe
        } else {
            self.chr_bank_1_fd
        }
    }

    /// PRG-ROM offset that a CPU read at `addr` reaches, if any.
    pub open spec fn spec_prg_offset(self, addr: u16) -> Option<int> {
        if 0x8000 <= addr && addr <= 0x9FFF {
            Some(self.prg_bank * 8192 + (addr - 0x8000))
        } else if addr >= 0xA000 {
            Some((self.prg_bank_count - 3) * 8192 + (addr - 0xA000))
        } else {
            None
        }
    }

    /// PRG-ROM offset that a CPU read at `addr` reaches, if any.
    pub fn prg_offset(&self, addr: u16) -> (r: Option<usize>)
        requires
            self.wf(),
        ensures
            r matches Some(o) ==> self.spec_prg_offset(addr) == Some(o as int),
            r is None ==> self.spec_prg_offset(addr) is None,
    {
        if addr >= 0x8000 && addr <= 0x9FFF {
            Some((self.prg_bank as usize) * PRG_BANK_SIZE + ((addr - 0x8000) as usize))
        } else if addr >= 0xA000 {
            Some(((self.prg_bank_count - 3) as usize) * PRG_BANK_SIZE + ((addr - 0xA000) as usize))
        } else {
            None
        }
    }

    /// State after a CPU write at `addr`.
    pub open spec fn after_cpu_write(self, addr: u16, val: u8) -> Mmc2State {
        if 0xA000 <= addr && addr <= 0xAFFF {
            Mmc2State { prg_bank: (val & 0x0F) % self.prg_bank_count, ..self }
        } else if 0xB000 <= addr && addr <= 0xBFFF {
            Mmc2State { chr_bank_0_fd: val & 0x1F, ..self }
        } else if 0xC000 <= addr && addr <= 0xCFFF {
            Mmc2State { chr_bank_0_fe: val & 0x1F, ..self }
        } else if 0xD000 <= addr && addr <= 0xDFFF {
            Mmc2State { chr_bank_1_fd: val & 0x1F, ..self }
        } else if 0xE000 <= addr && addr <= 0xEFFF {
            Mmc2State { chr_bank_1_fe: val & 0x1F, ..self }
        } else if addr >= 0xF000 {
            Mmc2State {
                mirroring: if val & 1 != 0 { Mirroring::Horizontal } else { Mirroring::Vertical },
                ..self
            }
        } else {
            self
        }
    }

    /// Handles a CPU write to the bank and mirroring registers.
    pub fn cpu_write(&mut self, addr: u16, val: u8)
        requires
            old(self).wf(),
        ensures
            *final(self) == old(self).after_cpu_write(addr, val),
    {
        if addr >= 0xA000 && addr <= 0xAFFF {
            self.prg_bank = (val & 0x0F) % self.prg_bank_count;
        } else if addr >= 0xB000 && addr <= 0xBFFF {
            self.chr_bank_0_fd = val & 0x1F;
        } else if addr >= 0xC000 && addr <= 0xCFFF {
            self.chr_bank_0_fe = val & 0x1F;
        } else if addr >= 0xD000 && addr <= 0xDFFF {
            self.chr_bank_1_fd = val & 0x1F;
        } else if addr >= 0xE000 && addr <= 0xEFFF {
            self.chr_bank_1_fe = val & 0x1F;
        } else if addr >= 0xF000 {
            self.mirroring = if val & 1 != 0 {
                Mirroring::Horizontal
            } else {
                Mirroring::Vertical
            };
        }
    }

    /// CHR offset that a PPU read at `addr` reaches (before the latch updates).
    pub open spec fn spec_chr_offset(self, addr: u16) -> int {
        if addr < 0x1000 {
            self.spec_chr_bank_0() * 4096 + addr
        } else {
            self.spec_chr_bank_1() * 4096 + (addr - 0x1000)
        }
    }

    /// CHR offset that a PPU read at `addr` reaches (before the latch updates).
    pub fn chr_offset(&self, addr: u16) -> (o: usize)
        ensures
            o == self.spec_chr_offset(addr),
    {
        if addr < 0x1000 {
            (self.chr_bank_0() as usize) * CHR_BANK_SIZE + (addr as usize)
        } else {
            (self.chr_bank_1() as usize) * CHR_BANK_SIZE + ((addr - 0x1000) as usize)
        }
    }

    /// Latch state after the PPU fetches from `addr`.
    pub open spec fn after_ppu_read(self, addr: u16) -> Mmc2State {
        if 0x0FD8 <= addr && addr <= 0x0FDF {
            Mmc2State { latch_0: false, ..self }
        } else if 0x0FE8 <= addr && addr <= 0x0FEF {
            Mmc2State { latch_0: true, ..self }
        } else if 0x1FD8 <= addr && addr <= 0x1FDF {
            Mmc2State { latch_1: false, ..self }
        } else if 0x1FE8 <= addr && addr <= 0x1FEF {
            Mmc2State { latch_1: true, ..self }
        } else {
            self
        }
    }

    /// Updates the latches after the PPU fetches from `addr`.
    pub fn update_latch(&mut self, addr: u16)
        ensures
            *final(self) == old(self).after_ppu_read(addr),
    {
        if addr >= 0x0FD8 && addr <= 0x0FDF {
            self.latch_0 = false;
        } else if addr >= 0x0FE8 && addr <= 0x0FEF {
            self.latch_0 = true;
        } else if addr >= 0x1FD8 && addr <= 0x1FDF {
            self.latch_1 = false;
        } else if addr >= 0x1FE8 && addr <= 0x1FEF {
            self.latch_1 = true;
        }
    }
}

/// A CPU write or PPU read that reaches an MMC2 board.
#[derive(Debug, Clone, Copy, PartialEq, Eq, Structural)]
pub enum Mmc2Access {
    /// The PPU reads a pattern-table address.
    PpuRead(u16),
    /// The CPU writes a value at an address.
    CpuWrite(u16, u8),
}

/// The board after the accesses `acc`, in order.
pub open spec fn after_accesses(s: Mmc2State, acc: Seq<Mmc2Access>) -> Mmc2State
    decreases acc.len(),
{
    if acc.len() == 0 {
        s
    } else {
        let t = after_accesses(s, acc.drop_last());
        match acc.last() {
            Mmc2Access::PpuRead(a) => t.after_ppu_read(a),
            Mmc2Access::CpuWrite(a, v) => t.after_cpu_write(a, v),
        }
    }
}

/// The tile that the latest latch-switching read of the pattern table at
/// `base` ($0000 or $1000) in `acc` fetched: `Some(true)` for tile $FD
/// (`base` + $0FD8–$0FDF), `Some(false)` for tile $FE (`base` +
/// $0FE8–$0FEF), `None` when there was no such read.
pub open spec fn latest_latch_tile(acc: Seq<Mmc2Access>, base: int) -> Option<bool>
    decreases acc.len(),
{
    if acc.len() == 0 {
        None
    } else {
        match acc.last() {
            Mmc2Access::PpuRead(a) => if base + 0x0FD8 <= a <= base + 0x0FDF {
                Some(true)
            } else if base + 0x0FE8 <= a <= base + 0x0FEF {
                Some(false)
            } else {
                latest_latch_tile(acc.drop_last(), base)
            },
            Mmc2Access::CpuWrite(_, _) => latest_latch_tile(acc.drop_last(), base),
        }
    }
}

/// Law: each 4 KB half shows its $FD bank exactly when the latest
/// latch-switching read of that half fetched tile $FD, and its $FE bank
/// when it fetched tile $FE; before any such read the half keeps the
/// latch it started with ($FE at power-on). Other PPU reads and CPU
/// writes never move a latch.
pub proof fn lemma_mmc2_latches_follow_latest_tile(s: Mmc2State, acc: Seq<Mmc2Access>)
    ensures
        after_accesses(s, acc).latch_0 == match latest_latch_tile(acc, 0) {
            Some(fd) => !fd,
            None => s.latch_0,
        },
        after_accesses(s, acc).latch_1 == match latest_latch_tile(acc, 0x1000) {
            Some(fd) => !fd,
            None => s.latch_1,
        },
        after_accesses(s, acc).spec_chr_bank_0() == match latest_latch_tile(acc, 0) {
            Some(true) => after_accesses(s, acc).chr_bank_0_fd,
            Some(false) => after_accesses(s, acc).chr_bank_0_fe,
            None => if s.latch_0 {
                after_accesses(s, acc).chr_bank_0_fe
            } else {
                after_accesses(s, acc).chr_bank_0_fd
            },
        },
        after_accesses(s, acc).spec_chr_bank_1() == match latest_latch_tile(acc, 0x1000) {
            Some(true) => after_accesses(s, acc).chr_bank_1_fd,
            Some(false) => after_accesses(s, acc).chr_bank_1_fe,
            None => if s.latch_1 {
                after_accesses(s, acc).chr_bank_1_fe
            } else {
                after_accesses(s, acc).chr_bank_1_fd
            },
        },
    decreases acc.len(),
{
    if acc.len() > 0 {
        lemma_mmc2_latches_follow_latest_tile(s, acc.drop_last());
    }
}

} // verus!
