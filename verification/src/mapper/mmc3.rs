//! MMC3 / `TxROM` (mapper 4) — the most widely used NES mapper.
//!
//! - Two switchable 8 KB PRG banks + two fixed 8 KB banks
//! - Six CHR bank registers (two 2 KB + four 1 KB)
//! - Scanline counter with IRQ
//! - Dynamic mirroring
//!
//! | Address       | Even/Odd | Function                     |
//! |---------------|----------|------------------------------|
//! | $8000         | Even     | Bank select (target + mode)  |
//! | $8001         | Odd      | Bank data                    |
//! | $A000         | Even     | Mirroring                    |
//! | $A001         | Odd      | PRG-RAM protect (ignored)    |
//! | $C000         | Even     | IRQ latch value              |
//! | $C001         | Odd      | IRQ reload flag              |
//! | $E000         | Even     | IRQ disable + acknowledge    |
//! | $E001         | Odd      | IRQ enable                   |

use vstd::prelude::*;
use crate::cartridge::Mirroring;

verus! {

/// Size of one PRG bank.
pub const PRG_BANK_SIZE: usize = 8_192;

/// Size of one CHR bank unit.
pub const CHR_BANK_1K: usize = 1_024;

/// MMC3 registers and scanline counter.
#[derive(Debug, Clone, Copy, PartialEq, Eq, Structural)]
pub struct Mmc3State {
    /// Number of 8 KB PRG banks (as a byte).
    pub prg_bank_count: u8,
    /// Number of 1 KB CHR banks.
    pub chr_bank_count: u16,
    /// Target register for next $8001 write (bits 0–2 of $8000).
    pub bank_target: u8,
    /// PRG bank mode (bit 6 of $8000).
    pub prg_mode: bool,
    /// CHR bank mode (bit 7 of $8000).
    pub chr_mode: bool,
    /// Bank registers R0–R7.
    pub r0: u8,
    pub r1: u8,
    pub r2: u8,
    pub r3: u8,
    pub r4: u8,
    pub r5: u8,
    pub r6: u8,
    pub r7: u8,
    /// Nametable mirroring.
    pub mirroring: Mirroring,
    /// Scanline counter latch value (written via $C000).
    pub irq_latch: u8,
    /// Current scanline counter.
    pub irq_counter: u8,
    /// Counter should reload on next scanline tick.
    pub irq_reload: bool,
    /// IRQ output is enabled.
    pub irq_enabled: bool,
    /// An IRQ is pending delivery to the CPU.
    pub irq_pending: bool,
}

impl Mmc3State {
    /// The state's invariant: the two fixed PRG banks and a CHR bank exist.
    pub open spec fn wf(self) -> bool {
        &&& self.prg_bank_count >= 2
        &&& self.chr_bank_count >= 1
        &&& self.bank_target < 8
    }

    /// Power-on state for the given PRG size, CHR size and mirroring.
    pub fn new(prg_len: usize, chr_len: usize, mirroring: Mirroring) -> (s: Mmc3State)
        requires
            chr_len / 1024 <= 0xFFFF,
        ensures
            s == (Mmc3State {
                prg_bank_count: (prg_len / 8192) as u8,
                chr_bank_count: (chr_len / 1024) as u16,
                bank_target: 0,
                prg_mode: false,
                chr_mode: false,
                r0: 0,
                r1: 0,
                r2: 0,
                r3: 0,
                r4: 0,
                r5: 0,
                r6: 0,
                r7: 0,
                mirroring,
                irq_latch: 0,
                irq_counter: 0,
                irq_reload: false,
                irq_enabled: false,
                irq_pending: false,
            }),
    {
        Mmc3State {
            prg_bank_count: (prg_len / PRG_BANK_SIZE) as u8,
            chr_bank_count: (chr_len / CHR_BANK_1K) as u16,
            bank_target: 0,
            prg_mode: false,
            chr_mode: false,
            r0: 0,
            r1: 0,
            r2: 0,
            r3: 0,
            r4: 0,
            r5: 0,
            r6: 0,
            r7: 0,
            mirroring,
            irq_latch: 0,
            irq_counter: 0,
            irq_reload: false,
            irq_enabled: false,
            irq_pending: false,
        }
    }

    /// Bank register `i` (0–7).
    pub open spec fn spec_reg(self, i: int) -> u8 {
        if i == 0 {
            self.r0
        } else if i == 1 {
            self.r1
        } else if i == 2 {
            self.r2
        } else if i == 3 {
            self.r3
        } else if i == 4 {
            self.r4
        } else if i == 5 {
            self.r5
        } else if i == 6 {
            self.r6
        } else {
            self.r7
        }
    }

    /// Returns bank register `i` (0–7).
    pub fn reg(&self, i: usize) -> (v: u8)
        requires
            i < 8,
        ensures
            v == self.spec_reg(i as int),
    {
        match i {
            0 => self.r0,
            1 => self.r1,
            2 => self.r2,
            3 => self.r3,
            4 => self.r4,
            5 => self.r5,
            6 => self.r6,
            _ => self.r7,
        }
    }

    /// State with bank register `i` set to `v`.
    pub open spec fn with_reg(self, i: int, v: u8) -> Mmc3State {
        if i == 0 {
            Mmc3State { r0: v, ..self }
        } else if i == 1 {
            Mmc3State { r1: v, ..self }
        } else if i == 2 {
            Mmc3State { r2: v, ..self }
        } else if i == 3 {
            Mmc3State { r3: v, ..self }
        } else if i == 4 {
            Mmc3State { r4: v, ..self }
        } else if i == 5 {
            Mmc3State { r5: v, ..self }
        } else if i == 6 {
            Mmc3State { r6: v, ..self }
        } else {
            Mmc3State { r7: v, ..self }
        }
    }

    /// Sets bank register `i` (0–7).
    pub fn set_reg(&mut self, i: usize, v: u8)
        requires
            i < 8,
        ensures
            *final(self) == old(self).with_reg(i as int, v),
    {
        match i {
            0 => self.r0 = v,
            1 => self.r1 = v,
            2 => self.r2 = v,
            3 => self.r3 = v,
            4 => self.r4 = v,
            5 => self.r5 = v,
            6 => self.r6 = v,
            _ => self.r7 = v,
        }
    }

    /// PRG bank mapped at a CPU address in $8000–$FFFF.
    pub open spec fn spec_prg_bank(self, addr: u16) -> int {
        if (0x8000 <= addr && addr <= 0x9FFF && !self.prg_mode) || (0xC000 <= addr && addr
            <= 0xDFFF && self.prg_mode) {
            (self.r6 % self.prg_bank_count) as int
        } else if 0xA000 <= addr && addr <= 0xBFFF {
            (self.r7 % self.prg_bank_count) as int
        } else if 0xE000 <= addr {
            self.prg_bank_count - 1
        } else {
            self.prg_bank_count - 2
        }
    }

    /// PRG-ROM offset for a CPU address in $8000–$FFFF.
    pub open spec fn spec_resolve_prg(self, addr: u16) -> int {
        self.spec_prg_bank(addr) * 8192 + (addr & 0x1FFF)
    }

    /// Resolves a CPU address ($8000–$FFFF) to a PRG-ROM offset.
    pub fn resolve_prg(&self, addr: u16) -> (o: usize)
        requires
            self.wf(),
            addr >= 0x8000,
        ensures
            o == self.spec_resolve_prg(addr),
    {
        let bank: usize = if (addr <= 0x9FFF && !self.prg_mode) || (addr >= 0xC000 && addr
            <= 0xDFFF && self.prg_mode) {
            (self.r6 % self.prg_bank_count) as usize
        } else if addr >= 0xA000 && addr <= 0xBFFF {
            (self.r7 % self.prg_bank_count) as usize
        } else if addr >= 0xE000 {
            (self.prg_bank_count - 1) as usize
        } else {
            (self.prg_bank_count - 2) as usize
        };
        bank * PRG_BANK_SIZE + ((addr & 0x1FFF) as usize)
    }

    /// 1 KB CHR bank selected for slot `slot` (0–7) before the modulo.
    pub open spec fn spec_slot_bank(self, slot: int) -> int {
        let r0 = (self.r0 & 0xFE) as int;
        let r1 = (self.r1 & 0xFE) as int;
        if self.chr_mode {
            if slot == 0 {
                self.r2 as int
            } else if slot == 1 {
                self.r3 as int
            } else if slot == 2 {
                self.r4 as int
            } else if slot == 3 {
                self.r5 as int
            } else if slot == 4 || slot == 5 {
                r0 + slot % 2
            } else {
                r1 + slot % 2
            }
        } else {
            if slot == 0 || slot == 1 {
                r0 + slot % 2
            } else if slot == 2 || slot == 3 {
                r1 + slot % 2
            } else if slot == 4 {
                self.r2 as int
            } else if slot == 5 {
                self.r3 as int
            } else if slot == 6 {
                self.r4 as int
            } else {
                self.r5 as int
            }
        }
    }

    /// CHR offset for a PPU address in $0000–$1FFF.
    pub open spec fn spec_resolve_chr(self, addr: u16) -> int {
        let slot = addr / 1024;
        (self.spec_slot_bank(slot as int) % (self.chr_bank_count as int)) * 1024 + addr % 1024
    }

    /// Resolves a PPU address ($0000–$1FFF) to a CHR offset.
    ///
    /// CHR mode 0: R0/R1 are 2 KB banks at $0000/$0800, R2–R5 1 KB banks at
    /// $1000–$1C00; CHR mode 1 swaps the two halves.
    pub fn resolve_chr(&self, addr: u16) -> (o: usize)
        requires
            self.wf(),
        ensures
            o == self.spec_resolve_chr(addr),
    {
        let a = addr as usize;
        let slot = a / CHR_BANK_1K;
        let r0 = (self.r0 & 0xFE) as usize;
        let r1 = (self.r1 & 0xFE) as usize;
        let bank: usize = if self.chr_mode {
            if slot == 0 {
                self.r2 as usize
            } else if slot == 1 {
                self.r3 as usize
            } else if slot == 2 {
                self.r4 as usize
            } else if slot == 3 {
                self.r5 as usize
            } else if slot == 4 || slot == 5 {
                r0 + (slot % 2)
            } else {
                r1 + (slot % 2)
            }
        } else {
            if slot == 0 || slot == 1 {
                r0 + (slot % 2)
            } else if slot == 2 || slot == 3 {
                r1 + (slot % 2)
            } else if slot == 4 {
                self.r2 as usize
            } else if slot == 5 {
                self.r3 as usize
            } else if slot == 6 {
                self.r4 as usize
            } else {
                self.r5 as usize
            }
        };
        let bank = bank % (self.chr_bank_count as usize);
        bank * CHR_BANK_1K + (a % CHR_BANK_1K)
    }

    /// State after a CPU write at `addr`.
    pub open spec fn after_cpu_write(self, addr: u16, val: u8) -> Mmc3State {
        let even = addr % 2 == 0;
        if addr < 0x8000 {
            self
        } else if addr <= 0x9FFF {
            if even {
                Mmc3State {
                    bank_target: val & 0x07,
                    prg_mode: val & 0x40 != 0,
                    chr_mode: val & 0x80 != 0,
                    ..self
                }
            } else {
                self.with_reg(self.bank_target as int, val)
            }
        } else if addr <= 0xBFFF {
            if even {
                Mmc3State {
                    mirroring: if val & 1 != 0 { Mirroring::Horizontal } else { Mirroring::Vertical },
                    ..self
                }
            } else {
                self
            }
        } else if addr <= 0xDFFF {
            if even {
                Mmc3State { irq_latch: val, ..self }
            } else {
                Mmc3State { irq_reload: true, ..self }
            }
        } else {
            if even {
                Mmc3State { irq_enabled: false, irq_pending: false, ..self }
            } else {
                Mmc3State { irq_enabled: true, ..self }
            }
        }
    }

    /// Handles a CPU write to the MMC3 registers.
    pub fn cpu_write(&mut self, addr: u16, val: u8)
        requires
            old(self).wf(),
        ensures
            *final(self) == old(self).after_cpu_write(addr, val),
            final(self).wf(),
    {
        if addr < 0x8000 {
            return;
        }
        let even = addr % 2 == 0;
        if addr <= 0x9FFF {
            if even {
                proof {
                    crate::bits::lemma_u8_masks();
                }
                self.bank_target = val & 0x07;
                self.prg_mode = val & 0x40 != 0;
                self.chr_mode = val & 0x80 != 0;
            } else {
                let target = self.bank_target as usize;
                self.set_reg(target, val);
            }
        } else if addr <= 0xBFFF {
            if even {
                self.mirroring = if val & 1 != 0 {
                    Mirroring::Horizontal
                } else {
                    Mirroring::Vertical
                };
            }
        } else if addr <= 0xDFFF {
            if even {
                self.irq_latch = val;
            } else {
                self.irq_reload = true;
            }
        } else {
            if even {
                self.irq_enabled = false;
                self.irq_pending = false;
            } else {
                self.irq_enabled = true;
            }
        }
    }

    /// State after the PPU signals the end of a rendered scanline.
    pub open spec fn after_scanline(self) -> Mmc3State {
        let counter = if self.irq_counter == 0 || self.irq_reload {
            self.irq_latch
        } else {
            (self.irq_counter - 1) as u8
        };
        let reload = if self.irq_counter == 0 || self.irq_reload { false } else { self.irq_reload };
        Mmc3State {
            irq_counter: counter,
            irq_reload: reload,
            irq_pending: if counter == 0 && self.irq_enabled { true } else { self.irq_pending },
            ..self
        }
    }

    /// Clocks the scanline counter: reloads it when it is zero or a
    /// reload was requested, otherwise decrements it, and raises the IRQ
    /// when it reaches zero with IRQs enabled.
    pub fn notify_scanline(&mut self)
        ensures
            *final(self) == old(self).after_scanline(),
    {
        if self.irq_counter == 0 || self.irq_reload {
            self.irq_counter = self.irq_latch;
            self.irq_reload = false;
        } else {
            self.irq_counter = self.irq_counter - 1;
        }
        if self.irq_counter == 0 && self.irq_enabled {
            self.irq_pending = true;
        }
    }
}

/// The state after `k` scanline clocks.
pub open spec fn scanlines(s: Mmc3State, k: nat) -> Mmc3State
    decreases k,
{
    if k == 0 {
        s
    } else {
        scanlines(s, (k - 1) as nat).after_scanline()
    }
}

/// The scanline counter fires after the programmed number of scanlines:
/// once a reload is requested with latch `n >= 1` and IRQs enabled, the
/// first clock reloads `n`, each later clock counts down, and the IRQ
/// is raised at clock `n + 1` and not before.
pub proof fn lemma_irq_after_latch_scanlines(s: Mmc3State, k: nat)
    requires
        s.irq_reload,
        s.irq_enabled,
        !s.irq_pending,
        s.irq_latch >= 1,
        k <= s.irq_latch + 1,
    ensures
        scanlines(s, k).irq_pending == (k == s.irq_latch + 1),
        scanlines(s, k).irq_enabled,
        scanlines(s, k).irq_latch == s.irq_latch,
        k >= 1 ==> !scanlines(s, k).irq_reload && scanlines(s, k).irq_counter == s.irq_latch - (k
            - 1),
    decreases k,
{
    if k > 0 {
        lemma_irq_after_latch_scanlines(s, (k - 1) as nat);
    }
}

/// Where each 8 KB PRG window of the CPU space points: $A000–$BFFF to
/// bank R7 and $E000–$FFFF to the last bank; $8000–$9FFF and
/// $C000–$DFFF to bank R6 and the second-last bank, R6 at $8000 in PRG
/// mode 0 and at $C000 in PRG mode 1. Banks wrap at the bank count and
/// the offset within the window is kept.
pub proof fn lemma_mmc3_prg_windows(s: Mmc3State, addr: u16)
    requires
        s.wf(),
        addr >= 0x8000,
    ensures
        0x8000 <= addr <= 0x9FFF ==> s.spec_resolve_prg(addr) == (if s.prg_mode {
            s.prg_bank_count - 2
        } else {
            (s.r6 % s.prg_bank_count) as int
        }) * 8192 + (addr - 0x8000),
        0xA000 <= addr <= 0xBFFF ==> s.spec_resolve_prg(addr) == (s.r7 % s.prg_bank_count) * 8192
            + (addr - 0xA000),
        0xC000 <= addr <= 0xDFFF ==> s.spec_resolve_prg(addr) == (if s.prg_mode {
            (s.r6 % s.prg_bank_count) as int
        } else {
            s.prg_bank_count - 2
        }) * 8192 + (addr - 0xC000),
        0xE000 <= addr ==> s.spec_resolve_prg(addr) == (s.prg_bank_count - 1) * 8192 + (addr
            - 0xE000),
{
    assert((addr & 0x1FFF) == addr % 0x2000) by (bit_vector);
}

/// Selecting R6 with a bank-select write ($8000–$9FFF, even) and then
/// writing bank `b` to it ($8000–$9FFF, odd): with bit 6 of the select
/// value set, $C000–$DFFF shows bank `b` and $8000–$9FFF the
/// second-last bank; with it clear, the other way round.
pub proof fn lemma_mmc3_prg_mode_swaps_r6(s: Mmc3State, a1: u16, sel: u8, a2: u16, b: u8, addr: u16)
    requires
        s.wf(),
        0x8000 <= a1 <= 0x9FFF,
        a1 % 2 == 0,
        sel & 0x07 == 6,
        0x8000 <= a2 <= 0x9FFF,
        a2 % 2 == 1,
    ensures
        ({
            let t = s.after_cpu_write(a1, sel).after_cpu_write(a2, b);
            let n = s.prg_bank_count as int;
            &&& (sel & 0x40 != 0 && 0xC000 <= addr <= 0xDFFF) ==> t.spec_resolve_prg(addr) == (b as int
                % n) * 8192 + (addr - 0xC000)
            &&& (sel & 0x40 != 0 && 0x8000 <= addr <= 0x9FFF) ==> t.spec_resolve_prg(addr) == (n
                - 2) * 8192 + (addr - 0x8000)
            &&& (sel & 0x40 == 0 && 0x8000 <= addr <= 0x9FFF) ==> t.spec_resolve_prg(addr) == (b as int
                % n) * 8192 + (addr - 0x8000)
            &&& (sel & 0x40 == 0 && 0xC000 <= addr <= 0xDFFF) ==> t.spec_resolve_prg(addr) == (n
                - 2) * 8192 + (addr - 0xC000)
        }),
{
    assert((addr & 0x1FFF) == addr % 0x2000) by (bit_vector);
    let t1 = s.after_cpu_write(a1, sel);
    assert(t1.bank_target == 6);
    assert(t1.prg_mode == (sel & 0x40 != 0));
    let t = t1.after_cpu_write(a2, b);
    assert(t.r6 == b);
    assert(t.prg_mode == t1.prg_mode);
    assert(t.prg_bank_count == s.prg_bank_count);
}

/// The CHR windows: in CHR mode 0, $0000–$07FF shows the 2 KB bank
/// R0 (its low bit ignored), $0800–$0FFF the 2 KB bank R1, and
/// $1000–$1FFF the 1 KB banks R2–R5 in order; CHR mode 1 swaps the two
/// 4 KB halves. Banks wrap at the bank count and the offset within a
/// 1 KB bank is kept.
pub proof fn lemma_mmc3_chr_windows(s: Mmc3State, addr: u16)
    requires
        s.wf(),
        addr < 0x2000,
    ensures
        ({
            let n = s.chr_bank_count as int;
            let m0 = Mmc3State { chr_mode: false, ..s };
            let m1 = Mmc3State { chr_mode: true, ..s };
            let within = addr % 1024;
            &&& addr < 0x0800 ==> m0.spec_resolve_chr(addr) == ((s.r0 as int / 2) * 2 + addr / 1024) % n
                * 1024 + within
            &&& 0x0800 <= addr < 0x1000 ==> m0.spec_resolve_chr(addr) == ((s.r1 as int / 2) * 2 + (addr
                - 0x0800) / 1024) % n * 1024 + within
            &&& 0x1000 <= addr < 0x1400 ==> m0.spec_resolve_chr(addr) == (s.r2 as int % n) * 1024 + within
            &&& 0x1400 <= addr < 0x1800 ==> m0.spec_resolve_chr(addr) == (s.r3 as int % n) * 1024 + within
            &&& 0x1800 <= addr < 0x1C00 ==> m0.spec_resolve_chr(addr) == (s.r4 as int % n) * 1024 + within
            &&& 0x1C00 <= addr ==> m0.spec_resolve_chr(addr) == (s.r5 as int % n) * 1024 + within
            &&& addr < 0x1000 ==> m1.spec_resolve_chr(addr) == m0.spec_resolve_chr(
                (addr + 0x1000) as u16,
            )
            &&& addr >= 0x1000 ==> m1.spec_resolve_chr(addr) == m0.spec_resolve_chr(
                (addr - 0x1000) as u16,
            )
        }),
{
    let r0 = s.r0;
    let r1 = s.r1;
    assert((r0 & 0xFE) == (r0 / 2) * 2 && (r1 & 0xFE) == (r1 / 2) * 2) by (bit_vector);
}

} // verus!
