//! MMC1 / `SxROM` (mapper 1) — serial shift register bank switching.
//!
//! Writes to $8000–$FFFF feed a 5-bit shift register. After 5 writes
//! the accumulated value is latched into one of four internal registers
//! (selected by bits 14–13 of the write address):
//!
//! | Address       | Register | Controls                          |
//! |---------------|----------|-----------------------------------|
//! | $8000–$9FFF   | Control  | Mirroring, PRG/CHR banking mode   |
//! | $A000–$BFFF   | CHR 0    | CHR bank for $0000–$0FFF          |
//! | $C000–$DFFF   | CHR 1    | CHR bank for $1000–$1FFF          |
//! | $E000–$FFFF   | PRG      | PRG bank select                   |

use vstd::prelude::*;
use crate::cartridge::Mirroring;

verus! {

/// Size of one PRG bank.
pub const PRG_BANK_SIZE: usize = 16_384;

/// Size of one CHR bank.
pub const CHR_BANK_SIZE: usize = 4_096;

/// MMC1 shift register and latched registers.
#[derive(Debug, Clone, Copy, PartialEq, Eq, Structural)]
pub struct Mmc1State {
    /// Number of 16 KB PRG banks.
    pub prg_bank_count: u8,
    /// 5-bit shift register.
    pub shift: u8,
    /// Number of bits written into the shift register (0–4).
    pub shift_count: u8,
    /// Control register (mirroring, PRG/CHR mode).
    pub control: u8,
    /// CHR bank 0 register.
    pub chr_bank0: u8,
    /// CHR bank 1 register.
    pub chr_bank1: u8,
    /// PRG bank register.
    pub prg_bank: u8,
}

impl Mmc1State {
    /// The state's invariant: at least one PRG bank, fewer than 5 bits shifted in.
    pub open spec fn wf(self) -> bool {
        &&& self.prg_bank_count >= 1
        &&& self.shift_count < 5
        &&& self.shift < 32
    }

    /// Power-on state for a PRG-ROM of `prg_len` bytes: PRG fixed last bank at $C000.
    pub fn new(prg_len: usize) -> (s: Mmc1State)
        ensures
            s == (Mmc1State {
                prg_bank_count: (prg_len / 16384) as u8,
                shift: 0,
                shift_count: 0,
                control: 0x0C,
                chr_bank0: 0,
                chr_bank1: 0,
                prg_bank: 0,
            }),
    {
        Mmc1State {
            prg_bank_count: (prg_len / PRG_BANK_SIZE) as u8,
            shift: 0,
            shift_count: 0,
            control: 0x0C,
            chr_bank0: 0,
            chr_bank1: 0,
            prg_bank: 0,
        }
    }

    /// Resets the shift register to its initial state.
    pub fn reset_shift(&mut self)
        ensures
            *final(self) == (Mmc1State { shift: 0, shift_count: 0, ..*old(self) }),
    {
        self.shift = 0;
        self.shift_count = 0;
    }

    /// Register that a write at `addr` latches into, with the 5-bit value `data`.
    pub open spec fn latch(self, addr: u16, data: u8) -> Mmc1State {
        if 0x8000 <= addr && addr <= 0x9FFF {
            Mmc1State { control: data, ..self }
        } else if 0xA000 <= addr && addr <= 0xBFFF {
            Mmc1State { chr_bank0: data, ..self }
        } else if 0xC000 <= addr && addr <= 0xDFFF {
            Mmc1State { chr_bank1: data, ..self }
        } else if addr >= 0xE000 {
            Mmc1State { prg_bank: data & 0x0F, ..self }
        } else {
            self
        }
    }

    /// State after a write of `val` to the serial port at `addr`.
    pub open spec fn after_write_register(self, addr: u16, val: u8) -> Mmc1State {
        if val & 0x80 != 0 {
            Mmc1State { shift: 0, shift_count: 0, control: self.control | 0x0C, ..self }
        } else {
            let shift = self.shift | ((val & 1) << self.shift_count);
            if self.shift_count + 1 < 5 {
                Mmc1State { shift, shift_count: (self.shift_count + 1) as u8, ..self }
            } else {
                (Mmc1State { shift: 0, shift_count: 0, ..self }).latch(addr, shift)
            }
        }
    }

    /// Handles a write to the shift register / register latch.
    ///
    /// Bit 7 set resets the shift register and fixes the last PRG bank;
    /// otherwise bit 0 is shifted in, and the fifth bit latches the
    /// accumulated value into the register the address selects.
    pub fn write_register(&mut self, addr: u16, val: u8)
        requires
            old(self).wf(),
        ensures
            *final(self) == old(self).after_write_register(addr, val),
            final(self).wf(),
    {
        if val & 0x80 != 0 {
            self.reset_shift();
            self.control = self.control | 0x0C;
            return;
        }
        proof {
            lemma_shift_in(self.shift, val, self.shift_count);
        }
        self.shift = self.shift | ((val & 1) << self.shift_count);
        self.shift_count = self.shift_count + 1;
        if self.shift_count < 5 {
            return;
        }
        let data = self.shift;
        self.reset_shift();
        if addr >= 0x8000 && addr <= 0x9FFF {
            self.control = data;
        } else if addr >= 0xA000 && addr <= 0xBFFF {
            self.chr_bank0 = data;
        } else if addr >= 0xC000 && addr <= 0xDFFF {
            self.chr_bank1 = data;
        } else if addr >= 0xE000 {
            self.prg_bank = data & 0x0F;
        }
    }

    /// PRG banking mode from the control register (bits 2–3).
    pub open spec fn spec_prg_mode(self) -> u8 {
        (self.control >> 2u8) & 0x03
    }

    /// PRG banking mode from the control register (bits 2–3).
    pub fn prg_mode(&self) -> (m: u8)
        ensures
            m == self.spec_prg_mode(),
            m <= 3,
    {
        proof {
            crate::bits::lemma_u8_masks();
        }
        (self.control >> 2) & 0x03
    }

    /// CHR banking mode from the control register (bit 4): two 4 KB banks.
    pub open spec fn spec_chr_mode_4k(self) -> bool {
        self.control & 0x10 != 0
    }

    /// CHR banking mode from the control register (bit 4).
    pub fn chr_mode_4k(&self) -> (b: bool)
        ensures
            b == self.spec_chr_mode_4k(),
    {
        self.control & 0x10 != 0
    }

    /// PRG-ROM offset for a CPU address in $8000–$FFFF.
    pub open spec fn spec_resolve_prg(self, addr: u16) -> int {
        let mode = self.spec_prg_mode();
        if mode <= 1 {
            (self.prg_bank & 0x0E) * 16384 + (addr - 0x8000)
        } else {
            let bank: int = if mode == 2 {
                if addr < 0xC000 { 0 } else { self.prg_bank as int }
            } else {
                if addr < 0xC000 { self.prg_bank as int } else { self.prg_bank_count - 1 }
            };
            bank * 16384 + (addr & 0x3FFF)
        }
    }

    /// Resolves a CPU address ($8000–$FFFF) to a PRG-ROM byte offset.
    pub fn resolve_prg(&self, addr: u16) -> (o: usize)
        requires
            self.wf(),
            addr >= 0x8000,
        ensures
            o == self.spec_resolve_prg(addr),
    {
        let mode = self.prg_mode();
        if mode <= 1 {
            let bank32 = (self.prg_bank & 0x0E) as usize;
            let page = (addr - 0x8000) as usize;
            return bank32 * PRG_BANK_SIZE + page;
        }
        let bank: usize = if mode == 2 {
            if addr < 0xC000 { 0 } else { self.prg_bank as usize }
        } else {
            if addr < 0xC000 { self.prg_bank as usize } else { (self.prg_bank_count - 1) as usize }
        };
        let base = addr & 0x3FFF;
        bank * PRG_BANK_SIZE + (base as usize)
    }

    /// CHR offset for a PPU address in $0000–$1FFF.
    pub open spec fn spec_resolve_chr(self, addr: u16) -> int {
        if self.spec_chr_mode_4k() {
            if addr < 0x1000 {
                self.chr_bank0 * 4096 + addr
            } else {
                self.chr_bank1 * 4096 + (addr - 0x1000)
            }
        } else {
            (self.chr_bank0 & 0x1E) * 4096 + addr
        }
    }

    /// Resolves a PPU address to a CHR byte offset.
    pub fn resolve_chr(&self, addr: u16) -> (o: usize)
        ensures
            o == self.spec_resolve_chr(addr),
    {
        if self.chr_mode_4k() {
            if addr < 0x1000 {
                (self.chr_bank0 as usize) * CHR_BANK_SIZE + (addr as usize)
            } else {
                (self.chr_bank1 as usize) * CHR_BANK_SIZE + ((addr - 0x1000) as usize)
            }
        } else {
            ((self.chr_bank0 & 0x1E) as usize) * CHR_BANK_SIZE + (addr as usize)
        }
    }

    /// Mirroring from bits 0–1 of the control register: 0 = one-screen
    /// lower page, 1 = one-screen upper page, 2 = vertical, 3 = horizontal.
    pub open spec fn spec_mirroring(self) -> Mirroring {
        if self.control & 0x03 == 0 {
            Mirroring::SingleLow
        } else if self.control & 0x03 == 1 {
            Mirroring::SingleHigh
        } else if self.control & 0x03 == 2 {
            Mirroring::Vertical
        } else {
            Mirroring::Horizontal
        }
    }

    /// Returns the mirroring mode selected by the control register.
    pub fn mirroring(&self) -> (m: Mirroring)
        ensures
            m == self.spec_mirroring(),
    {
        let mode = self.control & 0x03;
        if mode == 0 {
            Mirroring::SingleLow
        } else if mode == 1 {
            Mirroring::SingleHigh
        } else if mode == 2 {
            Mirroring::Vertical
        } else {
            Mirroring::Horizontal
        }
    }
}

/// Shifting bit 0 of `val` into position `count` keeps the register below 32.
proof fn lemma_shift_in(shift: u8, val: u8, count: u8)
    requires
        shift < 32,
        count < 5,
    ensures
        (shift | ((val & 1) << count)) < 32,
{
    assert((shift | ((val & 1) << count)) < 32) by (bit_vector)
        requires
            shift < 32,
            count < 5,
    ;
}

/// Five serial writes with bit 7 clear, starting from an empty shift
/// register, deliver bit 0 of each value, first write lowest, to the
/// register that the fifth write's address selects: control
/// ($8000–$9FFF), CHR bank 0 ($A000–$BFFF), CHR bank 1 ($C000–$DFFF)
/// or the PRG bank ($E000–$FFFF, four bits); the shift register is
/// then empty again.
pub proof fn lemma_mmc1_serial_load(
    s: Mmc1State,
    a0: u16,
    v0: u8,
    a1: u16,
    v1: u8,
    a2: u16,
    v2: u8,
    a3: u16,
    v3: u8,
    a4: u16,
    v4: u8,
)
    requires
        s.shift == 0,
        s.shift_count == 0,
        v0 < 128 && v1 < 128 && v2 < 128 && v3 < 128 && v4 < 128,
    ensures
        ({
            let t = s.after_write_register(a0, v0).after_write_register(a1, v1).after_write_register(
                a2,
                v2,
            ).after_write_register(a3, v3).after_write_register(a4, v4);
            let val = v0 % 2 + 2 * (v1 % 2) + 4 * (v2 % 2) + 8 * (v3 % 2) + 16 * (v4 % 2);
            &&& t.shift == 0 && t.shift_count == 0
            &&& 0x8000 <= a4 <= 0x9FFF ==> t.control == val
            &&& 0xA000 <= a4 <= 0xBFFF ==> t.chr_bank0 == val
            &&& 0xC000 <= a4 <= 0xDFFF ==> t.chr_bank1 == val
            &&& 0xE000 <= a4 ==> t.prg_bank == val % 16
        }),
{
    let b0 = v0 & 1;
    let b1 = v1 & 1;
    let b2 = v2 & 1;
    let b3 = v3 & 1;
    let b4 = v4 & 1;
    let sh = ((((0u8 | (b0 << 0u8)) | (b1 << 1u8)) | (b2 << 2u8)) | (b3 << 3u8)) | (b4 << 4u8);
    assert(v0 < 128 && v1 < 128 && v2 < 128 && v3 < 128 && v4 < 128 ==> v0 & 0x80 == 0 && v1 & 0x80
        == 0 && v2 & 0x80 == 0 && v3 & 0x80 == 0 && v4 & 0x80 == 0 && b0 == v0 % 2 && b1 == v1 % 2
        && b2 == v2 % 2 && b3 == v3 % 2 && b4 == v4 % 2 && sh == b0 + 2 * b1 + 4 * b2 + 8 * b3 + 16
        * b4 && (sh & 0x0F) == sh % 16) by (bit_vector)
        requires
            b0 == v0 & 1 && b1 == v1 & 1 && b2 == v2 & 1 && b3 == v3 & 1 && b4 == v4 & 1,
            sh == ((((0u8 | (b0 << 0u8)) | (b1 << 1u8)) | (b2 << 2u8)) | (b3 << 3u8)) | (b4 << 4u8),
    ;
}

/// The PRG windows in each mode of control bits 2–3: modes 0 and 1 map
/// one 32 KB bank (the PRG bank with its low bit ignored) across
/// $8000–$FFFF; mode 2 fixes the first bank at $8000 and switches
/// $C000; mode 3 switches $8000 and fixes the last bank at $C000.
pub proof fn lemma_mmc1_prg_modes(s: Mmc1State, addr: u16)
    requires
        s.wf(),
        addr >= 0x8000,
    ensures
        s.spec_prg_mode() <= 1 ==> s.spec_resolve_prg(addr) == (s.prg_bank % 16 / 2) * 32768 + (
        addr - 0x8000),
        (s.spec_prg_mode() == 2 && addr < 0xC000) ==> s.spec_resolve_prg(addr) == addr - 0x8000,
        (s.spec_prg_mode() == 2 && addr >= 0xC000) ==> s.spec_resolve_prg(addr) == s.prg_bank
            * 16384 + (addr - 0xC000),
        (s.spec_prg_mode() == 3 && addr < 0xC000) ==> s.spec_resolve_prg(addr) == s.prg_bank
            * 16384 + (addr - 0x8000),
        (s.spec_prg_mode() == 3 && addr >= 0xC000) ==> s.spec_resolve_prg(addr) == (
        s.prg_bank_count - 1) * 16384 + (addr - 0xC000),
        s.spec_prg_mode() == (s.control / 4) % 4,
{
    crate::bits::lemma_u16_masks();
    let b = s.prg_bank;
    let c = s.control;
    assert((b & 0x0E) == (b % 16 / 2) * 2 && ((c >> 2u8) & 0x03) == (c / 4) % 4) by (bit_vector);
}

} // verus!
