//! Cartridge mappers: how a cartridge's PRG-ROM and CHR memory are
//! wired into the CPU and PPU address spaces.
//!
//! A [`Mapper`] holds the cartridge memory and the bank-switching state
//! of its board. The CPU bus delegates cartridge-space reads and writes
//! to it, and the PPU delegates pattern-table accesses.

use vstd::prelude::*;
use crate::cartridge::{Cartridge, Mirroring};

pub mod axrom;
pub mod camerica;
pub mod cnrom;
pub mod color_dreams;
pub mod gxrom;
pub mod mmc1;
pub mod mmc2;
pub mod mmc3;
pub mod nrom;
pub mod uxrom;

use axrom::AxromState;
use camerica::CamericaState;
use cnrom::CnromState;
use color_dreams::ColorDreamsState;
use gxrom::GxromState;
use mmc1::Mmc1State;
use mmc2::Mmc2State;
use mmc3::Mmc3State;
use uxrom::UxromState;

verus! {

/// Size of the CHR-RAM that boards without CHR-ROM provide.
pub const CHR_RAM_SIZE: usize = 8192;

/// The board of a cartridge and its bank-switching state.
#[derive(Debug, Clone, Copy, PartialEq, Eq, Structural)]
pub enum Board {
    /// No cartridge: reads give 0, writes are ignored.
    Null,
    /// Mapper 0.
    Nrom,
    /// Mapper 1.
    Mmc1(Mmc1State),
    /// Mapper 2.
    Uxrom(UxromState),
    /// Mapper 3.
    Cnrom(CnromState),
    /// Mapper 4.
    Mmc3(Mmc3State),
    /// Mapper 7.
    Axrom(AxromState),
    /// Mapper 9.
    Mmc2(Mmc2State),
    /// Mapper 11.
    ColorDreams(ColorDreamsState),
    /// Mapper 66.
    Gxrom(GxromState),
    /// Mapper 71.
    Camerica(CamericaState),
}

/// Why a cartridge could not be given a mapper.
#[derive(Debug, Clone, Copy, PartialEq, Eq, Structural)]
pub enum MapperError {
    /// The cartridge's mapper ID is not supported.
    Unsupported(u8),
}

/// A cartridge's memory and board.
pub struct Mapper {
    /// PRG-ROM.
    pub prg: Vec<u8>,
    /// CHR-ROM, or CHR-RAM when `chr_is_ram`.
    pub chr: Vec<u8>,
    /// Whether PPU writes reach the CHR memory.
    pub chr_is_ram: bool,
    /// Mirroring announced by the cartridge header.
    pub mirroring: Mirroring,
    /// The board and its state.
    pub board: Board,
}

/// Mathematical model of a [`Mapper`].
pub struct MapperView {
    pub prg: Seq<u8>,
    pub chr: Seq<u8>,
    pub chr_is_ram: bool,
    pub mirroring: Mirroring,
    pub board: Board,
}

impl Clone for Mapper {
    /// A copy of the cartridge memory and the board state.
    fn clone(&self) -> (m: Mapper)
        ensures
            m@ == self@,
    {
        let prg = self.prg.clone();
        let chr = self.chr.clone();
        assert(prg@ =~= self.prg@);
        assert(chr@ =~= self.chr@);
        Mapper { prg, chr, chr_is_ram: self.chr_is_ram, mirroring: self.mirroring, board: self.board }
    }
}

impl View for Mapper {
    type V = MapperView;

    open spec fn view(&self) -> MapperView {
        MapperView {
            prg: self.prg@,
            chr: self.chr@,
            chr_is_ram: self.chr_is_ram,
            mirroring: self.mirroring,
            board: self.board,
        }
    }
}

/// Byte `i` of `s`, or 0 outside it.
pub open spec fn byte_at(s: Seq<u8>, i: int) -> u8 {
    if 0 <= i < s.len() {
        s[i]
    } else {
        0
    }
}

/// Whether mapper `id` is implemented.
pub open spec fn supported_mapper(id: u8) -> bool {
    id == 0 || id == 1 || id == 2 || id == 3 || id == 4 || id == 7 || id == 9 || id == 11 || id
        == 66 || id == 71
}

/// Whether a cartridge of mapper `id` with the given ROM sizes fills its
/// board: the fixed banks the board maps exist, and no bank number
/// overflows the board's counters.
pub open spec fn cartridge_fits(id: u8, prg_len: int, chr_len: int) -> bool {
    &&& prg_len <= 255 * 16384
    &&& chr_len <= 255 * 8192
    &&& if id == 0 || id == 3 {
        prg_len > 0
    } else if id == 1 || id == 2 {
        prg_len >= 16384
    } else if id == 4 {
        16384 <= prg_len <= 255 * 8192 && (chr_len == 0 || chr_len >= 1024)
    } else if id == 9 {
        24576 <= prg_len <= 255 * 8192
    } else {
        true
    }
}

/// Whether `id` names an implemented mapper.
pub fn is_supported_mapper(id: u8) -> (b: bool)
    ensures
        b == supported_mapper(id),
{
    id == 0 || id == 1 || id == 2 || id == 3 || id == 4 || id == 7 || id == 9 || id == 11 || id
        == 66 || id == 71
}

/// `rom` fitted to a board that maps it in banks of `bank` bytes, needs
/// at least `min_banks` of them and addresses at most `max_len` bytes:
/// a longer ROM is cut at `max_len`; a ROM with at least one bank but
/// fewer than `min_banks` repeats its first bank; a ROM shorter than one
/// bank is padded with zeros.
pub open spec fn fit_rom(rom: Seq<u8>, bank: int, min_banks: int, max_len: int) -> Seq<u8> {
    if rom.len() > max_len {
        rom.take(max_len)
    } else if rom.len() >= min_banks * bank {
        rom
    } else if rom.len() >= bank {
        Seq::new((min_banks * bank) as nat, |i: int| rom[i % bank])
    } else {
        rom + Seq::new((min_banks * bank - rom.len()) as nat, |i: int| 0u8)
    }
}

/// The PRG-ROM a board of mapper `id` runs with.
pub open spec fn fitted_prg(id: u8, prg: Seq<u8>) -> Seq<u8> {
    if id == 0 || id == 3 {
        fit_rom(prg, 1, 1, 255int * 16384)
    } else if id == 1 || id == 2 {
        fit_rom(prg, 16384, 1, 255int * 16384)
    } else if id == 4 {
        fit_rom(prg, 8192, 2, 255int * 8192)
    } else if id == 9 {
        fit_rom(prg, 8192, 3, 255int * 8192)
    } else {
        fit_rom(prg, 1, 0, 255int * 16384)
    }
}

/// The CHR-ROM a board of mapper `id` runs with (empty for CHR-RAM).
pub open spec fn fitted_chr(id: u8, chr: Seq<u8>) -> Seq<u8> {
    if id == 4 && chr.len() > 0 {
        fit_rom(chr, 1024, 1, 255int * 8192)
    } else {
        fit_rom(chr, 1, 0, 255int * 8192)
    }
}

/// Fits `rom` to a board (see [`fit_rom`]).
fn fit_vec(rom: Vec<u8>, bank: usize, min_banks: usize, max_len: usize) -> (r: Vec<u8>)
    requires
        bank > 0,
        min_banks * bank <= max_len,
        max_len <= 255 * 16384,
    ensures
        r@ == fit_rom(rom@, bank as int, min_banks as int, max_len as int),
{
    let mut rom = rom;
    let len = rom.len();
    let total = min_banks * bank;
    if len > max_len {
        rom.truncate(max_len);
        rom
    } else if len >= total {
        rom
    } else if len >= bank {
        let ghost src = rom@;
        let mut out: Vec<u8> = Vec::new();
        let mut i: usize = 0;
        while i < total
            invariant
                i <= total,
                total == min_banks * bank,
                bank > 0,
                rom@ == src,
                src.len() >= bank,
                out@ =~= Seq::new(i as nat, |j: int| src[j % (bank as int)]),
            decreases total - i,
        {
            let k: usize = i % bank;
            out.push(rom[k]);
            i = i + 1;
            assert(out@ =~= Seq::new(i as nat, |j: int| src[j % (bank as int)]));
        }
        out
    } else {
        let ghost src = rom@;
        let mut i: usize = len;
        while i < total
            invariant
                len <= i <= total,
                len == src.len(),
                rom@ =~= src + Seq::new((i - len) as nat, |j: int| 0u8),
            decreases total - i,
        {
            rom.push(0);
            i = i + 1;
            assert(rom@ =~= src + Seq::new((i - len) as nat, |j: int| 0u8));
        }
        rom
    }
}

/// The PRG-ROM of a cartridge of mapper `id`, fitted to its board.
fn fit_prg(id: u8, prg: Vec<u8>) -> (r: Vec<u8>)
    ensures
        r@ == fitted_prg(id, prg@),
{
    if id == 0 || id == 3 {
        fit_vec(prg, 1, 1, 255 * 16384)
    } else if id == 1 || id == 2 {
        fit_vec(prg, 16384, 1, 255 * 16384)
    } else if id == 4 {
        fit_vec(prg, 8192, 2, 255 * 8192)
    } else if id == 9 {
        fit_vec(prg, 8192, 3, 255 * 8192)
    } else {
        fit_vec(prg, 1, 0, 255 * 16384)
    }
}

/// The CHR-ROM of a cartridge of mapper `id`, fitted to its board.
fn fit_chr(id: u8, chr: Vec<u8>) -> (r: Vec<u8>)
    ensures
        r@ == fitted_chr(id, chr@),
{
    if id == 4 && chr.len() > 0 {
        fit_vec(chr, 1024, 1, 255 * 8192)
    } else {
        fit_vec(chr, 1, 0, 255 * 8192)
    }
}

/// Every supported board runs with ROMs that fill it.
pub proof fn lemma_fitted_roms_fill_the_board(id: u8, prg: Seq<u8>, chr: Seq<u8>)
    requires
        supported_mapper(id),
    ensures
        cartridge_fits(id, fitted_prg(id, prg).len() as int, fitted_chr(id, chr).len() as int),
{
}

/// A cartridge whose ROMs already fill its board runs with them unchanged.
pub proof fn lemma_fitting_roms_unchanged(id: u8, prg: Seq<u8>, chr: Seq<u8>)
    requires
        cartridge_fits(id, prg.len() as int, chr.len() as int),
    ensures
        fitted_prg(id, prg) == prg,
        fitted_chr(id, chr) == chr,
{
}

/// CHR memory of a board that uses CHR-RAM when the cartridge has no CHR-ROM.
pub open spec fn ram_if_empty(chr: Seq<u8>) -> Seq<u8> {
    if chr.len() == 0 {
        Seq::new(8192, |i: int| 0u8)
    } else {
        chr
    }
}

/// The mapper that a supported cartridge powers on with: its ROMs fitted
/// to the board (see [`fitted_prg`], [`fitted_chr`]).
pub open spec fn initial_view(c: Cartridge) -> MapperView {
    initial_mapper(
        fitted_prg(c.mapper_id, c.prg_rom@),
        fitted_chr(c.mapper_id, c.chr_rom@),
        c.mapper_id,
        c.mirroring,
    )
}

/// The mapper of board `id` powered on with PRG-ROM `prg`, CHR-ROM
/// `rom` (CHR-RAM when empty) and header mirroring `m`.
pub open spec fn initial_mapper(prg: Seq<u8>, rom: Seq<u8>, id: u8, m: Mirroring) -> MapperView {
    let ram = Seq::new(8192, |i: int| 0u8);
    if id == 0 {
        MapperView { prg, chr: ram_if_empty(rom), chr_is_ram: rom.len() == 0, mirroring: m, board: Board::Nrom }
    } else if id == 1 {
        MapperView {
            prg,
            chr: ram_if_empty(rom),
            chr_is_ram: rom.len() == 0,
            mirroring: m,
            board: Board::Mmc1(
                Mmc1State {
                    prg_bank_count: (prg.len() / 16384) as u8,
                    shift: 0,
                    shift_count: 0,
                    control: 0x0C,
                    chr_bank0: 0,
                    chr_bank1: 0,
                    prg_bank: 0,
                },
            ),
        }
    } else if id == 2 {
        MapperView {
            prg,
            chr: ram,
            chr_is_ram: true,
            mirroring: m,
            board: Board::Uxrom(UxromState { bank_select: 0, bank_count: (prg.len() / 16384) as u8 }),
        }
    } else if id == 3 {
        MapperView {
            prg,
            chr: rom,
            chr_is_ram: false,
            mirroring: m,
            board: Board::Cnrom(
                CnromState {
                    chr_bank: 0,
                    chr_bank_count: cnrom::spec_bank_count_min1(rom.len() as int, 8192),
                },
            ),
        }
    } else if id == 4 {
        MapperView {
            prg,
            chr: ram_if_empty(rom),
            chr_is_ram: rom.len() == 0,
            mirroring: m,
            board: Board::Mmc3(
                Mmc3State {
                    prg_bank_count: (prg.len() / 8192) as u8,
                    chr_bank_count: (ram_if_empty(rom).len() / 1024) as u16,
                    bank_target: 0,
                    prg_mode: false,
                    chr_mode: false,
                    r0: 0,
                    r1: 0,
                    r2: 0,
                    r3: 0,
                    r4: 0,
                    r5: 0,
                    r6: 0,
                    r7: 0,
                    mirroring: m,
                    irq_latch: 0,
                    irq_counter: 0,
                    irq_reload: false,
                    irq_enabled: false,
                    irq_pending: false,
                },
            ),
        }
    } else if id == 7 {
        MapperView {
            prg,
            chr: ram,
            chr_is_ram: true,
            mirroring: m,
            board: Board::Axrom(
                AxromState {
                    bank_select: 0,
                    bank_count: cnrom::spec_bank_count_min1(prg.len() as int, 32768),
                    nametable: 0,
                },
            ),
        }
    } else if id == 9 {
        MapperView {
            prg,
            chr: rom,
            chr_is_ram: false,
            mirroring: m,
            board: Board::Mmc2(
                Mmc2State {
                    prg_bank_count: (prg.len() / 8192) as u8,
                    prg_bank: 0,
                    chr_bank_0_fd: 0,
                    chr_bank_0_fe: 0,
                    chr_bank_1_fd: 0,
                    chr_bank_1_fe: 0,
                    latch_0: true,
                    latch_1: true,
                    mirroring: m,
                },
            ),
        }
    } else if id == 11 {
        MapperView {
            prg,
            chr: rom,
            chr_is_ram: false,
            mirroring: m,
            board: Board::ColorDreams(
                ColorDreamsState {
                    prg_bank: 0,
                    chr_bank: 0,
                    prg_bank_count: cnrom::spec_bank_count_min1(prg.len() as int, 32768),
                    chr_bank_count: cnrom::spec_bank_count_min1(rom.len() as int, 8192),
                },
            ),
        }
    } else if id == 66 {
        MapperView {
            prg,
            chr: rom,
            chr_is_ram: false,
            mirroring: m,
            board: Board::Gxrom(
                GxromState {
                    prg_bank: 0,
                    chr_bank: 0,
                    prg_bank_count: cnrom::spec_bank_count_min1(prg.len() as int, 32768),
                    chr_bank_count: cnrom::spec_bank_count_min1(rom.len() as int, 8192),
                },
            ),
        }
    } else {
        MapperView {
            prg,
            chr: ram,
            chr_is_ram: true,
            mirroring: m,
            board: Board::Camerica(
                CamericaState {
                    bank_select: 0,
                    bank_count: cnrom::spec_bank_count_min1(prg.len() as int, 16384),
                },
            ),
        }
    }
}

impl MapperView {
    /// The mapper's invariant: the banks its board maps exist.
    pub open spec fn wf(self) -> bool {
        match self.board {
            Board::Null => true,
            Board::Nrom => self.prg.len() > 0 && self.chr.len() > 0,
            Board::Mmc1(s) => s.wf(),
            Board::Uxrom(s) => s.wf(),
            Board::Cnrom(s) => s.wf() && self.prg.len() > 0,
            Board::Mmc3(s) => s.wf(),
            Board::Axrom(s) => s.wf(),
            Board::Mmc2(s) => s.wf(),
            Board::ColorDreams(s) => s.wf(),
            Board::Gxrom(s) => s.wf(),
            Board::Camerica(s) => s.wf(),
        }
    }

    /// PRG-ROM offset that a CPU read at `addr` reaches, if any.
    pub open spec fn prg_offset(self, addr: u16) -> Option<int> {
        match self.board {
            Board::Null => None,
            Board::Nrom => nrom::spec_prg_offset(addr, self.prg.len() as int),
            Board::Mmc1(s) => if addr < 0x8000 {
                None
            } else {
                Some(s.spec_resolve_prg(addr))
            },
            Board::Uxrom(s) => s.spec_prg_offset(addr),
            Board::Cnrom(s) => nrom::spec_prg_offset(addr, self.prg.len() as int),
            Board::Mmc3(s) => if addr < 0x8000 {
                None
            } else {
                Some(s.spec_resolve_prg(addr))
            },
            Board::Axrom(s) => s.spec_prg_offset(addr),
            Board::Mmc2(s) => s.spec_prg_offset(addr),
            Board::ColorDreams(s) => s.spec_prg_offset(addr),
            Board::Gxrom(s) => s.spec_prg_offset(addr),
            Board::Camerica(s) => s.spec_prg_offset(addr),
        }
    }

    /// The byte a CPU read at `addr` returns ($4020–$FFFF).
    #[verifier::opaque]
    pub open spec fn cpu_read_value(self, addr: u16) -> u8 {
        match self.prg_offset(addr) {
            Some(o) => byte_at(self.prg, o),
            None => 0,
        }
    }

    /// The mapper after a CPU write at `addr` ($4020–$FFFF).
    #[verifier::opaque]
    pub open spec fn after_cpu_write(self, addr: u16, val: u8) -> MapperView {
        let board = match self.board {
            Board::Mmc1(s) => if addr >= 0x8000 {
                Board::Mmc1(s.after_write_register(addr, val))
            } else {
                self.board
            },
            Board::Uxrom(s) => Board::Uxrom(s.after_cpu_write(addr, val)),
            Board::Cnrom(s) => Board::Cnrom(s.after_cpu_write(addr, val)),
            Board::Mmc3(s) => Board::Mmc3(s.after_cpu_write(addr, val)),
            Board::Axrom(s) => Board::Axrom(s.after_cpu_write(addr, val)),
            Board::Mmc2(s) => Board::Mmc2(s.after_cpu_write(addr, val)),
            Board::ColorDreams(s) => Board::ColorDreams(s.after_cpu_write(addr, val)),
            Board::Gxrom(s) => Board::Gxrom(s.after_cpu_write(addr, val)),
            Board::Camerica(s) => Board::Camerica(s.after_cpu_write(addr, val)),
            _ => self.board,
        };
        MapperView { board, ..self }
    }

    /// CHR offset that a PPU access at `addr` ($0000–$1FFF) reaches, if any.
    pub open spec fn chr_offset(self, addr: u16) -> Option<int> {
        match self.board {
            Board::Null => None,
            Board::Nrom => Some((addr as int) % (self.chr.len() as int)),
            Board::Mmc1(s) => Some(s.spec_resolve_chr(addr)),
            Board::Uxrom(s) => Some(addr as int),
            Board::Cnrom(s) => Some(s.spec_chr_offset(addr)),
            Board::Mmc3(s) => Some(s.spec_resolve_chr(addr)),
            Board::Axrom(s) => Some(addr as int),
            Board::Mmc2(s) => Some(s.spec_chr_offset(addr)),
            Board::ColorDreams(s) => Some(s.spec_chr_offset(addr)),
            Board::Gxrom(s) => Some(s.spec_chr_offset(addr)),
            Board::Camerica(s) => Some(addr as int),
        }
    }

    /// The byte a PPU read at `addr` ($0000–$1FFF) returns.
    #[verifier::opaque]
    pub open spec fn ppu_read_value(self, addr: u16) -> u8 {
        match self.chr_offset(addr) {
            Some(o) => byte_at(self.chr, o),
            None => 0,
        }
    }

    /// The mapper after a PPU read at `addr` (only MMC2's latches change).
    #[verifier::opaque]
    pub open spec fn after_ppu_read(self, addr: u16) -> MapperView {
        match self.board {
            Board::Mmc2(s) => MapperView { board: Board::Mmc2(s.after_ppu_read(addr)), ..self },
            _ => self,
        }
    }

    /// The mapper after a PPU write at `addr` ($0000–$1FFF): CHR-RAM
    /// takes the byte, CHR-ROM ignores it.
    #[verifier::opaque]
    pub open spec fn after_ppu_write(self, addr: u16, val: u8) -> MapperView {
        match self.chr_offset(addr) {
            Some(o) => if self.chr_is_ram && 0 <= o < self.chr.len() {
                MapperView { chr: self.chr.update(o, val), ..self }
            } else {
                self
            },
            None => self,
        }
    }

    /// The nametable mirroring in effect.
    pub open spec fn mirroring_value(self) -> Mirroring {
        match self.board {
            Board::Null => Mirroring::Horizontal,
            Board::Mmc1(s) => s.spec_mirroring(),
            Board::Mmc3(s) => s.mirroring,
            Board::Axrom(s) => s.spec_mirroring(),
            Board::Mmc2(s) => s.mirroring,
            _ => self.mirroring,
        }
    }

    /// Whether the board asserts an IRQ.
    pub open spec fn irq_pending_value(self) -> bool {
        match self.board {
            Board::Mmc3(s) => s.irq_pending,
            _ => false,
        }
    }

    /// The mapper after the PPU finishes a rendered scanline.
    pub open spec fn after_scanline(self) -> MapperView {
        match self.board {
            Board::Mmc3(s) => MapperView { board: Board::Mmc3(s.after_scanline()), ..self },
            _ => self,
        }
    }

    /// The mapper after its IRQ is acknowledged.
    pub open spec fn after_irq_clear(self) -> MapperView {
        match self.board {
            Board::Mmc3(s) => MapperView { board: Board::Mmc3(Mmc3State { irq_pending: false, ..s }), ..self },
            _ => self,
        }
    }
}

impl Mapper {
    /// The mapper of an empty cartridge slot.
    pub fn null() -> (m: Mapper)
        ensures
            m@.board == Board::Null,
            m@.prg.len() == 0,
            m@.chr.len() == 0,
            !m@.chr_is_ram,
            m@.wf(),
    {
        Mapper { prg: Vec::new(), chr: Vec::new(), chr_is_ram: false, mirroring: Mirroring::Horizontal, board: Board::Null }
    }

    /// Whether a cartridge is present.
    pub fn is_null(&self) -> (b: bool)
        ensures
            b == (self@.board == Board::Null),
    {
        match self.board {
            Board::Null => true,
            _ => false,
        }
    }

    /// Creates the mapper for the given cartridge.
    ///
    /// Fails with `Unsupported` when the cartridge's mapper ID is not
    /// one of 0, 1, 2, 3, 4, 7, 9, 11, 66 and 71. A ROM too short or too
    /// long for its board is fitted to it (see [`fitted_prg`]).
    pub fn from_cartridge(cart: Cartridge) -> (r: Result<Mapper, MapperError>)
        ensures
            !supported_mapper(cart.mapper_id) ==> r == Err::<Mapper, MapperError>(
                MapperError::Unsupported(cart.mapper_id),
            ),
            supported_mapper(cart.mapper_id) ==> r is Ok && r->Ok_0@ == initial_view(cart)
                && r->Ok_0@.wf(),
    {
        let id = cart.mapper_id;
        if !is_supported_mapper(id) {
            return Err(MapperError::Unsupported(id));
        }
        let ghost c = cart;
        let mirroring = cart.mirroring;
        let prg = fit_prg(id, cart.prg_rom);
        let rom = fit_chr(id, cart.chr_rom);
        proof {
            lemma_fitted_roms_fill_the_board(id, c.prg_rom@, c.chr_rom@);
        }
        let prg_len = prg.len();
        let rom_len = rom.len();
        let (chr, chr_is_ram, board) = if id == 0 || id == 1 || id == 4 {
            let is_ram = rom_len == 0;
            let chr = if is_ram { vec![0u8; CHR_RAM_SIZE] } else { rom };
            assert(chr@ =~= ram_if_empty(fitted_chr(id, c.chr_rom@)));
            let board = if id == 0 {
                Board::Nrom
            } else if id == 1 {
                Board::Mmc1(Mmc1State::new(prg_len))
            } else {
                Board::Mmc3(Mmc3State::new(prg_len, chr.len(), mirroring))
            };
            (chr, is_ram, board)
        } else if id == 2 || id == 7 || id == 71 {
            let chr = vec![0u8; CHR_RAM_SIZE];
            assert(chr@ =~= Seq::new(8192, |i: int| 0u8));
            let board = if id == 2 {
                Board::Uxrom(UxromState::new(prg_len))
            } else if id == 7 {
                Board::Axrom(AxromState::new(prg_len))
            } else {
                Board::Camerica(CamericaState::new(prg_len))
            };
            (chr, true, board)
        } else {
            let board = if id == 3 {
                Board::Cnrom(CnromState::new(rom_len))
            } else if id == 9 {
                Board::Mmc2(Mmc2State::new(prg_len, mirroring))
            } else if id == 11 {
                Board::ColorDreams(ColorDreamsState::new(prg_len, rom_len))
            } else {
                Board::Gxrom(GxromState::new(prg_len, rom_len))
            };
            (rom, false, board)
        };
        Ok(Mapper { prg, chr, chr_is_ram, mirroring, board })
    }

    /// Reads a byte from the CPU address space ($4020–$FFFF).
    pub fn cpu_read(&self, addr: u16) -> (v: u8)
        requires
            self@.wf(),
        ensures
            v == self@.cpu_read_value(addr),
    {
        proof {
            reveal(MapperView::cpu_read_value);
        }
        let off: Option<usize> = match &self.board {
            Board::Null => None,
            Board::Nrom => nrom::prg_offset(addr, self.prg.len()),
            Board::Mmc1(s) => if addr < 0x8000 {
                None
            } else {
                Some(s.resolve_prg(addr))
            },
            Board::Uxrom(s) => s.prg_offset(addr),
            Board::Cnrom(s) => nrom::prg_offset(addr, self.prg.len()),
            Board::Mmc3(s) => if addr < 0x8000 {
                None
            } else {
                Some(s.resolve_prg(addr))
            },
            Board::Axrom(s) => s.prg_offset(addr),
            Board::Mmc2(s) => s.prg_offset(addr),
            Board::ColorDreams(s) => s.prg_offset(addr),
            Board::Gxrom(s) => s.prg_offset(addr),
            Board::Camerica(s) => s.prg_offset(addr),
        };
        match off {
            Some(o) => if o < self.prg.len() {
                self.prg[o]
            } else {
                0
            },
            None => 0,
        }
    }

    /// Writes a byte to the CPU address space ($4020–$FFFF); most boards
    /// use writes to the ROM region to control their bank registers.
    pub fn cpu_write(&mut self, addr: u16, val: u8)
        requires
            old(self)@.wf(),
        ensures
            final(self)@ == old(self)@.after_cpu_write(addr, val),
            final(self)@.wf(),
    {
        proof {
            reveal(MapperView::after_cpu_write);
        }
        match &mut self.board {
            Board::Mmc1(s) => if addr >= 0x8000 {
                s.write_register(addr, val);
            },
            Board::Uxrom(s) => s.cpu_write(addr, val),
            Board::Cnrom(s) => s.cpu_write(addr, val),
            Board::Mmc3(s) => s.cpu_write(addr, val),
            Board::Axrom(s) => s.cpu_write(addr, val),
            Board::Mmc2(s) => s.cpu_write(addr, val),
            Board::ColorDreams(s) => s.cpu_write(addr, val),
            Board::Gxrom(s) => s.cpu_write(addr, val),
            Board::Camerica(s) => s.cpu_write(addr, val),
            _ => {},
        }
    }

    /// CHR offset for a PPU access at `addr`, if the board has CHR memory.
    fn chr_offset(&self, addr: u16) -> (r: Option<usize>)
        requires
            self@.wf(),
        ensures
            r matches Some(o) ==> self@.chr_offset(addr) == Some(o as int),
            r is None ==> self@.chr_offset(addr) is None,
    {
        match &self.board {
            Board::Null => None,
            Board::Nrom => Some(nrom::chr_offset(addr, self.chr.len())),
            Board::Mmc1(s) => Some(s.resolve_chr(addr)),
            Board::Uxrom(_) => Some(addr as usize),
            Board::Cnrom(s) => Some(s.chr_offset(addr)),
            Board::Mmc3(s) => Some(s.resolve_chr(addr)),
            Board::Axrom(_) => Some(addr as usize),
            Board::Mmc2(s) => Some(s.chr_offset(addr)),
            Board::ColorDreams(s) => Some(s.chr_offset(addr)),
            Board::Gxrom(s) => Some(s.chr_offset(addr)),
            Board::Camerica(_) => Some(addr as usize),
        }
    }

    /// Reads a byte from the PPU address space ($0000–$1FFF).
    ///
    /// On MMC2 the read also moves the CHR latches.
    pub fn ppu_read(&mut self, addr: u16) -> (v: u8)
        requires
            old(self)@.wf(),
        ensures
            v == old(self)@.ppu_read_value(addr),
            final(self)@ == old(self)@.after_ppu_read(addr),
            final(self)@.wf(),
    {
        proof {
            reveal(MapperView::ppu_read_value);
            reveal(MapperView::after_ppu_read);
        }
        let v = match self.chr_offset(addr) {
            Some(o) => if o < self.chr.len() {
                self.chr[o]
            } else {
                0
            },
            None => 0,
        };
        match &mut self.board {
            Board::Mmc2(s) => s.update_latch(addr),
            _ => {},
        }
        v
    }

    /// Writes a byte to the PPU address space ($0000–$1FFF); only
    /// CHR-RAM takes it.
    pub fn ppu_write(&mut self, addr: u16, val: u8)
        requires
            old(self)@.wf(),
        ensures
            final(self)@ == old(self)@.after_ppu_write(addr, val),
            final(self)@.wf(),
    {
        proof {
            reveal(MapperView::after_ppu_write);
        }
        if self.chr_is_ram {
            match self.chr_offset(addr) {
                Some(o) => if o < self.chr.len() {
                    self.chr.set(o, val);
                },
                None => {},
            }
        }
    }

    /// Returns the current nametable mirroring mode.
    pub fn mirroring(&self) -> (m: Mirroring)
        ensures
            m == self@.mirroring_value(),
    {
        match &self.board {
            Board::Null => Mirroring::Horizontal,
            Board::Mmc1(s) => s.mirroring(),
            Board::Mmc3(s) => s.mirroring,
            Board::Axrom(s) => s.mirroring(),
            Board::Mmc2(s) => s.mirroring,
            _ => self.mirroring,
        }
    }

    /// Signals the end of a rendered scanline (clocks MMC3's counter).
    pub fn notify_scanline(&mut self)
        ensures
            final(self)@ == old(self)@.after_scanline(),
            old(self)@.wf() ==> final(self)@.wf(),
    {
        match &mut self.board {
            Board::Mmc3(s) => s.notify_scanline(),
            _ => {},
        }
    }

    /// Whether the board asserts an IRQ.
    pub fn irq_pending(&self) -> (b: bool)
        ensures
            b == self@.irq_pending_value(),
    {
        match &self.board {
            Board::Mmc3(s) => s.irq_pending,
            _ => false,
        }
    }

    /// Acknowledges the board's IRQ.
    pub fn irq_clear(&mut self)
        ensures
            final(self)@ == old(self)@.after_irq_clear(),
            old(self)@.wf() ==> final(self)@.wf(),
    {
        match &mut self.board {
            Board::Mmc3(s) => s.irq_pending = false,
            _ => {},
        }
    }
}

/// The fields of a bank-select byte as numbers.
pub(crate) proof fn lemma_register_fields(v: u8)
    ensures
        v & 0x03 == v % 4,
        v & 0x07 == v % 8,
        v & 0x0F == v % 16,
        v >> 4u8 == v / 16,
        (v >> 4u8) & 1 == v / 16 % 2,
        (v >> 4u8) & 0x03 == v / 16 % 4,
{
    assert(v & 0x03 == v % 4 && v & 0x07 == v % 8 && v & 0x0F == v % 16 && v >> 4u8 == v / 16 && (v
        >> 4u8) & 1 == v / 16 % 2 && (v >> 4u8) & 0x03 == v / 16 % 4) by (bit_vector);
}

} // verus!
