//! iNES ROM image parsing.
//!
//! An iNES file has a 16-byte header followed by an optional 512-byte
//! trainer, the PRG-ROM (code) and the optional CHR-ROM (graphics)
//! banks. The header encodes the mapper number, which determines how
//! the cartridge's address space is wired.
//!
//! ## iNES header layout (bytes 0–15)
//!
//! | Offset | Content                               |
//! |--------|---------------------------------------|
//! | 0–3    | Magic: `NES\x1A`                      |
//! | 4      | PRG-ROM size in 16 KB units           |
//! | 5      | CHR-ROM size in 8 KB units            |
//! | 6      | Flags 6 (mapper low, mirroring, etc.) |
//! | 7      | Flags 7 (mapper high, format)         |
//! | 9      | Flags 9 (bit 0: TV system)            |
//! | 8–15   | Extended flags / padding              |

use vstd::prelude::*;
use crate::region::Region;

verus! {

/// Size of the iNES header.
pub const HEADER_SIZE: usize = 16;

/// Size of the optional trainer.
pub const TRAINER_SIZE: usize = 512;

/// Size of one PRG-ROM bank.
pub const PRG_BANK_SIZE: usize = 16_384;

/// Size of one CHR-ROM bank.
pub const CHR_BANK_SIZE: usize = 8_192;

/// Nametable mirroring mode.
#[derive(Debug, Clone, Copy, PartialEq, Eq, Structural)]
pub enum Mirroring {
    /// Horizontal arrangement (vertical mirroring).
    Horizontal,
    /// Vertical arrangement (horizontal mirroring).
    Vertical,
    /// Four-screen VRAM (cartridge-provided).
    FourScreen,
    /// All four nametables show the low physical page.
    SingleLow,
    /// All four nametables show the high physical page.
    SingleHigh,
}

/// Why an iNES image was rejected.
#[derive(Debug, Clone, Copy, PartialEq, Eq, Structural)]
pub enum CartridgeError {
    /// The image does not start with the magic bytes `NES\x1A`.
    BadMagic,
    /// The image is shorter than its header says it is.
    Truncated,
}

/// Parsed iNES header fields.
#[derive(Debug, Clone, Copy, PartialEq, Eq, Structural)]
pub struct Header {
    pub prg_banks: u8,
    pub chr_banks: u8,
    pub flags6: u8,
    pub flags7: u8,
    pub flags9: u8,
}

/// Mapper number encoded by flags 6 and 7.
pub open spec fn spec_mapper_id(flags6: u8, flags7: u8) -> u8 {
    (flags7 & 0xF0) | (flags6 >> 4u8)
}

/// Nametable mirroring encoded by flags 6.
pub open spec fn spec_header_mirroring(flags6: u8) -> Mirroring {
    if flags6 & 0x08 != 0 {
        Mirroring::FourScreen
    } else if flags6 & 0x01 != 0 {
        Mirroring::Vertical
    } else {
        Mirroring::Horizontal
    }
}

/// TV region encoded by flags 9.
pub open spec fn spec_header_region(flags9: u8) -> Region {
    if flags9 & 0x01 != 0 {
        Region::Pal
    } else {
        Region::Ntsc
    }
}

impl Header {
    /// Mapper ID from flags 6 and 7.
    pub fn mapper_id(&self) -> (id: u8)
        ensures
            id == spec_mapper_id(self.flags6, self.flags7),
    {
        (self.flags7 & 0xF0) | (self.flags6 >> 4)
    }

    /// Nametable mirroring mode from flags 6.
    pub fn mirroring(&self) -> (m: Mirroring)
        ensures
            m == spec_header_mirroring(self.flags6),
    {
        if self.flags6 & 0x08 != 0 {
            Mirroring::FourScreen
        } else if self.flags6 & 0x01 != 0 {
            Mirroring::Vertical
        } else {
            Mirroring::Horizontal
        }
    }

    /// Whether a 512-byte trainer is present before PRG-ROM.
    pub fn has_trainer(&self) -> (b: bool)
        ensures
            b == (self.flags6 & 0x04 != 0),
    {
        self.flags6 & 0x04 != 0
    }

    /// TV region from flags 9 (bit 0 set: PAL).
    pub fn region(&self) -> (r: Region)
        ensures
            r == spec_header_region(self.flags9),
    {
        if self.flags9 & 0x01 != 0 {
            Region::Pal
        } else {
            Region::Ntsc
        }
    }
}

/// Whether the image starts with the magic bytes `NES\x1A`.
pub open spec fn has_magic(d: Seq<u8>) -> bool {
    &&& d.len() >= 4
    &&& d[0] == 0x4E
    &&& d[1] == 0x45
    &&& d[2] == 0x53
    &&& d[3] == 0x1A
}

/// Length of the trainer that the header announces.
pub open spec fn trainer_len(d: Seq<u8>) -> int {
    if d[6] & 0x04 != 0 {
        512
    } else {
        0
    }
}

/// Offset of the PRG-ROM in the image.
pub open spec fn prg_start(d: Seq<u8>) -> int {
    16 + trainer_len(d)
}

/// Length of the PRG-ROM that the header announces.
pub open spec fn prg_len(d: Seq<u8>) -> int {
    d[4] * 16384
}

/// Length of the CHR-ROM that the header announces.
pub open spec fn chr_len(d: Seq<u8>) -> int {
    d[5] * 8192
}

/// Whether the image is long enough for everything its header announces.
pub open spec fn complete_image(d: Seq<u8>) -> bool {
    &&& d.len() >= 16
    &&& d.len() >= prg_start(d) + prg_len(d) + chr_len(d)
}

/// Parsed iNES cartridge image.
pub struct Cartridge {
    /// Program ROM.
    pub prg_rom: Vec<u8>,
    /// Character ROM (tile/sprite data). Empty if CHR-RAM is used.
    pub chr_rom: Vec<u8>,
    /// Mapper number (iNES mapper ID).
    pub mapper_id: u8,
    /// Nametable mirroring mode.
    pub mirroring: Mirroring,
    /// TV region announced by the header.
    pub region: Region,
}

/// Whether `c` is the cartridge that the image `d` describes.
pub open spec fn describes(d: Seq<u8>, c: Cartridge) -> bool {
    &&& c.prg_rom@ == d.subrange(prg_start(d), prg_start(d) + prg_len(d))
    &&& c.chr_rom@ == d.subrange(
        prg_start(d) + prg_len(d),
        prg_start(d) + prg_len(d) + chr_len(d),
    )
    &&& c.mapper_id == spec_mapper_id(d[6], d[7])
    &&& c.mirroring == spec_header_mirroring(d[6])
    &&& c.region == spec_header_region(d[9])
}

/// Copies `len` bytes of `data` starting at `start`.
fn copy_range(data: &[u8], start: usize, len: usize) -> (v: Vec<u8>)
    requires
        start + len <= data@.len(),
    ensures
        v@ == data@.subrange(start as int, start + len),
{
    let mut v: Vec<u8> = Vec::with_capacity(len);
    let mut i: usize = 0;
    while i < len
        invariant
            i <= len,
            start + len <= data.len(),
            v@ == data@.subrange(start as int, start + i),
        decreases len - i,
    {
        v.push(data[start + i]);
        i = i + 1;
        assert(v@ =~= data@.subrange(start as int, start + i));
    }
    v
}

/// Parses the 16-byte iNES header.
pub fn parse_header(data: &[u8]) -> (r: Result<Header, CartridgeError>)
    ensures
        !has_magic(data@) ==> r == Err::<Header, CartridgeError>(CartridgeError::BadMagic),
        has_magic(data@) && data@.len() < 16 ==> r == Err::<Header, CartridgeError>(
            CartridgeError::Truncated,
        ),
        has_magic(data@) && data@.len() >= 16 ==> r == Ok::<Header, CartridgeError>(
            Header {
                prg_banks: data@[4],
                chr_banks: data@[5],
                flags6: data@[6],
                flags7: data@[7],
                flags9: data@[9],
            },
        ),
{
    if data.len() < 4 || data[0] != 0x4E || data[1] != 0x45 || data[2] != 0x53 || data[3] != 0x1A {
        return Err(CartridgeError::BadMagic);
    }
    if data.len() < HEADER_SIZE {
        return Err(CartridgeError::Truncated);
    }
    Ok(Header { prg_banks: data[4], chr_banks: data[5], flags6: data[6], flags7: data[7], flags9: data[9] })
}

/// Parses a complete iNES image: the header, an optional 512-byte
/// trainer (skipped), then the PRG-ROM and CHR-ROM the header announces.
fn parse_ines(data: &[u8]) -> (r: Result<Cartridge, CartridgeError>)
    ensures
        !has_magic(data@) ==> r is Err && r->Err_0 == CartridgeError::BadMagic,
        has_magic(data@) && !complete_image(data@) ==> r is Err && r->Err_0
            == CartridgeError::Truncated,
        has_magic(data@) && complete_image(data@) ==> r is Ok && describes(data@, r->Ok_0),
{
    let header = match parse_header(data) {
        Ok(h) => h,
        Err(e) => return Err(e),
    };
    let trainer: usize = if header.has_trainer() { TRAINER_SIZE } else { 0 };
    let prg_size: usize = (header.prg_banks as usize) * PRG_BANK_SIZE;
    let chr_size: usize = (header.chr_banks as usize) * CHR_BANK_SIZE;
    let prg_off: usize = HEADER_SIZE + trainer;
    if data.len() < prg_off || data.len() - prg_off < prg_size || data.len() - prg_off
        - prg_size < chr_size {
        return Err(CartridgeError::Truncated);
    }
    let prg_rom = copy_range(data, prg_off, prg_size);
    let chr_rom = copy_range(data, prg_off + prg_size, chr_size);
    Ok(Cartridge {
        prg_rom,
        chr_rom,
        mapper_id: header.mapper_id(),
        mirroring: header.mirroring(),
        region: header.region(),
    })
}

impl Cartridge {
    /// Parses an iNES-format ROM image from raw bytes.
    ///
    /// Fails with `BadMagic` when the image does not start with
    /// `NES\x1A`, and with `Truncated` when it is shorter than the
    /// header, trainer, PRG-ROM and CHR-ROM it announces.
    pub fn from_ines(data: &[u8]) -> (r: Result<Cartridge, CartridgeError>)
        ensures
            !has_magic(data@) ==> r is Err && r->Err_0 == CartridgeError::BadMagic,
            has_magic(data@) && !complete_image(data@) ==> r is Err && r->Err_0
                == CartridgeError::Truncated,
            has_magic(data@) && complete_image(data@) ==> r is Ok && describes(data@, r->Ok_0),
    {
        parse_ines(data)
    }

    /// Returns the mapper ID.
    pub fn mapper_id(&self) -> (id: u8)
        ensures
            id == self.mapper_id,
    {
        self.mapper_id
    }

    /// Returns the PRG-ROM data.
    pub fn prg_rom(&self) -> (s: &[u8])
        ensures
            s@ == self.prg_rom@,
    {
        self.prg_rom.as_slice()
    }

    /// Returns the CHR-ROM data.
    pub fn chr_rom(&self) -> (s: &[u8])
        ensures
            s@ == self.chr_rom@,
    {
        self.chr_rom.as_slice()
    }

    /// Returns the nametable mirroring mode.
    pub fn mirroring(&self) -> (m: Mirroring)
        ensures
            m == self.mirroring,
    {
        self.mirroring
    }

    /// Returns the TV region the header announces.
    pub fn region(&self) -> (r: Region)
        ensures
            r == self.region,
    {
        self.region
    }
}

} // verus!
