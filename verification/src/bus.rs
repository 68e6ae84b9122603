//! CPU memory bus and address decoding.
//!
//! | Range           | Size  | Device                         |
//! |-----------------|-------|--------------------------------|
//! | $0000 – $07FF   | 2 KB  | Internal RAM                   |
//! | $0800 – $1FFF   | —     | RAM mirrors                    |
//! | $2000 – $2007   | 8     | PPU registers                  |
//! | $2008 – $3FFF   | —     | PPU register mirrors           |
//! | $4000 – $4013   | 20    | APU registers                  |
//! | $4014           | 1     | OAM DMA                        |
//! | $4015           | 1     | APU status                     |
//! | $4016           | 1     | Controller 1                   |
//! | $4017           | 1     | Controller 2 / APU frame ctr   |
//! | $4020 – $FFFF   | ~49 K | Cartridge (PRG-ROM / mapper)   |

use vstd::prelude::*;
use crate::apu::Apu;
use crate::bits::{lemma_u16_masks, wadd8};
use crate::cartridge::Cartridge;
use crate::controller::{Buttons, Controller};
use crate::mapper::{supported_mapper, Board, Mapper, MapperError, MapperView};
use crate::ppu::{Ppu, PpuRegs, PpuView};
use crate::ppu::regs::{cpu_read_result, cpu_write_result};

verus! {

/// Size of the NES internal RAM in bytes.
pub const RAM_SIZE: usize = 2048;

/// CPU memory bus connecting RAM, PPU, controllers, APU and mapper.
///
/// The APU is owned by the emulator and parked here during each CPU
/// step so that register reads/writes at $4000–$4017 can be routed.
pub struct Bus {
    /// 2 KB internal work RAM.
    pub ram: Vec<u8>,
    /// Active mapper (the null board when no cartridge is loaded).
    pub mapper: Mapper,
    /// Temporarily holds the APU during a CPU step for register routing.
    pub apu: Option<Apu>,
    /// Player 1 controller.
    pub controller1: Controller,
    /// Player 2 controller.
    pub controller2: Controller,
}

impl Clone for Bus {
    /// A copy of the whole bus: RAM, cartridge, APU and controllers.
    fn clone(&self) -> (b: Bus)
        ensures
            b@ == self@,
    {
        let ram = self.ram.clone();
        assert(ram@ =~= self.ram@);
        Bus {
            ram,
            mapper: self.mapper.clone(),
            apu: self.apu,
            controller1: self.controller1,
            controller2: self.controller2,
        }
    }
}

/// Mathematical model of a [`Bus`].
pub struct BusView {
    pub ram: Seq<u8>,
    pub mapper: MapperView,
    pub apu: Option<Apu>,
    pub controller1: Controller,
    pub controller2: Controller,
}

impl View for Bus {
    type V = BusView;

    open spec fn view(&self) -> BusView {
        BusView {
            ram: self.ram@,
            mapper: self.mapper@,
            apu: self.apu,
            controller1: self.controller1,
            controller2: self.controller2,
        }
    }
}

impl BusView {
    /// The invariant: 2 KB of RAM, a well-formed mapper and APU.
    pub open spec fn wf(self) -> bool {
        &&& self.ram.len() == 2048
        &&& self.mapper.wf()
        &&& (self.apu matches Some(a) ==> a.wf())
    }
}

/// RAM index of a CPU address in $0000–$1FFF (2 KB mirrored four times).
pub open spec fn ram_index(addr: u16) -> int {
    (addr % 0x800) as int
}

/// A CPU read at `addr`: the value, and the bus and PPU after it.
#[verifier::opaque]
pub open spec fn bus_read(b: BusView, p: PpuView, addr: u16) -> (u8, BusView, PpuView) {
    if addr <= 0x1FFF {
        (b.ram[ram_index(addr)], b, p)
    } else if addr <= 0x3FFF {
        let (v, p2, m2) = cpu_read_result(p, b.mapper, (addr % 8) as u8);
        (v, BusView { mapper: m2, ..b }, p2)
    } else if addr == 0x4015 {
        match b.apu {
            Some(a) => (a.status_value(), BusView { apu: Some(a.after_read_status()), ..b }, p),
            None => (0, b, p),
        }
    } else if addr == 0x4016 {
        (b.controller1.read_value(), BusView { controller1: b.controller1.after_read(), ..b }, p)
    } else if addr == 0x4017 {
        (b.controller2.read_value(), BusView { controller2: b.controller2.after_read(), ..b }, p)
    } else if addr >= 0x4020 {
        (b.mapper.cpu_read_value(addr), b, p)
    } else {
        (0, b, p)
    }
}

/// A read without side effects: RAM and cartridge space only.
pub open spec fn raw_read(b: BusView, addr: u16) -> u8 {
    if addr <= 0x1FFF {
        b.ram[ram_index(addr)]
    } else if addr >= 0x4020 {
        b.mapper.cpu_read_value(addr)
    } else {
        0
    }
}

/// OAM DMA from byte `i` of page `base` on: each byte goes to OAM at
/// the OAM address, which then advances.
pub open spec fn dma_from(b: BusView, p: PpuView, base: u16, i: int) -> PpuView
    decreases 256 - i,
{
    if i >= 256 || i < 0 {
        p
    } else {
        let byte = raw_read(b, (base + i) as u16);
        let p2 = PpuView {
            oam: p.oam.update(p.r.oam_addr as int, byte),
            r: PpuRegs { oam_addr: wadd8(p.r.oam_addr, 1), ..p.r },
            ..p
        };
        dma_from(b, p2, base, i + 1)
    }
}

/// A CPU write of `val` at `addr`: the bus and PPU after it.
#[verifier::opaque]
pub open spec fn bus_write(b: BusView, p: PpuView, addr: u16, val: u8) -> (BusView, PpuView) {
    if addr <= 0x1FFF {
        (BusView { ram: b.ram.update(ram_index(addr), val), ..b }, p)
    } else if addr <= 0x3FFF {
        if b.mapper.board == Board::Null {
            (b, p)
        } else {
            let (p2, m2) = cpu_write_result(p, b.mapper, (addr % 8) as u8, val);
            (BusView { mapper: m2, ..b }, p2)
        }
    } else if addr == 0x4014 {
        (b, dma_from(b, p, (val * 256) as u16, 0))
    } else if addr == 0x4016 {
        (
            BusView {
                controller1: b.controller1.after_write(val),
                controller2: b.controller2.after_write(val),
                ..b
            },
            p,
        )
    } else if addr <= 0x4013 || addr == 0x4015 || addr == 0x4017 {
        match b.apu {
            Some(a) => (BusView { apu: Some(a.after_write_register(addr, val)), ..b }, p),
            None => (b, p),
        }
    } else if addr >= 0x4020 {
        (BusView { mapper: b.mapper.after_cpu_write(addr, val), ..b }, p)
    } else {
        (b, p)
    }
}

impl Bus {
    /// Creates a bus with zeroed RAM, no cartridge, no APU and idle controllers.
    pub fn new() -> (b: Bus)
        ensures
            b@.wf(),
            b@.ram == Seq::new(2048, |i: int| 0u8),
            b@.mapper.board == Board::Null,
            b@.apu is None,
            b@.controller1 == Controller::initial(),
            b@.controller2 == Controller::initial(),
    {
        let ram = vec![0u8; RAM_SIZE];
        assert(ram@ =~= Seq::new(2048, |i: int| 0u8));
        Bus {
            ram,
            mapper: Mapper::null(),
            apu: None,
            controller1: Controller::new(),
            controller2: Controller::new(),
        }
    }

    /// Loads a cartridge by creating the appropriate mapper.
    ///
    /// Fails with `Unsupported` when the cartridge's mapper ID is not
    /// supported; the previous mapper then stays.
    pub fn load_cartridge(&mut self, cart: Cartridge) -> (r: Result<(), MapperError>)
        requires
            old(self)@.wf(),
        ensures
            final(self)@.wf(),
            !supported_mapper(cart.mapper_id) ==> r == Err::<(), MapperError>(
                MapperError::Unsupported(cart.mapper_id),
            ) && final(self)@ == old(self)@,
            supported_mapper(cart.mapper_id) ==> r is Ok && final(self)@ == (BusView {
                mapper: crate::mapper::initial_view(cart),
                ..old(self)@
            }),
    {
        match Mapper::from_cartridge(cart) {
            Ok(m) => {
                self.mapper = m;
                Ok(())
            },
            Err(e) => Err(e),
        }
    }

    /// Updates the button state for a controller (0 = player 1, otherwise player 2).
    pub fn set_controller_buttons(&mut self, player: u8, buttons: Buttons)
        ensures
            player == 0 ==> final(self)@ == (BusView {
                controller1: old(self)@.controller1.after_set_buttons(buttons),
                ..old(self)@
            }),
            player != 0 ==> final(self)@ == (BusView {
                controller2: old(self)@.controller2.after_set_buttons(buttons),
                ..old(self)@
            }),
    {
        if player == 0 {
            self.controller1.set_buttons(buttons);
        } else {
            self.controller2.set_buttons(buttons);
        }
    }

    /// Returns `true` if a cartridge is loaded.
    pub fn has_mapper(&self) -> (b: bool)
        ensures
            b == (self@.mapper.board != Board::Null),
    {
        !self.mapper.is_null()
    }

    /// Reads a byte without side effects (used for DMC sample fetches).
    pub fn peek(&self, addr: u16) -> (v: u8)
        requires
            self@.wf(),
        ensures
            v == raw_read(self@, addr),
    {
        self.read_raw(addr)
    }

    /// Reads a byte without routing to PPU, APU, or controllers (for DMA).
    pub fn read_raw(&self, addr: u16) -> (v: u8)
        requires
            self@.wf(),
        ensures
            v == raw_read(self@, addr),
    {
        proof {
            lemma_u16_masks();
        }
        if addr <= 0x1FFF {
            self.ram[(addr & 0x07FF) as usize]
        } else if addr >= 0x4020 {
            self.mapper.cpu_read(addr)
        } else {
            0
        }
    }

    /// Reads a byte from the given CPU address.
    pub fn read(&mut self, addr: u16, ppu: &mut Ppu) -> (v: u8)
        requires
            old(self)@.wf(),
            old(ppu)@.wf(),
        ensures
            (v, final(self)@, final(ppu)@) == bus_read(old(self)@, old(ppu)@, addr),
            final(self)@.wf(),
            final(ppu)@.wf(),
    {
        proof {
            lemma_u16_masks();
            reveal(bus_read);
        }
        if addr <= 0x1FFF {
            self.ram[(addr & 0x07FF) as usize]
        } else if addr <= 0x3FFF {
            let reg = (addr & 0x0007) as u8;
            ppu.cpu_read(reg, &mut self.mapper)
        } else if addr == 0x4015 {
            match &mut self.apu {
                Some(a) => a.read_status(),
                None => 0,
            }
        } else if addr == 0x4016 {
            self.controller1.read()
        } else if addr == 0x4017 {
            self.controller2.read()
        } else if addr >= 0x4020 {
            self.mapper.cpu_read(addr)
        } else {
            0
        }
    }

    /// Writes a byte to the given CPU address.
    pub fn write(&mut self, addr: u16, val: u8, ppu: &mut Ppu)
        requires
            old(self)@.wf(),
            old(ppu)@.wf(),
        ensures
            (final(self)@, final(ppu)@) == bus_write(old(self)@, old(ppu)@, addr, val),
            final(self)@.wf(),
            final(ppu)@.wf(),
    {
        proof {
            lemma_u16_masks();
            reveal(bus_write);
        }
        if addr <= 0x1FFF {
            self.ram.set((addr & 0x07FF) as usize, val);
        } else if addr <= 0x3FFF {
            if !self.mapper.is_null() {
                let reg = (addr & 0x0007) as u8;
                ppu.cpu_write(reg, val, &mut self.mapper);
            }
        } else if addr == 0x4014 {
            self.oam_dma(val, ppu);
        } else if addr == 0x4016 {
            self.controller1.write(val);
            self.controller2.write(val);
        } else if addr <= 0x4013 || addr == 0x4015 || addr == 0x4017 {
            match &mut self.apu {
                Some(a) => a.write_register(addr, val),
                None => {},
            }
        } else if addr >= 0x4020 {
            self.mapper.cpu_write(addr, val);
        }
    }

    /// Performs OAM DMA: copies 256 bytes from CPU page `page` to PPU OAM.
    pub fn oam_dma(&self, page: u8, ppu: &mut Ppu)
        requires
            self@.wf(),
            old(ppu)@.wf(),
        ensures
            final(ppu)@ == dma_from(self@, old(ppu)@, (page * 256) as u16, 0),
            final(ppu)@.wf(),
    {
        let base: u16 = (page as u16) * 256;
        let mut i: u16 = 0;
        while i < 256
            invariant
                i <= 256,
                self@.wf(),
                ppu@.wf(),
                base == page * 256,
                dma_from(self@, ppu@, base, i as int) == dma_from(self@, old(ppu)@, base, 0),
            decreases 256 - i,
        {
            let byte = self.read_raw(base + i);
            ppu.oam_dma_write(byte);
            i = i + 1;
        }
    }
}

/// Reads of $0000–$1FFF see the same 2 KB of RAM every 2 KB: an address
/// and its mirrors read the same byte.
pub proof fn lemma_ram_mirrors(b: BusView, p: PpuView, addr: u16, k: u16)
    requires
        addr <= 0x1FFF,
        k <= 3,
        addr % 0x800 + k * 0x800 <= 0x1FFF,
    ensures
        bus_read(b, p, addr).0 == bus_read(b, p, (addr % 0x800 + k * 0x800) as u16).0,
{
    reveal(bus_read);
    reveal(bus_write);
}

/// A RAM write is read back: after writing `val` at `addr`
/// ($0000–$1FFF), reading any mirror of `addr` gives `val`, and other
/// RAM bytes keep their values.
pub proof fn lemma_ram_read_after_write(b: BusView, p: PpuView, addr: u16, other: u16, val: u8)
    requires
        b.wf(),
        addr <= 0x1FFF,
        other <= 0x1FFF,
    ensures
        ({
            let (b2, p2) = bus_write(b, p, addr, val);
            &&& addr % 0x800 == other % 0x800 ==> bus_read(b2, p2, other).0 == val
            &&& addr % 0x800 != other % 0x800 ==> bus_read(b2, p2, other).0 == bus_read(b, p, other).0
            &&& p2 == p
        }),
{
    reveal(bus_read);
    reveal(bus_write);
}

/// PPU registers repeat every 8 bytes through $2000–$3FFF.
pub proof fn lemma_ppu_register_mirrors(b: BusView, p: PpuView, addr: u16)
    requires
        0x2000 <= addr <= 0x3FF7,
    ensures
        bus_read(b, p, addr) == bus_read(b, p, (addr + 8) as u16),
{
    reveal(bus_read);
    reveal(bus_write);
}

/// Without a cartridge, reads of cartridge space give 0.
pub proof fn lemma_no_cartridge_reads_zero(b: BusView, p: PpuView, addr: u16)
    requires
        b.mapper.board == Board::Null,
        addr >= 0x4020,
    ensures
        bus_read(b, p, addr).0 == 0,
{
    reveal(bus_read);
    reveal(bus_write);
    reveal(MapperView::cpu_read_value);
}

} // verus!
