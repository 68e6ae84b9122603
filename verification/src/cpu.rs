//! MOS 6502 CPU (NES variant 2A03 — no decimal mode).
//!
//! The CPU executes instructions from the memory bus, updating its
//! internal registers and status flags. It does not own memory;
//! all reads and writes go through the [`Bus`].

use vstd::prelude::*;
use crate::bits::{wadd8, wsub8};
use crate::bus::{bus_read, bus_write, Bus, BusView};
use crate::ppu::{Ppu, PpuView};

pub mod addr;
pub mod handlers;
pub mod laws;
pub mod opcodes;
pub mod run;
pub mod step;

use step::{StepOk, StepResult};

verus! {

/// Carry flag.
pub const CARRY: u8 = 0x01;
/// Zero flag.
pub const ZERO: u8 = 0x02;
/// IRQ disable flag.
pub const IRQ_DISABLE: u8 = 0x04;
/// Decimal mode (not used on NES but the flag exists).
pub const DECIMAL: u8 = 0x08;
/// Break flag (set on BRK, PHP).
pub const BREAK: u8 = 0x10;
/// Unused flag (always set).
pub const UNUSED: u8 = 0x20;
/// Overflow flag.
pub const OVERFLOW: u8 = 0x40;
/// Negative flag.
pub const NEGATIVE: u8 = 0x80;

/// NMI vector address in CPU memory.
pub const NMI_VECTOR: u16 = 0xFFFA;
/// Reset vector address in CPU memory.
pub const RESET_VECTOR: u16 = 0xFFFC;
/// IRQ/BRK vector address in CPU memory.
pub const IRQ_VECTOR: u16 = 0xFFFE;

/// NES CPU registers and cycle counter.
#[derive(Debug, Clone, Copy, PartialEq, Eq, Structural)]
pub struct Cpu {
    /// Accumulator.
    pub a: u8,
    /// X index register.
    pub x: u8,
    /// Y index register.
    pub y: u8,
    /// Stack pointer (offset into page $01).
    pub sp: u8,
    /// Program counter.
    pub pc: u16,
    /// Processor status flags.
    pub status: u8,
    /// Elapsed cycle count.
    pub cycles: u64,
    /// NMI has been requested (processed before next instruction).
    pub nmi_pending: bool,
    /// IRQ has been requested (processed if `IRQ_DISABLE` is clear).
    pub irq_pending: bool,
}

/// Whether flag `f` is set in `status`.
pub open spec fn flag(status: u8, f: u8) -> bool {
    status & f != 0
}

/// `status` with flag `f` set or cleared.
pub open spec fn with_flag(status: u8, f: u8, v: bool) -> u8 {
    if v {
        status | f
    } else {
        status & !f
    }
}

/// `status` with Zero and Negative set from `val`.
pub open spec fn with_nz(status: u8, val: u8) -> u8 {
    with_flag(with_flag(status, ZERO, val == 0), NEGATIVE, val & 0x80 != 0)
}

/// Cycle counter addition modulo 2^64.
pub open spec fn wadd64(x: u64, y: u64) -> u64 {
    if x + y > u64::MAX {
        (x + y - 0x1_0000_0000_0000_0000) as u64
    } else {
        (x + y) as u64
    }
}

/// Address of stack slot `sp` (page $01).
pub open spec fn stack_addr(sp: u8) -> u16 {
    (0x100 + sp) as u16
}

/// The CPU, bus and PPU together, as the CPU sees them.
pub struct Machine {
    pub cpu: Cpu,
    pub bus: BusView,
    pub ppu: PpuView,
}

/// The machine made of a CPU, a bus and a PPU.
pub open spec fn machine(cpu: Cpu, bus: BusView, ppu: PpuView) -> Machine {
    Machine { cpu, bus, ppu }
}

impl Machine {
    /// The invariant of the bus and PPU.
    pub open spec fn wf(self) -> bool {
        self.bus.wf() && self.ppu.wf()
    }

    /// The machine with its CPU replaced.
    pub open spec fn with_cpu(self, cpu: Cpu) -> Machine {
        Machine { cpu, ..self }
    }

    /// A CPU read at `addr`: the value and the machine after it.
    pub open spec fn read(self, addr: u16) -> (u8, Machine) {
        let (v, b, p) = bus_read(self.bus, self.ppu, addr);
        (v, Machine { bus: b, ppu: p, ..self })
    }

    /// The machine after a CPU write of `val` at `addr`.
    pub open spec fn write(self, addr: u16, val: u8) -> Machine {
        let (b, p) = bus_write(self.bus, self.ppu, addr, val);
        Machine { bus: b, ppu: p, ..self }
    }

    /// The machine after `val` is pushed: written at the stack pointer,
    /// which then moves down.
    pub open spec fn push(self, val: u8) -> Machine {
        let m = self.write(stack_addr(self.cpu.sp), val);
        m.with_cpu(Cpu { sp: wsub8(self.cpu.sp, 1), ..m.cpu })
    }

    /// A pop: the stack pointer moves up and the byte there is read.
    pub open spec fn pop(self) -> (u8, Machine) {
        let sp = wadd8(self.cpu.sp, 1);
        self.with_cpu(Cpu { sp, ..self.cpu }).read(stack_addr(sp))
    }

    /// The machine after a 16-bit push (high byte first).
    pub open spec fn push_u16(self, val: u16) -> Machine {
        self.push((val / 256) as u8).push((val % 256) as u8)
    }

    /// A 16-bit pop (low byte first).
    pub open spec fn pop_u16(self) -> (u16, Machine) {
        let (lo, m1) = self.pop();
        let (hi, m2) = m1.pop();
        ((hi * 256 + lo) as u16, m2)
    }

    /// The interrupt sequence: push PC and status (Break clear, Unused
    /// set), set IRQ disable, load PC from `vector`, count 7 cycles.
    pub open spec fn interrupt(self, vector: u16) -> Machine {
        let m1 = self.push_u16(self.cpu.pc);
        let m2 = m1.push((m1.cpu.status & !BREAK) | UNUSED);
        let m3 = m2.with_cpu(Cpu { status: m2.cpu.status | IRQ_DISABLE, ..m2.cpu });
        let (lo, m4) = m3.read(vector);
        let (hi, m5) = m4.read((vector + 1) as u16);
        m5.with_cpu(Cpu { pc: (hi * 256 + lo) as u16, cycles: wadd64(m5.cpu.cycles, 7), ..m5.cpu })
    }
}

/// The power-on register state.
pub open spec fn power_on() -> Cpu {
    Cpu {
        a: 0,
        x: 0,
        y: 0,
        sp: 0xFD,
        pc: 0,
        status: UNUSED | IRQ_DISABLE,
        cycles: 0,
        nmi_pending: false,
        irq_pending: false,
    }
}

impl Cpu {
    /// Creates a CPU in its power-on state (P = $24, SP = $FD).
    ///
    /// The program counter is 0 here; [`Cpu::reset`] reads the reset vector.
    pub fn new() -> (c: Cpu)
        ensures
            c == power_on(),
            c.status == 0x24,
    {
        proof {
            assert(UNUSED | IRQ_DISABLE == 0x24u8) by (bit_vector);
        }
        Cpu {
            a: 0,
            x: 0,
            y: 0,
            sp: 0xFD,
            pc: 0,
            status: UNUSED | IRQ_DISABLE,
            cycles: 0,
            nmi_pending: false,
            irq_pending: false,
        }
    }

    /// Signals an NMI, handled before the next instruction.
    pub fn request_nmi(&mut self)
        ensures
            *final(self) == (Cpu { nmi_pending: true, ..*old(self) }),
    {
        self.nmi_pending = true;
    }

    /// Signals an IRQ, handled before the next instruction if the IRQ
    /// disable flag is clear.
    pub fn request_irq(&mut self)
        ensures
            *final(self) == (Cpu { irq_pending: true, ..*old(self) }),
    {
        self.irq_pending = true;
    }

    /// Returns `true` if the given status flag is set.
    pub fn get_flag(&self, f: u8) -> (b: bool)
        ensures
            b == flag(self.status, f),
    {
        self.status & f != 0
    }

    /// Sets or clears a status flag.
    pub fn set_flag(&mut self, f: u8, val: bool)
        ensures
            *final(self) == (Cpu { status: with_flag(old(self).status, f, val), ..*old(self) }),
    {
        if val {
            self.status = self.status | f;
        } else {
            self.status = self.status & !f;
        }
    }

    /// Updates the Negative and Zero flags from a value.
    pub fn update_nz(&mut self, val: u8)
        ensures
            *final(self) == (Cpu { status: with_nz(old(self).status, val), ..*old(self) }),
    {
        self.set_flag(ZERO, val == 0);
        self.set_flag(NEGATIVE, val & 0x80 != 0);
    }

    /// Pushes a byte onto the stack.
    pub fn push(&mut self, bus: &mut Bus, ppu: &mut Ppu, val: u8)
        requires
            old(bus)@.wf(),
            old(ppu)@.wf(),
        ensures
            machine(*final(self), final(bus)@, final(ppu)@) == machine(*old(self), old(bus)@, old(ppu)@).push(val),
            final(bus)@.wf(),
            final(ppu)@.wf(),
    {
        let addr = 0x0100 + (self.sp as u16);
        bus.write(addr, val, ppu);
        self.sp = self.sp.wrapping_sub(1);
    }

    /// Pops a byte from the stack.
    pub fn pop(&mut self, bus: &mut Bus, ppu: &mut Ppu) -> (v: u8)
        requires
            old(bus)@.wf(),
            old(ppu)@.wf(),
        ensures
            (v, machine(*final(self), final(bus)@, final(ppu)@)) == machine(*old(self), old(bus)@, old(ppu)@).pop(),
            final(bus)@.wf(),
            final(ppu)@.wf(),
    {
        self.sp = self.sp.wrapping_add(1);
        let addr = 0x0100 + (self.sp as u16);
        bus.read(addr, ppu)
    }

    /// Pushes a 16-bit value onto the stack (high byte first).
    pub fn push_u16(&mut self, bus: &mut Bus, ppu: &mut Ppu, val: u16)
        requires
            old(bus)@.wf(),
            old(ppu)@.wf(),
        ensures
            machine(*final(self), final(bus)@, final(ppu)@) == machine(*old(self), old(bus)@, old(ppu)@).push_u16(val),
            final(bus)@.wf(),
            final(ppu)@.wf(),
    {
        proof {
            crate::bits::lemma_u16_masks();
        }
        let hi = (val >> 8) as u8;
        let lo = (val & 0xFF) as u8;
        self.push(bus, ppu, hi);
        self.push(bus, ppu, lo);
    }

    /// Pops a 16-bit value from the stack (low byte first).
    pub fn pop_u16(&mut self, bus: &mut Bus, ppu: &mut Ppu) -> (v: u16)
        requires
            old(bus)@.wf(),
            old(ppu)@.wf(),
        ensures
            (v, machine(*final(self), final(bus)@, final(ppu)@)) == machine(*old(self), old(bus)@, old(ppu)@).pop_u16(),
            final(bus)@.wf(),
            final(ppu)@.wf(),
    {
        let lo = self.pop(bus, ppu);
        let hi = self.pop(bus, ppu);
        proof {
            crate::bits::lemma_u16_masks();
        }
        ((hi as u16) << 8) | (lo as u16)
    }
}

} // verus!
