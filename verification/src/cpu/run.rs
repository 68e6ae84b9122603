//! The instruction cycle: interrupts, fetch, decode, execute, and reset.

use vstd::prelude::*;
use super::{
    flag, machine, wadd64, Cpu, Machine, IRQ_DISABLE, IRQ_VECTOR, NMI_VECTOR, RESET_VECTOR, UNUSED,
};
use super::addr::{resolve, resolve_spec};
use super::handlers::{execute, execute_op};
use super::opcodes::{lookup, spec_lookup};
use super::step::{StepErr, StepOk, StepResult};
use crate::bits::wadd16;
use crate::bus::Bus;
use crate::ppu::Ppu;

verus! {

/// The CPU after a successful step is applied: an advancing step
/// moves PC past the instruction; every step adds its cycles.
pub open spec fn applied(c: Cpu, ok: StepOk) -> Cpu {
    match ok {
        StepOk::Advance { size, cycles } => Cpu {
            pc: wadd16(c.pc, size as u16),
            cycles: wadd64(c.cycles, cycles as u64),
            ..c
        },
        StepOk::Jump { cycles } => Cpu { cycles: wadd64(c.cycles, cycles as u64), ..c },
    }
}

/// The machine after the NMI sequence (the request is consumed).
pub open spec fn nmi_spec(m: Machine) -> Machine {
    m.with_cpu(Cpu { nmi_pending: false, ..m.cpu }).interrupt(NMI_VECTOR)
}

/// The machine after the IRQ sequence (the request is consumed).
pub open spec fn irq_spec(m: Machine) -> Machine {
    m.with_cpu(Cpu { irq_pending: false, ..m.cpu }).interrupt(IRQ_VECTOR)
}

/// One CPU step. A pending NMI is served first, then an IRQ if the IRQ
/// disable flag is clear (each costs 7 cycles); otherwise a masked IRQ
/// request is dropped and the instruction at PC is fetched, decoded,
/// its operand resolved and the instruction executed. An illegal
/// opcode stops the step after the fetch; BRK stops it with
/// [`StepErr::Break`]; a successful step is then applied to PC and the
/// cycle counter.
#[verifier::opaque]
pub open spec fn step_spec(m: Machine) -> (StepResult, Machine) {
    if m.cpu.nmi_pending {
        (Ok(StepOk::Jump { cycles: 7 }), nmi_spec(m))
    } else if m.cpu.irq_pending && !flag(m.cpu.status, IRQ_DISABLE) {
        (Ok(StepOk::Jump { cycles: 7 }), irq_spec(m))
    } else {
        let m0 = m.with_cpu(Cpu { irq_pending: false, ..m.cpu });
        let (opcode, m1) = m0.read(m0.cpu.pc);
        match spec_lookup(opcode) {
            None => (Err(StepErr::IllegalOpcode(opcode)), m1),
            Some(e) => {
                let (o, m2) = resolve_spec(e.mode, m1);
                let (r, m3) = execute(e.op, m2, o, e.base_cycles);
                match r {
                    Ok(ok) => (r, m3.with_cpu(applied(m3.cpu, ok))),
                    Err(_) => (r, m3),
                }
            },
        }
    }
}

/// The machine after a reset: registers cleared, SP = $FD, P = $24,
/// interrupt requests dropped, and PC loaded from the reset vector.
pub open spec fn reset_spec(m: Machine) -> Machine {
    let m0 = m.with_cpu(
        Cpu {
            a: 0,
            x: 0,
            y: 0,
            sp: 0xFD,
            status: UNUSED | IRQ_DISABLE,
            nmi_pending: false,
            irq_pending: false,
            ..m.cpu
        },
    );
    let (lo, m1) = m0.read(RESET_VECTOR);
    let (hi, m2) = m1.read((RESET_VECTOR + 1) as u16);
    m2.with_cpu(Cpu { pc: (hi * 256 + lo) as u16, ..m2.cpu })
}

impl Cpu {
    /// Performs a reset sequence: reads the reset vector from
    /// $FFFC–$FFFD and sets PC, matching power-on behavior.
    pub fn reset(&mut self, bus: &mut Bus, ppu: &mut Ppu)
        requires
            old(bus)@.wf(),
            old(ppu)@.wf(),
        ensures
            machine(*final(self), final(bus)@, final(ppu)@) == reset_spec(
                machine(*old(self), old(bus)@, old(ppu)@),
            ),
            final(bus)@.wf(),
            final(ppu)@.wf(),
    {
        self.a = 0;
        self.x = 0;
        self.y = 0;
        self.sp = 0xFD;
        self.status = UNUSED | IRQ_DISABLE;
        self.nmi_pending = false;
        self.irq_pending = false;
        let lo = bus.read(RESET_VECTOR, ppu);
        let hi = bus.read(RESET_VECTOR + 1, ppu);
        proof {
            crate::bits::lemma_u16_masks();
        }
        self.pc = ((hi as u16) << 8) | (lo as u16);
    }

    /// Executes a single instruction and returns the result.
    ///
    /// If an NMI is pending, it is handled first (pushes PC and
    /// status, loads PC from $FFFA–$FFFB, consumes 7 cycles).
    pub fn step(&mut self, bus: &mut Bus, ppu: &mut Ppu) -> (r: StepResult)
        requires
            old(bus)@.wf(),
            old(ppu)@.wf(),
        ensures
            (r, machine(*final(self), final(bus)@, final(ppu)@)) == step_spec(
                machine(*old(self), old(bus)@, old(ppu)@),
            ),
            final(bus)@.wf(),
            final(ppu)@.wf(),
    {
        proof {
            reveal(step_spec);
        }
        if self.nmi_pending {
            self.handle_nmi(bus, ppu);
            return Ok(StepOk::Jump { cycles: 7 });
        }
        if self.irq_pending && !self.get_flag(IRQ_DISABLE) {
            self.handle_irq(bus, ppu);
            return Ok(StepOk::Jump { cycles: 7 });
        }
        self.irq_pending = false;
        let opcode = bus.read(self.pc, ppu);
        let entry = match lookup(opcode) {
            Some(e) => e,
            None => {
                return Err(StepErr::IllegalOpcode(opcode));
            },
        };
        let operand = resolve(entry.mode, self, bus, ppu);
        let ok = match execute_op(entry.op, self, bus, ppu, operand, entry.base_cycles) {
            Ok(ok) => ok,
            Err(e) => {
                return Err(e);
            },
        };
        self.apply(ok);
        Ok(ok)
    }

    /// Applies a successful step result to the CPU state.
    pub fn apply(&mut self, ok: StepOk)
        ensures
            *final(self) == applied(*old(self), ok),
    {
        match ok {
            StepOk::Advance { size, cycles } => {
                self.pc = self.pc.wrapping_add(size as u16);
                self.cycles = self.cycles.wrapping_add(cycles as u64);
            },
            StepOk::Jump { cycles } => {
                self.cycles = self.cycles.wrapping_add(cycles as u64);
            },
        }
    }

    /// Handles a pending NMI: push PC and status, load NMI vector.
    pub fn handle_nmi(&mut self, bus: &mut Bus, ppu: &mut Ppu)
        requires
            old(bus)@.wf(),
            old(ppu)@.wf(),
        ensures
            machine(*final(self), final(bus)@, final(ppu)@) == nmi_spec(
                machine(*old(self), old(bus)@, old(ppu)@),
            ),
            final(bus)@.wf(),
            final(ppu)@.wf(),
    {
        self.nmi_pending = false;
        self.interrupt(bus, ppu, NMI_VECTOR);
    }

    /// Handles a pending IRQ: push PC and status, load IRQ vector.
    pub fn handle_irq(&mut self, bus: &mut Bus, ppu: &mut Ppu)
        requires
            old(bus)@.wf(),
            old(ppu)@.wf(),
        ensures
            machine(*final(self), final(bus)@, final(ppu)@) == irq_spec(
                machine(*old(self), old(bus)@, old(ppu)@),
            ),
            final(bus)@.wf(),
            final(ppu)@.wf(),
    {
        self.irq_pending = false;
        self.interrupt(bus, ppu, IRQ_VECTOR);
    }

    /// The interrupt sequence shared by NMI and IRQ: push PC and status
    /// (Break clear, Unused set), set IRQ disable, load PC from `vector`.
    fn interrupt(&mut self, bus: &mut Bus, ppu: &mut Ppu, vector: u16)
        requires
            old(bus)@.wf(),
            old(ppu)@.wf(),
            vector < 0xFFFF,
        ensures
            machine(*final(self), final(bus)@, final(ppu)@) == machine(*old(self), old(bus)@, old(ppu)@).interrupt(vector),
            final(bus)@.wf(),
            final(ppu)@.wf(),
    {
        let pc = self.pc;
        self.push_u16(bus, ppu, pc);
        let st = (self.status & !super::BREAK) | UNUSED;
        self.push(bus, ppu, st);
        self.set_flag(IRQ_DISABLE, true);
        let lo = bus.read(vector, ppu);
        let hi = bus.read(vector + 1, ppu);
        proof {
            crate::bits::lemma_u16_masks();
        }
        self.pc = ((hi as u16) << 8) | (lo as u16);
        self.cycles = self.cycles.wrapping_add(7);
    }
}

} // verus!
