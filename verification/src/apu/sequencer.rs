//! Frame sequencer — clocks envelope, length counter, and sweep units.
//!
//! The frame sequencer runs at ~240 Hz (every ~7457 CPU cycles on NTSC)
//! in two modes:
//! - **4-step** (mode 0): quarter/half frame clocks + optional IRQ
//! - **5-step** (mode 1): quarter/half frame clocks, no IRQ

use vstd::prelude::*;

verus! {

/// CPU cycles per frame sequencer step on NTSC.
pub const STEP_CYCLES: u16 = 7457;

/// Frame sequencer mode.
#[derive(Debug, Clone, Copy, PartialEq, Eq, Structural)]
pub enum Mode {
    /// 4-step sequence with optional IRQ.
    FourStep,
    /// 5-step sequence, no IRQ.
    FiveStep,
}

/// Signals produced by one frame sequencer tick.
#[derive(Debug, Clone, Copy, PartialEq, Eq, Structural)]
pub struct FrameClocks {
    /// Clock envelope generators and triangle linear counter.
    pub quarter: bool,
    /// Clock length counters and sweep units.
    pub half: bool,
    /// Fire frame counter IRQ (mode 0 only).
    pub irq: bool,
}

/// No clock this cycle.
pub open spec fn no_clocks() -> FrameClocks {
    FrameClocks { quarter: false, half: false, irq: false }
}

/// Frame sequencer state.
#[derive(Debug, Clone, Copy, PartialEq, Eq, Structural)]
pub struct FrameSequencer {
    /// Current mode (4-step or 5-step).
    pub mode: Mode,
    /// Current step in the sequence (0–3 or 0–4).
    pub step: u8,
    /// CPU cycle counter within the current step.
    pub cycle: u16,
    /// CPU cycles per step (region dependent).
    pub step_cycles: u16,
    /// Whether frame IRQ is inhibited ($4017 bit 6).
    pub irq_inhibit: bool,
    /// Pending IRQ flag.
    pub irq_pending: bool,
}

impl FrameSequencer {
    /// The invariant: the step is within the longest sequence and the
    /// cycle counter cannot overflow.
    pub open spec fn wf(self) -> bool {
        self.step <= 4 && self.cycle < 0xFFFF
    }

    /// The initial sequencer (4-step mode, NTSC timing).
    pub open spec fn initial() -> FrameSequencer {
        FrameSequencer { mode: Mode::FourStep, step: 0, cycle: 0, step_cycles: 7457, irq_inhibit: false, irq_pending: false }
    }

    /// Creates a frame sequencer in its initial state.
    pub fn new() -> (s: FrameSequencer)
        ensures
            s == FrameSequencer::initial(),
            s.wf(),
    {
        FrameSequencer {
            mode: Mode::FourStep,
            step: 0,
            cycle: 0,
            step_cycles: STEP_CYCLES,
            irq_inhibit: false,
            irq_pending: false,
        }
    }

    /// Sets the number of CPU cycles per step.
    pub fn set_step_cycles(&mut self, cycles: u16)
        ensures
            *final(self) == (FrameSequencer { step_cycles: cycles, ..*old(self) }),
    {
        self.step_cycles = cycles;
    }

    /// Clocks of the current step, and the sequencer after them.
    pub open spec fn spec_step_clocks(self) -> (FrameSequencer, FrameClocks) {
        match self.mode {
            Mode::FourStep => if self.step == 0 || self.step == 2 {
                (self, FrameClocks { quarter: true, half: false, irq: false })
            } else if self.step == 1 {
                (self, FrameClocks { quarter: true, half: true, irq: false })
            } else if self.step == 3 {
                (
                    FrameSequencer { irq_pending: if !self.irq_inhibit { true } else { self.irq_pending }, ..self },
                    FrameClocks { quarter: true, half: true, irq: !self.irq_inhibit },
                )
            } else {
                (self, no_clocks())
            },
            Mode::FiveStep => if self.step == 0 || self.step == 2 {
                (self, FrameClocks { quarter: true, half: false, irq: false })
            } else if self.step == 1 || self.step == 3 {
                (self, FrameClocks { quarter: true, half: true, irq: false })
            } else {
                (self, no_clocks())
            },
        }
    }

    /// Returns the clocks for the current step (raising the frame IRQ on
    /// step 3 of the 4-step sequence unless inhibited).
    pub fn step_clocks(&mut self) -> (c: FrameClocks)
        ensures
            (*final(self), c) == old(self).spec_step_clocks(),
    {
        match self.mode {
            Mode::FourStep => if self.step == 0 || self.step == 2 {
                FrameClocks { quarter: true, half: false, irq: false }
            } else if self.step == 1 {
                FrameClocks { quarter: true, half: true, irq: false }
            } else if self.step == 3 {
                if !self.irq_inhibit {
                    self.irq_pending = true;
                }
                FrameClocks { quarter: true, half: true, irq: !self.irq_inhibit }
            } else {
                FrameClocks { quarter: false, half: false, irq: false }
            },
            Mode::FiveStep => if self.step == 0 || self.step == 2 {
                FrameClocks { quarter: true, half: false, irq: false }
            } else if self.step == 1 || self.step == 3 {
                FrameClocks { quarter: true, half: true, irq: false }
            } else {
                FrameClocks { quarter: false, half: false, irq: false }
            },
        }
    }

    /// The step after this one (wrapping after 3 or 4).
    pub open spec fn next_step(self) -> u8 {
        let max: u8 = match self.mode {
            Mode::FourStep => 3,
            Mode::FiveStep => 4,
        };
        if self.step >= max {
            0
        } else {
            (self.step + 1) as u8
        }
    }

    /// Advances to the next step, wrapping based on mode.
    pub fn advance_step(&mut self)
        requires
            old(self).wf(),
        ensures
            *final(self) == (FrameSequencer { step: old(self).next_step(), ..*old(self) }),
            final(self).wf(),
    {
        let max: u8 = match self.mode {
            Mode::FourStep => 3,
            Mode::FiveStep => 4,
        };
        self.step = if self.step >= max { 0 } else { self.step + 1 };
    }

    /// The sequencer after one CPU cycle, and the clocks it fires.
    pub open spec fn after_tick(self) -> (FrameSequencer, FrameClocks) {
        if self.cycle + 1 < self.step_cycles {
            (FrameSequencer { cycle: (self.cycle + 1) as u16, ..self }, no_clocks())
        } else {
            let (s1, c) = (FrameSequencer { cycle: 0, ..self }).spec_step_clocks();
            (FrameSequencer { step: s1.next_step(), ..s1 }, c)
        }
    }

    /// Advances by one CPU cycle and returns which clocks to fire.
    pub fn tick(&mut self) -> (c: FrameClocks)
        requires
            old(self).wf(),
        ensures
            (*final(self), c) == old(self).after_tick(),
            final(self).wf(),
    {
        self.cycle = self.cycle + 1;
        if self.cycle < self.step_cycles {
            return FrameClocks { quarter: false, half: false, irq: false };
        }
        self.cycle = 0;
        let clocks = self.step_clocks();
        self.advance_step();
        clocks
    }

    /// The sequencer after $4017 receives `val`.
    pub open spec fn after_write_control(self, val: u8) -> FrameSequencer {
        let inhibit = val & 0x40 != 0;
        FrameSequencer {
            mode: if val & 0x80 != 0 { Mode::FiveStep } else { Mode::FourStep },
            irq_inhibit: inhibit,
            irq_pending: if inhibit { false } else { self.irq_pending },
            step: 0,
            cycle: 0,
            ..self
        }
    }

    /// Handles a write to $4017: bit 7 selects the 5-step mode, bit 6
    /// inhibits (and clears) the frame IRQ; the sequence restarts.
    pub fn write_control(&mut self, val: u8)
        ensures
            *final(self) == old(self).after_write_control(val),
            final(self).wf(),
    {
        self.mode = if val & 0x80 != 0 {
            Mode::FiveStep
        } else {
            Mode::FourStep
        };
        self.irq_inhibit = val & 0x40 != 0;
        if self.irq_inhibit {
            self.irq_pending = false;
        }
        self.step = 0;
        self.cycle = 0;
    }
}

/// The 5-step sequence never raises the frame IRQ, and an inhibited
/// sequencer never does either.
pub proof fn lemma_no_irq_in_five_step_or_inhibited(s: FrameSequencer)
    requires
        s.mode == Mode::FiveStep || s.irq_inhibit,
    ensures
        !s.after_tick().1.irq,
        !s.irq_pending ==> !s.after_tick().0.irq_pending,
{
}

/// In 4-step mode without inhibit, the step-3 clock fires quarter,
/// half and IRQ together and sets the pending flag.
pub proof fn lemma_four_step_irq(s: FrameSequencer)
    requires
        s.mode == Mode::FourStep,
        !s.irq_inhibit,
        s.step == 3,
        s.cycle + 1 >= s.step_cycles,
    ensures
        s.after_tick().1 == (FrameClocks { quarter: true, half: true, irq: true }),
        s.after_tick().0.irq_pending,
        s.after_tick().0.step == 0,
{
}

} // verus!
