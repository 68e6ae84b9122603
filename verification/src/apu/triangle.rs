//! Triangle wave channel ($4008–$400B).

use vstd::prelude::*;
use super::length::LengthCounter;
use super::linear::LinearCounter;

verus! {

/// Level of step `pos` (0–31) of the triangle sequence:
/// 15, 14, …, 1, 0, 0, 1, …, 14, 15.
pub open spec fn spec_triangle_level(pos: u8) -> u8 {
    if pos < 16 {
        (15 - pos) as u8
    } else if pos < 32 {
        (pos - 16) as u8
    } else {
        0
    }
}

/// Returns the level of step `pos` of the 32-step triangle sequence.
pub fn triangle_level(pos: u8) -> (v: u8)
    ensures
        v == spec_triangle_level(pos),
        v <= 15,
{
    if pos < 16 {
        15 - pos
    } else if pos < 32 {
        pos - 16
    } else {
        0
    }
}

/// Triangle channel state.
#[derive(Debug, Clone, Copy, PartialEq, Eq, Structural)]
pub struct Triangle {
    /// Length counter.
    pub length: LengthCounter,
    /// Linear counter.
    pub linear: LinearCounter,
    /// Timer period (11-bit).
    pub timer_period: u16,
    /// Current timer countdown.
    pub timer_value: u16,
    /// Current position in the 32-step sequence.
    pub sequence_pos: u8,
}

impl Triangle {
    /// The invariant: the sequence position is within the 32 steps.
    pub open spec fn wf(self) -> bool {
        self.sequence_pos < 32
    }

    /// The initial channel: position 15, whose level is 0 (silence).
    pub open spec fn initial() -> Triangle {
        Triangle {
            length: LengthCounter::initial(),
            linear: LinearCounter::initial(),
            timer_period: 0,
            timer_value: 0,
            sequence_pos: 15,
        }
    }

    /// Creates a triangle channel in its initial state.
    pub fn new() -> (t: Triangle)
        ensures
            t == Triangle::initial(),
            t.wf(),
    {
        Triangle {
            length: LengthCounter::new(),
            linear: LinearCounter::new(),
            timer_period: 0,
            timer_value: 0,
            sequence_pos: 15,
        }
    }

    /// The channel after one CPU cycle.
    pub open spec fn after_tick(self) -> Triangle {
        if !self.length.spec_active() || !self.linear.spec_active() {
            self
        } else if self.timer_value == 0 {
            Triangle { timer_value: self.timer_period, sequence_pos: ((self.sequence_pos + 1) % 32) as u8, ..self }
        } else {
            Triangle { timer_value: (self.timer_value - 1) as u16, ..self }
        }
    }

    /// Advances the timer by one CPU cycle; the sequencer only runs
    /// while both counters are active (otherwise it freezes).
    pub fn tick(&mut self)
        requires
            old(self).wf(),
        ensures
            *final(self) == old(self).after_tick(),
            final(self).wf(),
    {
        if !self.length.active() || !self.linear.active() {
            return;
        }
        if self.timer_value == 0 {
            self.timer_value = self.timer_period;
            self.sequence_pos = (self.sequence_pos + 1) % 32;
        } else {
            self.timer_value = self.timer_value - 1;
        }
    }

    /// The current output level.
    pub open spec fn spec_output(self) -> u8 {
        if self.timer_period < 2 && self.length.spec_active() && self.linear.spec_active() {
            7
        } else {
            spec_triangle_level(self.sequence_pos)
        }
    }

    /// Returns the current output sample (0–15); periods below 2 give
    /// the averaged ultrasonic level 7.
    pub fn output(&self) -> (v: u8)
        ensures
            v == self.spec_output(),
            v <= 15,
    {
        if self.timer_period < 2 && (self.length.active() && self.linear.active()) {
            return 7;
        }
        triangle_level(self.sequence_pos)
    }

    /// The channel after register `reg` (0–3) receives `val`.
    pub open spec fn after_write_reg(self, reg: u8, val: u8) -> Triangle {
        if reg == 0 {
            Triangle {
                linear: LinearCounter { control: val & 0x80 != 0, reload_value: val & 0x7F, ..self.linear },
                length: LengthCounter { halted: val & 0x80 != 0, ..self.length },
                ..self
            }
        } else if reg == 2 {
            Triangle { timer_period: (self.timer_period & 0x0700) | (val as u16), ..self }
        } else if reg == 3 {
            Triangle {
                timer_period: (self.timer_period & 0x00FF) | (((val & 0x07) as u16) << 8u16),
                length: self.length.after_load(val >> 3u8),
                linear: LinearCounter { reload_flag: true, ..self.linear },
                ..self
            }
        } else {
            self
        }
    }

    /// Writes a register (offset 0–3 within $4008–$400B).
    pub fn write_reg(&mut self, reg: u8, val: u8)
        requires
            old(self).wf(),
        ensures
            *final(self) == old(self).after_write_reg(reg, val),
            final(self).wf(),
    {
        if reg == 0 {
            self.linear.control = val & 0x80 != 0;
            self.length.halted = val & 0x80 != 0;
            self.linear.reload_value = val & 0x7F;
        } else if reg == 2 {
            self.timer_period = (self.timer_period & 0x0700) | (val as u16);
        } else if reg == 3 {
            self.timer_period = (self.timer_period & 0x00FF) | (((val & 0x07) as u16) << 8);
            self.length.load(val >> 3);
            self.linear.reload_flag = true;
        }
    }
}

/// When either counter is silent the sequencer holds its step, so the
/// output level holds too (no pop).
pub proof fn lemma_triangle_holds_when_silenced(t: Triangle)
    requires
        !t.length.spec_active() || !t.linear.spec_active(),
    ensures
        t.after_tick() == t,
{
}

/// The triangle's timer registers: register 2 sets the low eight bits
/// of the period, register 3 the three high bits from the low bits of
/// its value, so writing `lo` and `hi`, in either order, sets the
/// period to `(hi mod 8) * 256 + lo`.
pub proof fn lemma_triangle_timer_registers(t: Triangle, lo: u8, hi: u8)
    ensures
        t.after_write_reg(2, lo).timer_period % 256 == lo,
        t.after_write_reg(2, lo).timer_period / 256 == (t.timer_period / 256) % 8,
        t.after_write_reg(3, hi).timer_period % 256 == t.timer_period % 256,
        t.after_write_reg(3, hi).timer_period / 256 == hi % 8,
        t.after_write_reg(2, lo).after_write_reg(3, hi).timer_period == (hi % 8) * 256 + lo,
        t.after_write_reg(3, hi).after_write_reg(2, lo).timer_period == (hi % 8) * 256 + lo,
{
    crate::apu::pulse::lemma_timer_bits(t.timer_period, lo, hi);
    crate::apu::pulse::lemma_timer_bits(t.after_write_reg(2, lo).timer_period, lo, hi);
    crate::apu::pulse::lemma_timer_bits(t.after_write_reg(3, hi).timer_period, lo, hi);
}

} // verus!
