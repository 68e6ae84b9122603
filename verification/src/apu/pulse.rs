//! Pulse (square wave) channel — used by Pulse 1 ($4000) and Pulse 2 ($4004).

use vstd::prelude::*;
use super::envelope::Envelope;
use super::length::LengthCounter;
use super::sweep::Sweep;

verus! {

/// Duty waveform of duty mode `d` (0–3) as a byte, step 0 in the top bit:
/// 12.5% `01000000`, 25% `01100000`, 50% `01111000`, 75% `10011111`.
pub open spec fn duty_bits(d: u8) -> u8 {
    if d == 0 {
        0x40
    } else if d == 1 {
        0x60
    } else if d == 2 {
        0x78
    } else {
        0x9F
    }
}

/// Whether duty mode `d` is high at sequence step `step` (0–7).
pub open spec fn spec_duty_on(d: u8, step: u8) -> bool {
    (duty_bits(d) >> ((7 - step) as u8)) & 1 != 0
}

/// Returns whether duty mode `d` (0–3) is high at step `step` (0–7).
pub fn duty_on(d: u8, step: u8) -> (b: bool)
    requires
        step < 8,
    ensures
        b == spec_duty_on(d, step),
{
    let bits: u8 = if d == 0 {
        0x40
    } else if d == 1 {
        0x60
    } else if d == 2 {
        0x78
    } else {
        0x9F
    };
    (bits >> (7 - step)) & 1 != 0
}

/// Pulse channel state.
#[derive(Debug, Clone, Copy, PartialEq, Eq, Structural)]
pub struct Pulse {
    /// Envelope generator.
    pub envelope: Envelope,
    /// Length counter.
    pub length: LengthCounter,
    /// Sweep unit.
    pub sweep: Sweep,
    /// Timer period (11-bit, from registers).
    pub timer_period: u16,
    /// Current timer countdown.
    pub timer_value: u16,
    /// Duty cycle mode (0–3).
    pub duty: u8,
    /// Current position in the 8-step duty sequence.
    pub sequence_pos: u8,
}

impl Pulse {
    /// The invariant of the channel and its units.
    pub open spec fn wf(self) -> bool {
        &&& self.envelope.wf()
        &&& self.sweep.wf()
        &&& self.duty <= 3
        &&& self.sequence_pos < 8
    }

    /// The initial channel.
    pub open spec fn initial(ones_complement: bool) -> Pulse {
        Pulse {
            envelope: Envelope::initial(),
            length: LengthCounter::initial(),
            sweep: Sweep::initial(ones_complement),
            timer_period: 0,
            timer_value: 0,
            duty: 0,
            sequence_pos: 0,
        }
    }

    /// Creates a pulse channel (`ones_complement` is `true` for Pulse 1).
    pub fn new(ones_complement: bool) -> (p: Pulse)
        ensures
            p == Pulse::initial(ones_complement),
            p.wf(),
    {
        Pulse {
            envelope: Envelope::new(),
            length: LengthCounter::new(),
            sweep: Sweep::new(ones_complement),
            timer_period: 0,
            timer_value: 0,
            duty: 0,
            sequence_pos: 0,
        }
    }

    /// The channel after one timer clock.
    pub open spec fn after_tick(self) -> Pulse {
        if self.timer_value == 0 {
            Pulse { timer_value: self.timer_period, sequence_pos: ((self.sequence_pos + 1) % 8) as u8, ..self }
        } else {
            Pulse { timer_value: (self.timer_value - 1) as u16, ..self }
        }
    }

    /// Advances the timer by one APU cycle (every 2 CPU cycles); when it
    /// expires, the duty sequence steps.
    pub fn tick(&mut self)
        requires
            old(self).wf(),
        ensures
            *final(self) == old(self).after_tick(),
            final(self).wf(),
    {
        if self.timer_value == 0 {
            self.timer_value = self.timer_period;
            self.sequence_pos = (self.sequence_pos + 1) % 8;
        } else {
            self.timer_value = self.timer_value - 1;
        }
    }

    /// The current output level.
    pub open spec fn spec_output(self) -> u8 {
        if !spec_duty_on(self.duty & 0x03, self.sequence_pos) || !self.length.spec_active()
            || self.sweep.spec_muting(self.timer_period) {
            0
        } else {
            self.envelope.spec_output()
        }
    }

    /// Returns the current output sample (0–15): the envelope volume
    /// while the duty step is high, the length counter runs and the
    /// sweep does not mute; 0 otherwise.
    pub fn output(&self) -> (v: u8)
        requires
            self.wf(),
        ensures
            v == self.spec_output(),
            v <= 15,
    {
        if !duty_on(self.duty & 0x03, self.sequence_pos) || !self.length.active()
            || self.sweep.muting(self.timer_period) {
            return 0;
        }
        self.envelope.output()
    }

    /// The channel after register `reg` (0–3) receives `val`.
    pub open spec fn after_write_reg(self, reg: u8, val: u8) -> Pulse {
        if reg == 0 {
            Pulse {
                duty: (val >> 6u8) & 0x03,
                length: LengthCounter { halted: val & 0x20 != 0, ..self.length },
                envelope: self.envelope.after_write(val),
                ..self
            }
        } else if reg == 1 {
            Pulse { sweep: self.sweep.after_write(val), ..self }
        } else if reg == 2 {
            Pulse { timer_period: (self.timer_period & 0x0700) | (val as u16), ..self }
        } else if reg == 3 {
            Pulse {
                timer_period: (self.timer_period & 0x00FF) | (((val & 0x07) as u16) << 8u16),
                length: self.length.after_load(val >> 3u8),
                sequence_pos: 0,
                envelope: Envelope { start: true, ..self.envelope },
                ..self
            }
        } else {
            self
        }
    }

    /// Writes a register (offset 0–3 within the pulse register block).
    pub fn write_reg(&mut self, reg: u8, val: u8)
        requires
            old(self).wf(),
        ensures
            *final(self) == old(self).after_write_reg(reg, val),
            final(self).wf(),
    {
        proof {
            crate::bits::lemma_u8_masks();
            let v = val;
            assert(((v >> 6u8) & 0x03) <= 3) by (bit_vector);
        }
        if reg == 0 {
            self.duty = (val >> 6) & 0x03;
            self.length.halted = val & 0x20 != 0;
            self.envelope.write(val);
        } else if reg == 1 {
            self.sweep.write(val);
        } else if reg == 2 {
            self.timer_period = (self.timer_period & 0x0700) | (val as u16);
        } else if reg == 3 {
            self.timer_period = (self.timer_period & 0x00FF) | (((val & 0x07) as u16) << 8);
            self.length.load(val >> 3);
            self.sequence_pos = 0;
            self.envelope.start = true;
        }
    }
}

/// The timer period's registers: register 2 sets the low eight bits
/// (keeping the three high ones), register 3 sets the three high bits
/// from the low bits of its value (keeping the low eight), so writing
/// `lo` and `hi`, in either order, sets the period to
/// `(hi mod 8) * 256 + lo`.
pub proof fn lemma_pulse_timer_registers(p: Pulse, lo: u8, hi: u8)
    ensures
        p.after_write_reg(2, lo).timer_period % 256 == lo,
        p.after_write_reg(2, lo).timer_period / 256 == (p.timer_period / 256) % 8,
        p.after_write_reg(3, hi).timer_period % 256 == p.timer_period % 256,
        p.after_write_reg(3, hi).timer_period / 256 == hi % 8,
        p.after_write_reg(2, lo).after_write_reg(3, hi).timer_period == (hi % 8) * 256 + lo,
        p.after_write_reg(3, hi).after_write_reg(2, lo).timer_period == (hi % 8) * 256 + lo,
{
    lemma_timer_bits(p.timer_period, lo, hi);
    lemma_timer_bits(p.after_write_reg(2, lo).timer_period, lo, hi);
    lemma_timer_bits(p.after_write_reg(3, hi).timer_period, lo, hi);
}

/// The bit arithmetic behind the timer registers of the pulse and
/// triangle channels.
pub(crate) proof fn lemma_timer_bits(t: u16, lo: u8, hi: u8)
    ensures
        ((t & 0x0700) | (lo as u16)) % 256 == lo as u16,
        ((t & 0x0700) | (lo as u16)) / 256 == (t / 256) % 8,
        ((t & 0x00FF) | (((hi & 0x07) as u16) << 8u16)) % 256 == t % 256,
        ((t & 0x00FF) | (((hi & 0x07) as u16) << 8u16)) / 256 == (hi % 8) as u16,
{
    assert(((t & 0x0700) | (lo as u16)) % 256 == lo as u16 && ((t & 0x0700) | (lo as u16)) / 256
        == (t / 256) % 8 && ((t & 0x00FF) | (((hi & 0x07) as u16) << 8u16)) % 256 == t % 256 && ((t
        & 0x00FF) | (((hi & 0x07) as u16) << 8u16)) / 256 == (hi % 8) as u16) by (bit_vector);
}

} // verus!
