//! Noise channel ($400C–$400F) — LFSR-based pseudo-random noise.

use vstd::prelude::*;
use super::envelope::Envelope;
use super::length::LengthCounter;

verus! {

/// Timer period for a 4-bit period index (NTSC).
pub open spec fn spec_noise_period(i: u8) -> u16 {
    match i & 0x0F {
        0 => 4, 1 => 8, 2 => 16, 3 => 32, 4 => 64, 5 => 96, 6 => 128, 7 => 160,
        8 => 202, 9 => 254, 10 => 380, 11 => 508, 12 => 762, 13 => 1016, 14 => 2034, _ => 4068,
    }
}

/// Looks up the timer period for a 4-bit period index.
pub fn noise_period(i: u8) -> (p: u16)
    ensures
        p == spec_noise_period(i),
{
    match i & 0x0F {
        0 => 4, 1 => 8, 2 => 16, 3 => 32, 4 => 64, 5 => 96, 6 => 128, 7 => 160,
        8 => 202, 9 => 254, 10 => 380, 11 => 508, 12 => 762, 13 => 1016, 14 => 2034, _ => 4068,
    }
}

/// The 15-bit shift register after one clock: the feedback bit (bit 0
/// XOR bit 1, or bit 6 in mode 1) enters at bit 14 as the register shifts right.
pub open spec fn lfsr_step(sr: u16, mode: bool) -> u16 {
    let feedback_bit: u16 = if mode { 6 } else { 1 };
    let feedback = (sr & 1) ^ ((sr >> feedback_bit) & 1);
    (sr >> 1u16) | (feedback << 14u16)
}

/// Noise channel state.
#[derive(Debug, Clone, Copy, PartialEq, Eq, Structural)]
pub struct Noise {
    /// Envelope generator.
    pub envelope: Envelope,
    /// Length counter.
    pub length: LengthCounter,
    /// Timer period (from lookup table).
    pub timer_period: u16,
    /// Current timer countdown.
    pub timer_value: u16,
    /// 15-bit linear feedback shift register.
    pub shift_register: u16,
    /// Mode bit: false = bit 1 feedback, true = bit 6 feedback.
    pub mode: bool,
}

impl Noise {
    /// The invariant: valid envelope; 15-bit, non-zero shift register.
    pub open spec fn wf(self) -> bool {
        &&& self.envelope.wf()
        &&& 0 < self.shift_register < 0x8000
    }

    /// The initial channel (shift register 1).
    pub open spec fn initial() -> Noise {
        Noise {
            envelope: Envelope::initial(),
            length: LengthCounter::initial(),
            timer_period: 0,
            timer_value: 0,
            shift_register: 1,
            mode: false,
        }
    }

    /// Creates a noise channel in its initial state.
    pub fn new() -> (n: Noise)
        ensures
            n == Noise::initial(),
            n.wf(),
    {
        Noise {
            envelope: Envelope::new(),
            length: LengthCounter::new(),
            timer_period: 0,
            timer_value: 0,
            shift_register: 1,
            mode: false,
        }
    }

    /// The channel after one timer clock.
    pub open spec fn after_tick(self) -> Noise {
        if self.timer_value == 0 {
            Noise { timer_value: self.timer_period, shift_register: lfsr_step(self.shift_register, self.mode), ..self }
        } else {
            Noise { timer_value: (self.timer_value - 1) as u16, ..self }
        }
    }

    /// Advances the timer by one APU cycle; when it expires the LFSR clocks.
    pub fn tick(&mut self)
        requires
            old(self).wf(),
        ensures
            *final(self) == old(self).after_tick(),
            final(self).wf(),
    {
        if self.timer_value == 0 {
            self.timer_value = self.timer_period;
            self.clock_shift_register();
        } else {
            self.timer_value = self.timer_value - 1;
        }
    }

    /// Clocks the LFSR.
    pub fn clock_shift_register(&mut self)
        requires
            old(self).wf(),
        ensures
            *final(self) == (Noise { shift_register: lfsr_step(old(self).shift_register, old(self).mode), ..*old(self) }),
            final(self).wf(),
    {
        let feedback_bit: u16 = if self.mode { 6 } else { 1 };
        let sr = self.shift_register;
        let bit0 = sr & 1;
        let other = (sr >> feedback_bit) & 1;
        let feedback = bit0 ^ other;
        proof {
            lemma_lfsr_stays_valid(sr, self.mode);
        }
        self.shift_register = (sr >> 1) | (feedback << 14);
    }

    /// The current output level.
    pub open spec fn spec_output(self) -> u8 {
        if self.shift_register & 1 != 0 || !self.length.spec_active() {
            0
        } else {
            self.envelope.spec_output()
        }
    }

    /// Returns the current output sample (0–15): the envelope volume
    /// while bit 0 of the LFSR is clear and the length counter runs.
    pub fn output(&self) -> (v: u8)
        requires
            self.wf(),
        ensures
            v == self.spec_output(),
            v <= 15,
    {
        if self.shift_register & 1 != 0 || !self.length.active() {
            return 0;
        }
        self.envelope.output()
    }

    /// The channel after register `reg` (0–3) receives `val`.
    pub open spec fn after_write_reg(self, reg: u8, val: u8) -> Noise {
        if reg == 0 {
            Noise {
                length: LengthCounter { halted: val & 0x20 != 0, ..self.length },
                envelope: self.envelope.after_write(val),
                ..self
            }
        } else if reg == 2 {
            Noise { mode: val & 0x80 != 0, timer_period: spec_noise_period(val), ..self }
        } else if reg == 3 {
            Noise {
                length: self.length.after_load(val >> 3u8),
                envelope: Envelope { start: true, ..self.envelope },
                ..self
            }
        } else {
            self
        }
    }

    /// Writes a register (offset 0–3 within $400C–$400F).
    pub fn write_reg(&mut self, reg: u8, val: u8)
        requires
            old(self).wf(),
        ensures
            *final(self) == old(self).after_write_reg(reg, val),
            final(self).wf(),
    {
        if reg == 0 {
            self.length.halted = val & 0x20 != 0;
            self.envelope.write(val);
        } else if reg == 2 {
            self.mode = val & 0x80 != 0;
            self.timer_period = noise_period(val);
        } else if reg == 3 {
            self.length.load(val >> 3);
            self.envelope.start = true;
        }
    }
}

/// The LFSR never reaches the all-zero state and stays within 15 bits:
/// from any non-zero 15-bit state, the next state is non-zero and 15-bit.
pub proof fn lemma_lfsr_stays_valid(sr: u16, mode: bool)
    requires
        0 < sr < 0x8000,
    ensures
        0 < lfsr_step(sr, mode) < 0x8000,
{
    let fb: u16 = if mode { 6 } else { 1 };
    assert(fb == 1 || fb == 6);
    let n = (sr >> 1u16) | ((((sr & 1) ^ ((sr >> fb) & 1))) << 14u16);
    assert(0 < n < 0x8000) by (bit_vector)
        requires
            0 < sr < 0x8000,
            fb == 1 || fb == 6,
            n == (sr >> 1u16) | ((((sr & 1) ^ ((sr >> fb) & 1))) << 14u16),
    ;
}

} // verus!
