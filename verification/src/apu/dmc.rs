//! Delta Modulation Channel ($4010–$4013) — 1-bit delta-encoded sample playback.

use vstd::prelude::*;
use crate::bits::wadd16;

verus! {

/// CPU cycles per output change for a 4-bit rate index (NTSC).
pub open spec fn spec_dmc_rate(i: u8) -> u16 {
    match i & 0x0F {
        0 => 428, 1 => 380, 2 => 340, 3 => 320, 4 => 286, 5 => 254, 6 => 226, 7 => 214,
        8 => 190, 9 => 160, 10 => 142, 11 => 128, 12 => 106, 13 => 84, 14 => 72, _ => 54,
    }
}

/// Looks up the timer period for a 4-bit rate index.
pub fn dmc_rate(i: u8) -> (p: u16)
    ensures
        p == spec_dmc_rate(i),
{
    match i & 0x0F {
        0 => 428, 1 => 380, 2 => 340, 3 => 320, 4 => 286, 5 => 254, 6 => 226, 7 => 214,
        8 => 190, 9 => 160, 10 => 142, 11 => 128, 12 => 106, 13 => 84, 14 => 72, _ => 54,
    }
}

/// Delta modulation channel state.
#[derive(Debug, Clone, Copy, PartialEq, Eq, Structural)]
pub struct Dmc {
    /// Channel enabled.
    pub enabled: bool,
    /// IRQ enabled for end-of-sample.
    pub irq_enabled: bool,
    /// IRQ pending (set when sample ends with IRQ enabled).
    pub irq_pending: bool,
    /// Loop the sample.
    pub looping: bool,
    /// Timer period (from rate table).
    pub timer_period: u16,
    /// Current timer countdown.
    pub timer_value: u16,
    /// Current output level (0–127, 7-bit DAC).
    pub output_level: u8,
    /// Sample start address ($C000 + addr * 64).
    pub sample_addr: u16,
    /// Sample byte length (length * 16 + 1).
    pub sample_length: u16,
    /// Current read address.
    pub current_addr: u16,
    /// Bytes remaining in the current sample.
    pub bytes_remaining: u16,
    /// Buffered sample byte (None if empty — needs refill).
    pub sample_buffer: Option<u8>,
    /// Output shift register.
    pub shift_register: u8,
    /// Bits remaining in the current shift register (0–8).
    pub bits_remaining: u8,
    /// Silence flag (shift register produces no output changes).
    pub silence: bool,
}

impl Dmc {
    /// The invariant: 7-bit output level, at most 8 bits pending.
    pub open spec fn wf(self) -> bool {
        self.output_level <= 127 && self.bits_remaining <= 8
    }

    /// The initial channel.
    pub open spec fn initial() -> Dmc {
        Dmc {
            enabled: false,
            irq_enabled: false,
            irq_pending: false,
            looping: false,
            timer_period: 428,
            timer_value: 0,
            output_level: 0,
            sample_addr: 0xC000,
            sample_length: 1,
            current_addr: 0xC000,
            bytes_remaining: 0,
            sample_buffer: None,
            shift_register: 0,
            bits_remaining: 0,
            silence: true,
        }
    }

    /// Creates a DMC channel in its initial state.
    pub fn new() -> (d: Dmc)
        ensures
            d == Dmc::initial(),
            d.wf(),
    {
        Dmc {
            enabled: false,
            irq_enabled: false,
            irq_pending: false,
            looping: false,
            timer_period: 428,
            timer_value: 0,
            output_level: 0,
            sample_addr: 0xC000,
            sample_length: 1,
            current_addr: 0xC000,
            bytes_remaining: 0,
            sample_buffer: None,
            shift_register: 0,
            bits_remaining: 0,
            silence: true,
        }
    }

    /// The channel after the output unit is clocked.
    pub open spec fn after_clock_output(self) -> Dmc {
        let d1 = if self.bits_remaining == 0 {
            match self.sample_buffer {
                Some(byte) => Dmc { bits_remaining: 8, sample_buffer: None, silence: false, shift_register: byte, ..self },
                None => Dmc { bits_remaining: 8, silence: true, ..self },
            }
        } else {
            self
        };
        let d2 = if !d1.silence {
            let level = if d1.shift_register & 1 != 0 {
                if d1.output_level <= 125 { (d1.output_level + 2) as u8 } else { d1.output_level }
            } else if d1.output_level >= 2 {
                (d1.output_level - 2) as u8
            } else {
                d1.output_level
            };
            Dmc { output_level: level, shift_register: d1.shift_register >> 1u8, ..d1 }
        } else {
            d1
        };
        Dmc { bits_remaining: if d2.bits_remaining == 0 { 0 } else { (d2.bits_remaining - 1) as u8 }, ..d2 }
    }

    /// Clocks the output unit: at the start of a byte the buffered sample
    /// (if any) enters the shift register, otherwise the channel is
    /// silent; each bit moves the level up (1) or down (0) by 2 within 0–127.
    pub fn clock_output(&mut self)
        requires
            old(self).wf(),
        ensures
            *final(self) == old(self).after_clock_output(),
            final(self).wf(),
    {
        if self.bits_remaining == 0 {
            self.bits_remaining = 8;
            match self.sample_buffer {
                Some(byte) => {
                    self.sample_buffer = None;
                    self.silence = false;
                    self.shift_register = byte;
                },
                None => {
                    self.silence = true;
                },
            }
        }
        if !self.silence {
            if self.shift_register & 1 != 0 {
                if self.output_level <= 125 {
                    self.output_level = self.output_level + 2;
                }
            } else if self.output_level >= 2 {
                self.output_level = self.output_level - 2;
            }
            self.shift_register = self.shift_register >> 1;
        }
        self.bits_remaining = self.bits_remaining.saturating_sub(1);
    }

    /// The channel after one CPU cycle.
    pub open spec fn after_tick(self) -> Dmc {
        if self.timer_value == 0 {
            Dmc { timer_value: self.timer_period, ..self }.after_clock_output()
        } else {
            Dmc { timer_value: (self.timer_value - 1) as u16, ..self }
        }
    }

    /// Advances the timer by one CPU cycle; when it expires the output unit clocks.
    pub fn tick(&mut self)
        requires
            old(self).wf(),
        ensures
            *final(self) == old(self).after_tick(),
            final(self).wf(),
    {
        if self.timer_value == 0 {
            self.timer_value = self.timer_period;
            self.clock_output();
        } else {
            self.timer_value = self.timer_value - 1;
        }
    }

    /// Returns the current output level (0–127).
    pub fn output(&self) -> (v: u8)
        requires
            self.wf(),
        ensures
            v == self.output_level,
            v <= 127,
    {
        self.output_level
    }

    /// Whether a sample byte is wanted: the buffer is empty and bytes remain.
    pub open spec fn spec_needs_sample(self) -> bool {
        self.sample_buffer is None && self.bytes_remaining > 0
    }

    /// Returns `true` if the sample buffer is empty and bytes remain.
    pub fn needs_sample(&self) -> (b: bool)
        ensures
            b == self.spec_needs_sample(),
    {
        self.sample_buffer.is_none() && self.bytes_remaining > 0
    }

    /// Returns the address to read the next sample byte from, if needed.
    pub fn sample_addr(&self) -> (a: Option<u16>)
        ensures
            a == (if self.spec_needs_sample() { Some(self.current_addr) } else { None::<u16> }),
    {
        if self.needs_sample() {
            Some(self.current_addr)
        } else {
            None
        }
    }

    /// The channel after a sample byte is delivered.
    pub open spec fn after_fill_sample(self, byte: u8) -> Dmc {
        let d1 = Dmc {
            sample_buffer: Some(byte),
            current_addr: wadd16(self.current_addr, 1) | 0x8000,
            bytes_remaining: if self.bytes_remaining == 0 { 0 } else { (self.bytes_remaining - 1) as u16 },
            ..self
        };
        if d1.bytes_remaining == 0 {
            if d1.looping {
                Dmc { current_addr: d1.sample_addr, bytes_remaining: d1.sample_length, ..d1 }
            } else if d1.irq_enabled {
                Dmc { irq_pending: true, ..d1 }
            } else {
                d1
            }
        } else {
            d1
        }
    }

    /// Fills the sample buffer with a byte read from memory; the read
    /// address advances (wrapping to $8000), and the end of the sample
    /// restarts it when looping or raises the IRQ when enabled.
    pub fn fill_sample(&mut self, byte: u8)
        requires
            old(self).wf(),
        ensures
            *final(self) == old(self).after_fill_sample(byte),
            final(self).wf(),
    {
        self.sample_buffer = Some(byte);
        self.current_addr = self.current_addr.wrapping_add(1) | 0x8000;
        self.bytes_remaining = self.bytes_remaining.saturating_sub(1);
        if self.bytes_remaining == 0 {
            if self.looping {
                self.current_addr = self.sample_addr;
                self.bytes_remaining = self.sample_length;
            } else if self.irq_enabled {
                self.irq_pending = true;
            }
        }
    }

    /// The channel after register `reg` (0–3) receives `val`.
    pub open spec fn after_write_reg(self, reg: u8, val: u8) -> Dmc {
        if reg == 0 {
            let irq_enabled = val & 0x80 != 0;
            Dmc {
                irq_enabled,
                looping: val & 0x40 != 0,
                timer_period: spec_dmc_rate(val),
                irq_pending: if !irq_enabled { false } else { self.irq_pending },
                ..self
            }
        } else if reg == 1 {
            Dmc { output_level: val & 0x7F, ..self }
        } else if reg == 2 {
            Dmc { sample_addr: 0xC000 | ((val as u16) << 6u16), ..self }
        } else if reg == 3 {
            Dmc { sample_length: ((val as u16) << 4u16) | 1, ..self }
        } else {
            self
        }
    }

    /// Writes a register (offset 0–3 within $4010–$4013).
    pub fn write_reg(&mut self, reg: u8, val: u8)
        requires
            old(self).wf(),
        ensures
            *final(self) == old(self).after_write_reg(reg, val),
            final(self).wf(),
    {
        proof {
            crate::bits::lemma_u8_masks();
        }
        if reg == 0 {
            self.irq_enabled = val & 0x80 != 0;
            self.looping = val & 0x40 != 0;
            self.timer_period = dmc_rate(val);
            if !self.irq_enabled {
                self.irq_pending = false;
            }
        } else if reg == 1 {
            self.output_level = val & 0x7F;
        } else if reg == 2 {
            self.sample_addr = 0xC000 | ((val as u16) << 6);
        } else if reg == 3 {
            self.sample_length = ((val as u16) << 4) | 1;
        }
    }

    /// The channel after it is enabled or disabled.
    pub open spec fn after_set_enabled(self, enabled: bool) -> Dmc {
        let d1 = Dmc { enabled, irq_pending: false, ..self };
        if !enabled {
            Dmc { bytes_remaining: 0, ..d1 }
        } else if d1.bytes_remaining == 0 {
            Dmc { current_addr: d1.sample_addr, bytes_remaining: d1.sample_length, ..d1 }
        } else {
            d1
        }
    }

    /// Enables or disables the DMC. Enabling starts playback if no bytes remain.
    pub fn set_enabled(&mut self, enabled: bool)
        requires
            old(self).wf(),
        ensures
            *final(self) == old(self).after_set_enabled(enabled),
            final(self).wf(),
    {
        self.enabled = enabled;
        self.irq_pending = false;
        if !enabled {
            self.bytes_remaining = 0;
        } else if self.bytes_remaining == 0 {
            self.current_addr = self.sample_addr;
            self.bytes_remaining = self.sample_length;
        }
    }
}

} // verus!
