//! Audio Processing Unit (2A03).
//!
//! The APU generates audio through five channels: two pulse-wave, one
//! triangle-wave, one noise, and one delta modulation channel (DMC).
//! It is memory-mapped to CPU addresses $4000–$4017. Every CPU cycle it
//! records the five channel levels; mixing them into a sample is left
//! to the audio output.

use vstd::prelude::*;
use crate::region::Region;

pub mod dmc;
pub mod envelope;
pub mod length;
pub mod linear;
pub mod noise;
pub mod pulse;
pub mod sequencer;
pub mod sweep;
pub mod triangle;

use dmc::Dmc;
use noise::Noise;
use pulse::Pulse;
use sequencer::{FrameClocks, FrameSequencer};
use triangle::Triangle;
use envelope::Envelope;
use length::LengthCounter;
use linear::LinearCounter;

verus! {

/// Signal produced by one APU cycle.
#[derive(Debug, Clone, Copy, PartialEq, Eq, Structural)]
pub enum TickOutput {
    /// Nothing noteworthy happened this cycle.
    Idle,
    /// Frame counter or DMC IRQ — CPU should handle if IRQ is enabled.
    Irq,
}

/// Output levels of the five channels at one CPU cycle.
#[derive(Debug, Clone, Copy, PartialEq, Eq, Structural)]
pub struct ChannelLevels {
    /// Pulse 1 level (0–15).
    pub pulse1: u8,
    /// Pulse 2 level (0–15).
    pub pulse2: u8,
    /// Triangle level (0–15).
    pub triangle: u8,
    /// Noise level (0–15).
    pub noise: u8,
    /// DMC level (0–127).
    pub dmc: u8,
}

/// APU state — all five channels and the frame sequencer.
#[derive(Debug, Clone, Copy, PartialEq, Eq, Structural)]
pub struct Apu {
    /// Pulse channel 1.
    pub pulse1: Pulse,
    /// Pulse channel 2.
    pub pulse2: Pulse,
    /// Triangle channel.
    pub triangle: Triangle,
    /// Noise channel.
    pub noise: Noise,
    /// Delta modulation channel.
    pub dmc: Dmc,
    /// Frame sequencer (clocks envelopes, lengths, sweeps).
    pub sequencer: FrameSequencer,
    /// Latest channel levels, updated every CPU cycle.
    pub levels: ChannelLevels,
    /// Whether the APU is on an even CPU cycle (pulse timers tick every 2).
    pub even_cycle: bool,
}

impl ChannelLevels {
    /// The invariant: 4-bit channels and a 7-bit DMC.
    pub open spec fn wf(self) -> bool {
        self.pulse1 <= 15 && self.pulse2 <= 15 && self.triangle <= 15 && self.noise <= 15
            && self.dmc <= 127
    }
}

impl Apu {
    /// The invariant of every channel and the sequencer.
    pub open spec fn wf(self) -> bool {
        &&& self.pulse1.wf()
        &&& self.pulse2.wf()
        &&& self.triangle.wf()
        &&& self.noise.wf()
        &&& self.dmc.wf()
        &&& self.sequencer.wf()
        &&& self.levels.wf()
    }

    /// The power-on APU.
    pub open spec fn initial() -> Apu {
        Apu {
            pulse1: Pulse::initial(true),
            pulse2: Pulse::initial(false),
            triangle: Triangle::initial(),
            noise: Noise::initial(),
            dmc: Dmc::initial(),
            sequencer: FrameSequencer::initial(),
            levels: ChannelLevels { pulse1: 0, pulse2: 0, triangle: 0, noise: 0, dmc: 0 },
            even_cycle: false,
        }
    }

    /// Creates an APU in its power-on state.
    pub fn new() -> (a: Apu)
        ensures
            a == Apu::initial(),
            a.wf(),
    {
        Apu {
            pulse1: Pulse::new(true),
            pulse2: Pulse::new(false),
            triangle: Triangle::new(),
            noise: Noise::new(),
            dmc: Dmc::new(),
            sequencer: FrameSequencer::new(),
            levels: ChannelLevels { pulse1: 0, pulse2: 0, triangle: 0, noise: 0, dmc: 0 },
            even_cycle: false,
        }
    }

    /// Reconfigures the frame sequencer period for a TV region.
    pub fn set_region(&mut self, region: Region)
        requires
            old(self).wf(),
        ensures
            *final(self) == (Apu {
                sequencer: FrameSequencer { step_cycles: region.spec_sequencer_step_cycles(), ..old(self).sequencer },
                ..*old(self)
            }),
            final(self).wf(),
    {
        self.sequencer.set_step_cycles(region.sequencer_step_cycles());
    }

    /// The APU after a quarter-frame clock: envelopes and the linear counter.
    pub open spec fn after_quarter(self) -> Apu {
        Apu {
            pulse1: Pulse { envelope: self.pulse1.envelope.after_clock(), ..self.pulse1 },
            pulse2: Pulse { envelope: self.pulse2.envelope.after_clock(), ..self.pulse2 },
            triangle: Triangle { linear: self.triangle.linear.after_clock(), ..self.triangle },
            noise: Noise { envelope: self.noise.envelope.after_clock(), ..self.noise },
            ..self
        }
    }

    /// Clocks envelope generators and the triangle linear counter.
    pub fn clock_quarter_frame(&mut self)
        requires
            old(self).wf(),
        ensures
            *final(self) == old(self).after_quarter(),
            final(self).wf(),
    {
        self.pulse1.envelope.clock();
        self.pulse2.envelope.clock();
        self.triangle.linear.clock();
        self.noise.envelope.clock();
    }

    /// The APU after a half-frame clock: length counters and sweeps.
    pub open spec fn after_half(self) -> Apu {
        let (s1, p1) = self.pulse1.sweep.after_clock(self.pulse1.timer_period);
        let (s2, p2) = self.pulse2.sweep.after_clock(self.pulse2.timer_period);
        Apu {
            pulse1: Pulse { length: self.pulse1.length.after_clock(), sweep: s1, timer_period: p1, ..self.pulse1 },
            pulse2: Pulse { length: self.pulse2.length.after_clock(), sweep: s2, timer_period: p2, ..self.pulse2 },
            triangle: Triangle { length: self.triangle.length.after_clock(), ..self.triangle },
            noise: Noise { length: self.noise.length.after_clock(), ..self.noise },
            ..self
        }
    }

    /// Clocks length counters and sweep units.
    pub fn clock_half_frame(&mut self)
        requires
            old(self).wf(),
        ensures
            *final(self) == old(self).after_half(),
            final(self).wf(),
    {
        self.pulse1.length.clock();
        self.pulse2.length.clock();
        self.triangle.length.clock();
        self.noise.length.clock();
        self.pulse1.sweep.clock(&mut self.pulse1.timer_period);
        self.pulse2.sweep.clock(&mut self.pulse2.timer_period);
    }

    /// The APU after one CPU cycle, and whether it asserts an IRQ.
    pub open spec fn after_tick(self) -> (Apu, TickOutput) {
        let (seq, clocks) = self.sequencer.after_tick();
        let a1 = Apu { sequencer: seq, ..self };
        let a2 = if clocks.quarter { a1.after_quarter() } else { a1 };
        let a3 = if clocks.half { a2.after_half() } else { a2 };
        let even = a3.even_cycle;
        let a4 = Apu {
            triangle: a3.triangle.after_tick(),
            pulse1: if even { a3.pulse1.after_tick() } else { a3.pulse1 },
            pulse2: if even { a3.pulse2.after_tick() } else { a3.pulse2 },
            noise: if even { a3.noise.after_tick() } else { a3.noise },
            dmc: a3.dmc.after_tick(),
            even_cycle: !even,
            ..a3
        };
        let a5 = Apu {
            levels: ChannelLevels {
                pulse1: a4.pulse1.spec_output(),
                pulse2: a4.pulse2.spec_output(),
                triangle: a4.triangle.spec_output(),
                noise: a4.noise.spec_output(),
                dmc: a4.dmc.output_level,
            },
            ..a4
        };
        (
            a5,
            if clocks.irq || a5.sequencer.irq_pending || a5.dmc.irq_pending {
                TickOutput::Irq
            } else {
                TickOutput::Idle
            },
        )
    }

    /// Advances the APU by one CPU cycle: the frame sequencer clocks the
    /// units, the triangle and DMC timers run every cycle and the pulse
    /// and noise timers every other cycle; the channel levels are
    /// recorded, and an IRQ is reported while the frame counter or the
    /// DMC has one pending.
    pub fn tick(&mut self) -> (out: TickOutput)
        requires
            old(self).wf(),
        ensures
            (*final(self), out) == old(self).after_tick(),
            final(self).wf(),
    {
        let clocks = self.sequencer.tick();
        if clocks.quarter {
            self.clock_quarter_frame();
        }
        if clocks.half {
            self.clock_half_frame();
        }
        self.triangle.tick();
        if self.even_cycle {
            self.pulse1.tick();
            self.pulse2.tick();
            self.noise.tick();
        }
        self.dmc.tick();
        self.even_cycle = !self.even_cycle;
        self.levels = ChannelLevels {
            pulse1: self.pulse1.output(),
            pulse2: self.pulse2.output(),
            triangle: self.triangle.output(),
            noise: self.noise.output(),
            dmc: self.dmc.output(),
        };
        if clocks.irq || self.sequencer.irq_pending || self.dmc.irq_pending {
            TickOutput::Irq
        } else {
            TickOutput::Idle
        }
    }

    /// Returns the DMC sample read address, if a byte is needed.
    pub fn dmc_sample_addr(&self) -> (a: Option<u16>)
        ensures
            a == (if self.dmc.spec_needs_sample() { Some(self.dmc.current_addr) } else { None::<u16> }),
    {
        self.dmc.sample_addr()
    }

    /// Fills the DMC sample buffer with a byte read from memory.
    pub fn dmc_fill_sample(&mut self, byte: u8)
        requires
            old(self).wf(),
        ensures
            *final(self) == (Apu { dmc: old(self).dmc.after_fill_sample(byte), ..*old(self) }),
            final(self).wf(),
    {
        self.dmc.fill_sample(byte);
    }

    /// The APU after a CPU write at `addr` ($4000–$4017).
    pub open spec fn after_write_register(self, addr: u16, val: u8) -> Apu {
        let reg = (addr % 4) as u8;
        if 0x4000 <= addr && addr <= 0x4003 {
            Apu { pulse1: self.pulse1.after_write_reg(reg, val), ..self }
        } else if 0x4004 <= addr && addr <= 0x4007 {
            Apu { pulse2: self.pulse2.after_write_reg(reg, val), ..self }
        } else if 0x4008 <= addr && addr <= 0x400B {
            Apu { triangle: self.triangle.after_write_reg(reg, val), ..self }
        } else if 0x400C <= addr && addr <= 0x400F {
            Apu { noise: self.noise.after_write_reg(reg, val), ..self }
        } else if 0x4010 <= addr && addr <= 0x4013 {
            Apu { dmc: self.dmc.after_write_reg(reg, val), ..self }
        } else if addr == 0x4015 {
            self.after_write_status(val)
        } else if addr == 0x4017 {
            Apu { sequencer: self.sequencer.after_write_control(val), ..self }
        } else {
            self
        }
    }

    /// Handles a CPU write to an APU register.
    pub fn write_register(&mut self, addr: u16, val: u8)
        requires
            old(self).wf(),
        ensures
            *final(self) == old(self).after_write_register(addr, val),
            final(self).wf(),
    {
        proof {
            crate::bits::lemma_u16_masks();
        }
        let reg = (addr & 0x03) as u8;
        assert(reg == addr % 4) by (bit_vector)
            requires
                reg == (addr & 0x03) as u8,
        ;
        if addr >= 0x4000 && addr <= 0x4003 {
            self.pulse1.write_reg(reg, val);
        } else if addr >= 0x4004 && addr <= 0x4007 {
            self.pulse2.write_reg(reg, val);
        } else if addr >= 0x4008 && addr <= 0x400B {
            self.triangle.write_reg(reg, val);
        } else if addr >= 0x400C && addr <= 0x400F {
            self.noise.write_reg(reg, val);
        } else if addr >= 0x4010 && addr <= 0x4013 {
            self.dmc.write_reg(reg, val);
        } else if addr == 0x4015 {
            self.write_status(val);
        } else if addr == 0x4017 {
            self.sequencer.write_control(val);
        }
    }

    /// The value a read of $4015 returns.
    pub open spec fn status_value(self) -> u8 {
        (if self.pulse1.length.spec_active() { 0x01u8 } else { 0 }) | (if self.pulse2.length.spec_active() {
            0x02u8
        } else {
            0
        }) | (if self.triangle.length.spec_active() { 0x04u8 } else { 0 }) | (
        if self.noise.length.spec_active() {
            0x08u8
        } else {
            0
        }) | (if self.dmc.bytes_remaining > 0 { 0x10u8 } else { 0 }) | (if self.sequencer.irq_pending {
            0x40u8
        } else {
            0
        }) | (if self.dmc.irq_pending { 0x80u8 } else { 0 })
    }

    /// The APU after $4015 is read: the frame IRQ flag is cleared.
    pub open spec fn after_read_status(self) -> Apu {
        Apu { sequencer: FrameSequencer { irq_pending: false, ..self.sequencer }, ..self }
    }

    /// Handles a CPU read from $4015 (APU status): one bit per running
    /// length counter, DMC bytes remaining, frame IRQ and DMC IRQ.
    pub fn read_status(&mut self) -> (status: u8)
        requires
            old(self).wf(),
        ensures
            status == old(self).status_value(),
            *final(self) == old(self).after_read_status(),
            final(self).wf(),
    {
        let s1: u8 = if self.pulse1.length.active() { 0x01 } else { 0 };
        let s2: u8 = if self.pulse2.length.active() { 0x02 } else { 0 };
        let s3: u8 = if self.triangle.length.active() { 0x04 } else { 0 };
        let s4: u8 = if self.noise.length.active() { 0x08 } else { 0 };
        let s5: u8 = if self.dmc.bytes_remaining > 0 { 0x10 } else { 0 };
        let s6: u8 = if self.sequencer.irq_pending { 0x40 } else { 0 };
        let s7: u8 = if self.dmc.irq_pending { 0x80 } else { 0 };
        self.sequencer.irq_pending = false;
        s1 | s2 | s3 | s4 | s5 | s6 | s7
    }

    /// The APU after $4015 receives `val`.
    pub open spec fn after_write_status(self, val: u8) -> Apu {
        Apu {
            pulse1: Pulse { length: self.pulse1.length.after_set_enabled(val & 0x01 != 0), ..self.pulse1 },
            pulse2: Pulse { length: self.pulse2.length.after_set_enabled(val & 0x02 != 0), ..self.pulse2 },
            triangle: Triangle {
                length: self.triangle.length.after_set_enabled(val & 0x04 != 0),
                ..self.triangle
            },
            noise: Noise { length: self.noise.length.after_set_enabled(val & 0x08 != 0), ..self.noise },
            dmc: self.dmc.after_set_enabled(val & 0x10 != 0),
            ..self
        }
    }

    /// Handles a write to $4015 (channel enable/disable).
    pub fn write_status(&mut self, val: u8)
        requires
            old(self).wf(),
        ensures
            *final(self) == old(self).after_write_status(val),
            final(self).wf(),
    {
        self.pulse1.length.set_enabled(val & 0x01 != 0);
        self.pulse2.length.set_enabled(val & 0x02 != 0);
        self.triangle.length.set_enabled(val & 0x04 != 0);
        self.noise.length.set_enabled(val & 0x08 != 0);
        self.dmc.set_enabled(val & 0x10 != 0);
    }
}

/// Disabling a channel through $4015 silences its length counter, and
/// the status read right after reports it as stopped.
pub proof fn lemma_disable_clears_status(a: Apu)
    ensures
        a.after_write_status(0).status_value() & 0x0F == 0,
{
    assert((0u8 & 0x01u8) == 0 && (0u8 & 0x02u8) == 0 && (0u8 & 0x04u8) == 0 && (0u8 & 0x08u8)
        == 0 && (0u8 & 0x10u8) == 0) by (bit_vector);
    let b = a.after_write_status(0);
    assert(!b.pulse1.length.spec_active());
    let s6: u8 = if b.sequencer.irq_pending { 0x40u8 } else { 0 };
    let s5: u8 = if b.dmc.bytes_remaining > 0 { 0x10u8 } else { 0 };
    let s7: u8 = if b.dmc.irq_pending { 0x80u8 } else { 0 };
    assert(((0u8 | 0u8 | 0u8 | 0u8 | s5 | s6 | s7) & 0x0F) == 0) by (bit_vector)
        requires
            s5 == 0 || s5 == 0x10,
            s6 == 0 || s6 == 0x40,
            s7 == 0 || s7 == 0x80,
    ;
}

} // verus!
