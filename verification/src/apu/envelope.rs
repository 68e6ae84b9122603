//! Envelope generator — 4-bit volume decay used by Pulse and Noise.

use vstd::prelude::*;

verus! {

/// Envelope generator producing a decaying or constant volume.
#[derive(Debug, Clone, Copy, PartialEq, Eq, Structural)]
pub struct Envelope {
    /// Restart the envelope on next clock.
    pub start: bool,
    /// Divider period (set from volume/period register).
    pub period: u8,
    /// Current divider counter.
    pub divider: u8,
    /// Current decay level (counts down from 15).
    pub decay: u8,
    /// Loop the envelope (also halts the length counter).
    pub looping: bool,
    /// Use constant volume instead of decay.
    pub constant: bool,
    /// Constant volume value / envelope period.
    pub volume: u8,
}

impl Envelope {
    /// The invariant: 4-bit volume, period and decay level.
    pub open spec fn wf(self) -> bool {
        self.decay <= 15 && self.volume <= 15 && self.period <= 15 && self.divider <= 15
    }

    /// The initial envelope.
    pub open spec fn initial() -> Envelope {
        Envelope { start: false, period: 0, divider: 0, decay: 0, looping: false, constant: false, volume: 0 }
    }

    /// Creates an envelope in its initial state.
    pub fn new() -> (e: Envelope)
        ensures
            e == Envelope::initial(),
            e.wf(),
    {
        Envelope { start: false, period: 0, divider: 0, decay: 0, looping: false, constant: false, volume: 0 }
    }

    /// The envelope after a quarter-frame clock.
    pub open spec fn after_clock(self) -> Envelope {
        if self.start {
            Envelope { start: false, decay: 15, divider: self.period, ..self }
        } else if self.divider == 0 {
            Envelope {
                divider: self.period,
                decay: if self.decay > 0 {
                    (self.decay - 1) as u8
                } else if self.looping {
                    15
                } else {
                    self.decay
                },
                ..self
            }
        } else {
            Envelope { divider: (self.divider - 1) as u8, ..self }
        }
    }

    /// Clocks the envelope (called by the frame sequencer quarter-frame):
    /// a pending start reloads full volume; otherwise the divider counts
    /// down and, when it expires, the decay level steps down (looping
    /// back to 15 when enabled).
    pub fn clock(&mut self)
        requires
            old(self).wf(),
        ensures
            *final(self) == old(self).after_clock(),
            final(self).wf(),
    {
        if self.start {
            self.start = false;
            self.decay = 15;
            self.divider = self.period;
            return;
        }
        if self.divider == 0 {
            self.divider = self.period;
            if self.decay > 0 {
                self.decay = self.decay - 1;
            } else if self.looping {
                self.decay = 15;
            }
        } else {
            self.divider = self.divider - 1;
        }
    }

    /// The current output volume.
    pub open spec fn spec_output(self) -> u8 {
        if self.constant {
            self.volume
        } else {
            self.decay
        }
    }

    /// Returns the current output volume (0–15).
    pub fn output(&self) -> (v: u8)
        requires
            self.wf(),
        ensures
            v == self.spec_output(),
            v <= 15,
    {
        if self.constant {
            self.volume
        } else {
            self.decay
        }
    }

    /// Immediately resets the envelope to full volume.
    pub fn restart(&mut self)
        ensures
            *final(self) == (Envelope { start: false, decay: 15, divider: old(self).period, ..*old(self) }),
    {
        self.start = false;
        self.decay = 15;
        self.divider = self.period;
    }

    /// The envelope after its register byte is written.
    pub open spec fn after_write(self, val: u8) -> Envelope {
        Envelope {
            volume: val & 0x0F,
            period: val & 0x0F,
            constant: val & 0x10 != 0,
            looping: val & 0x20 != 0,
            ..self
        }
    }

    /// Writes the envelope register byte ($4000/$4004/$400C bits 0–5).
    pub fn write(&mut self, val: u8)
        requires
            old(self).wf(),
        ensures
            *final(self) == old(self).after_write(val),
            final(self).wf(),
    {
        proof {
            crate::bits::lemma_u8_masks();
        }
        self.volume = val & 0x0F;
        self.period = val & 0x0F;
        self.constant = val & 0x10 != 0;
        self.looping = val & 0x20 != 0;
    }
}

/// Without looping, a started envelope decays from 15 to 0, one step
/// per `period + 1` clocks, and then stays at 0.
pub proof fn lemma_envelope_decays(e: Envelope)
    requires
        e.wf(),
        !e.looping,
        !e.start,
        e.divider == 0,
        e.decay > 0,
    ensures
        e.after_clock().decay == e.decay - 1,
        e.after_clock().divider == e.period,
{
}

/// A looping envelope that has decayed to 0 restarts at 15.
pub proof fn lemma_envelope_loops(e: Envelope)
    requires
        e.looping,
        !e.start,
        e.divider == 0,
        e.decay == 0,
    ensures
        e.after_clock().decay == 15,
{
}

/// The envelope register: bit 4 chooses a constant volume, which is
/// then the low four bits of the byte whatever the decay level; with
/// bit 4 clear the output is the decay level. The low four bits are
/// also the divider period, and bit 5 makes the decay loop.
pub proof fn lemma_envelope_register(e: Envelope, val: u8)
    ensures
        val / 16 % 2 == 1 ==> e.after_write(val).spec_output() == val % 16,
        val / 16 % 2 == 0 ==> e.after_write(val).spec_output() == e.decay,
        e.after_write(val).period == val % 16,
        e.after_write(val).looping == (val / 32 % 2 == 1),
        e.after_write(val).decay == e.decay,
{
    assert(val & 0x0F == val % 16 && (val & 0x10 != 0) == (val / 16 % 2 == 1) && (val & 0x20 != 0)
        == (val / 32 % 2 == 1)) by (bit_vector);
}

} // verus!
