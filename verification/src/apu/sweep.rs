//! Sweep unit — periodically adjusts pulse channel period.

use vstd::prelude::*;
use crate::bits::{wadd16, wsub16};

verus! {

/// Sweep unit that modifies a pulse channel's timer period.
#[derive(Debug, Clone, Copy, PartialEq, Eq, Structural)]
pub struct Sweep {
    /// Reload the divider on next clock.
    pub reload: bool,
    /// Sweep is enabled.
    pub enabled: bool,
    /// Negate the period change.
    pub negate: bool,
    /// Divider period.
    pub period: u8,
    /// Current divider counter.
    pub divider: u8,
    /// Shift count for target period calculation.
    pub shift: u8,
    /// Use ones' complement for negate (pulse 1 = true, pulse 2 = false).
    pub ones_complement: bool,
}

impl Sweep {
    /// The invariant: 3-bit shift, period and divider.
    pub open spec fn wf(self) -> bool {
        self.shift <= 7 && self.period <= 7 && self.divider <= 7
    }

    /// The initial sweep unit.
    pub open spec fn initial(ones_complement: bool) -> Sweep {
        Sweep { reload: false, enabled: false, negate: false, period: 0, divider: 0, shift: 0, ones_complement }
    }

    /// Creates a sweep unit (`ones_complement` is `true` for pulse 1).
    pub fn new(ones_complement: bool) -> (s: Sweep)
        ensures
            s == Sweep::initial(ones_complement),
            s.wf(),
    {
        Sweep { reload: false, enabled: false, negate: false, period: 0, divider: 0, shift: 0, ones_complement }
    }

    /// Target period: the period plus or minus itself shifted right;
    /// pulse 1 subtracts one more (ones' complement).
    pub open spec fn spec_target_period(self, timer_period: u16) -> u16 {
        let change = timer_period >> (self.shift as u16);
        if self.negate {
            if self.ones_complement {
                wsub16(wsub16(timer_period, change), 1)
            } else {
                wsub16(timer_period, change)
            }
        } else {
            wadd16(timer_period, change)
        }
    }

    /// Computes the target period from the current timer period.
    pub fn target_period(&self, timer_period: u16) -> (t: u16)
        requires
            self.wf(),
        ensures
            t == self.spec_target_period(timer_period),
    {
        let change = timer_period >> (self.shift as u16);
        if self.negate {
            if self.ones_complement {
                timer_period.wrapping_sub(change).wrapping_sub(1)
            } else {
                timer_period.wrapping_sub(change)
            }
        } else {
            timer_period.wrapping_add(change)
        }
    }

    /// Whether the sweep mutes the channel: the target period exceeds $7FF
    /// or falls below 8.
    pub open spec fn spec_muting(self, timer_period: u16) -> bool {
        self.spec_target_period(timer_period) > 0x7FF || self.spec_target_period(timer_period) < 8
    }

    /// Returns `true` if the sweep is muting the channel.
    pub fn muting(&self, timer_period: u16) -> (b: bool)
        requires
            self.wf(),
        ensures
            b == self.spec_muting(timer_period),
    {
        let target = self.target_period(timer_period);
        target > 0x7FF || target < 8
    }

    /// The sweep unit and timer period after a half-frame clock.
    pub open spec fn after_clock(self, timer_period: u16) -> (Sweep, u16) {
        let target = self.spec_target_period(timer_period);
        let period = if self.divider == 0 && self.enabled && self.shift > 0 && !self.spec_muting(
            timer_period,
        ) {
            target
        } else {
            timer_period
        };
        let s = if self.divider == 0 || self.reload {
            Sweep { divider: self.period, reload: false, ..self }
        } else {
            Sweep { divider: (self.divider - 1) as u8, ..self }
        };
        (s, period)
    }

    /// Clocks the sweep unit: when the divider expires with the sweep
    /// enabled, a non-zero shift and no muting, the period becomes the
    /// target period; then the divider reloads or counts down.
    pub fn clock(&mut self, timer_period: &mut u16)
        requires
            old(self).wf(),
        ensures
            (*final(self), *final(timer_period)) == old(self).after_clock(*old(timer_period)),
            final(self).wf(),
    {
        let target = self.target_period(*timer_period);
        if self.divider == 0 && self.enabled && self.shift > 0 && !self.muting(*timer_period) {
            *timer_period = target;
        }
        if self.divider == 0 || self.reload {
            self.divider = self.period;
            self.reload = false;
        } else {
            self.divider = self.divider - 1;
        }
    }

    /// The sweep unit after its register byte is written.
    pub open spec fn after_write(self, val: u8) -> Sweep {
        Sweep {
            enabled: val & 0x80 != 0,
            period: (val >> 4u8) & 0x07,
            negate: val & 0x08 != 0,
            shift: val & 0x07,
            reload: true,
            ..self
        }
    }

    /// Writes the sweep register byte ($4001/$4005).
    pub fn write(&mut self, val: u8)
        requires
            old(self).wf(),
        ensures
            *final(self) == old(self).after_write(val),
            final(self).wf(),
    {
        proof {
            crate::bits::lemma_u8_masks();
            let v = val;
            assert(((v >> 4u8) & 0x07) <= 7) by (bit_vector);
        }
        self.enabled = val & 0x80 != 0;
        self.period = (val >> 4) & 0x07;
        self.negate = val & 0x08 != 0;
        self.shift = val & 0x07;
        self.reload = true;
    }
}

/// The sweep unit never changes a period that it mutes: a period whose
/// target exceeds $7FF or falls below 8 stays as it is.
pub proof fn lemma_sweep_muted_period_unchanged(s: Sweep, p: u16)
    requires
        s.spec_muting(p),
    ensures
        s.after_clock(p).1 == p,
{
}

} // verus!
