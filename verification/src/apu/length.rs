//! Length counter — silences a channel after a programmable duration.

use vstd::prelude::*;

verus! {

/// Length counter reload value for a 5-bit table index.
pub open spec fn spec_length_table(i: u8) -> u8 {
    match i & 0x1F {
        0 => 10, 1 => 254, 2 => 20, 3 => 2, 4 => 40, 5 => 4, 6 => 80, 7 => 6,
        8 => 160, 9 => 8, 10 => 60, 11 => 10, 12 => 14, 13 => 12, 14 => 26, 15 => 14,
        16 => 12, 17 => 16, 18 => 24, 19 => 18, 20 => 48, 21 => 20, 22 => 96, 23 => 22,
        24 => 192, 25 => 24, 26 => 72, 27 => 26, 28 => 16, 29 => 28, 30 => 32, _ => 30,
    }
}

/// Looks up the length counter reload value for a 5-bit table index.
pub fn length_table(i: u8) -> (v: u8)
    ensures
        v == spec_length_table(i),
        v > 0,
{
    match i & 0x1F {
        0 => 10, 1 => 254, 2 => 20, 3 => 2, 4 => 40, 5 => 4, 6 => 80, 7 => 6,
        8 => 160, 9 => 8, 10 => 60, 11 => 10, 12 => 14, 13 => 12, 14 => 26, 15 => 14,
        16 => 12, 17 => 16, 18 => 24, 19 => 18, 20 => 48, 21 => 20, 22 => 96, 23 => 22,
        24 => 192, 25 => 24, 26 => 72, 27 => 26, 28 => 16, 29 => 28, 30 => 32, _ => 30,
    }
}

/// Length counter that silences a channel when it reaches zero.
#[derive(Debug, Clone, Copy, PartialEq, Eq, Structural)]
pub struct LengthCounter {
    /// Current counter value.
    pub counter: u8,
    /// Whether the counter is halted (does not decrement).
    pub halted: bool,
    /// Whether the channel is enabled (counter can be loaded).
    pub enabled: bool,
}

impl LengthCounter {
    /// The initial counter.
    pub open spec fn initial() -> LengthCounter {
        LengthCounter { counter: 0, halted: false, enabled: false }
    }

    /// Creates a length counter in its initial state.
    pub fn new() -> (l: LengthCounter)
        ensures
            l == LengthCounter::initial(),
    {
        LengthCounter { counter: 0, halted: false, enabled: false }
    }

    /// The counter after a half-frame clock.
    pub open spec fn after_clock(self) -> LengthCounter {
        if !self.halted && self.counter > 0 {
            LengthCounter { counter: (self.counter - 1) as u8, ..self }
        } else {
            self
        }
    }

    /// Clocks the length counter: decrements unless halted or already zero.
    pub fn clock(&mut self)
        ensures
            *final(self) == old(self).after_clock(),
    {
        if !self.halted && self.counter > 0 {
            self.counter = self.counter - 1;
        }
    }

    /// Whether the channel should produce output.
    pub open spec fn spec_active(self) -> bool {
        self.counter > 0
    }

    /// Returns `true` if the counter is non-zero.
    pub fn active(&self) -> (b: bool)
        ensures
            b == self.spec_active(),
    {
        self.counter > 0
    }

    /// The counter after a load from table index `index`.
    pub open spec fn after_load(self, index: u8) -> LengthCounter {
        if self.enabled {
            LengthCounter { counter: spec_length_table(index), ..self }
        } else {
            self
        }
    }

    /// Loads the counter from a 5-bit table index (only when enabled).
    pub fn load(&mut self, index: u8)
        ensures
            *final(self) == old(self).after_load(index),
    {
        if self.enabled {
            self.counter = length_table(index);
        }
    }

    /// The counter after the channel is enabled or disabled.
    pub open spec fn after_set_enabled(self, enabled: bool) -> LengthCounter {
        if enabled {
            LengthCounter { enabled, ..self }
        } else {
            LengthCounter { enabled, counter: 0, ..self }
        }
    }

    /// Enables or disables the channel. Disabling clears the counter.
    pub fn set_enabled(&mut self, enabled: bool)
        ensures
            *final(self) == old(self).after_set_enabled(enabled),
    {
        self.enabled = enabled;
        if !enabled {
            self.counter = 0;
        }
    }

    /// Returns the raw counter value.
    pub fn value(&self) -> (v: u8)
        ensures
            v == self.counter,
    {
        self.counter
    }
}

/// A loaded counter that is not halted reaches zero after as many
/// half-frame clocks as its value, one step per clock.
pub proof fn lemma_length_counts_down(l: LengthCounter, k: nat)
    requires
        !l.halted,
        k <= l.counter,
    ensures
        clocks(l, k).counter == l.counter - k,
        clocks(l, k).halted == l.halted,
    decreases k,
{
    if k > 0 {
        lemma_length_counts_down(l, (k - 1) as nat);
    }
}

/// A disabled channel's counter ignores loads.
pub proof fn lemma_disabled_ignores_load(l: LengthCounter, i: u8)
    requires
        !l.enabled,
    ensures
        l.after_load(i) == l,
{
}

/// The counter after `k` half-frame clocks.
pub open spec fn clocks(l: LengthCounter, k: nat) -> LengthCounter
    decreases k,
{
    if k == 0 {
        l
    } else {
        clocks(l, (k - 1) as nat).after_clock()
    }
}

} // verus!
