//! Linear counter — triangle channel specific counter.

use vstd::prelude::*;

verus! {

/// Linear counter that controls the triangle channel duration.
#[derive(Debug, Clone, Copy, PartialEq, Eq, Structural)]
pub struct LinearCounter {
    /// Current counter value.
    pub counter: u8,
    /// Reload value (set from register).
    pub reload_value: u8,
    /// Reload the counter on next clock.
    pub reload_flag: bool,
    /// Control flag (also halts the length counter).
    pub control: bool,
}

impl LinearCounter {
    /// The initial counter.
    pub open spec fn initial() -> LinearCounter {
        LinearCounter { counter: 0, reload_value: 0, reload_flag: false, control: false }
    }

    /// Creates a linear counter in its initial state.
    pub fn new() -> (l: LinearCounter)
        ensures
            l == LinearCounter::initial(),
    {
        LinearCounter { counter: 0, reload_value: 0, reload_flag: false, control: false }
    }

    /// The counter after a quarter-frame clock.
    pub open spec fn after_clock(self) -> LinearCounter {
        let counter = if self.reload_flag {
            self.reload_value
        } else if self.counter > 0 {
            (self.counter - 1) as u8
        } else {
            self.counter
        };
        LinearCounter {
            counter,
            reload_flag: if !self.control { false } else { self.reload_flag },
            ..self
        }
    }

    /// Clocks the linear counter: reloads when flagged, otherwise counts
    /// down; the reload flag clears unless the control flag is set.
    pub fn clock(&mut self)
        ensures
            *final(self) == old(self).after_clock(),
    {
        if self.reload_flag {
            self.counter = self.reload_value;
        } else if self.counter > 0 {
            self.counter = self.counter - 1;
        }
        if !self.control {
            self.reload_flag = false;
        }
    }

    /// Whether the counter is non-zero.
    pub open spec fn spec_active(self) -> bool {
        self.counter > 0
    }

    /// Returns `true` if the counter is non-zero.
    pub fn active(&self) -> (b: bool)
        ensures
            b == self.spec_active(),
    {
        self.counter > 0
    }
}

} // verus!
