//! Result types for single-instruction CPU execution.

use vstd::prelude::*;

verus! {

/// Successful execution of one CPU instruction.
#[derive(Debug, Clone, Copy, PartialEq, Eq, Structural)]
pub enum StepOk {
    /// Normal instruction — the CPU advances PC by `size` bytes.
    Advance {
        /// Instruction length in bytes (1–3).
        size: u8,
        /// CPU cycles consumed.
        cycles: u8,
    },
    /// Branch, jump or interrupt — PC was already set.
    Jump {
        /// CPU cycles consumed.
        cycles: u8,
    },
}

/// Cycles consumed by a step.
pub open spec fn spec_cycles(ok: StepOk) -> u8 {
    match ok {
        StepOk::Advance { cycles, .. } => cycles,
        StepOk::Jump { cycles } => cycles,
    }
}

impl StepOk {
    /// Returns the number of CPU cycles consumed.
    pub fn cycles(self) -> (c: u8)
        ensures
            c == spec_cycles(self),
    {
        match self {
            StepOk::Advance { cycles, .. } => cycles,
            StepOk::Jump { cycles } => cycles,
        }
    }
}

/// Failure or halt during instruction execution.
#[derive(Debug, Clone, Copy, PartialEq, Eq, Structural)]
pub enum StepErr {
    /// BRK instruction encountered.
    Break,
    /// Unrecognized or illegal opcode.
    IllegalOpcode(u8),
}

/// Result of executing one CPU step.
pub type StepResult = Result<StepOk, StepErr>;

} // verus!
