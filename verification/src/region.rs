//! TV system region (NTSC / PAL) and associated timing constants.
//!
//! The NES was released in two main variants with different master
//! clocks, which cascade into every timing-sensitive subsystem:
//! CPU frequency, PPU-to-CPU ratio, frame length, and APU sequencer
//! period.

use vstd::prelude::*;

verus! {

/// TV system / region.
#[derive(Debug, Clone, Copy, PartialEq, Eq, Structural)]
pub enum Region {
    /// NTSC (Americas, Japan) — 60 Hz, 262 scanlines.
    Ntsc,
    /// PAL (Europe, Australia) — 50 Hz, 312 scanlines.
    Pal,
}

impl Region {
    /// The region used when nothing else decides: NTSC.
    pub fn default_region() -> (r: Region)
        ensures
            r == Region::Ntsc,
    {
        Region::Ntsc
    }

    /// CPU clock frequency in Hz.
    pub open spec fn spec_cpu_clock_hz(self) -> u32 {
        match self {
            Region::Ntsc => 1_789_773,
            Region::Pal => 1_662_607,
        }
    }

    /// CPU clock frequency in Hz.
    pub fn cpu_clock_hz(self) -> (hz: u32)
        ensures
            hz == self.spec_cpu_clock_hz(),
    {
        match self {
            Region::Ntsc => 1_789_773,
            Region::Pal => 1_662_607,
        }
    }

    /// PPU-to-CPU clock ratio as (numerator, denominator).
    pub open spec fn spec_ppu_ratio(self) -> (u16, u16) {
        match self {
            Region::Ntsc => (3, 1),
            Region::Pal => (16, 5),
        }
    }

    /// PPU-to-CPU clock ratio as (numerator, denominator).
    ///
    /// NTSC: 3 dots per CPU cycle (3/1).
    /// PAL:  3.2 dots per CPU cycle (16/5).
    pub fn ppu_ratio(self) -> (r: (u16, u16))
        ensures
            r == self.spec_ppu_ratio(),
    {
        match self {
            Region::Ntsc => (3, 1),
            Region::Pal => (16, 5),
        }
    }

    /// Pre-render scanline number (last scanline of the frame).
    pub open spec fn spec_pre_render_line(self) -> u16 {
        match self {
            Region::Ntsc => 261,
            Region::Pal => 311,
        }
    }

    /// Pre-render scanline number (last scanline of the frame).
    pub fn pre_render_line(self) -> (line: u16)
        ensures
            line == self.spec_pre_render_line(),
    {
        match self {
            Region::Ntsc => 261,
            Region::Pal => 311,
        }
    }

    /// APU frame sequencer step period in CPU cycles.
    pub open spec fn spec_sequencer_step_cycles(self) -> u16 {
        match self {
            Region::Ntsc => 7457,
            Region::Pal => 8313,
        }
    }

    /// APU frame sequencer step period in CPU cycles.
    pub fn sequencer_step_cycles(self) -> (c: u16)
        ensures
            c == self.spec_sequencer_step_cycles(),
    {
        match self {
            Region::Ntsc => 7457,
            Region::Pal => 8313,
        }
    }

    /// Whether the PPU skips one dot on odd frames (NTSC does, PAL does not).
    pub fn has_odd_frame_skip(self) -> (b: bool)
        ensures
            b == (self == Region::Ntsc),
    {
        match self {
            Region::Ntsc => true,
            Region::Pal => false,
        }
    }

    /// Native display refresh rate: 60 frames per second on NTSC, 50 on PAL.
    pub open spec fn spec_fps(self) -> i32 {
        match self {
            Region::Ntsc => 60,
            Region::Pal => 50,
        }
    }

    /// Native display refresh rate.
    pub fn fps(self) -> (f: i32)
        ensures
            f == self.spec_fps(),
    {
        match self {
            Region::Ntsc => 60,
            Region::Pal => 50,
        }
    }

    /// Display name of the region ("NTSC" or "PAL").
    pub fn name(self) -> (s: &'static str)
        ensures
            self == Region::Ntsc ==> s@ == "NTSC"@,
            self == Region::Pal ==> s@ == "PAL"@,
    {
        match self {
            Region::Ntsc => "NTSC",
            Region::Pal => "PAL",
        }
    }
}

} // verus!
