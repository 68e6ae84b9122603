//! The emulator: CPU, PPU, APU, bus and framebuffers, and the loop that
//! keeps them in step.
//!
//! The loop is instruction-level: after each CPU instruction the APU is
//! run one tick per CPU cycle and the PPU is caught up through a
//! Bresenham accumulator (3 dots per cycle on NTSC, 16/5 on PAL). The
//! APU's channel levels are point-sampled at 44 100 Hz by a second
//! Bresenham counter; the caller mixes and filters them.

use vstd::prelude::*;
use crate::apu::{Apu, ChannelLevels, TickOutput as ApuTick};
use crate::bus::{raw_read, Bus, BusView};
use crate::cartridge::{
    chr_len, complete_image, has_magic, prg_len, prg_start, spec_header_mirroring,
    spec_header_region, spec_mapper_id, Cartridge, CartridgeError,
};
use crate::controller::Buttons;
use crate::cpu::{machine, power_on, Cpu};
use crate::cpu::laws::lemma_step_cycles;
use crate::cpu::run::{reset_spec, step_spec};
use crate::cpu::step::{spec_cycles, StepErr, StepOk, StepResult};
use crate::framebuffer::Framebuffer;
use crate::mapper::{fitted_chr, fitted_prg, initial_mapper, supported_mapper, Board, MapperError};
use crate::ppu::{initial_regs, tick_result, Ppu, PpuRegs, PpuView, TickOutput};
use crate::region::Region;

pub mod timing;

verus! {

/// Audio output sample rate in Hz.
pub const SAMPLE_RATE: u32 = 44_100;

/// Why a ROM could not be loaded.
#[derive(Debug, Clone, Copy, PartialEq, Eq, Structural)]
pub enum LoadError {
    /// The image is not a valid iNES file.
    Cartridge(CartridgeError),
    /// The cartridge's mapper is not supported.
    Mapper(MapperError),
}

/// The NES: CPU, PPU, APU, bus and a double-buffered frame.
pub struct Nes {
    /// The 6502 core.
    pub cpu: Cpu,
    /// The picture processing unit.
    pub ppu: Ppu,
    /// The CPU bus (RAM, controllers, cartridge).
    pub bus: Bus,
    /// The APU, parked in the bus during each CPU step.
    pub apu: Option<Apu>,
    /// Back-buffer: the PPU renders here.
    pub fb: Framebuffer,
    /// Front-buffer: the last complete frame, safe to display.
    pub fb_front: Framebuffer,
    /// Set when the PPU finishes a frame.
    pub frame_ready: bool,
    /// Bresenham accumulator for down-sampling the APU to 44 100 Hz.
    pub sample_clock: u32,
    /// Active TV region (determines all timing).
    pub region: Region,
    /// When set, takes precedence over the cartridge header's region.
    pub region_override: Option<Region>,
    /// Fractional PPU dot accumulator for non-integer PPU/CPU ratios.
    pub ppu_frac: u16,
}

/// Mathematical model of a [`Nes`].
pub struct NesView {
    pub cpu: Cpu,
    pub ppu: PpuView,
    pub bus: BusView,
    pub apu: Option<Apu>,
    pub fb: Seq<u8>,
    pub fb_front: Seq<u8>,
    pub frame_ready: bool,
    pub sample_clock: u32,
    pub region: Region,
    pub region_override: Option<Region>,
    pub ppu_frac: u16,
}

impl View for Nes {
    type V = NesView;

    open spec fn view(&self) -> NesView {
        NesView {
            cpu: self.cpu,
            ppu: self.ppu@,
            bus: self.bus@,
            apu: self.apu,
            fb: self.fb.pixels@,
            fb_front: self.fb_front.pixels@,
            frame_ready: self.frame_ready,
            sample_clock: self.sample_clock,
            region: self.region,
            region_override: self.region_override,
            ppu_frac: self.ppu_frac,
        }
    }
}

impl NesView {
    /// The invariant: every part well formed, the APU out of the bus
    /// between steps, full frames, and both accumulators in range.
    pub open spec fn wf(self) -> bool {
        &&& self.parts_wf()
        &&& self.ppu_frac < self.region.spec_ppu_ratio().1
    }

    /// The invariant of the parts, whatever the dot accumulator holds.
    pub open spec fn parts_wf(self) -> bool {
        &&& self.bus.wf()
        &&& self.bus.apu is None
        &&& self.ppu.wf()
        &&& (self.apu matches Some(a) ==> a.wf())
        &&& self.fb.len() == 245_760
        &&& self.fb_front.len() == 245_760
        &&& self.sample_clock < 2_000_000
    }
}

/// The machine the CPU sees: the APU parked in the bus.
pub open spec fn parked(s: NesView) -> crate::cpu::Machine {
    machine(s.cpu, BusView { apu: s.apu, ..s.bus }, s.ppu)
}

/// The emulator after the CPU machine `m` is taken back: the APU leaves
/// the bus.
pub open spec fn unparked(s: NesView, m: crate::cpu::Machine) -> NesView {
    NesView { cpu: m.cpu, ppu: m.ppu, bus: BusView { apu: None, ..m.bus }, apu: m.bus.apu, ..s }
}

/// One CPU step with the APU parked in the bus.
pub open spec fn cpu_step_spec(s: NesView) -> (StepResult, NesView) {
    let (r, m) = step_spec(parked(s));
    (r, unparked(s, m))
}

/// One CPU cycle of the APU: it ticks (an IRQ it asserts is requested
/// from the CPU), a DMC sample byte it needs is read from the bus, and
/// the down-sampler emits the channel levels when its clock passes the
/// CPU clock.
pub open spec fn apu_cycle(s: NesView) -> (NesView, Seq<ChannelLevels>) {
    match s.apu {
        None => (s, Seq::empty()),
        Some(a) => {
            let (a1, out) = a.after_tick();
            let cpu = if out == ApuTick::Irq {
                Cpu { irq_pending: true, ..s.cpu }
            } else {
                s.cpu
            };
            let a2 = if a1.dmc.spec_needs_sample() {
                Apu { dmc: a1.dmc.after_fill_sample(raw_read(s.bus, a1.dmc.current_addr)), ..a1 }
            } else {
                a1
            };
            let c = s.sample_clock + SAMPLE_RATE;
            let hz = s.region.spec_cpu_clock_hz();
            if c >= hz {
                (NesView { apu: Some(a2), cpu, sample_clock: (c - hz) as u32, ..s }, seq![a2.levels])
            } else {
                (NesView { apu: Some(a2), cpu, sample_clock: c as u32, ..s }, Seq::empty())
            }
        },
    }
}

/// `n` CPU cycles of the APU and the samples they emit.
pub open spec fn apu_run(s: NesView, n: nat) -> (NesView, Seq<ChannelLevels>)
    decreases n,
{
    if n == 0 {
        (s, Seq::empty())
    } else {
        let (s1, a) = apu_run(s, (n - 1) as nat);
        let (s2, b) = apu_cycle(s1);
        (s2, a + b)
    }
}

/// One PPU dot, when a cartridge is loaded: an NMI it signals is
/// requested from the CPU, a finished frame swaps the buffers, and an
/// IRQ the mapper asserts is requested from the CPU.
#[verifier::opaque]
pub open spec fn dot_spec(s: NesView) -> NesView {
    if s.bus.mapper.board == Board::Null {
        s
    } else {
        let (out, p, m, fb) = tick_result(s.ppu, s.bus.mapper, s.fb);
        let s1 = NesView { ppu: p, bus: BusView { mapper: m, ..s.bus }, fb, ..s };
        let s2 = match out {
            TickOutput::Nmi => NesView { cpu: Cpu { nmi_pending: true, ..s1.cpu }, ..s1 },
            TickOutput::FrameReady => NesView {
                fb: s1.fb_front,
                fb_front: s1.fb,
                frame_ready: true,
                ..s1
            },
            TickOutput::Idle => s1,
        };
        if m.irq_pending_value() {
            NesView { cpu: Cpu { irq_pending: true, ..s2.cpu }, ..s2 }
        } else {
            s2
        }
    }
}

/// A dot leaves the dot accumulator and the region alone, and does the
/// same whatever the accumulator holds.
pub proof fn lemma_dot_frame(s: NesView, f: u16)
    ensures
        dot_spec(s).ppu_frac == s.ppu_frac,
        dot_spec(s).region == s.region,
        dot_spec(NesView { ppu_frac: f, ..s }) == (NesView { ppu_frac: f, ..dot_spec(s) }),
{
    reveal(dot_spec);
}

/// Runs a PPU dot for every `den` in the dot accumulator.
pub open spec fn drain_spec(s: NesView, den: u16) -> NesView
    decreases s.ppu_frac,
{
    if den == 0 || s.ppu_frac < den {
        s
    } else {
        proof {
            lemma_dot_frame(NesView { ppu_frac: (s.ppu_frac - den) as u16, ..s }, 0);
        }
        drain_spec(dot_spec(NesView { ppu_frac: (s.ppu_frac - den) as u16, ..s }), den)
    }
}

/// `n` CPU cycles of the PPU: each adds the ratio's numerator to the
/// dot accumulator and drains it.
pub open spec fn ppu_run(s: NesView, n: nat) -> NesView
    decreases n,
{
    if n == 0 {
        s
    } else {
        let s1 = ppu_run(s, (n - 1) as nat);
        let (num, den) = s1.region.spec_ppu_ratio();
        drain_spec(NesView { ppu_frac: (s1.ppu_frac + num) as u16, ..s1 }, den)
    }
}

/// One instruction: the CPU step, then the APU and the PPU caught up
/// for its cycles. A failed step runs neither.
#[verifier::opaque]
pub open spec fn instruction_spec(s: NesView) -> (StepResult, NesView, Seq<ChannelLevels>) {
    let (r, s1) = cpu_step_spec(s);
    match r {
        Err(_) => (r, s1, Seq::empty()),
        Ok(ok) => {
            let n = spec_cycles(ok) as nat;
            let (s2, samples) = apu_run(s1, n);
            (r, ppu_run(s2, n), samples)
        },
    }
}

/// Instructions run until `ran` reaches `target` cycles or the CPU
/// halts: the emulator after them and the samples they emit.
pub open spec fn run_spec(s: NesView, target: u64, ran: int) -> (NesView, Seq<ChannelLevels>)
    decreases if ran < target { target - ran } else { 0 },
{
    if ran >= target {
        (s, Seq::empty())
    } else {
        let (r, s1, smp) = instruction_spec(s);
        match r {
            Err(_) => (s1, smp),
            Ok(ok) => {
                proof {
                    lemma_instruction_cycles(s);
                }
                let (s2, rest) = run_spec(s1, target, ran + spec_cycles(ok));
                (s2, smp + rest)
            },
        }
    }
}

/// The emulator reconfigured for `region`: PPU frame length and odd-
/// frame skip, APU sequencer period, and a fresh dot accumulator.
pub open spec fn with_region(s: NesView, region: Region) -> NesView {
    NesView {
        region,
        ppu: s.ppu.with_regs(
            PpuRegs {
                pre_render_line: region.spec_pre_render_line(),
                odd_frame_skip: region == Region::Ntsc,
                ..s.ppu.r
            },
        ),
        apu: match s.apu {
            Some(a) => Some(
                Apu {
                    sequencer: crate::apu::sequencer::FrameSequencer {
                        step_cycles: region.spec_sequencer_step_cycles(),
                        ..a.sequencer
                    },
                    ..a
                },
            ),
            None => None,
        },
        ppu_frac: 0,
        ..s
    }
}

/// The mapper a valid image powers on with: its ROMs fitted to the board.
pub open spec fn image_mapper(d: Seq<u8>) -> crate::mapper::MapperView {
    initial_mapper(
        fitted_prg(spec_mapper_id(d[6], d[7]), d.subrange(prg_start(d), prg_start(d) + prg_len(d))),
        fitted_chr(
            spec_mapper_id(d[6], d[7]),
            d.subrange(prg_start(d) + prg_len(d), prg_start(d) + prg_len(d) + chr_len(d)),
        ),
        spec_mapper_id(d[6], d[7]),
        spec_header_mirroring(d[6]),
    )
}

/// The emulator after loading a valid image of a supported mapper: the
/// cartridge is inserted, the region (the override, else the header's)
/// applied, and the CPU reset.
pub open spec fn loaded(s: NesView, d: Seq<u8>) -> NesView {
    let region = match s.region_override {
        Some(r) => r,
        None => spec_header_region(d[9]),
    };
    let s1 = with_region(NesView { bus: BusView { mapper: image_mapper(d), ..s.bus }, ..s }, region);
    unparked(s1, reset_spec(parked(s1)))
}

/// The bus and PPU at power-on, with no cartridge.
pub open spec fn power_on_view(b: BusView, p: PpuView) -> bool {
    &&& b.ram == Seq::new(2048, |i: int| 0u8)
    &&& b.mapper.board == Board::Null
    &&& b.apu is None
    &&& b.controller1 == crate::controller::Controller::initial()
    &&& b.controller2 == crate::controller::Controller::initial()
    &&& p.r == initial_regs()
    &&& p.vram == Seq::new(2048, |i: int| 0u8)
    &&& p.oam == Seq::new(256, |i: int| 0u8)
    &&& p.palette == Seq::new(32, |i: int| 0u8)
    &&& p.secondary_oam == Seq::new(256, |i: int| 0u8)
    &&& p.sprites == Seq::new(
        64,
        |i: int| crate::ppu::SpriteRow { pattern_lo: 0, pattern_hi: 0, attr: 0, x: 0 },
    )
}

/// A saved emulator state (CPU, PPU, APU, bus, frames and timing) to
/// rewind to.
pub struct Snapshot {
    /// The saved emulator.
    pub saved: Nes,
}

impl Clone for Nes {
    /// A copy of the whole emulator state.
    fn clone(&self) -> (n: Nes)
        ensures
            n@ == self@,
    {
        Nes {
            cpu: self.cpu,
            ppu: self.ppu.clone(),
            bus: self.bus.clone(),
            apu: self.apu,
            fb: self.fb.clone(),
            fb_front: self.fb_front.clone(),
            frame_ready: self.frame_ready,
            sample_clock: self.sample_clock,
            region: self.region,
            region_override: self.region_override,
            ppu_frac: self.ppu_frac,
        }
    }
}

impl Nes {
    /// Creates a new NES with no cartridge loaded and NTSC timing.
    ///
    /// If `region_override` is `Some`, it takes precedence over whatever
    /// the iNES header says when a ROM is loaded.
    pub fn new(region_override: Option<Region>) -> (n: Nes)
        ensures
            n@.wf(),
            power_on_view(n@.bus, n@.ppu),
            n@.cpu == power_on(),
            n@.apu == Some(Apu::initial()),
            n@.fb == Seq::new(245_760, |i: int| 0u8),
            n@.fb_front == Seq::new(245_760, |i: int| 0u8),
            !n@.frame_ready,
            n@.sample_clock == 0,
            n@.region == Region::Ntsc,
            n@.region_override == region_override,
            n@.ppu_frac == 0,
    {
        Nes {
            cpu: Cpu::new(),
            ppu: Ppu::new(),
            bus: Bus::new(),
            apu: Some(Apu::new()),
            fb: Framebuffer::new(),
            fb_front: Framebuffer::new(),
            frame_ready: false,
            sample_clock: 0,
            region: Region::default_region(),
            region_override,
            ppu_frac: 0,
        }
    }

    /// Applies a region change to all timing-sensitive subsystems.
    pub fn apply_region(&mut self, region: Region)
        requires
            old(self)@.wf(),
        ensures
            final(self)@ == with_region(old(self)@, region),
            final(self)@.wf(),
    {
        self.region = region;
        self.ppu.set_region(region);
        match &mut self.apu {
            Some(apu) => apu.set_region(region),
            None => {},
        }
        self.ppu_frac = 0;
    }

    /// Parks the APU in the bus for register routing, runs one CPU
    /// instruction, then takes it back.
    pub fn cpu_step(&mut self) -> (r: StepResult)
        requires
            old(self)@.wf(),
        ensures
            (r, final(self)@) == cpu_step_spec(old(self)@),
            final(self)@.wf(),
    {
        self.bus.apu = self.apu.take();
        let result = self.cpu.step(&mut self.bus, &mut self.ppu);
        self.apu = self.bus.apu.take();
        result
    }

    /// Runs the APU for `cycles` CPU cycles, appending the samples it
    /// emits to `samples`.
    pub fn run_apu(&mut self, cycles: u8, samples: &mut Vec<ChannelLevels>)
        requires
            old(self)@.wf(),
        ensures
            final(self)@ == apu_run(old(self)@, cycles as nat).0,
            final(samples)@ == old(samples)@ + apu_run(old(self)@, cycles as nat).1,
            final(self)@.wf(),
    {
        let ghost s0 = self@;
        let ghost smp0 = samples@;
        let hz = self.region.cpu_clock_hz();
        if let Some(mut apu) = self.apu {
            let mut i: u8 = 0;
            assert(smp0 + Seq::<ChannelLevels>::empty() =~= smp0);
            while i < cycles
                invariant
                    i <= cycles,
                    s0.wf(),
                    s0.apu is Some,
                    hz == s0.region.spec_cpu_clock_hz(),
                    apu.wf(),
                    self.bus@ == s0.bus,
                    self.region == s0.region,
                    self.apu == s0.apu,
                    self@.wf(),
                    (NesView { apu: Some(apu), ..self@ }) == apu_run(s0, i as nat).0,
                    samples@ == smp0 + apu_run(s0, i as nat).1,
                decreases cycles - i,
            {
                self.apu_cycle(&mut apu, hz, samples);
                proof {
                    assert(smp0 + apu_run(s0, (i + 1) as nat).1 =~= samples@);
                }
                i = i + 1;
            }
            self.apu = Some(apu);
        } else {
            proof {
                lemma_apu_run_idle(s0, cycles as nat);
                assert(samples@ =~= smp0 + apu_run(s0, cycles as nat).1);
            }
        }
    }

    /// One CPU cycle of the APU `apu` (see [`apu_cycle`]); `hz` is the
    /// region's CPU clock.
    fn apu_cycle(&mut self, apu: &mut Apu, hz: u32, samples: &mut Vec<ChannelLevels>)
        requires
            old(self)@.wf(),
            old(apu).wf(),
            hz == old(self)@.region.spec_cpu_clock_hz(),
        ensures
            ({
                let (s1, b) = apu_cycle(NesView { apu: Some(*old(apu)), ..old(self)@ });
                &&& s1 == (NesView { apu: Some(*final(apu)), ..final(self)@ })
                &&& final(samples)@ == old(samples)@ + b
            }),
            final(self)@.wf(),
            final(self)@.apu == old(self)@.apu,
            final(self)@.bus == old(self)@.bus,
            final(self)@.region == old(self)@.region,
            final(apu).wf(),
    {
        if apu.tick() == ApuTick::Irq {
            self.cpu.request_irq();
        }
        match apu.dmc_sample_addr() {
            Some(addr) => {
                let byte = self.bus.peek(addr);
                apu.dmc_fill_sample(byte);
            },
            None => {},
        }
        let c = self.sample_clock + SAMPLE_RATE;
        if c >= hz {
            self.sample_clock = c - hz;
            samples.push(apu.levels);
        } else {
            self.sample_clock = c;
            assert(samples@ =~= old(samples)@ + Seq::<ChannelLevels>::empty());
        }
    }

    /// Runs one PPU dot when a cartridge is loaded and reacts to it.
    pub fn dot(&mut self)
        requires
            old(self)@.parts_wf(),
        ensures
            final(self)@ == dot_spec(old(self)@),
            final(self)@.parts_wf(),
            final(self).region == old(self).region,
            final(self).ppu_frac == old(self).ppu_frac,
    {
        proof {
            reveal(dot_spec);
        }
        if self.bus.mapper.is_null() {
            return;
        }
        let out = self.ppu.tick(&mut self.bus.mapper, &mut self.fb);
        match out {
            TickOutput::Nmi => self.cpu.request_nmi(),
            TickOutput::FrameReady => {
                std::mem::swap(&mut self.fb, &mut self.fb_front);
                self.frame_ready = true;
            },
            TickOutput::Idle => {},
        }
        if self.bus.mapper.irq_pending() {
            self.cpu.request_irq();
        }
    }

    /// Runs the PPU for `cycles` CPU cycles at the region's dot ratio.
    pub fn run_ppu(&mut self, cycles: u8)
        requires
            old(self)@.wf(),
        ensures
            final(self)@ == ppu_run(old(self)@, cycles as nat),
            final(self)@.wf(),
    {
        let ghost s0 = self@;
        let (num, den) = self.region.ppu_ratio();
        let mut i: u8 = 0;
        while i < cycles
            invariant
                i <= cycles,
                self@.wf(),
                self.region == s0.region,
                (num, den) == s0.region.spec_ppu_ratio(),
                self@ == ppu_run(s0, i as nat),
            decreases cycles - i,
        {
            self.ppu_frac = self.ppu_frac + num;
            let ghost start = self@;
            while self.ppu_frac >= den
                invariant
                    self.region == s0.region,
                    (num, den) == s0.region.spec_ppu_ratio(),
                    self.ppu_frac < den + num,
                    self@.parts_wf(),
                    drain_spec(self@, den) == drain_spec(start, den),
                decreases self.ppu_frac,
            {
                self.ppu_frac = self.ppu_frac - den;
                self.dot();
            }
            i = i + 1;
        }
    }

    /// Runs one instruction and catches the APU and PPU up to it,
    /// appending the audio samples it emits.
    pub fn run_instruction(&mut self, samples: &mut Vec<ChannelLevels>) -> (r: StepResult)
        requires
            old(self)@.wf(),
        ensures
            (r, final(self)@, final(samples)@) == ({
                let (r, s, smp) = instruction_spec(old(self)@);
                (r, s, old(samples)@ + smp)
            }),
            final(self)@.wf(),
    {
        proof {
            reveal(instruction_spec);
        }
        let r = self.cpu_step();
        match r {
            Err(e) => {
                assert(samples@ =~= samples@ + Seq::<ChannelLevels>::empty());
                Err(e)
            },
            Ok(ok) => {
                let c = ok.cycles();
                self.run_apu(c, samples);
                self.run_ppu(c);
                Ok(ok)
            },
        }
    }

    /// Runs instructions until at least `target_cycles` CPU cycles have
    /// elapsed or the CPU halts, and returns the channel levels at each
    /// 44 100 Hz sample point.
    pub fn run_cycles(&mut self, target_cycles: u64) -> (samples: Vec<ChannelLevels>)
        requires
            old(self)@.wf(),
            target_cycles <= u64::MAX - 256,
        ensures
            final(self)@ == run_spec(old(self)@, target_cycles, 0).0,
            samples@ == run_spec(old(self)@, target_cycles, 0).1,
            final(self)@.wf(),
    {
        let ghost s0 = self@;
        let mut ran: u64 = 0;
        let mut samples: Vec<ChannelLevels> = Vec::new();
        assert(Seq::<ChannelLevels>::empty() + run_spec(s0, target_cycles, 0).1 =~= run_spec(
            s0,
            target_cycles,
            0,
        ).1);
        while ran < target_cycles
            invariant
                self@.wf(),
                s0 == old(self)@,
                target_cycles <= u64::MAX - 256,
                run_spec(s0, target_cycles, 0) == (
                    run_spec(self@, target_cycles, ran as int).0,
                    samples@ + run_spec(self@, target_cycles, ran as int).1,
                ),
            decreases if ran < target_cycles { target_cycles - ran } else { 0 },
        {
            let ghost before = self@;
            let ghost prev = samples@;
            proof {
                lemma_instruction_cycles(before);
            }
            let r = self.run_instruction(&mut samples);
            match r {
                Err(_) => {
                    proof {
                        let (r1, s1, smp) = instruction_spec(before);
                        assert(r1 is Err);
                        assert(run_spec(before, target_cycles, ran as int) == (s1, smp));
                        assert(samples@ == prev + smp);
                    }
                    return samples;
                },
                Ok(ok) => {
                    let c = ok.cycles();
                    proof {
                        let (r1, s1, smp) = instruction_spec(before);
                        let rest = run_spec(s1, target_cycles, ran + c);
                        assert(prev + (smp + rest.1) =~= (prev + smp) + rest.1);
                    }
                    ran = ran + c as u64;
                },
            }
        }
        assert(samples@ + Seq::<ChannelLevels>::empty() =~= samples@);
        samples
    }

    /// Captures the whole emulator state.
    pub fn snapshot(&self) -> (s: Snapshot)
        ensures
            s.saved@ == self@,
    {
        Snapshot { saved: self.clone() }
    }

    /// Returns to a captured state; the region override, a user
    /// setting, stays as it is.
    pub fn restore(&mut self, snapshot: &Snapshot)
        requires
            snapshot.saved@.wf(),
        ensures
            final(self)@ == (NesView { region_override: old(self)@.region_override, ..snapshot.saved@ }),
            final(self)@.wf(),
    {
        let copy = snapshot.saved.clone();
        self.cpu = copy.cpu;
        self.ppu = copy.ppu;
        self.bus = copy.bus;
        self.apu = copy.apu;
        self.fb = copy.fb;
        self.fb_front = copy.fb_front;
        self.frame_ready = copy.frame_ready;
        self.sample_clock = copy.sample_clock;
        self.region = copy.region;
        self.ppu_frac = copy.ppu_frac;
    }

    /// Resets the CPU as the reset button does: registers cleared and PC
    /// loaded from the reset vector; the cartridge and RAM stay.
    pub fn reset(&mut self)
        requires
            old(self)@.wf(),
        ensures
            final(self)@ == unparked(old(self)@, reset_spec(parked(old(self)@))),
            final(self)@.wf(),
    {
        self.bus.apu = self.apu.take();
        self.cpu.reset(&mut self.bus, &mut self.ppu);
        self.apu = self.bus.apu.take();
    }

    /// Returns the last complete frame.
    pub fn framebuffer(&self) -> (fb: &Framebuffer)
        ensures
            fb.pixels@ == self@.fb_front,
    {
        &self.fb_front
    }

    /// Updates the controller button state for the given player (0 or 1).
    pub fn set_buttons(&mut self, player: u8, buttons: Buttons)
        ensures
            final(self)@ == (NesView {
                bus: if player == 0 {
                    BusView { controller1: old(self)@.bus.controller1.after_set_buttons(buttons), ..old(self)@.bus }
                } else {
                    BusView { controller2: old(self)@.bus.controller2.after_set_buttons(buttons), ..old(self)@.bus }
                },
                ..old(self)@
            }),
    {
        self.bus.set_controller_buttons(player, buttons);
    }

    /// Enables or disables the 8-sprite-per-scanline limit.
    pub fn set_sprite_limit(&mut self, enabled: bool)
        ensures
            final(self)@ == (NesView {
                ppu: old(self)@.ppu.with_regs(PpuRegs { sprite_limit: enabled, ..old(self)@.ppu.r }),
                ..old(self)@
            }),
    {
        self.ppu.set_sprite_limit(enabled);
    }

    /// Returns the active TV region.
    pub fn region(&self) -> (r: Region)
        ensures
            r == self.region,
    {
        self.region
    }

    /// Loads an iNES ROM, resetting the emulator.
    ///
    /// Fails, leaving the emulator unchanged, when the image is not a
    /// valid iNES file or its mapper is unsupported.
    pub fn load_rom(&mut self, data: &[u8]) -> (r: Result<(), LoadError>)
        requires
            old(self)@.wf(),
        ensures
            final(self)@.wf(),
            !has_magic(data@) ==> r == Err::<(), LoadError>(LoadError::Cartridge(CartridgeError::BadMagic))
                && final(self)@ == old(self)@,
            has_magic(data@) && !complete_image(data@) ==> r == Err::<(), LoadError>(
                LoadError::Cartridge(CartridgeError::Truncated),
            ) && final(self)@ == old(self)@,
            has_magic(data@) && complete_image(data@) && !supported_mapper(
                spec_mapper_id(data@[6], data@[7]),
            ) ==> r == Err::<(), LoadError>(
                LoadError::Mapper(MapperError::Unsupported(spec_mapper_id(data@[6], data@[7]))),
            ) && final(self)@ == old(self)@,
            has_magic(data@) && complete_image(data@) && supported_mapper(
                spec_mapper_id(data@[6], data@[7]),
            ) ==> r is Ok && final(self)@ == loaded(old(self)@, data@),
    {
        let cart = match Cartridge::from_ines(data) {
            Ok(c) => c,
            Err(e) => {
                return Err(LoadError::Cartridge(e));
            },
        };
        let detected = cart.region();
        let region = match self.region_override {
            Some(r) => r,
            None => detected,
        };
        match self.bus.load_cartridge(cart) {
            Ok(()) => {},
            Err(e) => {
                return Err(LoadError::Mapper(e));
            },
        }
        self.apply_region(region);
        self.bus.apu = self.apu.take();
        self.cpu.reset(&mut self.bus, &mut self.ppu);
        self.apu = self.bus.apu.take();
        Ok(())
    }
}

/// Every instruction that runs takes at least two CPU cycles.
pub proof fn lemma_instruction_cycles(s: NesView)
    ensures
        instruction_spec(s).0 matches Ok(ok) ==> spec_cycles(ok) >= 2,
{
    reveal(instruction_spec);
    lemma_step_cycles(parked(s));
}

/// Without an APU, running it changes nothing and emits no sample.
proof fn lemma_apu_run_idle(s: NesView, n: nat)
    requires
        s.apu is None,
    ensures
        apu_run(s, n) == (s, Seq::<ChannelLevels>::empty()),
    decreases n,
{
    if n > 0 {
        lemma_apu_run_idle(s, (n - 1) as nat);
        assert(Seq::<ChannelLevels>::empty() + Seq::<ChannelLevels>::empty() =~= Seq::<
            ChannelLevels,
        >::empty());
    }
}

} // verus!
