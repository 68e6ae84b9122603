//! Timing properties of the emulation loop: how many PPU dots and audio
//! samples a run of CPU cycles produces.

use vstd::prelude::*;
use super::{apu_cycle, apu_run, dot_spec, drain_spec, lemma_dot_frame, ppu_run, NesView, SAMPLE_RATE};
use crate::region::Region;
use vstd::arithmetic::div_mod::{lemma_fundamental_div_mod, lemma_fundamental_div_mod_converse, lemma_mod_bound};

verus! {

/// `k` PPU dots in a row.
pub open spec fn dots(s: NesView, k: nat) -> NesView
    decreases k,
{
    if k == 0 {
        s
    } else {
        dot_spec(dots(s, (k - 1) as nat))
    }
}

/// A dot does not touch the dot accumulator.
proof fn lemma_dots_keep_frac(s: NesView, f: u16, k: nat)
    ensures
        dots(NesView { ppu_frac: f, ..s }, k) == (NesView { ppu_frac: f, ..dots(s, k) }),
    decreases k,
{
    if k > 0 {
        lemma_dots_keep_frac(s, f, (k - 1) as nat);
        lemma_dot_frame(dots(s, (k - 1) as nat), f);
    }
}

/// A dot before `k` dots is `k + 1` dots.
proof fn lemma_dots_shift(s: NesView, k: nat)
    ensures
        dots(dot_spec(s), k) == dots(s, k + 1),
    decreases k,
{
    if k == 0 {
        assert(dots(s, 0) == s);
        assert(dots(s, 1) == dot_spec(dots(s, 0)));
    } else {
        lemma_dots_shift(s, (k - 1) as nat);
        assert(dots(s, k + 1) == dot_spec(dots(s, k)));
    }
}

/// `a` dots then `b` dots are `a + b` dots.
proof fn lemma_dots_add(s: NesView, a: nat, b: nat)
    ensures
        dots(dots(s, a), b) == dots(s, a + b),
    decreases b,
{
    if b > 0 {
        lemma_dots_add(s, a, (b - 1) as nat);
    }
}

/// Draining the accumulator runs one dot per whole `den` in it and
/// leaves the remainder.
proof fn lemma_drain(s: NesView, den: u16)
    requires
        den > 0,
    ensures
        drain_spec(s, den) == dots(
            NesView { ppu_frac: (s.ppu_frac % den) as u16, ..s },
            (s.ppu_frac / den) as nat,
        ),
    decreases s.ppu_frac,
{
    let f = s.ppu_frac as int;
    let d = den as int;
    if f >= d {
        let x = NesView { ppu_frac: (f - d) as u16, ..s };
        lemma_dot_frame(x, 0);
        lemma_drain(dot_spec(x), den);
        let q0 = (f - d) / d;
        let r0 = (f - d) % d;
        lemma_fundamental_div_mod(f - d, d);
        lemma_mod_bound(f - d, d);
        assert((q0 + 1) * d == d * q0 + d) by (nonlinear_arith);
        lemma_fundamental_div_mod_converse(f, d, q0 + 1, r0);
        let r = (f % d) as u16;
        let q = q0 as nat;
        lemma_dot_frame(x, r);
        let y = NesView { ppu_frac: r, ..x };
        assert(y == NesView { ppu_frac: r, ..s });
        assert(NesView { ppu_frac: r, ..dot_spec(x) } == dot_spec(y));
        lemma_dots_shift(y, q);
        assert(drain_spec(s, den) == drain_spec(dot_spec(x), den));
    } else {
        lemma_fundamental_div_mod_converse(f, d, 0, f);
        assert(NesView { ppu_frac: s.ppu_frac, ..s } == s);
    }
}

/// The PPU runs `num / den` dots per CPU cycle on average, exactly:
/// `n` CPU cycles run one dot per whole `den` in the accumulator plus
/// `n * num`, and leave the remainder in it. So NTSC runs exactly 3
/// dots per CPU cycle, and PAL 16 dots every 5 CPU cycles.
pub proof fn lemma_ppu_ratio(s: NesView, n: nat)
    requires
        s.wf(),
    ensures
        ({
            let (num, den) = s.region.spec_ppu_ratio();
            let total = s.ppu_frac + n * num;
            ppu_run(s, n) == dots(
                NesView { ppu_frac: (total % den as int) as u16, ..s },
                (total / den as int) as nat,
            )
        }),
    decreases n,
{
    let (num, den) = s.region.spec_ppu_ratio();
    let d = den as int;
    if n == 0 {
        let f = s.ppu_frac as int;
        lemma_fundamental_div_mod_converse(f, d, 0, f);
        assert(NesView { ppu_frac: s.ppu_frac, ..s } == s);
    } else {
        lemma_ppu_ratio(s, (n - 1) as nat);
        let prev = s.ppu_frac + (n - 1) * num;
        let q = (prev / d) as nat;
        let r = prev % d;
        let s1 = ppu_run(s, (n - 1) as nat);
        assert(s1 == dots(NesView { ppu_frac: r as u16, ..s }, q));
        lemma_dots_keep_frac(s, r as u16, q);
        assert(s1.ppu_frac == r);
        assert(s1.region == s.region) by {
            lemma_dots_keep_region(NesView { ppu_frac: r as u16, ..s }, q);
        }
        let x = NesView { ppu_frac: (r + num) as u16, ..s1 };
        lemma_drain(x, den);
        let total = s.ppu_frac + n * num;
        let k = ((r + num) / d) as nat;
        let rr = ((r + num) % d) as u16;
        lemma_fundamental_div_mod(prev, d);
        lemma_mod_bound(prev, d);
        lemma_fundamental_div_mod(r + num, d);
        lemma_mod_bound(r + num, d);
        assert(total == (q + k) * d + rr) by (nonlinear_arith)
            requires
                prev == d * q + r,
                r + num == d * k + rr,
                total == prev + num,
        ;
        lemma_fundamental_div_mod_converse(total, d, (q + k) as int, rr as int);
        lemma_dots_keep_frac(dots(s, q), rr, k);
        lemma_dots_keep_frac(s, rr, q);
        lemma_dots_keep_frac(s, rr, q + k);
        lemma_dots_add(s, q, k);
        lemma_dots_add(NesView { ppu_frac: rr, ..s }, q, k);
    }
}

/// A dot keeps the region.
proof fn lemma_dots_keep_region(s: NesView, k: nat)
    ensures
        dots(s, k).region == s.region,
    decreases k,
{
    if k > 0 {
        lemma_dots_keep_region(s, (k - 1) as nat);
        lemma_dot_frame(dots(s, (k - 1) as nat), 0);
    }
}

/// On PAL, every 5 CPU cycles run exactly 16 PPU dots and leave the
/// dot accumulator as it was.
pub proof fn lemma_pal_sixteen_dots_per_five_cycles(s: NesView)
    requires
        s.wf(),
        s.region == Region::Pal,
    ensures
        ppu_run(s, 5) == dots(s, 16),
{
    lemma_ppu_ratio(s, 5);
    let f = s.ppu_frac as int;
    lemma_fundamental_div_mod_converse(f + 80, 5, 16, f);
    assert(NesView { ppu_frac: s.ppu_frac, ..s } == s);
}

/// On NTSC, every CPU cycle runs exactly 3 PPU dots.
pub proof fn lemma_ntsc_three_dots_per_cycle(s: NesView)
    requires
        s.wf(),
        s.region == Region::Ntsc,
    ensures
        ppu_run(s, 1) == dots(s, 3),
{
    lemma_ppu_ratio(s, 1);
    lemma_fundamental_div_mod_converse(3, 1, 3, 0);
    assert(NesView { ppu_frac: 0, ..s } == s);
}

/// One APU cycle moves the sample clock on by the sample rate, and
/// emits one sample exactly when the clock passes the CPU clock.
proof fn lemma_apu_cycle_clock(s: NesView)
    requires
        s.apu is Some,
        s.sample_clock < s.region.spec_cpu_clock_hz(),
    ensures
        ({
            let (s1, b) = apu_cycle(s);
            let c = s.sample_clock + SAMPLE_RATE;
            let hz = s.region.spec_cpu_clock_hz();
            &&& s1.apu is Some
            &&& s1.region == s.region
            &&& c >= hz ==> s1.sample_clock == c - hz && b.len() == 1
            &&& c < hz ==> s1.sample_clock == c && b.len() == 0
        }),
{
}

/// The down-sampler emits exactly `SAMPLE_RATE` samples per second of
/// CPU time: after `n` CPU cycles it has emitted one sample per whole
/// CPU-clock period in its clock plus `n * SAMPLE_RATE`, and keeps the
/// remainder. So one second of cycles yields exactly 44 100 samples.
pub proof fn lemma_sample_rate(s: NesView, n: nat)
    requires
        s.apu is Some,
        s.sample_clock < s.region.spec_cpu_clock_hz(),
    ensures
        ({
            let hz = s.region.spec_cpu_clock_hz() as int;
            let total = s.sample_clock + n * SAMPLE_RATE;
            let (s1, samples) = apu_run(s, n);
            &&& samples.len() == total / hz
            &&& s1.sample_clock == total % hz
            &&& s1.apu is Some
            &&& s1.region == s.region
        }),
    decreases n,
{
    let hz = s.region.spec_cpu_clock_hz() as int;
    let c0 = s.sample_clock as int;
    if n == 0 {
        lemma_fundamental_div_mod_converse(c0, hz, 0, c0);
    } else {
        lemma_sample_rate(s, (n - 1) as nat);
        let (s1, a) = apu_run(s, (n - 1) as nat);
        let prev = c0 + (n - 1) * SAMPLE_RATE;
        let q = prev / hz;
        lemma_fundamental_div_mod(prev, hz);
        lemma_mod_bound(prev, hz);
        lemma_apu_cycle_clock(s1);
        let total = c0 + n * SAMPLE_RATE;
        assert(total == prev + SAMPLE_RATE) by (nonlinear_arith)
            requires
                total == c0 + n * SAMPLE_RATE,
                prev == c0 + (n - 1) * SAMPLE_RATE,
        ;
        let c = s1.sample_clock + SAMPLE_RATE;
        if c >= hz {
            assert(total == hz * (q + 1) + (c - hz)) by (nonlinear_arith)
                requires
                    prev == hz * q + s1.sample_clock,
                    total == prev + SAMPLE_RATE,
                    c == s1.sample_clock + SAMPLE_RATE,
            ;
            lemma_fundamental_div_mod_converse(total, hz, q + 1, c - hz);
        } else {
            lemma_fundamental_div_mod_converse(total, hz, q, c);
        }
    }
}

/// One second of CPU cycles yields exactly `SAMPLE_RATE` samples and
/// leaves the sample clock where it was.
pub proof fn lemma_one_second_of_samples(s: NesView)
    requires
        s.apu is Some,
        s.sample_clock < s.region.spec_cpu_clock_hz(),
    ensures
        ({
            let (s1, samples) = apu_run(s, s.region.spec_cpu_clock_hz() as nat);
            &&& samples.len() == SAMPLE_RATE
            &&& s1.sample_clock == s.sample_clock
        }),
{
    let hz = s.region.spec_cpu_clock_hz() as int;
    lemma_sample_rate(s, hz as nat);
    let c0 = s.sample_clock as int;
    assert(c0 + hz * SAMPLE_RATE == SAMPLE_RATE * hz + c0) by (nonlinear_arith);
    lemma_fundamental_div_mod_converse(c0 + hz * SAMPLE_RATE, hz, SAMPLE_RATE as int, c0);
}

} // verus!
